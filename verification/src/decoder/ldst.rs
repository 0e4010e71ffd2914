//! Loads and stores: register pairs, unsigned / unscaled / pre- and post-indexed
//! immediates, register offsets, literals, exclusives and ordered accesses, atomics,
//! SIMD structure loads and stores, and the MTE, RCW and LRCPC3 extensions.

use super::{decoded_ok, lemma_base_facts, arrangement, arrangement_of, branch_target, rel_target, undef, undefined};
use crate::enums::{Arrangement, Code, ExtendKind, MemMode, OpKind, Register};
use crate::helpers::{bit, bit_at, bits, field, sext, sign_extend};
use crate::instruction::Instruction;
use crate::mnemonic::Mnemonic;
use vstd::prelude::*;

verus! {

/// The cases of `ldst_spec`, visible to every module.
pub open spec fn ldst_cases(vaddr: u64, raw: u32) -> Instruction {
    if field(raw, 31, 24) == 0b11011001 && bit_at(raw, 21) == 1 {
        mte_stg_spec(vaddr, raw)
    } else if (field(raw, 31, 25) == 0b0110100 || field(raw, 31, 24) == 0b01101011) && bit_at(raw, 22)
        == 0 {
        stgp_spec(vaddr, raw)
    } else if field(raw, 29, 24) == 0b011001 && bit_at(raw, 21) == 1 {
        rcw_spec(vaddr, raw)
    } else if field(raw, 29, 24) == 0b011001 && bit_at(raw, 21) == 0 && field(raw, 11, 10) == 0b10
        && field(raw, 23, 22) <= 1 {
        stilp_ldiapp_spec(vaddr, raw)
    } else if (field(raw, 29, 24) == 0b011001 && bit_at(raw, 21) == 0 && field(raw, 11, 10) == 0)
        || (field(raw, 29, 24) == 0b011101 && bit_at(raw, 21) == 0 && field(raw, 11, 10) == 0b10) {
        ldapur_stlur_spec(vaddr, raw)
    } else if bit_at(raw, 31) == 0 && field(raw, 29, 24) == 0b001100 {
        simd_ldst_multi_spec(vaddr, raw)
    } else if bit_at(raw, 31) == 0 && field(raw, 29, 24) == 0b001101 {
        simd_ldst_single_spec(vaddr, raw)
    } else {
        ldst_rest_spec(vaddr, raw)
    }
}

/// Decoding of the load/store group.
#[verifier::opaque]
pub open spec fn ldst_spec(vaddr: u64, raw: u32) -> Instruction {
    ldst_cases(vaddr, raw)
}

/// Unfolds `ldst_spec` into its cases, for use outside this module.
pub proof fn lemma_ldst_unfold(vaddr: u64, raw: u32)
    ensures
        ldst_spec(vaddr, raw) == ldst_cases(vaddr, raw),
{
    reveal(ldst_spec);
}

/// The register pair, immediate, register-offset, literal, atomic and exclusive
/// forms of the load/store group.
pub open spec fn ldst_rest_spec(vaddr: u64, raw: u32) -> Instruction {
    if field(raw, 29, 27) == 0b101 {
        pair_spec(vaddr, raw, bit_at(raw, 26) == 1)
    } else if field(raw, 29, 27) == 0b111 && bit_at(raw, 24) == 1 {
        unsigned_spec(vaddr, raw)
    } else if field(raw, 29, 27) == 0b111 && bit_at(raw, 26) == 1 && bit_at(raw, 21) == 1 {
        reg_offset_spec(vaddr, raw, true)
    } else if field(raw, 29, 27) == 0b111 && bit_at(raw, 26) == 1 {
        imm_prepost_spec(vaddr, raw, true)
    } else if field(raw, 31, 24) & 0b11111100 == 0b11111000 && bit_at(raw, 21) == 1 && bit_at(raw, 10)
        == 1 {
        ldra_spec(vaddr, raw)
    } else {
        ldst_tail_spec(vaddr, raw)
    }
}

/// The atomic, general-purpose immediate and register-offset, literal and exclusive
/// forms of the load/store group.
pub open spec fn ldst_tail_spec(vaddr: u64, raw: u32) -> Instruction {
    if field(raw, 29, 27) == 0b111 && bit_at(raw, 26) == 0 && bit_at(raw, 21) == 1 && field(
        raw,
        11,
        10,
    ) == 0 {
        atomic_spec(vaddr, raw)
    } else if field(raw, 29, 27) == 0b111 && bit_at(raw, 26) == 0 && bit_at(raw, 21) == 0 {
        imm_prepost_spec(vaddr, raw, false)
    } else if field(raw, 29, 27) == 0b111 && bit_at(raw, 26) == 0 {
        reg_offset_spec(vaddr, raw, false)
    } else if field(raw, 29, 27) == 0b011 {
        literal_spec(vaddr, raw, bit_at(raw, 26) == 1)
    } else if field(raw, 29, 24) == 0b001000 {
        exclusive_spec(vaddr, raw)
    } else {
        undefined(vaddr, raw)
    }
}

proof fn lemma_records_mte_stg_spec(vaddr: u64, raw: u32)
    ensures
        mte_stg_spec(vaddr, raw).records(vaddr, raw),
{
}

proof fn lemma_same_form_mte_stg_spec(v1: u64, v2: u64, raw: u32)
    ensures
        mte_stg_spec(v1, raw).same_form(mte_stg_spec(v2, raw)),
{
}

proof fn lemma_records_stgp_spec(vaddr: u64, raw: u32)
    ensures
        stgp_spec(vaddr, raw).records(vaddr, raw),
{
}

proof fn lemma_same_form_stgp_spec(v1: u64, v2: u64, raw: u32)
    ensures
        stgp_spec(v1, raw).same_form(stgp_spec(v2, raw)),
{
}

proof fn lemma_records_rcw_spec(vaddr: u64, raw: u32)
    ensures
        rcw_spec(vaddr, raw).records(vaddr, raw),
{
}

proof fn lemma_same_form_rcw_spec(v1: u64, v2: u64, raw: u32)
    ensures
        rcw_spec(v1, raw).same_form(rcw_spec(v2, raw)),
{
}

proof fn lemma_records_stilp_ldiapp_spec(vaddr: u64, raw: u32)
    ensures
        stilp_ldiapp_spec(vaddr, raw).records(vaddr, raw),
{
}

proof fn lemma_same_form_stilp_ldiapp_spec(v1: u64, v2: u64, raw: u32)
    ensures
        stilp_ldiapp_spec(v1, raw).same_form(stilp_ldiapp_spec(v2, raw)),
{
}

proof fn lemma_records_ldapur_stlur_spec(vaddr: u64, raw: u32)
    ensures
        ldapur_stlur_spec(vaddr, raw).records(vaddr, raw),
{
}

proof fn lemma_same_form_ldapur_stlur_spec(v1: u64, v2: u64, raw: u32)
    ensures
        ldapur_stlur_spec(v1, raw).same_form(ldapur_stlur_spec(v2, raw)),
{
}

proof fn lemma_records_simd_ldst_multi_spec(vaddr: u64, raw: u32)
    ensures
        simd_ldst_multi_spec(vaddr, raw).records(vaddr, raw),
{
}

proof fn lemma_same_form_simd_ldst_multi_spec(v1: u64, v2: u64, raw: u32)
    ensures
        simd_ldst_multi_spec(v1, raw).same_form(simd_ldst_multi_spec(v2, raw)),
{
}

proof fn lemma_records_simd_ldst_single_spec(vaddr: u64, raw: u32)
    ensures
        simd_ldst_single_spec(vaddr, raw).records(vaddr, raw),
{
}

proof fn lemma_same_form_simd_ldst_single_spec(v1: u64, v2: u64, raw: u32)
    ensures
        simd_ldst_single_spec(v1, raw).same_form(simd_ldst_single_spec(v2, raw)),
{
}

proof fn lemma_records_pair_spec(vaddr: u64, raw: u32, b: bool)
    ensures
        pair_spec(vaddr, raw, b).records(vaddr, raw),
{
}

proof fn lemma_same_form_pair_spec(v1: u64, v2: u64, raw: u32, b: bool)
    ensures
        pair_spec(v1, raw, b).same_form(pair_spec(v2, raw, b)),
{
}

proof fn lemma_records_unsigned_spec(vaddr: u64, raw: u32)
    ensures
        unsigned_spec(vaddr, raw).records(vaddr, raw),
{
}

proof fn lemma_same_form_unsigned_spec(v1: u64, v2: u64, raw: u32)
    ensures
        unsigned_spec(v1, raw).same_form(unsigned_spec(v2, raw)),
{
}

proof fn lemma_records_reg_offset_spec(vaddr: u64, raw: u32, b: bool)
    ensures
        reg_offset_spec(vaddr, raw, b).records(vaddr, raw),
{
}

proof fn lemma_same_form_reg_offset_spec(v1: u64, v2: u64, raw: u32, b: bool)
    ensures
        reg_offset_spec(v1, raw, b).same_form(reg_offset_spec(v2, raw, b)),
{
}

proof fn lemma_records_imm_prepost_spec(vaddr: u64, raw: u32, b: bool)
    ensures
        imm_prepost_spec(vaddr, raw, b).records(vaddr, raw),
{
}

proof fn lemma_same_form_imm_prepost_spec(v1: u64, v2: u64, raw: u32, b: bool)
    ensures
        imm_prepost_spec(v1, raw, b).same_form(imm_prepost_spec(v2, raw, b)),
{
}

proof fn lemma_records_ldra_spec(vaddr: u64, raw: u32)
    ensures
        ldra_spec(vaddr, raw).records(vaddr, raw),
{
}

proof fn lemma_same_form_ldra_spec(v1: u64, v2: u64, raw: u32)
    ensures
        ldra_spec(v1, raw).same_form(ldra_spec(v2, raw)),
{
}

proof fn lemma_records_atomic_spec(vaddr: u64, raw: u32)
    ensures
        atomic_spec(vaddr, raw).records(vaddr, raw),
{
}

proof fn lemma_same_form_atomic_spec(v1: u64, v2: u64, raw: u32)
    ensures
        atomic_spec(v1, raw).same_form(atomic_spec(v2, raw)),
{
}

proof fn lemma_records_literal_spec(vaddr: u64, raw: u32, b: bool)
    ensures
        literal_spec(vaddr, raw, b).records(vaddr, raw),
{
}

proof fn lemma_same_form_literal_spec(v1: u64, v2: u64, raw: u32, b: bool)
    ensures
        literal_spec(v1, raw, b).same_form(literal_spec(v2, raw, b)),
{
}

proof fn lemma_records_exclusive_spec(vaddr: u64, raw: u32)
    ensures
        exclusive_spec(vaddr, raw).records(vaddr, raw),
{
}

proof fn lemma_same_form_exclusive_spec(v1: u64, v2: u64, raw: u32)
    ensures
        exclusive_spec(v1, raw).same_form(exclusive_spec(v2, raw)),
{
}

/// The form a word of the group decodes to does not depend on its address.
proof fn lemma_same_form_tail(v1: u64, v2: u64, raw: u32)
    ensures
        ldst_tail_spec(v1, raw).same_form(ldst_tail_spec(v2, raw)),
{
    lemma_same_form_reg_offset_spec(v1, v2, raw, false);
    lemma_same_form_imm_prepost_spec(v1, v2, raw, false);
    lemma_same_form_atomic_spec(v1, v2, raw);
    lemma_same_form_literal_spec(v1, v2, raw, true);
    lemma_same_form_literal_spec(v1, v2, raw, false);
    lemma_same_form_exclusive_spec(v1, v2, raw);
}

proof fn lemma_same_form_rest(v1: u64, v2: u64, raw: u32)
    ensures
        ldst_rest_spec(v1, raw).same_form(ldst_rest_spec(v2, raw)),
{
    lemma_same_form_pair_spec(v1, v2, raw, true);
    lemma_same_form_pair_spec(v1, v2, raw, false);
    lemma_same_form_unsigned_spec(v1, v2, raw);
    lemma_same_form_reg_offset_spec(v1, v2, raw, true);
    lemma_same_form_imm_prepost_spec(v1, v2, raw, true);
    lemma_same_form_ldra_spec(v1, v2, raw);
    lemma_same_form_tail(v1, v2, raw);
}

pub(super) proof fn lemma_same_form(v1: u64, v2: u64, raw: u32)
    ensures
        ldst_spec(v1, raw).same_form(ldst_spec(v2, raw)),
{
    reveal(ldst_spec);
    lemma_same_form_mte_stg_spec(v1, v2, raw);
    lemma_same_form_stgp_spec(v1, v2, raw);
    lemma_same_form_rcw_spec(v1, v2, raw);
    lemma_same_form_stilp_ldiapp_spec(v1, v2, raw);
    lemma_same_form_ldapur_stlur_spec(v1, v2, raw);
    lemma_same_form_simd_ldst_multi_spec(v1, v2, raw);
    lemma_same_form_simd_ldst_single_spec(v1, v2, raw);
    lemma_same_form_rest(v1, v2, raw);
}

/// Every word of the group decodes to a record of itself.
proof fn lemma_records_tail(vaddr: u64, raw: u32)
    ensures
        ldst_tail_spec(vaddr, raw).records(vaddr, raw),
{
    lemma_records_reg_offset_spec(vaddr, raw, false);
    lemma_records_imm_prepost_spec(vaddr, raw, false);
    lemma_records_atomic_spec(vaddr, raw);
    lemma_records_literal_spec(vaddr, raw, true);
    lemma_records_literal_spec(vaddr, raw, false);
    lemma_records_exclusive_spec(vaddr, raw);
}

proof fn lemma_records_rest(vaddr: u64, raw: u32)
    ensures
        ldst_rest_spec(vaddr, raw).records(vaddr, raw),
{
    lemma_records_pair_spec(vaddr, raw, true);
    lemma_records_pair_spec(vaddr, raw, false);
    lemma_records_unsigned_spec(vaddr, raw);
    lemma_records_reg_offset_spec(vaddr, raw, true);
    lemma_records_imm_prepost_spec(vaddr, raw, true);
    lemma_records_ldra_spec(vaddr, raw);
    lemma_records_tail(vaddr, raw);
}

pub(super) proof fn lemma_records(vaddr: u64, raw: u32)
    ensures
        ldst_spec(vaddr, raw).records(vaddr, raw),
{
    reveal(ldst_spec);
    lemma_records_mte_stg_spec(vaddr, raw);
    lemma_records_stgp_spec(vaddr, raw);
    lemma_records_rcw_spec(vaddr, raw);
    lemma_records_stilp_ldiapp_spec(vaddr, raw);
    lemma_records_ldapur_stlur_spec(vaddr, raw);
    lemma_records_simd_ldst_multi_spec(vaddr, raw);
    lemma_records_simd_ldst_single_spec(vaddr, raw);
    lemma_records_rest(vaddr, raw);
}

proof fn lemma_ok_ldst_cases(vaddr: u64, raw: u32)
    ensures
        decoded_ok(ldst_cases(vaddr, raw), vaddr, raw),
{
    lemma_base_facts(raw);
    lemma_ok_ldst_rest_spec(vaddr, raw);
    lemma_ok_simd_ldst_multi_spec(vaddr, raw);
    lemma_ok_simd_ldst_single_spec(vaddr, raw);
    lemma_ok_rcw_spec(vaddr, raw);
    lemma_ok_stilp_ldiapp_spec(vaddr, raw);
    lemma_ok_mte_stg_spec(vaddr, raw);
    lemma_ok_stgp_spec(vaddr, raw);
    lemma_ok_ldapur_stlur_spec(vaddr, raw);
}

/// Every word of the group decodes soundly.
pub(super) proof fn lemma_ok_ldst_spec(vaddr: u64, raw: u32)
    ensures
        decoded_ok(ldst_spec(vaddr, raw), vaddr, raw),
{
    reveal(ldst_spec);
    lemma_base_facts(raw);
    lemma_ok_ldst_cases(vaddr, raw);
}

proof fn lemma_ok_ldst_rest_spec(vaddr: u64, raw: u32)
    ensures
        decoded_ok(ldst_rest_spec(vaddr, raw), vaddr, raw),
{
    lemma_base_facts(raw);
    lemma_ok_ldst_tail_spec(vaddr, raw);
    lemma_ok_pair_spec(vaddr, raw, bit_at(raw, 26) == 1);
    lemma_ok_unsigned_spec(vaddr, raw);
    lemma_ok_imm_prepost_spec(vaddr, raw, true);
    lemma_ok_reg_offset_spec(vaddr, raw, true);
    lemma_ok_ldra_spec(vaddr, raw);
}

proof fn lemma_ok_ldst_tail_spec(vaddr: u64, raw: u32)
    ensures
        decoded_ok(ldst_tail_spec(vaddr, raw), vaddr, raw),
{
    lemma_base_facts(raw);
    lemma_ok_imm_prepost_spec(vaddr, raw, false);
    lemma_ok_reg_offset_spec(vaddr, raw, false);
    lemma_ok_literal_spec(vaddr, raw, bit_at(raw, 26) == 1);
    lemma_ok_exclusive_spec(vaddr, raw);
    lemma_ok_atomic_spec(vaddr, raw);
}

proof fn lemma_ok_pair_spec(vaddr: u64, raw: u32, simd: bool)
    ensures
        decoded_ok(pair_spec(vaddr, raw, simd), vaddr, raw),
{
    lemma_base_facts(raw);
}

proof fn lemma_ok_unsigned_spec(vaddr: u64, raw: u32)
    ensures
        decoded_ok(unsigned_spec(vaddr, raw), vaddr, raw),
{
    lemma_base_facts(raw);
}

proof fn lemma_ok_imm_prepost_spec(vaddr: u64, raw: u32, simd: bool)
    ensures
        decoded_ok(imm_prepost_spec(vaddr, raw, simd), vaddr, raw),
{
    lemma_base_facts(raw);
}

proof fn lemma_ok_reg_offset_spec(vaddr: u64, raw: u32, simd: bool)
    ensures
        decoded_ok(reg_offset_spec(vaddr, raw, simd), vaddr, raw),
{
    lemma_base_facts(raw);
}

proof fn lemma_ok_literal_spec(vaddr: u64, raw: u32, simd: bool)
    ensures
        decoded_ok(literal_spec(vaddr, raw, simd), vaddr, raw),
{
    lemma_base_facts(raw);
}

proof fn lemma_ok_exclusive_spec(vaddr: u64, raw: u32)
    ensures
        decoded_ok(exclusive_spec(vaddr, raw), vaddr, raw),
{
    lemma_base_facts(raw);
    lemma_ok_cas_spec(vaddr, raw);
    lemma_ok_exclusive_plain_spec(vaddr, raw);
}

proof fn lemma_ok_cas_spec(vaddr: u64, raw: u32)
    ensures
        decoded_ok(cas_spec(vaddr, raw), vaddr, raw),
{
    lemma_base_facts(raw);
}

proof fn lemma_ok_exclusive_plain_spec(vaddr: u64, raw: u32)
    ensures
        decoded_ok(exclusive_plain_spec(vaddr, raw), vaddr, raw),
{
    lemma_base_facts(raw);
}

proof fn lemma_ok_simd_ldst_multi_spec(vaddr: u64, raw: u32)
    ensures
        decoded_ok(simd_ldst_multi_spec(vaddr, raw), vaddr, raw),
{
    lemma_base_facts(raw);
}

proof fn lemma_ok_simd_ldst_single_spec(vaddr: u64, raw: u32)
    ensures
        decoded_ok(simd_ldst_single_spec(vaddr, raw), vaddr, raw),
{
    lemma_base_facts(raw);
}

proof fn lemma_ok_rcw_spec(vaddr: u64, raw: u32)
    ensures
        decoded_ok(rcw_spec(vaddr, raw), vaddr, raw),
{
    lemma_base_facts(raw);
}

proof fn lemma_ok_stilp_ldiapp_spec(vaddr: u64, raw: u32)
    ensures
        decoded_ok(stilp_ldiapp_spec(vaddr, raw), vaddr, raw),
{
    lemma_base_facts(raw);
}

proof fn lemma_ok_atomic_spec(vaddr: u64, raw: u32)
    ensures
        decoded_ok(atomic_spec(vaddr, raw), vaddr, raw),
{
    lemma_base_facts(raw);
    lemma_ok_rcw_spec(vaddr, raw);
}

proof fn lemma_ok_ldra_spec(vaddr: u64, raw: u32)
    ensures
        decoded_ok(ldra_spec(vaddr, raw), vaddr, raw),
{
    lemma_base_facts(raw);
}

proof fn lemma_ok_mte_stg_spec(vaddr: u64, raw: u32)
    ensures
        decoded_ok(mte_stg_spec(vaddr, raw), vaddr, raw),
{
    lemma_base_facts(raw);
}

proof fn lemma_ok_stgp_spec(vaddr: u64, raw: u32)
    ensures
        decoded_ok(stgp_spec(vaddr, raw), vaddr, raw),
{
    lemma_base_facts(raw);
}

proof fn lemma_ok_ldapur_stlur_spec(vaddr: u64, raw: u32)
    ensures
        decoded_ok(ldapur_stlur_spec(vaddr, raw), vaddr, raw),
{
    lemma_base_facts(raw);
}

pub(super) fn decode(vaddr: u64, raw: u32) -> (r: Instruction)
    ensures
        r == ldst_spec(vaddr, raw),
{
    proof {
        reveal(ldst_spec);
    }
    // MTE tag stores STG/ST2G/STZG/STZ2G (bit21=1 distinguishes from LDAPUR X)
    if bits(raw, 31, 24) == 0b11011001 && bit(raw, 21) == 1 {
        return decode_mte_stg(vaddr, raw);
    }
    // MTE STGP (store only; bit22=0). bit22=1 is LDPSW in the same op0 space.
    if (bits(raw, 31, 25) == 0b0110100 || bits(raw, 31, 24) == 0b01101011) && bit(raw, 22) == 0 {
        return decode_stgp(vaddr, raw);
    }
    // RCW* (FEAT_THE) in unscaled-ordered space with bit21=1
    if bits(raw, 29, 24) == 0b011001 && bit(raw, 21) == 1 {
        return decode_rcw(vaddr, raw);
    }
    // STILP (opc=00) / LDIAPP (opc=01) — not STLR(opc=10)/LDAPR(opc=11)
    if bits(raw, 29, 24) == 0b011001 && bit(raw, 21) == 0 && bits(raw, 11, 10) == 0b10 && bits(
        raw,
        23,
        22,
    ) <= 1 {
        return decode_stilp_ldiapp(vaddr, raw);
    }
    if (bits(raw, 29, 24) == 0b011001 && bit(raw, 21) == 0 && bits(raw, 11, 10) == 0b00) || (bits(
        raw,
        29,
        24,
    ) == 0b011101 && bit(raw, 21) == 0 && bits(raw, 11, 10) == 0b10) {
        return decode_ldapur_stlur(vaddr, raw);
    }
    // Advanced SIMD load/store multiple structures (LD1/ST1…LD4/ST4)
    if bit(raw, 31) == 0 && bits(raw, 29, 24) == 0b001100 {
        return decode_simd_ldst_multi(vaddr, raw);
    }
    // Advanced SIMD load/store single structure (+ replicate LD1R…LD4R)
    if bit(raw, 31) == 0 && bits(raw, 29, 24) == 0b001101 {
        return decode_simd_ldst_single(vaddr, raw);
    }
    decode_rest(vaddr, raw)
}

/// The register pair, immediate, register-offset, literal, atomic and exclusive
/// forms.
fn decode_rest(vaddr: u64, raw: u32) -> (r: Instruction)
    ensures
        r == ldst_rest_spec(vaddr, raw),
{
    // SIMD/FP or GPR register pair
    if bits(raw, 29, 27) == 0b101 {
        return decode_pair(vaddr, raw, bit(raw, 26) == 1);
    }
    // Unsigned immediate (GPR + SIMD)
    if bits(raw, 29, 27) == 0b111 && bit(raw, 24) == 1 {
        return decode_unsigned(vaddr, raw);
    }
    // SIMD register offset
    if bits(raw, 29, 27) == 0b111 && bit(raw, 26) == 1 && bit(raw, 21) == 1 {
        return decode_reg_offset(vaddr, raw, true);
    }
    // SIMD pre/post/unscaled
    if bits(raw, 29, 27) == 0b111 && bit(raw, 26) == 1 {
        return decode_imm_prepost(vaddr, raw, true);
    }
    // LDRAA / LDRAB (PAC authenticated load)
    if bits(raw, 31, 24) & 0b11111100 == 0b11111000 && bit(raw, 21) == 1 && bit(raw, 10) == 1 {
        return decode_ldra(vaddr, raw);
    }
    decode_tail(vaddr, raw)
}

/// The atomic, general-purpose immediate and register-offset, literal and exclusive
/// forms.
fn decode_tail(vaddr: u64, raw: u32) -> (r: Instruction)
    ensures
        r == ldst_tail_spec(vaddr, raw),
{
    // Atomic memory ops (SWP/LDADD/…): bit21=1, bits[11:10]=00
    if bits(raw, 29, 27) == 0b111 && bit(raw, 26) == 0 && bit(raw, 21) == 1 && bits(raw, 11, 10)
        == 0b00 {
        return decode_atomic(vaddr, raw);
    }
    // GPR pre/post/unscaled
    if bits(raw, 29, 27) == 0b111 && bit(raw, 26) == 0 && bit(raw, 21) == 0 {
        return decode_imm_prepost(vaddr, raw, false);
    }
    // GPR register offset
    if bits(raw, 29, 27) == 0b111 && bit(raw, 26) == 0 {
        return decode_reg_offset(vaddr, raw, false);
    }
    // Literal (SIMD or GPR)
    if bits(raw, 29, 27) == 0b011 {
        return decode_literal(vaddr, raw, bit(raw, 26) == 1);
    }
    // Exclusive / ordered
    if bits(raw, 29, 24) == 0b001000 {
        return decode_exclusive(vaddr, raw);
    }
    undef(vaddr, raw)
}

/// A memory operand in slot `slot` (1 to 3) with base register `Xn|SP` (bits [9:5]),
/// byte offset and addressing mode, and the operand count `slot + 1`.
pub open spec fn with_mem(i: Instruction, raw: u32, slot: int, offset: i32, mode: MemMode) -> Instruction {
    let j = Instruction {
        op_count: (slot + 1) as u8,
        memory_base: Register::gpr_at(true, field(raw, 9, 5), true),
        memory_offset: offset,
        mem_mode: mode,
        ..i
    };
    if slot == 1 {
        Instruction { op1_kind: OpKind::Memory, ..j }
    } else if slot == 2 {
        Instruction { op2_kind: OpKind::Memory, ..j }
    } else {
        Instruction { op3_kind: OpKind::Memory, ..j }
    }
}

/// Register operand in slot 0.
pub open spec fn reg0(i: Instruction, r: Register) -> Instruction {
    Instruction { op0_kind: OpKind::Register, op0_reg: r, ..i }
}

/// Register operand in slot 1.
pub open spec fn reg1(i: Instruction, r: Register) -> Instruction {
    Instruction { op1_kind: OpKind::Register, op1_reg: r, ..i }
}

/// Register operand in slot 2.
pub open spec fn reg2(i: Instruction, r: Register) -> Instruction {
    Instruction { op2_kind: OpKind::Register, op2_reg: r, ..i }
}

/// Addressing mode of a pair or pre/post-indexed access by its 2-bit mode field:
/// 01 post-index, 11 pre-index, otherwise a plain offset.
pub open spec fn index_mode(mode: u32) -> MemMode {
    if mode == 1 {
        MemMode::PostIndex
    } else if mode == 3 {
        MemMode::PreIndex
    } else {
        MemMode::Offset
    }
}

/// log2 of the access size of a register pair by `opc` (`None` when reserved): SIMD
/// pairs are S/D/Q, GPR pairs are W, W (LDPSW) and X.
pub open spec fn pair_scale(opc: u32, simd: bool) -> Option<u32> {
    if opc == 0 {
        Some(2)
    } else if opc == 1 {
        Some(if simd { 3 } else { 2 })
    } else if opc == 2 {
        Some(if simd { 4 } else { 3 })
    } else {
        None
    }
}

/// Code and mnemonic of a pair access: LDNP/STNP for the non-temporal mode `00`,
/// LDP/STP otherwise, LDPSW for a GPR load with `opc = 01`.
pub open spec fn pair_op(simd: bool, opc: u32, is_load: bool, mode: u32) -> (Code, Mnemonic) {
    let code = if simd {
        if is_load { Code::Ldp_fp } else { Code::Stp_fp }
    } else {
        if is_load { Code::Ldp } else { Code::Stp }
    };
    if !simd && opc == 1 && is_load {
        (Code::Ldpsw, Mnemonic::Ldpsw)
    } else if mode == 0 {
        (code, if is_load { Mnemonic::Ldnp } else { Mnemonic::Stnp })
    } else {
        (code, if is_load { Mnemonic::Ldp } else { Mnemonic::Stp })
    }
}

/// LDP/STP/LDNP/STNP/LDPSW of GPRs or SIMD/FP registers: `Rt`, `Rt2`, then the memory
/// operand with offset `imm7` (signed) times the access size.
pub open spec fn pair_spec(vaddr: u64, raw: u32, simd: bool) -> Instruction {
    let opc = field(raw, 31, 30);
    let is_load = bit_at(raw, 22) != 0;
    let mode = field(raw, 24, 23);
    match pair_scale(opc, simd) {
        None => undefined(vaddr, raw),
        Some(scale) => {
            let bytes: u32 = if scale == 2 { 4 } else if scale == 3 { 8 } else { 16 };
            let (code, mnemonic) = pair_op(simd, opc, is_load, mode);
            let wide = opc != 0;
            let (r0, r1) = if simd {
                (Register::fp_at(bytes, field(raw, 4, 0)), Register::fp_at(bytes, field(raw, 14, 10)))
            } else {
                (Register::gpr_at(wide, field(raw, 4, 0), false), Register::gpr_at(wide, field(raw, 14, 10), false))
            };
            with_mem(
                reg1(reg0(Instruction::meta(vaddr, raw, code, mnemonic), r0), r1),
                raw,
                2,
                (sext(field(raw, 21, 15) as u64, 7) * bytes) as i32,
                index_mode(mode),
            )
        },
    }
}

#[verifier::rlimit(30)]
fn decode_pair(vaddr: u64, raw: u32, simd: bool) -> (r: Instruction)
    ensures
        r == pair_spec(vaddr, raw, simd),
{
    let opc = bits(raw, 31, 30);
    let is_load = bit(raw, 22) != 0;
    let mode = bits(raw, 24, 23);
    let imm7 = bits(raw, 21, 15);
    let rt2 = bits(raw, 14, 10);
    let rn = bits(raw, 9, 5);
    let rt = bits(raw, 4, 0);

    let scale: u32 = if opc == 0 {
        2
    } else if opc == 1 {
        if simd { 3 } else { 2 }
    } else if opc == 2 {
        if simd { 4 } else { 3 }
    } else {
        return undef(vaddr, raw);
    };
    let bytes: u32 = if scale == 2 { 4 } else if scale == 3 { 8 } else { 16 };
    let wide = sign_extend(imm7 as u64, 7);
    assert(-64 <= wide < 64) by {
        vstd::arithmetic::power2::lemma2_to64();
    }
    let base = wide as i32;
    let offset = base * (bytes as i32);
    let mem_mode = if mode == 1 {
        MemMode::PostIndex
    } else if mode == 3 {
        MemMode::PreIndex
    } else {
        MemMode::Offset
    };
    let (code, mnemonic) = if !simd && opc == 1 && is_load {
        (Code::Ldpsw, Mnemonic::Ldpsw)
    } else {
        let code = if simd {
            if is_load { Code::Ldp_fp } else { Code::Stp_fp }
        } else {
            if is_load { Code::Ldp } else { Code::Stp }
        };
        if mode == 0 {
            (code, if is_load { Mnemonic::Ldnp } else { Mnemonic::Stnp })
        } else {
            (code, if is_load { Mnemonic::Ldp } else { Mnemonic::Stp })
        }
    };

    let mut i = Instruction::with_meta(vaddr, raw, code, mnemonic);
    i.op_count = 3;
    i.op0_kind = OpKind::Register;
    i.op1_kind = OpKind::Register;
    if simd {
        i.op0_reg = Register::fp_sized(bytes, rt);
        i.op1_reg = Register::fp_sized(bytes, rt2);
    } else {
        i.op0_reg = Register::gpr(opc != 0, rt, false);
        i.op1_reg = Register::gpr(opc != 0, rt2, false);
    }
    i.op2_kind = OpKind::Memory;
    i.memory_base = Register::gpr(true, rn, true);
    i.memory_offset = offset;
    i.mem_mode = mem_mode;
    i
}

/// Code, mnemonic and 64-bit destination of a GPR load/store (unsigned offset) by
/// `size` and `opc`; `None` for the unallocated combinations. Size 3 with `opc` 1x is
/// PRFM.
pub open spec fn unsigned_gpr_op(size: u32, opc: u32) -> Option<(Code, Mnemonic, bool)> {
    if size == 0 {
        Some(
            if opc == 0 {
                (Code::Strb_uimm, Mnemonic::Strb, false)
            } else if opc == 1 {
                (Code::Ldrb_uimm, Mnemonic::Ldrb, false)
            } else {
                (Code::Ldrsb_uimm, Mnemonic::Ldrsb, opc == 2)
            },
        )
    } else if size == 1 {
        Some(
            if opc == 0 {
                (Code::Strh_uimm, Mnemonic::Strh, false)
            } else if opc == 1 {
                (Code::Ldrh_uimm, Mnemonic::Ldrh, false)
            } else {
                (Code::Ldrsh_uimm, Mnemonic::Ldrsh, opc == 2)
            },
        )
    } else if size == 2 {
        if opc == 0 {
            Some((Code::Str_uimm, Mnemonic::Str, false))
        } else if opc == 1 {
            Some((Code::Ldr_uimm, Mnemonic::Ldr, false))
        } else if opc == 2 {
            Some((Code::Ldrsw_uimm, Mnemonic::Ldrsw, true))
        } else {
            None
        }
    } else {
        Some(
            if opc == 0 {
                (Code::Str_uimm, Mnemonic::Str, true)
            } else if opc == 1 {
                (Code::Ldr_uimm, Mnemonic::Ldr, true)
            } else {
                (Code::Ldr_uimm, Mnemonic::Prfm, true)
            },
        )
    }
}

fn unsigned_gpr_op_exec(size: u32, opc: u32) -> (r: Option<(Code, Mnemonic, bool)>)
    requires
        size <= 3,
        opc <= 3,
    ensures
        r == unsigned_gpr_op(size, opc),
{
    match (size, opc) {
        (0, 0b00) => Some((Code::Strb_uimm, Mnemonic::Strb, false)),
        (0, 0b01) => Some((Code::Ldrb_uimm, Mnemonic::Ldrb, false)),
        (0, 0b10) => Some((Code::Ldrsb_uimm, Mnemonic::Ldrsb, true)),
        (0, 0b11) => Some((Code::Ldrsb_uimm, Mnemonic::Ldrsb, false)),
        (1, 0b00) => Some((Code::Strh_uimm, Mnemonic::Strh, false)),
        (1, 0b01) => Some((Code::Ldrh_uimm, Mnemonic::Ldrh, false)),
        (1, 0b10) => Some((Code::Ldrsh_uimm, Mnemonic::Ldrsh, true)),
        (1, 0b11) => Some((Code::Ldrsh_uimm, Mnemonic::Ldrsh, false)),
        (2, 0b00) => Some((Code::Str_uimm, Mnemonic::Str, false)),
        (2, 0b01) => Some((Code::Ldr_uimm, Mnemonic::Ldr, false)),
        (2, 0b10) => Some((Code::Ldrsw_uimm, Mnemonic::Ldrsw, true)),
        (3, 0b00) => Some((Code::Str_uimm, Mnemonic::Str, true)),
        (3, 0b01) => Some((Code::Ldr_uimm, Mnemonic::Ldr, true)),
        (3, 0b10) | (3, 0b11) => Some((Code::Ldr_uimm, Mnemonic::Prfm, true)),
        _ => None,
    }
}

/// Loads and stores with an unsigned 12-bit offset scaled by the access size. SIMD/FP
/// registers are B/H/S/D by `size`, or Q when `opc` bit 1 is set; GPR forms by
/// `unsigned_gpr_op`, PRFM taking the prefetch operation `Rt` as immediate.
pub open spec fn unsigned_spec(vaddr: u64, raw: u32) -> Instruction {
    let size = field(raw, 31, 30);
    let opc = field(raw, 23, 22);
    let imm12 = field(raw, 21, 10);
    let rt = field(raw, 4, 0);
    if bit_at(raw, 26) != 0 {
        let bytes: u32 = if opc >= 2 { 16 } else { if size == 0 { 1 } else if size == 1 { 2 } else if size == 2 { 4 } else { 8 } };
        let is_load = opc == 1 || opc == 3;
        with_mem(
            reg0(
                Instruction::meta(
                    vaddr,
                    raw,
                    if is_load { Code::Ldr_fp_uimm } else { Code::Str_fp_uimm },
                    if is_load { Mnemonic::Ldr } else { Mnemonic::Str },
                ),
                Register::fp_at(bytes, rt),
            ),
            raw,
            1,
            (imm12 * bytes) as i32,
            MemMode::Offset,
        )
    } else {
        let bytes: u32 = if size == 0 { 1 } else if size == 1 { 2 } else if size == 2 { 4 } else { 8 };
        match unsigned_gpr_op(size, opc) {
            None => undefined(vaddr, raw),
            Some((code, mnemonic, sf)) => {
                let i = Instruction::meta(vaddr, raw, code, mnemonic);
                let with_op0 = if mnemonic == Mnemonic::Prfm {
                    Instruction { op0_kind: OpKind::Immediate, op0_imm: rt as u64, ..i }
                } else {
                    reg0(i, Register::gpr_at(sf, rt, false))
                };
                with_mem(with_op0, raw, 1, (imm12 * bytes) as i32, MemMode::Offset)
            },
        }
    }
}

fn decode_unsigned(vaddr: u64, raw: u32) -> (r: Instruction)
    ensures
        r == unsigned_spec(vaddr, raw),
{
    let size = bits(raw, 31, 30);
    let v = bit(raw, 26);
    let opc = bits(raw, 23, 22);
    let imm12 = bits(raw, 21, 10);
    let rn = bits(raw, 9, 5);
    let rt = bits(raw, 4, 0);

    if v != 0 {
        let bytes: u32 = if opc & 0b10 != 0 {
            16
        } else if size == 0 {
            1
        } else if size == 1 {
            2
        } else if size == 2 {
            4
        } else {
            8
        };
        assert(opc <= 3 ==> ((opc & 2u32) != 0) == (opc >= 2) && ((opc & 1u32) == 1) == (opc == 1 || opc == 3)) by (bit_vector);
        let offset = (imm12 * bytes) as i32;
        let is_load = opc & 1 == 1;
        let mut i = Instruction::with_meta(
            vaddr,
            raw,
            if is_load { Code::Ldr_fp_uimm } else { Code::Str_fp_uimm },
            if is_load { Mnemonic::Ldr } else { Mnemonic::Str },
        );
        i.op_count = 2;
        i.op0_kind = OpKind::Register;
        i.op0_reg = Register::fp_sized(bytes, rt);
        i.op1_kind = OpKind::Memory;
        i.memory_base = Register::gpr(true, rn, true);
        i.memory_offset = offset;
        i.mem_mode = MemMode::Offset;
        return i;
    }

    let bytes: u32 = if size == 0 {
        1
    } else if size == 1 {
        2
    } else if size == 2 {
        4
    } else {
        8
    };
    let offset = (imm12 * bytes) as i32;
    let (code, mnemonic, sf) = match unsigned_gpr_op_exec(size, opc) {
        Some(t) => t,
        None => {
            return undef(vaddr, raw);
        },
    };
    let mut i = Instruction::with_meta(vaddr, raw, code, mnemonic);
    i.op_count = 2;
    if mnemonic == Mnemonic::Prfm {
        i.op0_kind = OpKind::Immediate;
        i.op0_imm = rt as u64;  // prfop
    } else {
        i.op0_kind = OpKind::Register;
        i.op0_reg = Register::gpr(sf, rt, false);
    }
    i.op1_kind = OpKind::Memory;
    i.memory_base = Register::gpr(true, rn, true);
    i.memory_offset = offset;
    i.mem_mode = MemMode::Offset;
    i
}

/// Mnemonic of a GPR load/store with register or pre/post-indexed addressing by `size`
/// and `opc`.
pub open spec fn gpr_ldst_mnemonic(size: u32, opc: u32) -> Mnemonic {
    if size == 0 && opc == 0 {
        Mnemonic::Strb
    } else if size == 0 && opc == 1 {
        Mnemonic::Ldrb
    } else if size == 0 {
        Mnemonic::Ldrsb
    } else if size == 1 && opc == 0 {
        Mnemonic::Strh
    } else if size == 1 && opc == 1 {
        Mnemonic::Ldrh
    } else if size == 1 {
        Mnemonic::Ldrsh
    } else if size == 2 && opc == 2 {
        Mnemonic::Ldrsw
    } else if opc == 0 {
        Mnemonic::Str
    } else {
        Mnemonic::Ldr
    }
}

fn gpr_ldst_mnemonic_exec(size: u32, opc: u32) -> (r: Mnemonic)
    ensures
        r == gpr_ldst_mnemonic(size, opc),
{
    if size == 0 && opc == 0 {
        Mnemonic::Strb
    } else if size == 0 && opc == 1 {
        Mnemonic::Ldrb
    } else if size == 0 {
        Mnemonic::Ldrsb
    } else if size == 1 && opc == 0 {
        Mnemonic::Strh
    } else if size == 1 && opc == 1 {
        Mnemonic::Ldrh
    } else if size == 1 {
        Mnemonic::Ldrsh
    } else if size == 2 && opc == 2 {
        Mnemonic::Ldrsw
    } else if opc == 0 {
        Mnemonic::Str
    } else {
        Mnemonic::Ldr
    }
}

/// Size in bytes of a SIMD/FP access by `size`, or 16 when `opc` bit 1 is set.
pub open spec fn simd_access_bytes(size: u32, opc: u32) -> u32 {
    if opc >= 2 {
        16
    } else if size == 0 {
        1
    } else if size == 1 {
        2
    } else if size == 2 {
        4
    } else {
        8
    }
}

/// Unscaled (LDUR/STUR), post-indexed and pre-indexed loads and stores with a signed
/// 9-bit byte offset; the mode `10` is undefined here.
pub open spec fn imm_prepost_spec(vaddr: u64, raw: u32, simd: bool) -> Instruction {
    let size = field(raw, 31, 30);
    let opc = field(raw, 23, 22);
    let mode = field(raw, 11, 10);
    let rt = field(raw, 4, 0);
    let is_load = opc == 1 || opc == 3;
    let code = if is_load { Code::Ldr_imm } else { Code::Str_imm };
    let offset = sext(field(raw, 20, 12) as u64, 9) as i32;
    if mode == 2 {
        undefined(vaddr, raw)
    } else if simd {
        let mnemonic = if mode == 0 {
            if is_load { Mnemonic::Ldur } else { Mnemonic::Stur }
        } else {
            if is_load { Mnemonic::Ldr } else { Mnemonic::Str }
        };
        with_mem(
            reg0(Instruction::meta(vaddr, raw, code, mnemonic), Register::fp_at(simd_access_bytes(size, opc), rt)),
            raw,
            1,
            offset,
            index_mode(mode),
        )
    } else {
        let mnemonic = if mode == 0 {
            if is_load { Mnemonic::Ldur } else { Mnemonic::Stur }
        } else {
            gpr_ldst_mnemonic(size, opc)
        };
        with_mem(
            reg0(
                Instruction::meta(vaddr, raw, code, mnemonic),
                Register::gpr_at(size == 3 || opc >= 2, rt, false),
            ),
            raw,
            1,
            offset,
            index_mode(mode),
        )
    }
}

fn decode_imm_prepost(vaddr: u64, raw: u32, simd: bool) -> (r: Instruction)
    ensures
        r == imm_prepost_spec(vaddr, raw, simd),
{
    let size = bits(raw, 31, 30);
    let opc = bits(raw, 23, 22);
    let imm9 = bits(raw, 20, 12);
    let mode = bits(raw, 11, 10);
    let rn = bits(raw, 9, 5);
    let rt = bits(raw, 4, 0);
    let offset = sign_extend(imm9 as u64, 9) as i32;
    let mem_mode = if mode == 0 {
        MemMode::Offset  // LDUR/STUR
    } else if mode == 1 {
        MemMode::PostIndex
    } else if mode == 3 {
        MemMode::PreIndex
    } else {
        return undef(vaddr, raw);
    };
    assert(opc <= 3 ==> ((opc & 2u32) != 0) == (opc >= 2) && ((opc & 1u32) == 1) == (opc == 1 || opc == 3)) by (bit_vector);
    let is_load = opc & 1 == 1;

    let mnemonic = if mode == 0 {
        if is_load { Mnemonic::Ldur } else { Mnemonic::Stur }
    } else if simd {
        if is_load { Mnemonic::Ldr } else { Mnemonic::Str }
    } else {
        gpr_ldst_mnemonic_exec(size, opc)
    };
    let mut i = Instruction::with_meta(
        vaddr,
        raw,
        if is_load { Code::Ldr_imm } else { Code::Str_imm },
        mnemonic,
    );
    i.op_count = 2;
    i.op0_kind = OpKind::Register;
    if simd {
        let bytes: u32 = if opc & 0b10 != 0 {
            16
        } else if size == 0 {
            1
        } else if size == 1 {
            2
        } else if size == 2 {
            4
        } else {
            8
        };
        i.op0_reg = Register::fp_sized(bytes, rt);
    } else {
        i.op0_reg = Register::gpr(size == 3 || (opc >= 0b10 && size < 3), rt, false);
    }
    i.op1_kind = OpKind::Memory;
    i.memory_base = Register::gpr(true, rn, true);
    i.memory_offset = offset;
    i.mem_mode = mem_mode;
    i
}

/// Loads and stores with a register offset: index `Xm` (bits [20:16]) extended by
/// `option` (bits [15:13]) and shifted by the access-size exponent when `S` is set.
pub open spec fn reg_offset_spec(vaddr: u64, raw: u32, simd: bool) -> Instruction {
    let size = field(raw, 31, 30);
    let opc = field(raw, 23, 22);
    let rt = field(raw, 4, 0);
    let is_load = opc == 1 || opc == 3;
    let scale: u32 = if simd && opc >= 2 { 4 } else { size };
    let mnemonic = if simd {
        if is_load { Mnemonic::Ldr } else { Mnemonic::Str }
    } else {
        gpr_ldst_mnemonic(size, opc)
    };
    Instruction {
        op_count: 2,
        op1_kind: OpKind::Memory,
        memory_base: Register::gpr_at(true, field(raw, 9, 5), true),
        memory_index: Register::x_at(field(raw, 20, 16)),
        extend_kind: ExtendKind::decode_spec(field(raw, 15, 13)),
        memory_index_shift: if bit_at(raw, 12) != 0 { scale as u8 } else { 0 },
        mem_mode: MemMode::Register,
        ..reg0(
            Instruction::meta(vaddr, raw, if is_load { Code::Ldr_reg } else { Code::Str_reg }, mnemonic),
            if simd {
                Register::fp_at(simd_access_bytes(size, opc), rt)
            } else {
                Register::gpr_at(size == 3 || opc >= 2, rt, false)
            },
        )
    }
}

fn decode_reg_offset(vaddr: u64, raw: u32, simd: bool) -> (r: Instruction)
    ensures
        r == reg_offset_spec(vaddr, raw, simd),
{
    let size = bits(raw, 31, 30);
    let opc = bits(raw, 23, 22);
    let rm = bits(raw, 20, 16);
    let option = bits(raw, 15, 13);
    let s = bit(raw, 12);
    let rn = bits(raw, 9, 5);
    let rt = bits(raw, 4, 0);
    assert(opc <= 3 ==> ((opc & 2u32) != 0) == (opc >= 2) && ((opc & 1u32) == 1) == (opc == 1 || opc == 3)) by (bit_vector);
    let is_load = opc & 1 == 1;
    let scale: u32 = if simd && opc & 0b10 != 0 { 4 } else { size };

    let mnemonic = if simd {
        if is_load { Mnemonic::Ldr } else { Mnemonic::Str }
    } else {
        gpr_ldst_mnemonic_exec(size, opc)
    };
    let mut i = Instruction::with_meta(
        vaddr,
        raw,
        if is_load { Code::Ldr_reg } else { Code::Str_reg },
        mnemonic,
    );
    i.op_count = 2;
    i.op0_kind = OpKind::Register;
    if simd {
        let bytes: u32 = if scale == 4 {
            16
        } else if scale == 0 {
            1
        } else if scale == 1 {
            2
        } else if scale == 2 {
            4
        } else {
            8
        };
        i.op0_reg = Register::fp_sized(bytes, rt);
    } else {
        i.op0_reg = Register::gpr(size == 3 || opc >= 0b10, rt, false);
    }
    i.op1_kind = OpKind::Memory;
    i.memory_base = Register::gpr(true, rn, true);
    i.memory_index = Register::x(rm);
    i.extend_kind = ExtendKind::from_u32(option);
    i.memory_index_shift = if s != 0 { scale as u8 } else { 0 };
    i.mem_mode = MemMode::Register;
    i
}

/// PC-relative literal loads: the target is the instruction address plus four times the
/// signed 19-bit immediate. SIMD/FP loads are S/D/Q by `opc`; GPR loads are W, X and
/// LDRSW; `opc = 11` is undefined.
pub open spec fn literal_spec(vaddr: u64, raw: u32, simd: bool) -> Instruction {
    let opc = field(raw, 31, 30);
    let rt = field(raw, 4, 0);
    let target = rel_target(vaddr, field(raw, 23, 5), 19);
    if opc == 3 {
        undefined(vaddr, raw)
    } else {
        let (code, mnemonic) = if simd {
            (Code::Ldr_fp_lit, Mnemonic::Ldr)
        } else if opc == 2 {
            (Code::Ldrsw_lit, Mnemonic::Ldrsw)
        } else {
            (Code::Ldr_lit, Mnemonic::Ldr)
        };
        Instruction {
            op_count: 2,
            op1_kind: OpKind::NearBranch,
            op1_imm: target,
            near_branch_target: target,
            mem_mode: MemMode::Literal,
            ..reg0(
                Instruction::meta(vaddr, raw, code, mnemonic),
                if simd {
                    Register::fp_at(if opc == 0 { 4 } else if opc == 1 { 8 } else { 16 }, rt)
                } else {
                    Register::gpr_at(opc != 0, rt, false)
                },
            )
        }
    }
}

fn decode_literal(vaddr: u64, raw: u32, simd: bool) -> (r: Instruction)
    ensures
        r == literal_spec(vaddr, raw, simd),
{
    let opc = bits(raw, 31, 30);
    let rt = bits(raw, 4, 0);
    if opc == 3 {
        return undef(vaddr, raw);
    }
    let target = branch_target(vaddr, bits(raw, 23, 5), 19);
    let (code, mnemonic, reg) = if simd {
        let bytes: u32 = if opc == 0 { 4 } else if opc == 1 { 8 } else { 16 };
        (Code::Ldr_fp_lit, Mnemonic::Ldr, Register::fp_sized(bytes, rt))
    } else if opc == 2 {
        (Code::Ldrsw_lit, Mnemonic::Ldrsw, Register::gpr(true, rt, false))
    } else {
        (Code::Ldr_lit, Mnemonic::Ldr, Register::gpr(opc == 1, rt, false))
    };
    let mut i = Instruction::with_meta(vaddr, raw, code, mnemonic);
    i.op_count = 2;
    i.op0_kind = OpKind::Register;
    i.op0_reg = reg;
    i.op1_kind = OpKind::NearBranch;
    i.op1_imm = target;
    i.near_branch_target = target;
    i.mem_mode = MemMode::Literal;
    i
}

/// Mnemonic of CAS/CASP by `o0` (bit 23: CAS), `size`, acquire `L` and release `o0`
/// (bit 15).
pub open spec fn cas_mnemonic(o0: u32, size: u32, l: u32, rel: u32) -> Mnemonic {
    if o0 == 0 {
        if l == 0 && rel == 0 {
            Mnemonic::Casp
        } else if l == 0 {
            Mnemonic::Caspl
        } else if rel == 0 {
            Mnemonic::Caspa
        } else {
            Mnemonic::Caspal
        }
    } else if size == 0 {
        if l == 0 && rel == 0 {
            Mnemonic::Casb
        } else if l == 0 {
            Mnemonic::Caslb
        } else if rel == 0 {
            Mnemonic::Casab
        } else {
            Mnemonic::Casalb
        }
    } else if size == 1 {
        if l == 0 && rel == 0 {
            Mnemonic::Cash
        } else if l == 0 {
            Mnemonic::Caslh
        } else if rel == 0 {
            Mnemonic::Casah
        } else {
            Mnemonic::Casalh
        }
    } else {
        if l == 0 && rel == 0 {
            Mnemonic::Cas
        } else if l == 0 {
            Mnemonic::Casl
        } else if rel == 0 {
            Mnemonic::Casa
        } else {
            Mnemonic::Casal
        }
    }
}

fn cas_mnemonic_exec(o0: u32, size: u32, l: u32, rel: u32) -> (r: Mnemonic)
    ensures
        r == cas_mnemonic(o0, size, l, rel),
{
    if o0 == 0 {
        if l == 0 && rel == 0 {
            Mnemonic::Casp
        } else if l == 0 {
            Mnemonic::Caspl
        } else if rel == 0 {
            Mnemonic::Caspa
        } else {
            Mnemonic::Caspal
        }
    } else if size == 0 {
        if l == 0 && rel == 0 {
            Mnemonic::Casb
        } else if l == 0 {
            Mnemonic::Caslb
        } else if rel == 0 {
            Mnemonic::Casab
        } else {
            Mnemonic::Casalb
        }
    } else if size == 1 {
        if l == 0 && rel == 0 {
            Mnemonic::Cash
        } else if l == 0 {
            Mnemonic::Caslh
        } else if rel == 0 {
            Mnemonic::Casah
        } else {
            Mnemonic::Casalh
        }
    } else {
        if l == 0 && rel == 0 {
            Mnemonic::Cas
        } else if l == 0 {
            Mnemonic::Casl
        } else if rel == 0 {
            Mnemonic::Casa
        } else {
            Mnemonic::Casal
        }
    }
}

/// Code and mnemonic of an exclusive or ordered access by load `L`, `size`, pair bit
/// 21 and `o0` (bit 23: acquire/release forms).
pub open spec fn exclusive_op(l: u32, size: u32, pair: bool, o0: u32) -> (Code, Mnemonic) {
    if l != 0 {
        if pair {
            (Code::Ldxrp, Mnemonic::Ldxp)
        } else if o0 == 1 {
            if size == 0 { (Code::Ldarb, Mnemonic::Ldarb) } else if size == 1 { (Code::Ldarh, Mnemonic::Ldarh) } else { (Code::Ldar, Mnemonic::Ldar) }
        } else {
            if size == 0 { (Code::Ldxrb, Mnemonic::Ldxrb) } else if size == 1 { (Code::Ldxrh, Mnemonic::Ldxrh) } else { (Code::Ldxr, Mnemonic::Ldxr) }
        }
    } else {
        if pair {
            (Code::Stxrp, Mnemonic::Stxp)
        } else if o0 == 1 {
            if size == 0 { (Code::Stlrb, Mnemonic::Stlrb) } else if size == 1 { (Code::Stlrh, Mnemonic::Stlrh) } else { (Code::Stlr, Mnemonic::Stlr) }
        } else {
            if size == 0 { (Code::Stxrb, Mnemonic::Stxrb) } else if size == 1 { (Code::Stxrh, Mnemonic::Stxrh) } else { (Code::Stxr, Mnemonic::Stxr) }
        }
    }
}

/// Exclusive and ordered accesses: CAS/CASP when the pair bit is set with `Rt2` = 31,
/// otherwise the exclusive and acquire/release loads and stores.
pub open spec fn exclusive_spec(vaddr: u64, raw: u32) -> Instruction {
    if bit_at(raw, 21) != 0 && field(raw, 14, 10) == 31 {
        cas_spec(vaddr, raw)
    } else {
        exclusive_plain_spec(vaddr, raw)
    }
}

fn decode_exclusive(vaddr: u64, raw: u32) -> (r: Instruction)
    ensures
        r == exclusive_spec(vaddr, raw),
{
    // CAS / CASP: bit21=1, Rt2=11111; bit23=0 → CASP, bit23=1 → CAS; bit15=release
    if bit(raw, 21) != 0 && bits(raw, 14, 10) == 0b11111 {
        decode_cas(vaddr, raw)
    } else {
        decode_exclusive_plain(vaddr, raw)
    }
}

/// CAS/CASP: `Rs`, `Rt` and the memory operand; registers are 64-bit for `size = 3`
/// (CASP: `size >= 1`).
pub open spec fn cas_spec(vaddr: u64, raw: u32) -> Instruction {
    let size = field(raw, 31, 30);
    let o0 = bit_at(raw, 23);
    let cas_sf = if o0 == 0 { size >= 1 } else { size >= 3 };
    with_mem(
        reg1(
            reg0(
                Instruction::meta(vaddr, raw, Code::Ldxr, cas_mnemonic(o0, size, bit_at(raw, 22), bit_at(raw, 15))),
                Register::gpr_at(cas_sf, field(raw, 20, 16), false),
            ),
            Register::gpr_at(cas_sf, field(raw, 4, 0), false),
        ),
        raw,
        2,
        0,
        MemMode::Offset,
    )
}

fn decode_cas(vaddr: u64, raw: u32) -> (r: Instruction)
    ensures
        r == cas_spec(vaddr, raw),
{
    let size = bits(raw, 31, 30);
    let o0 = bit(raw, 23);
    let mnemonic = cas_mnemonic_exec(o0, size, bit(raw, 22), bit(raw, 15));
    let cas_sf = if o0 == 0 { size >= 1 } else { size >= 3 };
    let mut i = Instruction::with_meta(vaddr, raw, Code::Ldxr, mnemonic);
    i.op_count = 3;
    i.op0_kind = OpKind::Register;
    i.op0_reg = Register::gpr(cas_sf, bits(raw, 20, 16), false);
    i.op1_kind = OpKind::Register;
    i.op1_reg = Register::gpr(cas_sf, bits(raw, 4, 0), false);
    i.op2_kind = OpKind::Memory;
    i.memory_base = Register::gpr(true, bits(raw, 9, 5), true);
    i.mem_mode = MemMode::Offset;
    i
}

/// Exclusive and ordered loads and stores: loads take `Rt` (and `Rt2`); STLR takes
/// `Rt`; exclusive stores take the status register `Ws`, `Rt` (and `Rt2`); then the
/// memory operand. Registers are 64-bit for `size = 3`.
pub open spec fn exclusive_plain_spec(vaddr: u64, raw: u32) -> Instruction {
    let size = field(raw, 31, 30);
    let l = bit_at(raw, 22);
    let rs = field(raw, 20, 16);
    let rt2 = field(raw, 14, 10);
    let rt = field(raw, 4, 0);
    let sf = size == 3;
    let pair = bit_at(raw, 21) != 0;
    let (code, mnemonic) = exclusive_op(l, size, pair, bit_at(raw, 23));
    let i = Instruction::meta(vaddr, raw, code, mnemonic);
    if l != 0 {
        if pair {
            with_mem(reg1(reg0(i, Register::gpr_at(sf, rt, false)), Register::gpr_at(sf, rt2, false)), raw, 2, 0, MemMode::Offset)
        } else {
            with_mem(reg0(i, Register::gpr_at(sf, rt, false)), raw, 1, 0, MemMode::Offset)
        }
    } else if mnemonic == Mnemonic::Stlr || mnemonic == Mnemonic::Stlrb || mnemonic == Mnemonic::Stlrh {
        with_mem(reg0(i, Register::gpr_at(sf, rt, false)), raw, 1, 0, MemMode::Offset)
    } else if pair {
        with_mem(
            reg2(reg1(reg0(i, Register::w_at(rs)), Register::gpr_at(sf, rt, false)), Register::gpr_at(sf, rt2, false)),
            raw,
            3,
            0,
            MemMode::Offset,
        )
    } else {
        with_mem(reg1(reg0(i, Register::w_at(rs)), Register::gpr_at(sf, rt, false)), raw, 2, 0, MemMode::Offset)
    }
}

fn exclusive_op_exec(l: u32, size: u32, pair: bool, o0: u32) -> (r: (Code, Mnemonic))
    ensures
        r == exclusive_op(l, size, pair, o0),
{
    if l != 0 {
        if pair {
            (Code::Ldxrp, Mnemonic::Ldxp)
        } else if o0 == 1 {
            if size == 0 { (Code::Ldarb, Mnemonic::Ldarb) } else if size == 1 { (Code::Ldarh, Mnemonic::Ldarh) } else { (Code::Ldar, Mnemonic::Ldar) }
        } else {
            if size == 0 { (Code::Ldxrb, Mnemonic::Ldxrb) } else if size == 1 { (Code::Ldxrh, Mnemonic::Ldxrh) } else { (Code::Ldxr, Mnemonic::Ldxr) }
        }
    } else {
        if pair {
            (Code::Stxrp, Mnemonic::Stxp)
        } else if o0 == 1 {
            if size == 0 { (Code::Stlrb, Mnemonic::Stlrb) } else if size == 1 { (Code::Stlrh, Mnemonic::Stlrh) } else { (Code::Stlr, Mnemonic::Stlr) }
        } else {
            if size == 0 { (Code::Stxrb, Mnemonic::Stxrb) } else if size == 1 { (Code::Stxrh, Mnemonic::Stxrh) } else { (Code::Stxr, Mnemonic::Stxr) }
        }
    }
}

fn decode_exclusive_plain(vaddr: u64, raw: u32) -> (r: Instruction)
    ensures
        r == exclusive_plain_spec(vaddr, raw),
{
    let size = bits(raw, 31, 30);
    let l = bit(raw, 22);
    let rs = bits(raw, 20, 16);
    let rt2 = bits(raw, 14, 10);
    let rn = bits(raw, 9, 5);
    let rt = bits(raw, 4, 0);
    let sf = size == 3;
    let pair = bit(raw, 21) != 0;
    let (code, mnemonic) = exclusive_op_exec(l, size, pair, bit(raw, 23));

    let mut i = Instruction::with_meta(vaddr, raw, code, mnemonic);
    if l != 0 {
        i.op_count = if pair { 3 } else { 2 };
        i.op0_kind = OpKind::Register;
        i.op0_reg = Register::gpr(sf, rt, false);
        if pair {
            i.op1_kind = OpKind::Register;
            i.op1_reg = Register::gpr(sf, rt2, false);
            i.op2_kind = OpKind::Memory;
        } else {
            i.op1_kind = OpKind::Memory;
        }
    } else if mnemonic == Mnemonic::Stlr || mnemonic == Mnemonic::Stlrb || mnemonic == Mnemonic::Stlrh {
        i.op_count = 2;
        i.op0_kind = OpKind::Register;
        i.op0_reg = Register::gpr(sf, rt, false);
        i.op1_kind = OpKind::Memory;
    } else {
        i.op_count = if pair { 4 } else { 3 };
        i.op0_kind = OpKind::Register;
        i.op0_reg = Register::w(rs);  // status
        i.op1_kind = OpKind::Register;
        i.op1_reg = Register::gpr(sf, rt, false);
        if pair {
            i.op2_kind = OpKind::Register;
            i.op2_reg = Register::gpr(sf, rt2, false);
            i.op3_kind = OpKind::Memory;
        } else {
            i.op2_kind = OpKind::Memory;
        }
    }
    i.memory_base = Register::gpr(true, rn, true);
    i.mem_mode = MemMode::Offset;
    i
}

/// Mnemonic and register count of a multiple-structure access by `L` and `opcode`
/// (bits [15:12]).
pub open spec fn ldst_multi_op(l: u32, opcode: u32) -> Option<(Mnemonic, u8)> {
    let ld = l == 1;
    if opcode == 0 {
        Some((if ld { Mnemonic::Ld4 } else { Mnemonic::St4 }, 4))
    } else if opcode == 2 {
        Some((if ld { Mnemonic::Ld1 } else { Mnemonic::St1 }, 4))
    } else if opcode == 4 {
        Some((if ld { Mnemonic::Ld3 } else { Mnemonic::St3 }, 3))
    } else if opcode == 6 {
        Some((if ld { Mnemonic::Ld1 } else { Mnemonic::St1 }, 3))
    } else if opcode == 7 {
        Some((if ld { Mnemonic::Ld1 } else { Mnemonic::St1 }, 1))
    } else if opcode == 8 {
        Some((if ld { Mnemonic::Ld2 } else { Mnemonic::St2 }, 2))
    } else if opcode == 10 {
        Some((if ld { Mnemonic::Ld1 } else { Mnemonic::St1 }, 2))
    } else {
        None
    }
}

/// The post-index part of a SIMD structure access (bit 23) as offset, index register
/// and mode: with `Rm` = 31 the base advances by `step` bytes, else by the register
/// `Xm`; without bit 23 the access is a plain offset.
pub open spec fn structure_post(raw: u32, step: i32) -> (i32, Register, MemMode) {
    if bit_at(raw, 23) != 0 {
        if field(raw, 20, 16) == 31 {
            (step, Register::Absent, MemMode::PostIndex)
        } else {
            (0, Register::gpr_at(true, field(raw, 20, 16), false), MemMode::PostIndex)
        }
    } else {
        (0, Register::Absent, MemMode::Offset)
    }
}

/// `i` with the post-index part of a SIMD structure access (see `structure_post`).
pub open spec fn structure_index(i: Instruction, raw: u32, step: i32) -> Instruction {
    let (offset, index, mode) = structure_post(raw, step);
    Instruction { memory_offset: offset, memory_index: index, mem_mode: mode, ..i }
}

/// LD1-LD4 / ST1-ST4 (multiple structures): the first vector `Vt` with the register
/// count as its immediate, the arrangement by `Q` and `size`; the post-index step is the
/// total transfer size.
pub open spec fn simd_ldst_multi_spec(vaddr: u64, raw: u32) -> Instruction {
    let q = bit_at(raw, 30);
    match ldst_multi_op(bit_at(raw, 22), field(raw, 15, 12)) {
        None => undefined(vaddr, raw),
        Some((mnemonic, regs)) => structure_index(
            Instruction {
                arrangement: arrangement_of(q, field(raw, 11, 10)),
                op_count: 2,
                op0_kind: OpKind::Register,
                op0_reg: Register::v_at(field(raw, 4, 0)),
                op0_imm: regs as u64,
                op1_kind: OpKind::Memory,
                memory_base: Register::gpr_at(true, field(raw, 9, 5), true),
                ..Instruction::meta(vaddr, raw, Code::Simd_ldst_multi, mnemonic)
            },
            raw,
            (regs * (if q != 0 { 16u8 } else { 8u8 })) as i32,
        ),
    }
}

fn decode_simd_ldst_multi(vaddr: u64, raw: u32) -> (r: Instruction)
    ensures
        r == simd_ldst_multi_spec(vaddr, raw),
{
    let q = bit(raw, 30);
    let l = bit(raw, 22);
    let opcode = bits(raw, 15, 12);
    let size = bits(raw, 11, 10);
    let rn = bits(raw, 9, 5);
    let rt = bits(raw, 4, 0);
    let ld = l == 1;

    let (mnemonic, regs) = if opcode == 0 {
        (if ld { Mnemonic::Ld4 } else { Mnemonic::St4 }, 4u8)
    } else if opcode == 2 {
        (if ld { Mnemonic::Ld1 } else { Mnemonic::St1 }, 4)
    } else if opcode == 4 {
        (if ld { Mnemonic::Ld3 } else { Mnemonic::St3 }, 3)
    } else if opcode == 6 {
        (if ld { Mnemonic::Ld1 } else { Mnemonic::St1 }, 3)
    } else if opcode == 7 {
        (if ld { Mnemonic::Ld1 } else { Mnemonic::St1 }, 1)
    } else if opcode == 8 {
        (if ld { Mnemonic::Ld2 } else { Mnemonic::St2 }, 2)
    } else if opcode == 10 {
        (if ld { Mnemonic::Ld1 } else { Mnemonic::St1 }, 2)
    } else {
        return undef(vaddr, raw);
    };

    let mut i = Instruction::with_meta(vaddr, raw, Code::Simd_ldst_multi, mnemonic);
    i.arrangement = arrangement(q, size);
    i.op_count = 2;
    i.op0_kind = OpKind::Register;
    i.op0_reg = Register::v(rt);
    i.op0_imm = regs as u64;  // register-list length
    i.op1_kind = OpKind::Memory;
    i.memory_base = Register::gpr(true, rn, true);
    // Total bytes transferred: regs * register size
    let q_bytes: u8 = if q != 0 { 16 } else { 8 };
    let (offset, index, mode) = post_index(raw, (regs * q_bytes) as i32);
    i.memory_offset = offset;
    i.memory_index = index;
    i.mem_mode = mode;
    i
}

/// Mnemonic, register count and replication of a single-structure access by `L`,
/// `opcode` (bits [15:13]) and `R` (bit 21): LD1R-LD4R for opcodes 110/111 (loads only),
/// else LDn/STn with `n = 1 + 2 * opcode<0> + R` for opcodes up to 101.
pub open spec fn ldst_single_op(l: u32, opcode: u32, r: u32) -> Option<(Mnemonic, u8, bool)> {
    if opcode == 6 {
        if l == 0 { None } else if r == 0 { Some((Mnemonic::Ld1r, 1, true)) } else { Some((Mnemonic::Ld2r, 2, true)) }
    } else if opcode == 7 {
        if l == 0 { None } else if r == 0 { Some((Mnemonic::Ld3r, 3, true)) } else { Some((Mnemonic::Ld4r, 4, true)) }
    } else if opcode > 5 {
        None
    } else {
        let n: u8 = if opcode % 2 == 0 { if r == 0 { 1 } else { 2 } } else { if r == 0 { 3 } else { 4 } };
        let m = if l == 1 {
            if n == 1 { Mnemonic::Ld1 } else if n == 2 { Mnemonic::Ld2 } else if n == 3 { Mnemonic::Ld3 } else { Mnemonic::Ld4 }
        } else {
            if n == 1 { Mnemonic::St1 } else if n == 2 { Mnemonic::St2 } else if n == 3 { Mnemonic::St3 } else { Mnemonic::St4 }
        };
        Some((m, n, false))
    }
}

fn ldst_single_op_exec(l: u32, opcode: u32, r: u32) -> (res: Option<(Mnemonic, u8, bool)>)
    requires
        l <= 1,
        r <= 1,
        opcode <= 7,
    ensures
        res == ldst_single_op(l, opcode, r),
{
    if opcode == 0b110 {
        if l == 0 {
            None
        } else if r == 0 {
            Some((Mnemonic::Ld1r, 1, true))
        } else {
            Some((Mnemonic::Ld2r, 2, true))
        }
    } else if opcode == 0b111 {
        if l == 0 {
            None
        } else if r == 0 {
            Some((Mnemonic::Ld3r, 3, true))
        } else {
            Some((Mnemonic::Ld4r, 4, true))
        }
    } else if opcode > 0b101 {
        None
    } else {
        // Capstone/LLVM structure count: n = 1 + 2*(opcode&1) + R
        let n = (1 + 2 * (opcode % 2) + r) as u8;
        let m = if l == 1 {
            if n == 1 { Mnemonic::Ld1 } else if n == 2 { Mnemonic::Ld2 } else if n == 3 { Mnemonic::Ld3 } else { Mnemonic::Ld4 }
        } else {
            if n == 1 { Mnemonic::St1 } else if n == 2 { Mnemonic::St2 } else if n == 3 { Mnemonic::St3 } else { Mnemonic::St4 }
        };
        Some((m, n, false))
    }
}

/// Arrangement, lane index and element bytes of a single-structure access: replicating
/// forms use `Q`/`size` like the multiple forms; others by opcode group: B (000/001),
/// H (010/011), S or D (100/101 by `size<0>`).
pub open spec fn single_lane(q: u32, s: u32, size: u32, opcode: u32, replicate: bool) -> (Arrangement, u8, i32) {
    if replicate {
        (arrangement_of(q, size), 0, if size == 0 { 1 } else if size == 1 { 2 } else if size == 2 { 4 } else { 8 })
    } else if opcode <= 1 {
        (Arrangement::B16, (q * 8 + s * 4 + size) as u8, 1)
    } else if opcode <= 3 {
        (if q != 0 { Arrangement::H8 } else { Arrangement::H4 }, (q * 4 + s * 2 + size / 2) as u8, 2)
    } else if size % 2 == 0 {
        (if q != 0 { Arrangement::S4 } else { Arrangement::S2 }, (q * 2 + s) as u8, 4)
    } else {
        (if q != 0 { Arrangement::D2 } else { Arrangement::D1 }, q as u8, 8)
    }
}

/// LD1-LD4 / ST1-ST4 (single structure), the replicating LD1R-LD4R and LDAP1/STL1
/// (opcode 100, S = 0, size = 01, R = 0, Rm = 00001, no post-index: arrangement 2D,
/// lane `Q`). The post-index step is the register count times the element size.
pub open spec fn simd_ldst_single_spec(vaddr: u64, raw: u32) -> Instruction {
    let q = bit_at(raw, 30);
    let l = bit_at(raw, 22);
    let r = bit_at(raw, 21);
    let opcode = field(raw, 15, 13);
    let s = bit_at(raw, 12);
    let size = field(raw, 11, 10);
    let base = Instruction {
        op_count: 2,
        op0_kind: OpKind::Register,
        op0_reg: Register::v_at(field(raw, 4, 0)),
        op1_kind: OpKind::Memory,
        memory_base: Register::gpr_at(true, field(raw, 9, 5), true),
        ..Instruction::meta(vaddr, raw, Code::Simd_ldst_single, Mnemonic::Invalid)
    };
    if opcode == 4 && s == 0 && size == 1 && r == 0 && field(raw, 20, 16) == 1 && bit_at(raw, 23) == 0 {
        Instruction {
            mnemonic: if l != 0 { Mnemonic::Ldap1 } else { Mnemonic::Stl1 },
            arrangement: Arrangement::D2,
            vector_index: q as u8,
            op0_imm: 1,
            mem_mode: MemMode::Offset,
            ..base
        }
    } else {
        match ldst_single_op(l, opcode, r) {
            None => undefined(vaddr, raw),
            Some((mnemonic, regs, replicate)) => {
                let (arr, index, elem) = single_lane(q, s, size, opcode, replicate);
                structure_index(
                    Instruction {
                        mnemonic,
                        arrangement: arr,
                        vector_index: index,
                        op0_imm: regs as u64,
                        ..base
                    },
                    raw,
                    (regs as i32 * elem) as i32,
                )
            },
        }
    }
}

fn decode_simd_ldst_single(vaddr: u64, raw: u32) -> (r: Instruction)
    ensures
        r == simd_ldst_single_spec(vaddr, raw),
{
    let q = bit(raw, 30);
    let l = bit(raw, 22);
    let r = bit(raw, 21);
    let opcode = bits(raw, 15, 13);
    let s = bit(raw, 12);
    let size = bits(raw, 11, 10);

    // LDAP1 / STL1 (FEAT_LRCPC3): opcode=100, S=0, size=01, Rm=00001
    if opcode == 0b100 && s == 0 && size == 0b01 && r == 0 && bits(raw, 20, 16) == 0b00001 && bit(raw, 23) == 0 {
        let mut i = structure_base(vaddr, raw);
        i.mnemonic = if l != 0 { Mnemonic::Ldap1 } else { Mnemonic::Stl1 };
        i.arrangement = Arrangement::D2;
        i.vector_index = q as u8;
        i.op0_imm = 1;
        i.mem_mode = MemMode::Offset;
        return i;
    }

    let (mnemonic, regs, replicate) = match ldst_single_op_exec(l, opcode, r) {
        Some(t) => t,
        None => {
            return undef(vaddr, raw);
        },
    };
    let (arr, index, elem) = single_lane_exec(q, s, size, opcode, replicate);
    assert(1 <= regs <= 4 && 1 <= elem <= 8);
    let mut i = structure_base(vaddr, raw);
    i.mnemonic = mnemonic;
    i.arrangement = arr;
    i.vector_index = index;
    i.op0_imm = regs as u64;
    assert((regs as i32) * elem <= 32) by (nonlinear_arith)
        requires
            1 <= regs <= 4,
            1 <= elem <= 8,
    ;
    let (offset, index, mode) = post_index(raw, (regs as i32) * elem);
    i.memory_offset = offset;
    i.memory_index = index;
    i.mem_mode = mode;
    i
}

/// The common part of a single-structure access: `Vt` and the memory operand.
fn structure_base(vaddr: u64, raw: u32) -> (r: Instruction)
    ensures
        r == (Instruction {
            op_count: 2,
            op0_kind: OpKind::Register,
            op0_reg: Register::v_at(field(raw, 4, 0)),
            op1_kind: OpKind::Memory,
            memory_base: Register::gpr_at(true, field(raw, 9, 5), true),
            ..Instruction::meta(vaddr, raw, Code::Simd_ldst_single, Mnemonic::Invalid)
        }),
{
    let mut i = Instruction::with_meta(vaddr, raw, Code::Simd_ldst_single, Mnemonic::Invalid);
    i.op_count = 2;
    i.op0_kind = OpKind::Register;
    i.op0_reg = Register::v(bits(raw, 4, 0));
    i.op1_kind = OpKind::Memory;
    i.memory_base = Register::gpr(true, bits(raw, 9, 5), true);
    i
}

fn single_lane_exec(q: u32, s: u32, size: u32, opcode: u32, replicate: bool) -> (r: (Arrangement, u8, i32))
    requires
        q <= 1,
        s <= 1,
        size <= 3,
    ensures
        r == single_lane(q, s, size, opcode, replicate),
{
    if replicate {
        (arrangement(q, size), 0, if size == 0 { 1 } else if size == 1 { 2 } else if size == 2 { 4 } else { 8 })
    } else if opcode <= 1 {
        (Arrangement::B16, (q * 8 + s * 4 + size) as u8, 1)  // .B
    } else if opcode <= 3 {
        (if q != 0 { Arrangement::H8 } else { Arrangement::H4 }, (q * 4 + s * 2 + size / 2) as u8, 2)  // .H
    } else if size % 2 == 0 {
        (if q != 0 { Arrangement::S4 } else { Arrangement::S2 }, (q * 2 + s) as u8, 4)  // .S
    } else {
        (if q != 0 { Arrangement::D2 } else { Arrangement::D1 }, q as u8, 8)  // .D
    }
}

/// The post-index part of a SIMD structure access (see `structure_post`).
fn post_index(raw: u32, step: i32) -> (r: (i32, Register, MemMode))
    ensures
        r == structure_post(raw, step),
{
    if bit(raw, 23) != 0 {
        let rm = bits(raw, 20, 16);
        if rm == 0b11111 {
            (step, Register::Absent, MemMode::PostIndex)
        } else {
            (0, Register::gpr(true, rm, false), MemMode::PostIndex)
        }
    } else {
        (0, Register::Absent, MemMode::Offset)
    }
}

/// Mnemonic of RCWCAS/RCWCASP and the soft (RCWS) forms by `soft`, `pair`, acquire
/// `A` and release `R`.
pub open spec fn rcw_cas_mnemonic(soft: bool, pair: bool, a: u32, r: u32) -> Mnemonic {
    if !soft && !pair && a == 0 && r == 0 {
        Mnemonic::Rcwcas
    } else if !soft && !pair && a == 1 && r == 0 {
        Mnemonic::Rcwcasa
    } else if !soft && !pair && a == 1 && r == 1 {
        Mnemonic::Rcwcasal
    } else if !soft && !pair && a == 0 && r == 1 {
        Mnemonic::Rcwcasl
    } else if !soft && pair && a == 0 && r == 0 {
        Mnemonic::Rcwcasp
    } else if !soft && pair && a == 1 && r == 0 {
        Mnemonic::Rcwcaspa
    } else if !soft && pair && a == 1 && r == 1 {
        Mnemonic::Rcwcaspal
    } else if !soft && pair && a == 0 && r == 1 {
        Mnemonic::Rcwcaspl
    } else if soft && !pair && a == 0 && r == 0 {
        Mnemonic::Rcwscas
    } else if soft && !pair && a == 1 && r == 0 {
        Mnemonic::Rcwscasa
    } else if soft && !pair && a == 1 && r == 1 {
        Mnemonic::Rcwscasal
    } else if soft && !pair && a == 0 && r == 1 {
        Mnemonic::Rcwscasl
    } else if soft && pair && a == 0 && r == 0 {
        Mnemonic::Rcwscasp
    } else if soft && pair && a == 1 && r == 0 {
        Mnemonic::Rcwscaspa
    } else if soft && pair && a == 1 && r == 1 {
        Mnemonic::Rcwscaspal
    } else if soft && pair && a == 0 && r == 1 {
        Mnemonic::Rcwscaspl
    } else {
        Mnemonic::Rcwcas
    }
}

fn rcw_cas_mnemonic_exec(soft: bool, pair: bool, a: u32, r: u32) -> (m: Mnemonic)
    ensures
        m == rcw_cas_mnemonic(soft, pair, a, r),
{
    if !soft && !pair && a == 0 && r == 0 {
        Mnemonic::Rcwcas
    } else if !soft && !pair && a == 1 && r == 0 {
        Mnemonic::Rcwcasa
    } else if !soft && !pair && a == 1 && r == 1 {
        Mnemonic::Rcwcasal
    } else if !soft && !pair && a == 0 && r == 1 {
        Mnemonic::Rcwcasl
    } else if !soft && pair && a == 0 && r == 0 {
        Mnemonic::Rcwcasp
    } else if !soft && pair && a == 1 && r == 0 {
        Mnemonic::Rcwcaspa
    } else if !soft && pair && a == 1 && r == 1 {
        Mnemonic::Rcwcaspal
    } else if !soft && pair && a == 0 && r == 1 {
        Mnemonic::Rcwcaspl
    } else if soft && !pair && a == 0 && r == 0 {
        Mnemonic::Rcwscas
    } else if soft && !pair && a == 1 && r == 0 {
        Mnemonic::Rcwscasa
    } else if soft && !pair && a == 1 && r == 1 {
        Mnemonic::Rcwscasal
    } else if soft && !pair && a == 0 && r == 1 {
        Mnemonic::Rcwscasl
    } else if soft && pair && a == 0 && r == 0 {
        Mnemonic::Rcwscasp
    } else if soft && pair && a == 1 && r == 0 {
        Mnemonic::Rcwscaspa
    } else if soft && pair && a == 1 && r == 1 {
        Mnemonic::Rcwscaspal
    } else if soft && pair && a == 0 && r == 1 {
        Mnemonic::Rcwscaspl
    } else {
        Mnemonic::Rcwcas
    }
}

/// Mnemonic of RCWCLR/RCWSWP/RCWSET (`opc` 1/2/3), their pair and soft forms, by
/// `soft`, `pair`, acquire `A` and release `R`; `None` for other `opc` values.
pub open spec fn rcw_op_mnemonic(opc: u32, soft: bool, pair: bool, a: u32, r: u32) -> Option<Mnemonic> {
    if opc == 1 && !soft && !pair && a == 0 && r == 0 {
        Some(Mnemonic::Rcwclr)
    } else if opc == 1 && !soft && !pair && a == 1 && r == 0 {
        Some(Mnemonic::Rcwclra)
    } else if opc == 1 && !soft && !pair && a == 1 && r == 1 {
        Some(Mnemonic::Rcwclral)
    } else if opc == 1 && !soft && !pair && a == 0 && r == 1 {
        Some(Mnemonic::Rcwclrl)
    } else if opc == 1 && !soft && pair && a == 0 && r == 0 {
        Some(Mnemonic::Rcwclrp)
    } else if opc == 1 && !soft && pair && a == 1 && r == 0 {
        Some(Mnemonic::Rcwclrpa)
    } else if opc == 1 && !soft && pair && a == 1 && r == 1 {
        Some(Mnemonic::Rcwclrpal)
    } else if opc == 1 && !soft && pair && a == 0 && r == 1 {
        Some(Mnemonic::Rcwclrpl)
    } else if opc == 1 && soft && !pair && a == 0 && r == 0 {
        Some(Mnemonic::Rcwsclr)
    } else if opc == 1 && soft && !pair && a == 1 && r == 0 {
        Some(Mnemonic::Rcwsclra)
    } else if opc == 1 && soft && !pair && a == 1 && r == 1 {
        Some(Mnemonic::Rcwsclral)
    } else if opc == 1 && soft && !pair && a == 0 && r == 1 {
        Some(Mnemonic::Rcwsclrl)
    } else if opc == 1 && soft && pair && a == 0 && r == 0 {
        Some(Mnemonic::Rcwsclrp)
    } else if opc == 1 && soft && pair && a == 1 && r == 0 {
        Some(Mnemonic::Rcwsclrpa)
    } else if opc == 1 && soft && pair && a == 1 && r == 1 {
        Some(Mnemonic::Rcwsclrpal)
    } else if opc == 1 && soft && pair && a == 0 && r == 1 {
        Some(Mnemonic::Rcwsclrpl)
    } else if opc == 2 && !soft && !pair && a == 0 && r == 0 {
        Some(Mnemonic::Rcwswp)
    } else if opc == 2 && !soft && !pair && a == 1 && r == 0 {
        Some(Mnemonic::Rcwswpa)
    } else if opc == 2 && !soft && !pair && a == 1 && r == 1 {
        Some(Mnemonic::Rcwswpal)
    } else if opc == 2 && !soft && !pair && a == 0 && r == 1 {
        Some(Mnemonic::Rcwswpl)
    } else if opc == 2 && !soft && pair && a == 0 && r == 0 {
        Some(Mnemonic::Rcwswpp)
    } else if opc == 2 && !soft && pair && a == 1 && r == 0 {
        Some(Mnemonic::Rcwswppa)
    } else if opc == 2 && !soft && pair && a == 1 && r == 1 {
        Some(Mnemonic::Rcwswppal)
    } else if opc == 2 && !soft && pair && a == 0 && r == 1 {
        Some(Mnemonic::Rcwswppl)
    } else if opc == 2 && soft && !pair && a == 0 && r == 0 {
        Some(Mnemonic::Rcwsswp)
    } else if opc == 2 && soft && !pair && a == 1 && r == 0 {
        Some(Mnemonic::Rcwsswpa)
    } else if opc == 2 && soft && !pair && a == 1 && r == 1 {
        Some(Mnemonic::Rcwsswpal)
    } else if opc == 2 && soft && !pair && a == 0 && r == 1 {
        Some(Mnemonic::Rcwsswpl)
    } else if opc == 2 && soft && pair && a == 0 && r == 0 {
        Some(Mnemonic::Rcwsswpp)
    } else if opc == 2 && soft && pair && a == 1 && r == 0 {
        Some(Mnemonic::Rcwsswppa)
    } else if opc == 2 && soft && pair && a == 1 && r == 1 {
        Some(Mnemonic::Rcwsswppal)
    } else if opc == 2 && soft && pair && a == 0 && r == 1 {
        Some(Mnemonic::Rcwsswppl)
    } else if opc == 3 && !soft && !pair && a == 0 && r == 0 {
        Some(Mnemonic::Rcwset)
    } else if opc == 3 && !soft && !pair && a == 1 && r == 0 {
        Some(Mnemonic::Rcwseta)
    } else if opc == 3 && !soft && !pair && a == 1 && r == 1 {
        Some(Mnemonic::Rcwsetal)
    } else if opc == 3 && !soft && !pair && a == 0 && r == 1 {
        Some(Mnemonic::Rcwsetl)
    } else if opc == 3 && !soft && pair && a == 0 && r == 0 {
        Some(Mnemonic::Rcwsetp)
    } else if opc == 3 && !soft && pair && a == 1 && r == 0 {
        Some(Mnemonic::Rcwsetpa)
    } else if opc == 3 && !soft && pair && a == 1 && r == 1 {
        Some(Mnemonic::Rcwsetpal)
    } else if opc == 3 && !soft && pair && a == 0 && r == 1 {
        Some(Mnemonic::Rcwsetpl)
    } else if opc == 3 && soft && !pair && a == 0 && r == 0 {
        Some(Mnemonic::Rcwsset)
    } else if opc == 3 && soft && !pair && a == 1 && r == 0 {
        Some(Mnemonic::Rcwsseta)
    } else if opc == 3 && soft && !pair && a == 1 && r == 1 {
        Some(Mnemonic::Rcwssetal)
    } else if opc == 3 && soft && !pair && a == 0 && r == 1 {
        Some(Mnemonic::Rcwssetl)
    } else if opc == 3 && soft && pair && a == 0 && r == 0 {
        Some(Mnemonic::Rcwssetp)
    } else if opc == 3 && soft && pair && a == 1 && r == 0 {
        Some(Mnemonic::Rcwssetpa)
    } else if opc == 3 && soft && pair && a == 1 && r == 1 {
        Some(Mnemonic::Rcwssetpal)
    } else if opc == 3 && soft && pair && a == 0 && r == 1 {
        Some(Mnemonic::Rcwssetpl)
    } else {
        None
    }
}

fn rcw_op_mnemonic_exec(opc: u32, soft: bool, pair: bool, a: u32, r: u32) -> (m: Option<Mnemonic>)
    ensures
        m == rcw_op_mnemonic(opc, soft, pair, a, r),
{
    if opc == 1 && !soft && !pair && a == 0 && r == 0 {
        Some(Mnemonic::Rcwclr)
    } else if opc == 1 && !soft && !pair && a == 1 && r == 0 {
        Some(Mnemonic::Rcwclra)
    } else if opc == 1 && !soft && !pair && a == 1 && r == 1 {
        Some(Mnemonic::Rcwclral)
    } else if opc == 1 && !soft && !pair && a == 0 && r == 1 {
        Some(Mnemonic::Rcwclrl)
    } else if opc == 1 && !soft && pair && a == 0 && r == 0 {
        Some(Mnemonic::Rcwclrp)
    } else if opc == 1 && !soft && pair && a == 1 && r == 0 {
        Some(Mnemonic::Rcwclrpa)
    } else if opc == 1 && !soft && pair && a == 1 && r == 1 {
        Some(Mnemonic::Rcwclrpal)
    } else if opc == 1 && !soft && pair && a == 0 && r == 1 {
        Some(Mnemonic::Rcwclrpl)
    } else if opc == 1 && soft && !pair && a == 0 && r == 0 {
        Some(Mnemonic::Rcwsclr)
    } else if opc == 1 && soft && !pair && a == 1 && r == 0 {
        Some(Mnemonic::Rcwsclra)
    } else if opc == 1 && soft && !pair && a == 1 && r == 1 {
        Some(Mnemonic::Rcwsclral)
    } else if opc == 1 && soft && !pair && a == 0 && r == 1 {
        Some(Mnemonic::Rcwsclrl)
    } else if opc == 1 && soft && pair && a == 0 && r == 0 {
        Some(Mnemonic::Rcwsclrp)
    } else if opc == 1 && soft && pair && a == 1 && r == 0 {
        Some(Mnemonic::Rcwsclrpa)
    } else if opc == 1 && soft && pair && a == 1 && r == 1 {
        Some(Mnemonic::Rcwsclrpal)
    } else if opc == 1 && soft && pair && a == 0 && r == 1 {
        Some(Mnemonic::Rcwsclrpl)
    } else if opc == 2 && !soft && !pair && a == 0 && r == 0 {
        Some(Mnemonic::Rcwswp)
    } else if opc == 2 && !soft && !pair && a == 1 && r == 0 {
        Some(Mnemonic::Rcwswpa)
    } else if opc == 2 && !soft && !pair && a == 1 && r == 1 {
        Some(Mnemonic::Rcwswpal)
    } else if opc == 2 && !soft && !pair && a == 0 && r == 1 {
        Some(Mnemonic::Rcwswpl)
    } else if opc == 2 && !soft && pair && a == 0 && r == 0 {
        Some(Mnemonic::Rcwswpp)
    } else if opc == 2 && !soft && pair && a == 1 && r == 0 {
        Some(Mnemonic::Rcwswppa)
    } else if opc == 2 && !soft && pair && a == 1 && r == 1 {
        Some(Mnemonic::Rcwswppal)
    } else if opc == 2 && !soft && pair && a == 0 && r == 1 {
        Some(Mnemonic::Rcwswppl)
    } else if opc == 2 && soft && !pair && a == 0 && r == 0 {
        Some(Mnemonic::Rcwsswp)
    } else if opc == 2 && soft && !pair && a == 1 && r == 0 {
        Some(Mnemonic::Rcwsswpa)
    } else if opc == 2 && soft && !pair && a == 1 && r == 1 {
        Some(Mnemonic::Rcwsswpal)
    } else if opc == 2 && soft && !pair && a == 0 && r == 1 {
        Some(Mnemonic::Rcwsswpl)
    } else if opc == 2 && soft && pair && a == 0 && r == 0 {
        Some(Mnemonic::Rcwsswpp)
    } else if opc == 2 && soft && pair && a == 1 && r == 0 {
        Some(Mnemonic::Rcwsswppa)
    } else if opc == 2 && soft && pair && a == 1 && r == 1 {
        Some(Mnemonic::Rcwsswppal)
    } else if opc == 2 && soft && pair && a == 0 && r == 1 {
        Some(Mnemonic::Rcwsswppl)
    } else if opc == 3 && !soft && !pair && a == 0 && r == 0 {
        Some(Mnemonic::Rcwset)
    } else if opc == 3 && !soft && !pair && a == 1 && r == 0 {
        Some(Mnemonic::Rcwseta)
    } else if opc == 3 && !soft && !pair && a == 1 && r == 1 {
        Some(Mnemonic::Rcwsetal)
    } else if opc == 3 && !soft && !pair && a == 0 && r == 1 {
        Some(Mnemonic::Rcwsetl)
    } else if opc == 3 && !soft && pair && a == 0 && r == 0 {
        Some(Mnemonic::Rcwsetp)
    } else if opc == 3 && !soft && pair && a == 1 && r == 0 {
        Some(Mnemonic::Rcwsetpa)
    } else if opc == 3 && !soft && pair && a == 1 && r == 1 {
        Some(Mnemonic::Rcwsetpal)
    } else if opc == 3 && !soft && pair && a == 0 && r == 1 {
        Some(Mnemonic::Rcwsetpl)
    } else if opc == 3 && soft && !pair && a == 0 && r == 0 {
        Some(Mnemonic::Rcwsset)
    } else if opc == 3 && soft && !pair && a == 1 && r == 0 {
        Some(Mnemonic::Rcwsseta)
    } else if opc == 3 && soft && !pair && a == 1 && r == 1 {
        Some(Mnemonic::Rcwssetal)
    } else if opc == 3 && soft && !pair && a == 0 && r == 1 {
        Some(Mnemonic::Rcwssetl)
    } else if opc == 3 && soft && pair && a == 0 && r == 0 {
        Some(Mnemonic::Rcwssetp)
    } else if opc == 3 && soft && pair && a == 1 && r == 0 {
        Some(Mnemonic::Rcwssetpa)
    } else if opc == 3 && soft && pair && a == 1 && r == 1 {
        Some(Mnemonic::Rcwssetpal)
    } else if opc == 3 && soft && pair && a == 0 && r == 1 {
        Some(Mnemonic::Rcwssetpl)
    } else {
        None
    }
}

/// The RCW mnemonic of a word by bits [14:10], `o3` and the size bits: CAS/CASP forms
/// (`o3 = 0`, `opc = 000`, bits [11:10] = 1x, pair for 11) and CLR/SWP/SET forms
/// (`o3 = 1`, bits [11:10] = 00, pair unless bits [29:27] = 111); soft forms for an odd
/// `size`.
pub open spec fn rcw_mnemonic(raw: u32) -> Option<Mnemonic> {
    let soft = field(raw, 31, 30) % 2 != 0;
    let a = bit_at(raw, 23);
    let r = bit_at(raw, 22);
    let o3 = bit_at(raw, 15);
    let opc = field(raw, 14, 12);
    let rt2_bits = field(raw, 11, 10);
    if o3 == 0 && opc == 0 && (rt2_bits == 2 || rt2_bits == 3) {
        Some(rcw_cas_mnemonic(soft, rt2_bits == 3, a, r))
    } else if o3 != 0 && rt2_bits == 0 {
        rcw_op_mnemonic(opc, soft, field(raw, 29, 27) != 7, a, r)
    } else {
        None
    }
}

/// RCW* read-check-write instructions: `Xs`, `Xt`, then the memory operand.
pub open spec fn rcw_spec(vaddr: u64, raw: u32) -> Instruction {
    match rcw_mnemonic(raw) {
        None => undefined(vaddr, raw),
        Some(mnemonic) => with_mem(
            reg1(
                reg0(Instruction::meta(vaddr, raw, Code::Ldxr, mnemonic), Register::x_at(field(raw, 20, 16))),
                Register::x_at(field(raw, 4, 0)),
            ),
            raw,
            2,
            0,
            MemMode::Offset,
        ),
    }
}

fn decode_rcw(vaddr: u64, raw: u32) -> (r: Instruction)
    ensures
        r == rcw_spec(vaddr, raw),
{
    let size = bits(raw, 31, 30);
    let soft = size % 2 != 0;  // RCWS*
    let a = bit(raw, 23);
    let r = bit(raw, 22);
    let rs = bits(raw, 20, 16);
    let o3 = bit(raw, 15);
    let opc = bits(raw, 14, 12);
    let rt2_bits = bits(raw, 11, 10);
    let rn = bits(raw, 9, 5);
    let rt = bits(raw, 4, 0);

    // CAS / CASP: bits[11:10]=10/11, o3=0, opc=0
    let mnemonic = if o3 == 0 && opc == 0 && (rt2_bits == 2 || rt2_bits == 3) {
        rcw_cas_mnemonic_exec(soft, rt2_bits == 3, a, r)
    } else if o3 != 0 && rt2_bits == 0b00 {
        // CLR/SWP/SET; the pair forms lie outside bits[29:27] = 111
        match rcw_op_mnemonic_exec(opc, soft, bits(raw, 29, 27) != 0b111, a, r) {
            Some(m) => m,
            None => {
                return undef(vaddr, raw);
            },
        }
    } else {
        return undef(vaddr, raw);
    };

    let mut i = Instruction::with_meta(vaddr, raw, Code::Ldxr, mnemonic);
    i.op_count = 3;
    i.op0_kind = OpKind::Register;
    i.op0_reg = Register::x(rs);
    i.op1_kind = OpKind::Register;
    i.op1_reg = Register::x(rt);
    i.op2_kind = OpKind::Memory;
    i.memory_base = Register::gpr(true, rn, true);
    i.mem_mode = MemMode::Offset;
    i
}

/// STILP (`opc<0>` = 0) / LDIAPP: `Rt1` (bits [4:0]) and `Rt2` (bits [20:16]), X
/// registers for `size = 3` and W otherwise, with a signed 9-bit offset; pre-index when
/// bit 11 is set, post-index for `opc = 01`.
pub open spec fn stilp_ldiapp_spec(vaddr: u64, raw: u32) -> Instruction {
    let size = field(raw, 31, 30);
    let opc = field(raw, 23, 22);
    let offset = sext(field(raw, 20, 12) as u64, 9) as i32;
    let wide = size >= 3;
    with_mem(
        reg1(
            reg0(
                Instruction::meta(
                    vaddr,
                    raw,
                    Code::Ldp,
                    if opc % 2 != 0 { Mnemonic::Ldiapp } else { Mnemonic::Stilp },
                ),
                Register::gpr_at(wide, field(raw, 4, 0), false),
            ),
            Register::gpr_at(wide, field(raw, 20, 16), false),
        ),
        raw,
        2,
        offset,
        if bit_at(raw, 11) != 0 {
            MemMode::PreIndex
        } else if opc == 1 {
            MemMode::PostIndex
        } else {
            MemMode::Offset
        },
    )
}

fn decode_stilp_ldiapp(vaddr: u64, raw: u32) -> (r: Instruction)
    ensures
        r == stilp_ldiapp_spec(vaddr, raw),
{
    let size = bits(raw, 31, 30);
    let opc = bits(raw, 23, 22);
    let imm9 = bits(raw, 20, 12);
    let rn = bits(raw, 9, 5);
    let rt = bits(raw, 4, 0);
    let rt2 = bits(raw, 20, 16);
    let offset = sign_extend(imm9 as u64, 9) as i32;
    let mnemonic = if opc % 2 != 0 { Mnemonic::Ldiapp } else { Mnemonic::Stilp };
    let sf = size >= 3;
    let mut i = Instruction::with_meta(vaddr, raw, Code::Ldp, mnemonic);
    i.op_count = 3;
    i.op0_kind = OpKind::Register;
    i.op0_reg = Register::gpr(sf, rt, false);
    i.op1_kind = OpKind::Register;
    i.op1_reg = Register::gpr(sf, rt2, false);
    i.op2_kind = OpKind::Memory;
    i.memory_base = Register::gpr(true, rn, true);
    i.memory_offset = offset;
    i.mem_mode = if bit(raw, 11) != 0 {
        MemMode::PreIndex
    } else if opc == 0b01 {
        MemMode::PostIndex
    } else {
        MemMode::Offset
    };
    i
}


/// Mnemonic of SWP and its byte/halfword and acquire/release forms by `size`, `A`, `R`.
pub open spec fn swp_mnemonic(size: u32, a: u32, r: u32) -> Mnemonic {
    if size == 0 {
        if a == 0 && r == 0 { Mnemonic::Swpb } else if r == 0 { Mnemonic::Swpab } else if a == 1 { Mnemonic::Swpalb } else { Mnemonic::Swplb }
    } else if size == 1 {
        if a == 0 && r == 0 { Mnemonic::Swph } else if r == 0 { Mnemonic::Swpah } else if a == 1 { Mnemonic::Swpalh } else { Mnemonic::Swplh }
    } else {
        if a == 0 && r == 0 { Mnemonic::Swp } else if r == 0 { Mnemonic::Swpa } else if a == 1 { Mnemonic::Swpal } else { Mnemonic::Swpl }
    }
}

fn swp_mnemonic_exec(size: u32, a: u32, r: u32) -> (m: Mnemonic)
    ensures
        m == swp_mnemonic(size, a, r),
{
    if size == 0 {
        if a == 0 && r == 0 { Mnemonic::Swpb } else if r == 0 { Mnemonic::Swpab } else if a == 1 { Mnemonic::Swpalb } else { Mnemonic::Swplb }
    } else if size == 1 {
        if a == 0 && r == 0 { Mnemonic::Swph } else if r == 0 { Mnemonic::Swpah } else if a == 1 { Mnemonic::Swpalh } else { Mnemonic::Swplh }
    } else {
        if a == 0 && r == 0 { Mnemonic::Swp } else if r == 0 { Mnemonic::Swpa } else if a == 1 { Mnemonic::Swpal } else { Mnemonic::Swpl }
    }
}

/// Mnemonic of an atomic memory operation by `opc` (ADD, CLR, EOR, SET, SMAX, SMIN,
/// UMAX, UMIN), the store alias (`Rt` = ZR), acquire `A` and release `R`. Loads take the
/// A/L/AL suffixes; of the store aliases only STSET, STEOR, STSMIN and STSMAX take L.
pub open spec fn atomic_op_mnemonic(opc: u32, store: bool, a: u32, r: u32) -> Mnemonic {
    if store {
        if opc == 0 {
            Mnemonic::Stadd
        } else if opc == 1 {
            Mnemonic::Stclr
        } else if opc == 2 {
            if a == 0 && r == 1 { Mnemonic::Steorl } else { Mnemonic::Steor }
        } else if opc == 3 {
            if a == 0 && r == 1 { Mnemonic::Stsetl } else { Mnemonic::Stset }
        } else if opc == 4 {
            if a == 0 && r == 1 { Mnemonic::Stsmaxl } else { Mnemonic::Stsmax }
        } else if opc == 5 {
            if a == 0 && r == 1 { Mnemonic::Stsminl } else { Mnemonic::Stsmin }
        } else if opc == 6 {
            Mnemonic::Stumax
        } else {
            Mnemonic::Stumin
        }
    } else if opc == 0 {
        if a == 0 && r == 0 { Mnemonic::Ldadd } else if r == 0 { Mnemonic::Ldadda } else if a == 1 { Mnemonic::Ldaddal } else { Mnemonic::Ldaddl }
    } else if opc == 1 {
        if a == 0 && r == 0 { Mnemonic::Ldclr } else if r == 0 { Mnemonic::Ldclra } else if a == 1 { Mnemonic::Ldclral } else { Mnemonic::Ldclrl }
    } else if opc == 2 {
        if a == 0 && r == 0 { Mnemonic::Ldeor } else if r == 0 { Mnemonic::Ldeora } else if a == 1 { Mnemonic::Ldeoral } else { Mnemonic::Ldeorl }
    } else if opc == 3 {
        if a == 0 && r == 0 { Mnemonic::Ldset } else if r == 0 { Mnemonic::Ldseta } else if a == 1 { Mnemonic::Ldsetal } else { Mnemonic::Ldsetl }
    } else if opc == 4 {
        if a == 0 && r == 0 { Mnemonic::Ldsmax } else if r == 0 { Mnemonic::Ldsmaxa } else if a == 1 { Mnemonic::Ldsmaxal } else { Mnemonic::Ldsmaxl }
    } else if opc == 5 {
        if a == 0 && r == 0 { Mnemonic::Ldsmin } else if r == 0 { Mnemonic::Ldsmina } else if a == 1 { Mnemonic::Ldsminal } else { Mnemonic::Ldsminl }
    } else if opc == 6 {
        if a == 0 && r == 0 { Mnemonic::Ldumax } else if r == 0 { Mnemonic::Ldumaxa } else if a == 1 { Mnemonic::Ldumaxal } else { Mnemonic::Ldumaxl }
    } else {
        if a == 0 && r == 0 { Mnemonic::Ldumin } else if r == 0 { Mnemonic::Ldumina } else if a == 1 { Mnemonic::Lduminal } else { Mnemonic::Lduminl }
    }
}

fn atomic_op_mnemonic_exec(opc: u32, store: bool, a: u32, r: u32) -> (m: Mnemonic)
    requires
        a <= 1,
        r <= 1,
    ensures
        m == atomic_op_mnemonic(opc, store, a, r),
{
    if store {
        if opc == 0 {
            Mnemonic::Stadd
        } else if opc == 1 {
            Mnemonic::Stclr
        } else if opc == 2 {
            if a == 0 && r == 1 { Mnemonic::Steorl } else { Mnemonic::Steor }
        } else if opc == 3 {
            if a == 0 && r == 1 { Mnemonic::Stsetl } else { Mnemonic::Stset }
        } else if opc == 4 {
            if a == 0 && r == 1 { Mnemonic::Stsmaxl } else { Mnemonic::Stsmax }
        } else if opc == 5 {
            if a == 0 && r == 1 { Mnemonic::Stsminl } else { Mnemonic::Stsmin }
        } else if opc == 6 {
            Mnemonic::Stumax
        } else {
            Mnemonic::Stumin
        }
    } else if opc == 0 {
        if a == 0 && r == 0 { Mnemonic::Ldadd } else if r == 0 { Mnemonic::Ldadda } else if a == 1 { Mnemonic::Ldaddal } else { Mnemonic::Ldaddl }
    } else if opc == 1 {
        if a == 0 && r == 0 { Mnemonic::Ldclr } else if r == 0 { Mnemonic::Ldclra } else if a == 1 { Mnemonic::Ldclral } else { Mnemonic::Ldclrl }
    } else if opc == 2 {
        if a == 0 && r == 0 { Mnemonic::Ldeor } else if r == 0 { Mnemonic::Ldeora } else if a == 1 { Mnemonic::Ldeoral } else { Mnemonic::Ldeorl }
    } else if opc == 3 {
        if a == 0 && r == 0 { Mnemonic::Ldset } else if r == 0 { Mnemonic::Ldseta } else if a == 1 { Mnemonic::Ldsetal } else { Mnemonic::Ldsetl }
    } else if opc == 4 {
        if a == 0 && r == 0 { Mnemonic::Ldsmax } else if r == 0 { Mnemonic::Ldsmaxa } else if a == 1 { Mnemonic::Ldsmaxal } else { Mnemonic::Ldsmaxl }
    } else if opc == 5 {
        if a == 0 && r == 0 { Mnemonic::Ldsmin } else if r == 0 { Mnemonic::Ldsmina } else if a == 1 { Mnemonic::Ldsminal } else { Mnemonic::Ldsminl }
    } else if opc == 6 {
        if a == 0 && r == 0 { Mnemonic::Ldumax } else if r == 0 { Mnemonic::Ldumaxa } else if a == 1 { Mnemonic::Ldumaxal } else { Mnemonic::Ldumaxl }
    } else {
        if a == 0 && r == 0 { Mnemonic::Ldumin } else if r == 0 { Mnemonic::Ldumina } else if a == 1 { Mnemonic::Lduminal } else { Mnemonic::Lduminl }
    }
}

/// Mnemonic of the 64-byte single-copy atomic accesses (`Rs` = 31, `o3` = 1) by `opc`.
pub open spec fn ls64_mnemonic(opc: u32) -> Option<Mnemonic> {
    if opc == 1 {
        Some(Mnemonic::St64b)
    } else if opc == 2 {
        Some(Mnemonic::St64bv)
    } else if opc == 3 {
        Some(Mnemonic::St64bv0)
    } else if opc == 5 {
        Some(Mnemonic::Ld64b)
    } else {
        None
    }
}

/// Atomic memory operations. RCW forms (size 0/1, `o3` = 1, `opc` 1-3) go to
/// `rcw_spec`; with `Rs` = 31 and `o3` = 1, `opc` 1/2/3/5 are ST64B/ST64BV/ST64BV0/LD64B
/// (`Xt`, memory) and `opc` 0 is LDAPR; other `o3` = 1 words are SWP; `o3` = 0 words
/// are LD<op> (`Rs`, `Rt`, memory) or, with `Rt` = ZR, the ST<op> aliases (`Rs`,
/// memory). Registers are 64-bit for `size = 3`.
pub open spec fn atomic_spec(vaddr: u64, raw: u32) -> Instruction {
    let size = field(raw, 31, 30);
    let rs = field(raw, 20, 16);
    let o3 = bit_at(raw, 15);
    let opc = field(raw, 14, 12);
    let rt = field(raw, 4, 0);
    let store = rt == 31 && o3 == 0;
    let ls64 = if rs == 31 && o3 != 0 { ls64_mnemonic(opc) } else { None };
    if size <= 1 && o3 != 0 && 1 <= opc <= 3 {
        rcw_spec(vaddr, raw)
    } else if ls64 is Some {
        with_mem(
            reg0(Instruction::meta(vaddr, raw, Code::Ldxr, ls64->0), Register::x_at(rt)),
            raw,
            1,
            0,
            MemMode::Offset,
        )
    } else {
        let ldapr = o3 != 0 && rs == 31 && opc == 0;
        let mnemonic = if ldapr {
            Mnemonic::Ldapr
        } else if o3 != 0 {
            swp_mnemonic(size, bit_at(raw, 23), bit_at(raw, 22))
        } else {
            atomic_op_mnemonic(opc, store, bit_at(raw, 23), bit_at(raw, 22))
        };
        let wide = size == 3;
        let i = reg0(
            Instruction::meta(vaddr, raw, Code::Str_imm, mnemonic),
            if ldapr && wide { Register::gpr_at(true, rt, false) } else { Register::gpr_at(wide, rs, false) },
        );
        if ldapr {
            let j = with_mem(i, raw, 1, 0, MemMode::Offset);
            if wide { j } else { Instruction { op1_reg: Register::gpr_at(false, rt, false), ..j } }
        } else if store {
            with_mem(i, raw, 1, 0, MemMode::Offset)
        } else {
            with_mem(reg1(i, Register::gpr_at(wide, rt, false)), raw, 2, 0, MemMode::Offset)
        }
    }
}

fn decode_atomic(vaddr: u64, raw: u32) -> (r: Instruction)
    ensures
        r == atomic_spec(vaddr, raw),
{
    let size = bits(raw, 31, 30);
    let a = bit(raw, 23);
    let r = bit(raw, 22);
    let rs = bits(raw, 20, 16);
    let o3 = bit(raw, 15);
    let opc = bits(raw, 14, 12);
    let rn = bits(raw, 9, 5);
    let rt = bits(raw, 4, 0);
    let store = rt == 31 && o3 == 0;  // Capstone ST* aliases when Rt=XZR

    // RCW/RCWS (non-pair) share this encoding with size=0/1, o3=1, opc=1/2/3
    if size <= 1 && o3 != 0 && 1 <= opc && opc <= 3 {
        return decode_rcw(vaddr, raw);
    }

    // LD64B / ST64B / ST64BV*: Rs=XZR, o3=1, opc≠000 (000 is LDAPR alias of SWP)
    if rs == 31 && o3 != 0 {
        let ls64 = if opc == 1 {
            Some(Mnemonic::St64b)
        } else if opc == 2 {
            Some(Mnemonic::St64bv)
        } else if opc == 3 {
            Some(Mnemonic::St64bv0)
        } else if opc == 5 {
            Some(Mnemonic::Ld64b)
        } else {
            None
        };
        if let Some(mnemonic) = ls64 {
            let mut i = Instruction::with_meta(vaddr, raw, Code::Ldxr, mnemonic);
            i.op_count = 2;
            i.op0_kind = OpKind::Register;
            i.op0_reg = Register::x(rt);
            i.op1_kind = OpKind::Memory;
            i.memory_base = Register::gpr(true, rn, true);
            i.mem_mode = MemMode::Offset;
            return i;
        }
    }
    // SWP* — Rs=XZR + acquire aliases to LDAPR (Capstone)
    let ldapr = o3 != 0 && rs == 31 && opc == 0;
    let mnemonic = if ldapr {
        Mnemonic::Ldapr
    } else if o3 != 0 {
        swp_mnemonic_exec(size, a, r)
    } else {
        atomic_op_mnemonic_exec(opc, store, a, r)
    };

    let wide = size == 3;
    let mut i = Instruction::with_meta(vaddr, raw, Code::Str_imm, mnemonic);
    i.op0_kind = OpKind::Register;
    // Byte, halfword and word forms use W registers.
    i.op0_reg = if ldapr && wide { Register::gpr(true, rt, false) } else { Register::gpr(wide, rs, false) };
    if ldapr {
        i.op_count = 2;
        i.op1_kind = OpKind::Memory;
        if !wide {
            i.op1_reg = Register::gpr(false, rt, false);
        }
    } else if store {
        i.op_count = 2;
        i.op1_kind = OpKind::Memory;
    } else {
        i.op_count = 3;
        i.op1_kind = OpKind::Register;
        i.op1_reg = Register::gpr(wide, rt, false);
        i.op2_kind = OpKind::Memory;
    }
    i.memory_base = Register::gpr(true, rn, true);
    i.mem_mode = MemMode::Offset;
    i
}

/// LDRAA/LDRAB (bit 23): `Xt` and a memory operand with the signed 9-bit offset scaled by
/// 8, pre-indexed when bit 11 is set.
pub open spec fn ldra_spec(vaddr: u64, raw: u32) -> Instruction {
    with_mem(
        reg0(
            Instruction::meta(
                vaddr,
                raw,
                Code::Ldr_imm,
                if bit_at(raw, 23) != 0 { Mnemonic::Ldrab } else { Mnemonic::Ldraa },
            ),
            Register::gpr_at(true, field(raw, 4, 0), false),
        ),
        raw,
        1,
        (sext(field(raw, 20, 12) as u64, 9) * 8) as i32,
        if bit_at(raw, 11) != 0 { MemMode::PreIndex } else { MemMode::Offset },
    )
}

/// A signed 9-bit immediate (bits [20:12]) scaled by `scale`.
fn scaled_imm9(raw: u32, scale: i32) -> (r: i32)
    requires
        1 <= scale <= 16,
    ensures
        r == sext(field(raw, 20, 12) as u64, 9) * scale,
{
    let wide = sign_extend(bits(raw, 20, 12) as u64, 9);
    assert(-256 <= wide < 256) by {
        vstd::arithmetic::power2::lemma2_to64();
    }
    let base = wide as i32;
    assert(-4096 <= base * scale <= 4096) by (nonlinear_arith)
        requires
            -256 <= base < 256,
            1 <= scale <= 16,
    ;
    base * scale
}

fn decode_ldra(vaddr: u64, raw: u32) -> (r: Instruction)
    ensures
        r == ldra_spec(vaddr, raw),
{
    let m = bit(raw, 23);
    let w = bit(raw, 11);
    let rn = bits(raw, 9, 5);
    let rt = bits(raw, 4, 0);
    let offset = scaled_imm9(raw, 8);
    let mnemonic = if m != 0 { Mnemonic::Ldrab } else { Mnemonic::Ldraa };
    let mut i = Instruction::with_meta(vaddr, raw, Code::Ldr_imm, mnemonic);
    i.op_count = 2;
    i.op0_kind = OpKind::Register;
    i.op0_reg = Register::gpr(true, rt, false);
    i.op1_kind = OpKind::Memory;
    i.memory_base = Register::gpr(true, rn, true);
    i.memory_offset = offset;
    i.mem_mode = if w != 0 { MemMode::PreIndex } else { MemMode::Offset };
    i
}

/// Mnemonic of the MTE tag accesses by bits [11:10] and `opc`: with mode 00
/// STZGM/LDG/STGM/LDGM, otherwise STG/STZG/ST2G/STZ2G.
pub open spec fn mte_mnemonic(mode: u32, opc: u32) -> Mnemonic {
    if mode == 0 {
        if opc == 0 { Mnemonic::Stzgm } else if opc == 1 { Mnemonic::Ldg } else if opc == 2 { Mnemonic::Stgm } else { Mnemonic::Ldgm }
    } else {
        if opc == 0 { Mnemonic::Stg } else if opc == 1 { Mnemonic::Stzg } else if opc == 2 { Mnemonic::St2g } else { Mnemonic::Stz2g }
    }
}

/// MTE tag loads and stores: `Xt|SP` and a memory operand with the signed 9-bit offset
/// scaled by the 16-byte granule, addressing mode by bits [11:10].
pub open spec fn mte_stg_spec(vaddr: u64, raw: u32) -> Instruction {
    let mode = field(raw, 11, 10);
    with_mem(
        reg0(
            Instruction::meta(vaddr, raw, Code::Str_imm, mte_mnemonic(mode, field(raw, 23, 22))),
            Register::gpr_at(true, field(raw, 4, 0), true),
        ),
        raw,
        1,
        (sext(field(raw, 20, 12) as u64, 9) * 16) as i32,
        index_mode(mode),
    )
}

fn decode_mte_stg(vaddr: u64, raw: u32) -> (r: Instruction)
    ensures
        r == mte_stg_spec(vaddr, raw),
{
    let opc = bits(raw, 23, 22);
    let mode = bits(raw, 11, 10);
    let rn = bits(raw, 9, 5);
    let rt = bits(raw, 4, 0);
    // bits[11:10]==00: STZGM / LDG / STGM / LDGM
    let mnemonic = if mode == 0b00 {
        if opc == 0 { Mnemonic::Stzgm } else if opc == 1 { Mnemonic::Ldg } else if opc == 2 { Mnemonic::Stgm } else { Mnemonic::Ldgm }
    } else {
        if opc == 0 { Mnemonic::Stg } else if opc == 1 { Mnemonic::Stzg } else if opc == 2 { Mnemonic::St2g } else { Mnemonic::Stz2g }
    };
    let offset = scaled_imm9(raw, 16);
    let mem_mode = if mode == 1 {
        MemMode::PostIndex
    } else if mode == 3 {
        MemMode::PreIndex
    } else {
        MemMode::Offset  // 00 / 10 signed offset forms
    };
    let mut i = Instruction::with_meta(vaddr, raw, Code::Str_imm, mnemonic);
    i.op_count = 2;
    i.op0_kind = OpKind::Register;
    i.op0_reg = Register::gpr(true, rt, true);
    i.op1_kind = OpKind::Memory;
    i.memory_base = Register::gpr(true, rn, true);
    i.memory_offset = offset;
    i.mem_mode = mem_mode;
    i
}

/// STGP: `Xt`, `Xt2` and a memory operand with the signed 7-bit offset scaled by 16,
/// addressing mode by bits [24:23].
pub open spec fn stgp_spec(vaddr: u64, raw: u32) -> Instruction {
    with_mem(
        reg1(
            reg0(Instruction::meta(vaddr, raw, Code::Stp, Mnemonic::Stgp), Register::gpr_at(true, field(raw, 4, 0), false)),
            Register::gpr_at(true, field(raw, 14, 10), false),
        ),
        raw,
        2,
        (sext(field(raw, 21, 15) as u64, 7) * 16) as i32,
        index_mode(field(raw, 24, 23)),
    )
}

fn decode_stgp(vaddr: u64, raw: u32) -> (r: Instruction)
    ensures
        r == stgp_spec(vaddr, raw),
{
    let imm7 = bits(raw, 21, 15);
    let rt2 = bits(raw, 14, 10);
    let rn = bits(raw, 9, 5);
    let rt = bits(raw, 4, 0);
    let mode = bits(raw, 24, 23);
    let wide = sign_extend(imm7 as u64, 7);
    assert(-64 <= wide < 64) by {
        vstd::arithmetic::power2::lemma2_to64();
    }
    let base = wide as i32;
    let offset = base * 16;
    let mem_mode = if mode == 1 {
        MemMode::PostIndex
    } else if mode == 3 {
        MemMode::PreIndex
    } else {
        MemMode::Offset
    };
    let mut i = Instruction::with_meta(vaddr, raw, Code::Stp, Mnemonic::Stgp);
    i.op_count = 3;
    i.op0_kind = OpKind::Register;
    i.op0_reg = Register::gpr(true, rt, false);
    i.op1_kind = OpKind::Register;
    i.op1_reg = Register::gpr(true, rt2, false);
    i.op2_kind = OpKind::Memory;
    i.memory_base = Register::gpr(true, rn, true);
    i.memory_offset = offset;
    i.mem_mode = mem_mode;
    i
}

/// Mnemonic and 64-bit destination of a GPR LDAPUR/STLUR form by `size` and `opc`.
pub open spec fn ldapur_gpr_op(size: u32, opc: u32) -> Option<(Mnemonic, bool)> {
    if size == 0 {
        Some(if opc == 0 { (Mnemonic::Stlurb, false) } else if opc == 1 { (Mnemonic::Ldapurb, false) } else { (Mnemonic::Ldapursb, opc == 2) })
    } else if size == 1 {
        Some(if opc == 0 { (Mnemonic::Stlurh, false) } else if opc == 1 { (Mnemonic::Ldapurh, false) } else { (Mnemonic::Ldapursh, opc == 2) })
    } else if size == 2 {
        if opc == 0 { Some((Mnemonic::Stlur, false)) } else if opc == 1 { Some((Mnemonic::Ldapur, false)) } else if opc == 2 { Some((Mnemonic::Ldapursw, true)) } else { None }
    } else {
        if opc == 0 { Some((Mnemonic::Stlur, true)) } else if opc == 1 { Some((Mnemonic::Ldapur, true)) } else { None }
    }
}

/// Size in bytes of a SIMD/FP LDAPUR/STLUR access: B/H/S/D by `size` for `opc` 0x, Q for
/// `size = 0` and `opc` 1x.
pub open spec fn ldapur_simd_bytes(size: u32, opc: u32) -> Option<u32> {
    if opc <= 1 {
        Some(if size == 0 { 1 } else if size == 1 { 2 } else if size == 2 { 4 } else { 8 })
    } else if size == 0 {
        Some(16)
    } else {
        None
    }
}

/// LDAPUR*/STLUR* (unscaled, ordered): a register and a memory operand with a signed
/// 9-bit byte offset. SIMD/FP forms are LDAPUR/STLUR by `opc<0>`.
pub open spec fn ldapur_stlur_spec(vaddr: u64, raw: u32) -> Instruction {
    let size = field(raw, 31, 30);
    let opc = field(raw, 23, 22);
    let rt = field(raw, 4, 0);
    let offset = sext(field(raw, 20, 12) as u64, 9) as i32;
    if bit_at(raw, 26) != 0 {
        match ldapur_simd_bytes(size, opc) {
            None => undefined(vaddr, raw),
            Some(bytes) => with_mem(
                reg0(
                    Instruction::meta(
                        vaddr,
                        raw,
                        Code::Ldr_imm,
                        if opc % 2 == 0 { Mnemonic::Stlur } else { Mnemonic::Ldapur },
                    ),
                    Register::fp_at(bytes, rt),
                ),
                raw,
                1,
                offset,
                MemMode::Offset,
            ),
        }
    } else {
        match ldapur_gpr_op(size, opc) {
            None => undefined(vaddr, raw),
            Some((mnemonic, sf)) => with_mem(
                reg0(Instruction::meta(vaddr, raw, Code::Ldr_imm, mnemonic), Register::gpr_at(sf, rt, false)),
                raw,
                1,
                offset,
                MemMode::Offset,
            ),
        }
    }
}

fn decode_ldapur_stlur(vaddr: u64, raw: u32) -> (r: Instruction)
    ensures
        r == ldapur_stlur_spec(vaddr, raw),
{
    let size = bits(raw, 31, 30);
    let v = bit(raw, 26);
    let opc = bits(raw, 23, 22);
    let imm9 = bits(raw, 20, 12);
    let rn = bits(raw, 9, 5);
    let rt = bits(raw, 4, 0);
    let offset = sign_extend(imm9 as u64, 9) as i32;

    let (mnemonic, reg) = if v != 0 {
        // SIMD/FP LDAPUR / STLUR — Capstone mnemonic is ldapur/stlur (not *b/*h)
        let bytes: u32 = if opc <= 1 {
            if size == 0 { 1 } else if size == 1 { 2 } else if size == 2 { 4 } else { 8 }
        } else if size == 0 {
            16  // Q (opc 10/11)
        } else {
            return undef(vaddr, raw);
        };
        (if opc % 2 == 0 { Mnemonic::Stlur } else { Mnemonic::Ldapur }, Register::fp_sized(bytes, rt))
    } else {
        let (mnemonic, sf) = if size == 0 {
            if opc == 0 { (Mnemonic::Stlurb, false) } else if opc == 1 { (Mnemonic::Ldapurb, false) } else { (Mnemonic::Ldapursb, opc == 2) }
        } else if size == 1 {
            if opc == 0 { (Mnemonic::Stlurh, false) } else if opc == 1 { (Mnemonic::Ldapurh, false) } else { (Mnemonic::Ldapursh, opc == 2) }
        } else if size == 2 && opc <= 2 {
            if opc == 0 { (Mnemonic::Stlur, false) } else if opc == 1 { (Mnemonic::Ldapur, false) } else { (Mnemonic::Ldapursw, true) }
        } else if size == 3 && opc <= 1 {
            if opc == 0 { (Mnemonic::Stlur, true) } else { (Mnemonic::Ldapur, true) }
        } else {
            return undef(vaddr, raw);
        };
        (mnemonic, Register::gpr(sf, rt, false))
    };
    let mut i = Instruction::with_meta(vaddr, raw, Code::Ldr_imm, mnemonic);
    i.op_count = 2;
    i.op0_kind = OpKind::Register;
    i.op0_reg = reg;
    i.op1_kind = OpKind::Memory;
    i.memory_base = Register::gpr(true, rn, true);
    i.memory_offset = offset;
    i.mem_mode = MemMode::Offset;
    i
}

} // verus!
