//! Advanced SIMD and scalar floating point.

use super::{decoded_ok, lemma_base_facts, arrangement, arrangement_of, undef, undefined};
use crate::enums::{Arrangement, Code, Condition, OpKind, Register};
use crate::helpers::{bit, bit_at, bits, bits64, field, field64};
use crate::instruction::Instruction;
use crate::mnemonic::Mnemonic;
use vstd::prelude::*;

verus! {

/// The cases of `simd_fp_spec`, visible to every module.
pub open spec fn simd_fp_cases(vaddr: u64, raw: u32) -> Instruction {
    if bit_at(raw, 31) == 0 && field(raw, 28, 24) == 0b01110 && bit_at(raw, 21) == 1 && bit_at(raw, 10) == 1 {
        three_same_spec(vaddr, raw)
    } else if bit_at(raw, 31) == 0 && bit_at(raw, 21) == 0 && bit_at(raw, 15) == 1 && bit_at(raw, 10) == 1
        && (field(raw, 28, 24) == 0b01110 || (bit_at(raw, 30) == 1 && field(raw, 28, 24) == 0b11110)) {
        complex_three_same_spec(vaddr, raw)
    } else if bit_at(raw, 31) == 0 && field(raw, 28, 24) == 0b01110 && bit_at(raw, 21) == 1 && field(raw, 11, 10) == 0 {
        three_diff_spec(vaddr, raw)
    } else if bit_at(raw, 31) == 0 && bit_at(raw, 30) == 1 && field(raw, 28, 24) == 0b11110 && bit_at(raw, 21) == 0
        && field(raw, 11, 10) == 0 {
        crypto_3reg_spec(vaddr, raw)
    } else if bit_at(raw, 31) == 0 && bit_at(raw, 30) == 1 && field(raw, 28, 24) == 0b11110 && field(raw, 11, 10) == 0b10 {
        scalar_two_misc_spec(vaddr, raw)
    } else if bit_at(raw, 31) == 0 && field(raw, 28, 19) == 0b0111100000 && bit_at(raw, 10) == 1 {
        modified_imm_spec(vaddr, raw)
    } else if bit_at(raw, 31) == 0 && ((field(raw, 28, 21) == 0b01110000 && bit_at(raw, 15) == 0 && bit_at(raw, 10) == 1)
        || (bit_at(raw, 30) == 1 && field(raw, 28, 21) == 0b11110000 && bit_at(raw, 10) == 1)) {
        copy_spec(vaddr, raw)
    } else {
        vector_rest_spec(vaddr, raw)
    }
}

/// Decoding of the SIMD / floating-point group: the vector forms first, then the
/// scalar floating-point forms.
#[verifier::opaque]
pub open spec fn simd_fp_spec(vaddr: u64, raw: u32) -> Instruction {
    simd_fp_cases(vaddr, raw)
}

/// Unfolds `simd_fp_spec` into its cases, for use outside this module.
pub proof fn lemma_simd_fp_unfold(vaddr: u64, raw: u32)
    ensures
        simd_fp_spec(vaddr, raw) == simd_fp_cases(vaddr, raw),
{
    reveal(simd_fp_spec);
}

/// The remaining vector forms of the group, then the scalar floating-point forms.
pub open spec fn vector_rest_spec(vaddr: u64, raw: u32) -> Instruction {
    if bit_at(raw, 31) == 0 && field(raw, 28, 24) == 0b01110 && field(raw, 21, 17) == 0b11000 && field(raw, 11, 10)
        == 0b10 && across_opcode(field(raw, 16, 12)) {
        across_spec(vaddr, raw)
    } else if bit_at(raw, 31) == 0 && field(raw, 28, 24) == 0b01110 && (field(raw, 21, 17) == 0b10000 || field(raw, 21, 17)
        == 0b11000 || field(raw, 21, 17) == 0b10100) && field(raw, 11, 10) == 0b10 {
        two_misc_spec(vaddr, raw)
    } else if bit_at(raw, 31) == 0 && (field(raw, 28, 23) == 0b011110 || field(raw, 28, 23) == 0b111110) && bit_at(raw, 10)
        == 1 && field(raw, 22, 19) != 0 {
        shift_imm_spec(vaddr, raw)
    } else if bit_at(raw, 31) == 0 && bit_at(raw, 10) == 0 && (field(raw, 28, 24) == 0b01111 || (bit_at(raw, 30) == 1
        && field(raw, 28, 24) == 0b11111)) {
        by_element_spec(vaddr, raw)
    } else if bit_at(raw, 31) == 0 && field(raw, 29, 24) == 0b001110 && bit_at(raw, 21) == 0 && bit_at(raw, 15) == 0
        && field(raw, 11, 10) == 0 {
        tbl_spec(vaddr, raw)
    } else if bit_at(raw, 31) == 0 && field(raw, 29, 24) == 0b001110 && bit_at(raw, 21) == 0 && field(raw, 11, 10) == 0b10 {
        permute_spec(vaddr, raw)
    } else if bit_at(raw, 31) == 0 && field(raw, 29, 24) == 0b101110 && bit_at(raw, 21) == 0 && bit_at(raw, 15) == 0
        && bit_at(raw, 10) == 0 {
        ext_spec(vaddr, raw)
    } else {
        fp_scalar_spec(vaddr, raw)
    }
}

/// The scalar floating-point forms (top byte `0x1E` / `0x9E`, and `FMADD` and
/// relatives), then the vector FP patterns that share their layout.
pub open spec fn fp_scalar_spec(vaddr: u64, raw: u32) -> Instruction {
    let top = raw >> 24;
    if top & 0x7F == 0x1F {
        fp_3src_spec(vaddr, raw)
    } else if (top == 0x1E || top == 0x9E) && bit_at(raw, 21) == 0 && field(raw, 15, 10) == 0 {
        fp_conversion_spec(vaddr, raw)
    } else if (top == 0x1E || top == 0x9E) && bit_at(raw, 21) == 0 {
        fp_conversion_fixed_spec(vaddr, raw)
    } else if (top == 0x1E || top == 0x9E) && field(raw, 11, 10) == 0b10 {
        fp_2src_spec(vaddr, raw)
    } else if (top == 0x1E || top == 0x9E) && field(raw, 11, 10) == 0b11 {
        fp_csel_spec(vaddr, raw)
    } else if (top == 0x1E || top == 0x9E) && field(raw, 11, 10) == 0b01 {
        fp_cond_compare_spec(vaddr, raw)
    } else if (top == 0x1E || top == 0x9E) && field(raw, 14, 10) == 0b10000 {
        fp_1src_spec(vaddr, raw)
    } else if (top == 0x1E || top == 0x9E) && field(raw, 15, 10) == 0b001000 {
        fp_compare_spec(vaddr, raw)
    } else if (top == 0x1E || top == 0x9E) && field(raw, 12, 10) == 0b100 {
        fp_imm_spec(vaddr, raw)
    } else if field(raw, 30, 24) == 0b0011110 && field(raw, 15, 10) == 0 {
        fp_conversion_spec(vaddr, raw)
    } else if (top & 0xFE == 0x5E && bit_at(raw, 22) == 1 && field(raw, 12, 10) == 0b010) || (top & 0xEE == 0x4E && 8
        <= field(raw, 15, 12) <= 11) {
        fp_2src_spec(vaddr, raw)
    } else {
        undefined(vaddr, raw)
    }
}

/// The across-lanes opcodes (bits [16:12]) recognised before the two-register
/// miscellaneous group.
pub open spec fn across_opcode(op: u32) -> bool {
    op == 0b00011 || op == 0b01010 || op == 0b01100 || op == 0b01111 || op == 0b11010 || op == 0b11011
}

/// Every word of the group decodes to a record of itself.
proof fn lemma_records_three_same_spec(vaddr: u64, raw: u32)
    ensures
        three_same_spec(vaddr, raw).records(vaddr, raw),
{
}

proof fn lemma_records_complex_three_same_spec(vaddr: u64, raw: u32)
    ensures
        complex_three_same_spec(vaddr, raw).records(vaddr, raw),
{
}

proof fn lemma_records_three_diff_spec(vaddr: u64, raw: u32)
    ensures
        three_diff_spec(vaddr, raw).records(vaddr, raw),
{
}

proof fn lemma_records_crypto_3reg_spec(vaddr: u64, raw: u32)
    ensures
        crypto_3reg_spec(vaddr, raw).records(vaddr, raw),
{
}

proof fn lemma_records_scalar_two_misc_spec(vaddr: u64, raw: u32)
    ensures
        scalar_two_misc_spec(vaddr, raw).records(vaddr, raw),
{
}

proof fn lemma_records_modified_imm_spec(vaddr: u64, raw: u32)
    ensures
        modified_imm_spec(vaddr, raw).records(vaddr, raw),
{
}

proof fn lemma_records_copy_spec(vaddr: u64, raw: u32)
    ensures
        copy_spec(vaddr, raw).records(vaddr, raw),
{
}

proof fn lemma_records_across_spec(vaddr: u64, raw: u32)
    ensures
        across_spec(vaddr, raw).records(vaddr, raw),
{
}

proof fn lemma_records_two_misc_spec(vaddr: u64, raw: u32)
    ensures
        two_misc_spec(vaddr, raw).records(vaddr, raw),
{
}

proof fn lemma_records_shift_imm_spec(vaddr: u64, raw: u32)
    ensures
        shift_imm_spec(vaddr, raw).records(vaddr, raw),
{
}

proof fn lemma_records_by_element_spec(vaddr: u64, raw: u32)
    ensures
        by_element_spec(vaddr, raw).records(vaddr, raw),
{
}

proof fn lemma_records_tbl_spec(vaddr: u64, raw: u32)
    ensures
        tbl_spec(vaddr, raw).records(vaddr, raw),
{
}

proof fn lemma_records_permute_spec(vaddr: u64, raw: u32)
    ensures
        permute_spec(vaddr, raw).records(vaddr, raw),
{
}

proof fn lemma_records_ext_spec(vaddr: u64, raw: u32)
    ensures
        ext_spec(vaddr, raw).records(vaddr, raw),
{
}

proof fn lemma_records_fp_3src_spec(vaddr: u64, raw: u32)
    ensures
        fp_3src_spec(vaddr, raw).records(vaddr, raw),
{
}

proof fn lemma_records_fp_conversion_spec(vaddr: u64, raw: u32)
    ensures
        fp_conversion_spec(vaddr, raw).records(vaddr, raw),
{
}

proof fn lemma_records_fp_conversion_fixed_spec(vaddr: u64, raw: u32)
    ensures
        fp_conversion_fixed_spec(vaddr, raw).records(vaddr, raw),
{
}

proof fn lemma_records_fp_2src_spec(vaddr: u64, raw: u32)
    ensures
        fp_2src_spec(vaddr, raw).records(vaddr, raw),
{
}

proof fn lemma_records_fp_csel_spec(vaddr: u64, raw: u32)
    ensures
        fp_csel_spec(vaddr, raw).records(vaddr, raw),
{
}

proof fn lemma_records_fp_cond_compare_spec(vaddr: u64, raw: u32)
    ensures
        fp_cond_compare_spec(vaddr, raw).records(vaddr, raw),
{
}

proof fn lemma_records_fp_1src_spec(vaddr: u64, raw: u32)
    ensures
        fp_1src_spec(vaddr, raw).records(vaddr, raw),
{
}

proof fn lemma_records_fp_compare_spec(vaddr: u64, raw: u32)
    ensures
        fp_compare_spec(vaddr, raw).records(vaddr, raw),
{
}

proof fn lemma_records_fp_imm_spec(vaddr: u64, raw: u32)
    ensures
        fp_imm_spec(vaddr, raw).records(vaddr, raw),
{
}

proof fn lemma_records_fp_scalar(vaddr: u64, raw: u32)
    ensures
        fp_scalar_spec(vaddr, raw).records(vaddr, raw),
{
    lemma_records_fp_3src_spec(vaddr, raw);
    lemma_records_fp_conversion_spec(vaddr, raw);
    lemma_records_fp_conversion_fixed_spec(vaddr, raw);
    lemma_records_fp_2src_spec(vaddr, raw);
    lemma_records_fp_csel_spec(vaddr, raw);
    lemma_records_fp_cond_compare_spec(vaddr, raw);
    lemma_records_fp_1src_spec(vaddr, raw);
    lemma_records_fp_compare_spec(vaddr, raw);
    lemma_records_fp_imm_spec(vaddr, raw);
}

proof fn lemma_records_vector_rest(vaddr: u64, raw: u32)
    ensures
        vector_rest_spec(vaddr, raw).records(vaddr, raw),
{
    lemma_records_across_spec(vaddr, raw);
    lemma_records_two_misc_spec(vaddr, raw);
    lemma_records_shift_imm_spec(vaddr, raw);
    lemma_records_by_element_spec(vaddr, raw);
    lemma_records_tbl_spec(vaddr, raw);
    lemma_records_permute_spec(vaddr, raw);
    lemma_records_ext_spec(vaddr, raw);
    lemma_records_fp_scalar(vaddr, raw);
}

pub(super) proof fn lemma_records(vaddr: u64, raw: u32)
    ensures
        simd_fp_spec(vaddr, raw).records(vaddr, raw),
{
    reveal(simd_fp_spec);
    lemma_records_vector_rest(vaddr, raw);
    lemma_records_three_same_spec(vaddr, raw);
    lemma_records_complex_three_same_spec(vaddr, raw);
    lemma_records_three_diff_spec(vaddr, raw);
    lemma_records_crypto_3reg_spec(vaddr, raw);
    lemma_records_scalar_two_misc_spec(vaddr, raw);
    lemma_records_modified_imm_spec(vaddr, raw);
    lemma_records_copy_spec(vaddr, raw);
}

proof fn lemma_same_form_three_same_spec(v1: u64, v2: u64, raw: u32)
    ensures
        three_same_spec(v1, raw).same_form(three_same_spec(v2, raw)),
{
}

proof fn lemma_same_form_complex_three_same_spec(v1: u64, v2: u64, raw: u32)
    ensures
        complex_three_same_spec(v1, raw).same_form(complex_three_same_spec(v2, raw)),
{
}

proof fn lemma_same_form_three_diff_spec(v1: u64, v2: u64, raw: u32)
    ensures
        three_diff_spec(v1, raw).same_form(three_diff_spec(v2, raw)),
{
}

proof fn lemma_same_form_crypto_3reg_spec(v1: u64, v2: u64, raw: u32)
    ensures
        crypto_3reg_spec(v1, raw).same_form(crypto_3reg_spec(v2, raw)),
{
}

proof fn lemma_same_form_scalar_two_misc_spec(v1: u64, v2: u64, raw: u32)
    ensures
        scalar_two_misc_spec(v1, raw).same_form(scalar_two_misc_spec(v2, raw)),
{
}

proof fn lemma_same_form_modified_imm_spec(v1: u64, v2: u64, raw: u32)
    ensures
        modified_imm_spec(v1, raw).same_form(modified_imm_spec(v2, raw)),
{
}

proof fn lemma_same_form_copy_spec(v1: u64, v2: u64, raw: u32)
    ensures
        copy_spec(v1, raw).same_form(copy_spec(v2, raw)),
{
}

proof fn lemma_same_form_across_spec(v1: u64, v2: u64, raw: u32)
    ensures
        across_spec(v1, raw).same_form(across_spec(v2, raw)),
{
}

proof fn lemma_same_form_two_misc_spec(v1: u64, v2: u64, raw: u32)
    ensures
        two_misc_spec(v1, raw).same_form(two_misc_spec(v2, raw)),
{
}

proof fn lemma_same_form_shift_imm_spec(v1: u64, v2: u64, raw: u32)
    ensures
        shift_imm_spec(v1, raw).same_form(shift_imm_spec(v2, raw)),
{
}

proof fn lemma_same_form_by_element_spec(v1: u64, v2: u64, raw: u32)
    ensures
        by_element_spec(v1, raw).same_form(by_element_spec(v2, raw)),
{
}

proof fn lemma_same_form_tbl_spec(v1: u64, v2: u64, raw: u32)
    ensures
        tbl_spec(v1, raw).same_form(tbl_spec(v2, raw)),
{
}

proof fn lemma_same_form_permute_spec(v1: u64, v2: u64, raw: u32)
    ensures
        permute_spec(v1, raw).same_form(permute_spec(v2, raw)),
{
}

proof fn lemma_same_form_ext_spec(v1: u64, v2: u64, raw: u32)
    ensures
        ext_spec(v1, raw).same_form(ext_spec(v2, raw)),
{
}

proof fn lemma_same_form_fp_3src_spec(v1: u64, v2: u64, raw: u32)
    ensures
        fp_3src_spec(v1, raw).same_form(fp_3src_spec(v2, raw)),
{
}

proof fn lemma_same_form_fp_conversion_spec(v1: u64, v2: u64, raw: u32)
    ensures
        fp_conversion_spec(v1, raw).same_form(fp_conversion_spec(v2, raw)),
{
}

proof fn lemma_same_form_fp_conversion_fixed_spec(v1: u64, v2: u64, raw: u32)
    ensures
        fp_conversion_fixed_spec(v1, raw).same_form(fp_conversion_fixed_spec(v2, raw)),
{
}

proof fn lemma_same_form_fp_2src_spec(v1: u64, v2: u64, raw: u32)
    ensures
        fp_2src_spec(v1, raw).same_form(fp_2src_spec(v2, raw)),
{
}

proof fn lemma_same_form_fp_csel_spec(v1: u64, v2: u64, raw: u32)
    ensures
        fp_csel_spec(v1, raw).same_form(fp_csel_spec(v2, raw)),
{
}

proof fn lemma_same_form_fp_cond_compare_spec(v1: u64, v2: u64, raw: u32)
    ensures
        fp_cond_compare_spec(v1, raw).same_form(fp_cond_compare_spec(v2, raw)),
{
}

proof fn lemma_same_form_fp_1src_spec(v1: u64, v2: u64, raw: u32)
    ensures
        fp_1src_spec(v1, raw).same_form(fp_1src_spec(v2, raw)),
{
}

proof fn lemma_same_form_fp_compare_spec(v1: u64, v2: u64, raw: u32)
    ensures
        fp_compare_spec(v1, raw).same_form(fp_compare_spec(v2, raw)),
{
}

proof fn lemma_same_form_fp_imm_spec(v1: u64, v2: u64, raw: u32)
    ensures
        fp_imm_spec(v1, raw).same_form(fp_imm_spec(v2, raw)),
{
}

proof fn lemma_same_form_fp_scalar(v1: u64, v2: u64, raw: u32)
    ensures
        fp_scalar_spec(v1, raw).same_form(fp_scalar_spec(v2, raw)),
{
    lemma_same_form_fp_3src_spec(v1, v2, raw);
    lemma_same_form_fp_conversion_spec(v1, v2, raw);
    lemma_same_form_fp_conversion_fixed_spec(v1, v2, raw);
    lemma_same_form_fp_2src_spec(v1, v2, raw);
    lemma_same_form_fp_csel_spec(v1, v2, raw);
    lemma_same_form_fp_cond_compare_spec(v1, v2, raw);
    lemma_same_form_fp_1src_spec(v1, v2, raw);
    lemma_same_form_fp_compare_spec(v1, v2, raw);
    lemma_same_form_fp_imm_spec(v1, v2, raw);
}

proof fn lemma_same_form_vector_rest(v1: u64, v2: u64, raw: u32)
    ensures
        vector_rest_spec(v1, raw).same_form(vector_rest_spec(v2, raw)),
{
    lemma_same_form_across_spec(v1, v2, raw);
    lemma_same_form_two_misc_spec(v1, v2, raw);
    lemma_same_form_shift_imm_spec(v1, v2, raw);
    lemma_same_form_by_element_spec(v1, v2, raw);
    lemma_same_form_tbl_spec(v1, v2, raw);
    lemma_same_form_permute_spec(v1, v2, raw);
    lemma_same_form_ext_spec(v1, v2, raw);
    lemma_same_form_fp_scalar(v1, v2, raw);
}

/// The form a word of the group decodes to does not depend on its address.
pub(super) proof fn lemma_same_form(v1: u64, v2: u64, raw: u32)
    ensures
        simd_fp_spec(v1, raw).same_form(simd_fp_spec(v2, raw)),
{
    reveal(simd_fp_spec);
    lemma_same_form_three_same_spec(v1, v2, raw);
    lemma_same_form_complex_three_same_spec(v1, v2, raw);
    lemma_same_form_three_diff_spec(v1, v2, raw);
    lemma_same_form_crypto_3reg_spec(v1, v2, raw);
    lemma_same_form_scalar_two_misc_spec(v1, v2, raw);
    lemma_same_form_modified_imm_spec(v1, v2, raw);
    lemma_same_form_copy_spec(v1, v2, raw);
    lemma_same_form_vector_rest(v1, v2, raw);
}

proof fn lemma_ok_simd_fp_cases(vaddr: u64, raw: u32)
    ensures
        decoded_ok(simd_fp_cases(vaddr, raw), vaddr, raw),
{
    lemma_base_facts(raw);
    lemma_ok_vector_rest_spec(vaddr, raw);
    lemma_ok_three_same_spec(vaddr, raw);
    lemma_ok_complex_three_same_spec(vaddr, raw);
    lemma_ok_modified_imm_spec(vaddr, raw);
    lemma_ok_copy_spec(vaddr, raw);
    lemma_ok_crypto_3reg_spec(vaddr, raw);
    lemma_ok_three_diff_spec(vaddr, raw);
    lemma_ok_scalar_two_misc_spec(vaddr, raw);
}

/// Every word of the group decodes soundly.
pub(super) proof fn lemma_ok_simd_fp_spec(vaddr: u64, raw: u32)
    ensures
        decoded_ok(simd_fp_spec(vaddr, raw), vaddr, raw),
{
    reveal(simd_fp_spec);
    lemma_base_facts(raw);
    lemma_ok_simd_fp_cases(vaddr, raw);
}

proof fn lemma_ok_vector_rest_spec(vaddr: u64, raw: u32)
    ensures
        decoded_ok(vector_rest_spec(vaddr, raw), vaddr, raw),
{
    lemma_base_facts(raw);
    lemma_ok_fp_scalar_spec(vaddr, raw);
    lemma_ok_two_misc_spec(vaddr, raw);
    lemma_ok_across_spec(vaddr, raw);
    lemma_ok_shift_imm_spec(vaddr, raw);
    lemma_ok_tbl_spec(vaddr, raw);
    lemma_ok_permute_spec(vaddr, raw);
    lemma_ok_ext_spec(vaddr, raw);
    lemma_ok_by_element_spec(vaddr, raw);
}

proof fn lemma_ok_fp_scalar_spec(vaddr: u64, raw: u32)
    ensures
        decoded_ok(fp_scalar_spec(vaddr, raw), vaddr, raw),
{
    lemma_base_facts(raw);
    lemma_ok_fp_2src_spec(vaddr, raw);
    lemma_ok_fp_1src_spec(vaddr, raw);
    lemma_ok_fp_3src_spec(vaddr, raw);
    lemma_ok_fp_conversion_fixed_spec(vaddr, raw);
    lemma_ok_fp_conversion_spec(vaddr, raw);
    lemma_ok_fp_compare_spec(vaddr, raw);
    lemma_ok_fp_cond_compare_spec(vaddr, raw);
    lemma_ok_fp_csel_spec(vaddr, raw);
    lemma_ok_fp_imm_spec(vaddr, raw);
}

proof fn lemma_ok_three_same_spec(vaddr: u64, raw: u32)
    ensures
        decoded_ok(three_same_spec(vaddr, raw), vaddr, raw),
{
    lemma_base_facts(raw);
}

proof fn lemma_ok_complex_three_same_spec(vaddr: u64, raw: u32)
    ensures
        decoded_ok(complex_three_same_spec(vaddr, raw), vaddr, raw),
{
    lemma_base_facts(raw);
}

proof fn lemma_ok_modified_imm_spec(vaddr: u64, raw: u32)
    ensures
        decoded_ok(modified_imm_spec(vaddr, raw), vaddr, raw),
{
    lemma_base_facts(raw);
}

proof fn lemma_ok_copy_spec(vaddr: u64, raw: u32)
    ensures
        decoded_ok(copy_spec(vaddr, raw), vaddr, raw),
{
    lemma_base_facts(raw);
}

proof fn lemma_ok_two_misc_spec(vaddr: u64, raw: u32)
    ensures
        decoded_ok(two_misc_spec(vaddr, raw), vaddr, raw),
{
    lemma_base_facts(raw);
}

proof fn lemma_ok_across_spec(vaddr: u64, raw: u32)
    ensures
        decoded_ok(across_spec(vaddr, raw), vaddr, raw),
{
    lemma_base_facts(raw);
}

proof fn lemma_ok_shift_imm_spec(vaddr: u64, raw: u32)
    ensures
        decoded_ok(shift_imm_spec(vaddr, raw), vaddr, raw),
{
    lemma_base_facts(raw);
}

proof fn lemma_ok_tbl_spec(vaddr: u64, raw: u32)
    ensures
        decoded_ok(tbl_spec(vaddr, raw), vaddr, raw),
{
    lemma_base_facts(raw);
}

proof fn lemma_ok_permute_spec(vaddr: u64, raw: u32)
    ensures
        decoded_ok(permute_spec(vaddr, raw), vaddr, raw),
{
    lemma_base_facts(raw);
}

proof fn lemma_ok_ext_spec(vaddr: u64, raw: u32)
    ensures
        decoded_ok(ext_spec(vaddr, raw), vaddr, raw),
{
    lemma_base_facts(raw);
}

proof fn lemma_ok_fp_2src_spec(vaddr: u64, raw: u32)
    ensures
        decoded_ok(fp_2src_spec(vaddr, raw), vaddr, raw),
{
    lemma_base_facts(raw);
}

proof fn lemma_ok_fp_1src_spec(vaddr: u64, raw: u32)
    ensures
        decoded_ok(fp_1src_spec(vaddr, raw), vaddr, raw),
{
    lemma_base_facts(raw);
}

proof fn lemma_ok_fp_3src_spec(vaddr: u64, raw: u32)
    ensures
        decoded_ok(fp_3src_spec(vaddr, raw), vaddr, raw),
{
    lemma_base_facts(raw);
}

proof fn lemma_ok_crypto_3reg_spec(vaddr: u64, raw: u32)
    ensures
        decoded_ok(crypto_3reg_spec(vaddr, raw), vaddr, raw),
{
    lemma_base_facts(raw);
}

proof fn lemma_ok_three_diff_spec(vaddr: u64, raw: u32)
    ensures
        decoded_ok(three_diff_spec(vaddr, raw), vaddr, raw),
{
    lemma_base_facts(raw);
}

proof fn lemma_ok_by_element_spec(vaddr: u64, raw: u32)
    ensures
        decoded_ok(by_element_spec(vaddr, raw), vaddr, raw),
{
    lemma_base_facts(raw);
}

proof fn lemma_ok_fp_conversion_fixed_spec(vaddr: u64, raw: u32)
    ensures
        decoded_ok(fp_conversion_fixed_spec(vaddr, raw), vaddr, raw),
{
    lemma_base_facts(raw);
}

proof fn lemma_ok_scalar_two_misc_spec(vaddr: u64, raw: u32)
    ensures
        decoded_ok(scalar_two_misc_spec(vaddr, raw), vaddr, raw),
{
    lemma_base_facts(raw);
}

proof fn lemma_ok_fp_conversion_spec(vaddr: u64, raw: u32)
    ensures
        decoded_ok(fp_conversion_spec(vaddr, raw), vaddr, raw),
{
    lemma_base_facts(raw);
}

proof fn lemma_ok_fp_compare_spec(vaddr: u64, raw: u32)
    ensures
        decoded_ok(fp_compare_spec(vaddr, raw), vaddr, raw),
{
    lemma_base_facts(raw);
}

proof fn lemma_ok_fp_cond_compare_spec(vaddr: u64, raw: u32)
    ensures
        decoded_ok(fp_cond_compare_spec(vaddr, raw), vaddr, raw),
{
    lemma_base_facts(raw);
}

proof fn lemma_ok_fp_csel_spec(vaddr: u64, raw: u32)
    ensures
        decoded_ok(fp_csel_spec(vaddr, raw), vaddr, raw),
{
    lemma_base_facts(raw);
}

proof fn lemma_ok_fp_imm_spec(vaddr: u64, raw: u32)
    ensures
        decoded_ok(fp_imm_spec(vaddr, raw), vaddr, raw),
{
    lemma_base_facts(raw);
}

pub(super) fn decode(vaddr: u64, raw: u32) -> (r: Instruction)
    ensures
        r == simd_fp_spec(vaddr, raw),
{
    proof {
        reveal(simd_fp_spec);
    }
    // Advanced SIMD three same (vector)
    if bit(raw, 31) == 0 && bits(raw, 28, 24) == 0b01110 && bit(raw, 21) == 1 && bit(raw, 10) == 1 {
        return decode_three_same(vaddr, raw);
    }
    // Three-same-extra (FCMLA/FCADD/SQRDMLAH/BFDOT): bit21=0, bit15=1
    if bit(raw, 31) == 0 && bit(raw, 21) == 0 && bit(raw, 15) == 1 && bit(raw, 10) == 1 && (bits(raw, 28, 24) == 0b01110
        || (bit(raw, 30) == 1 && bits(raw, 28, 24) == 0b11110)) {
        return decode_complex_three_same(vaddr, raw);
    }
    // Advanced SIMD three different (SMULL/SMLAL/PMULL/…)
    if bit(raw, 31) == 0 && bits(raw, 28, 24) == 0b01110 && bit(raw, 21) == 1 && bits(raw, 11, 10) == 0b00 {
        return decode_three_diff(vaddr, raw);
    }
    // Crypto 3-reg SHA — bits[11:10]=00 (don't steal DUP/MOV)
    if bit(raw, 31) == 0 && bit(raw, 30) == 1 && bits(raw, 28, 24) == 0b11110 && bit(raw, 21) == 0 && bits(raw, 11, 10)
        == 0b00 {
        return decode_crypto_3reg(vaddr, raw);
    }
    // Advanced SIMD scalar two-reg misc (UQXTN, …)
    if bit(raw, 31) == 0 && bit(raw, 30) == 1 && bits(raw, 28, 24) == 0b11110 && bits(raw, 11, 10) == 0b10 {
        return decode_simd_scalar_two_misc(vaddr, raw);
    }
    // Modified immediate (MOVI/MVNI/…)
    if bit(raw, 31) == 0 && bits(raw, 28, 19) == 0b0111100000 && bit(raw, 10) == 1 {
        return decode_modified_imm(vaddr, raw);
    }
    // Copy (DUP/INS/SMOV/UMOV) — vector and scalar (MOV alias)
    if bit(raw, 31) == 0 && ((bits(raw, 28, 21) == 0b01110000 && bit(raw, 15) == 0 && bit(raw, 10) == 1) || (bit(raw, 30)
        == 1 && bits(raw, 28, 21) == 0b11110000 && bit(raw, 10) == 1)) {
        return decode_copy(vaddr, raw);
    }
    decode_vector_rest(vaddr, raw)
}

/// The remaining vector forms, then the scalar floating-point forms.
fn decode_vector_rest(vaddr: u64, raw: u32) -> (r: Instruction)
    ensures
        r == vector_rest_spec(vaddr, raw),
{
    // Across lanes (before two-misc — shares bits[21:17]=11000 with FP16 misc)
    let op_12 = bits(raw, 16, 12);
    if bit(raw, 31) == 0 && bits(raw, 28, 24) == 0b01110 && bits(raw, 21, 17) == 0b11000 && bits(raw, 11, 10) == 0b10
        && (op_12 == 0b00011 || op_12 == 0b01010 || op_12 == 0b01100 || op_12 == 0b01111 || op_12 == 0b11010 || op_12
        == 0b11011) {
        return decode_across(vaddr, raw);
    }
    // Two-reg misc (FP16: 11000, crypto AES: 10100)
    let op_17 = bits(raw, 21, 17);
    if bit(raw, 31) == 0 && bits(raw, 28, 24) == 0b01110 && (op_17 == 0b10000 || op_17 == 0b11000 || op_17 == 0b10100)
        && bits(raw, 11, 10) == 0b10 {
        return decode_two_misc(vaddr, raw);
    }
    // Shift by immediate (vector + scalar)
    if bit(raw, 31) == 0 && (bits(raw, 28, 23) == 0b011110 || bits(raw, 28, 23) == 0b111110) && bit(raw, 10) == 1
        && bits(raw, 22, 19) != 0 {
        return decode_shift_imm(vaddr, raw);
    }
    // By-element (indexed element) — vector (0x0F/0x4F) + scalar (0x5F/0x7F)
    if bit(raw, 31) == 0 && bit(raw, 10) == 0 && (bits(raw, 28, 24) == 0b01111 || (bit(raw, 30) == 1 && bits(raw, 28, 24)
        == 0b11111)) {
        return decode_by_element(vaddr, raw);
    }
    // TBL/TBX
    if bit(raw, 31) == 0 && bits(raw, 29, 24) == 0b001110 && bit(raw, 21) == 0 && bit(raw, 15) == 0 && bits(raw, 11, 10)
        == 0b00 {
        return decode_tbl(vaddr, raw);
    }
    // Permute ZIP/UZP/TRN
    if bit(raw, 31) == 0 && bits(raw, 29, 24) == 0b001110 && bit(raw, 21) == 0 && bits(raw, 11, 10) == 0b10 {
        return decode_permute(vaddr, raw);
    }
    // EXT
    if bit(raw, 31) == 0 && bits(raw, 29, 24) == 0b101110 && bit(raw, 21) == 0 && bit(raw, 15) == 0 && bit(raw, 10) == 0 {
        return decode_ext(vaddr, raw);
    }
    decode_fp_scalar(vaddr, raw)
}

/// The scalar floating-point forms and the vector FP patterns sharing their layout.
fn decode_fp_scalar(vaddr: u64, raw: u32) -> (r: Instruction)
    ensures
        r == fp_scalar_spec(vaddr, raw),
{
    let top = raw >> 24;
    // Scalar FP 3-source (FMADD/FMSUB/…)
    if top & 0x7F == 0x1F {
        return decode_fp_3src(vaddr, raw);
    }
    // Scalar FP (encoding class 0001 1110 / 1001 1110)
    if top == 0x1E || top == 0x9E {
        if bit(raw, 21) == 0 {
            if bits(raw, 15, 10) == 0b000000 {
                return decode_fp_conversion(vaddr, raw);
            }
            // Fixed-point conversions (scale in bits[15:10])
            return decode_fp_conversion_fixed(vaddr, raw);
        }
        let sel = bits(raw, 11, 10);
        if sel == 0b10 {
            return decode_fp_2src(vaddr, raw);
        }
        if sel == 0b11 {
            return decode_fp_csel(vaddr, raw);
        }
        if sel == 0b01 {
            return decode_fp_cond_compare(vaddr, raw);
        }
        if bits(raw, 14, 10) == 0b10000 {
            return decode_fp_1src(vaddr, raw);
        }
        if bits(raw, 15, 10) == 0b001000 {
            return decode_fp_compare(vaddr, raw);
        }
        if bits(raw, 12, 10) == 0b100 {
            return decode_fp_imm(vaddr, raw);
        }
    }
    // Legacy FP patterns (vector FP in AdvSIMD)
    if bits(raw, 30, 24) == 0b0011110 && bits(raw, 15, 10) == 0b000000 {
        return decode_fp_conversion(vaddr, raw);
    }
    if (top & 0xFE == 0x5E && bit(raw, 22) == 1 && bits(raw, 12, 10) == 0b010) || (top & 0xEE == 0x4E && bits(raw, 15, 12)
        >= 8 && bits(raw, 15, 12) <= 11) {
        return decode_fp_2src(vaddr, raw);
    }
    undef(vaddr, raw)
}

/// Vector operands `Vd`, `Vn`, `Vm` (three registers).
pub open spec fn three_vregs(i: Instruction, raw: u32) -> Instruction {
    Instruction {
        op_count: 3,
        op0_kind: OpKind::Register,
        op0_reg: Register::v_at(field(raw, 4, 0)),
        op1_kind: OpKind::Register,
        op1_reg: Register::v_at(field(raw, 9, 5)),
        op2_kind: OpKind::Register,
        op2_reg: Register::v_at(field(raw, 20, 16)),
        ..i
    }
}

/// Vector operands `Vd`, `Vn` (two registers).
pub open spec fn two_vregs(i: Instruction, raw: u32) -> Instruction {
    Instruction {
        op_count: 2,
        op0_kind: OpKind::Register,
        op0_reg: Register::v_at(field(raw, 4, 0)),
        op1_kind: OpKind::Register,
        op1_reg: Register::v_at(field(raw, 9, 5)),
        ..i
    }
}

/// Operand count and register operands of a two-source FP form.
pub open spec fn fp_regs(i: Instruction, count: u8, r0: Register, r1: Register, r2: Register) -> Instruction {
    Instruction {
        op_count: count,
        op0_kind: OpKind::Register,
        op0_reg: r0,
        op1_kind: OpKind::Register,
        op1_reg: r1,
        op2_kind: if count >= 3 { OpKind::Register } else { OpKind::Absent },
        op2_reg: if count >= 3 { r2 } else { Register::Absent },
        ..i
    }
}

/// Register size in bytes of a scalar FP `ftype` (bits [23:22]): single, double, half.
pub open spec fn fp_bytes(ftype: u32) -> Option<u32> {
    if ftype == 0 {
        Some(4)
    } else if ftype == 1 {
        Some(8)
    } else if ftype == 3 {
        Some(2)
    } else {
        None
    }
}

fn fp_bytes_exec(ftype: u32) -> (r: Option<u32>)
    ensures
        r == fp_bytes(ftype),
{
    match ftype {
        0b00 => Some(4),
        0b01 => Some(8),
        0b11 => Some(2),
        _ => None,
    }
}

/// Number of low zero bits of `v`, at most 3.
pub open spec fn low_zeros3(v: u32) -> u32 {
    if v & 1 != 0 {
        0
    } else if v & 2 != 0 {
        1
    } else if v & 4 != 0 {
        2
    } else {
        3
    }
}

/// Number of low zero bits of `v`, at most 3.
#[verifier::when_used_as_spec(low_zeros3)]
fn trailing_zeros3(v: u32) -> (r: u32)
    ensures
        r == low_zeros3(v),
        r <= 3,
{
    if v & 1 != 0 {
        0
    } else if v & 2 != 0 {
        1
    } else if v & 4 != 0 {
        2
    } else {
        3
    }
}


/// Advanced SIMD three-same: three vector registers with the arrangement by `Q` and
/// `size`; the ORR alias MOV (`Rn` = `Rm`) has two operands.
pub open spec fn three_same_spec(vaddr: u64, raw: u32) -> Instruction {
    match three_same_op(bit_at(raw, 29), field(raw, 15, 11), field(raw, 23, 22), field(raw, 9, 5) == field(raw, 20, 16)) {
        None => undefined(vaddr, raw),
        Some(mnemonic) => {
            let i = three_vregs(
                Instruction {
                    arrangement: arrangement_of(bit_at(raw, 30), field(raw, 23, 22)),
                    ..Instruction::meta(vaddr, raw, Code::Simd_three_same, mnemonic)
                },
                raw,
            );
            if mnemonic == Mnemonic::Mov {
                Instruction { op_count: 2, op2_kind: OpKind::Absent, ..i }
            } else {
                i
            }
        },
    }
}

fn decode_three_same(vaddr: u64, raw: u32) -> (r: Instruction)
    ensures
        r == three_same_spec(vaddr, raw),
{
    let q = bit(raw, 30);
    let size = bits(raw, 23, 22);
    let rm = bits(raw, 20, 16);
    let rn = bits(raw, 9, 5);
    let mnemonic = match three_same_op_exec(bit(raw, 29), bits(raw, 15, 11), size, rn == rm) {
        Some(m) => m,
        None => {
            return undef(vaddr, raw);
        },
    };
    let mut i = Instruction::with_meta(vaddr, raw, Code::Simd_three_same, mnemonic);
    i.arrangement = arrangement(q, size);
    i.op_count = 3;
    i.op0_kind = OpKind::Register;
    i.op0_reg = Register::v(bits(raw, 4, 0));
    i.op1_kind = OpKind::Register;
    i.op1_reg = Register::v(rn);
    i.op2_kind = OpKind::Register;
    i.op2_reg = Register::v(rm);
    if mnemonic == Mnemonic::Mov {
        i.op_count = 2;
        i.op2_kind = OpKind::Absent;
    }
    i
}

/// Three-same-extra (FCMLA/FCADD/SQRDMLAH/SQRDMLSH/dot products/BFMMLA): three vector
/// registers with the arrangement by `Q` and `size`.
pub open spec fn complex_three_same_spec(vaddr: u64, raw: u32) -> Instruction {
    match complex_three_same_op(bit_at(raw, 29), field(raw, 15, 11), field(raw, 23, 22)) {
        None => undefined(vaddr, raw),
        Some(mnemonic) => three_vregs(
            Instruction {
                arrangement: arrangement_of(bit_at(raw, 30), field(raw, 23, 22)),
                ..Instruction::meta(vaddr, raw, Code::Simd_three_same, mnemonic)
            },
            raw,
        ),
    }
}

fn decode_complex_three_same(vaddr: u64, raw: u32) -> (r: Instruction)
    ensures
        r == complex_three_same_spec(vaddr, raw),
{
    let size = bits(raw, 23, 22);
    let mnemonic = match complex_three_same_op_exec(bit(raw, 29), bits(raw, 15, 11), size) {
        Some(m) => m,
        None => {
            return undef(vaddr, raw);
        },
    };
    let mut i = Instruction::with_meta(vaddr, raw, Code::Simd_three_same, mnemonic);
    i.arrangement = arrangement(bit(raw, 30), size);
    i.op_count = 3;
    i.op0_kind = OpKind::Register;
    i.op0_reg = Register::v(bits(raw, 4, 0));
    i.op1_kind = OpKind::Register;
    i.op1_reg = Register::v(bits(raw, 9, 5));
    i.op2_kind = OpKind::Register;
    i.op2_reg = Register::v(bits(raw, 20, 16));
    i
}

/// Mnemonic of a modified-immediate instruction by `op`, `cmode` and `o2`: ORR/BIC for
/// the odd 32/16-bit `cmode` values, MOVI/MVNI for the even shifted and MSL forms,
/// FMOV for `cmode = 1111`, MOVI otherwise.
pub open spec fn modified_imm_op(op: u32, c: u32, o2: u32) -> Mnemonic {
    let odd = c == 1 || c == 3 || c == 5 || c == 7 || c == 9 || c == 11;
    if op == 0 && o2 == 0 && odd {
        Mnemonic::Orr
    } else if op == 1 && o2 == 0 && odd {
        Mnemonic::Bic
    } else if op == 0 && o2 == 0 && (c & 9 == 0 || c & 9 == 2 || c & 13 == 8 || c & 14 == 12) {
        Mnemonic::Movi
    } else if op == 1 && o2 == 0 && (c & 9 == 0 || c & 9 == 2 || c & 13 == 8) {
        Mnemonic::Mvni
    } else if (op == 0 || op == 1) && c == 15 && o2 == 0 {
        Mnemonic::Fmov
    } else {
        Mnemonic::Movi
    }
}

/// MOVI/MVNI/ORR/BIC/FMOV (vector, immediate): `Vd` (arrangement 16B/8B by `Q`) and the
/// 8-bit immediate `abc:defgh`.
pub open spec fn modified_imm_spec(vaddr: u64, raw: u32) -> Instruction {
    Instruction {
        arrangement: if bit_at(raw, 30) != 0 { Arrangement::B16 } else { Arrangement::B8 },
        op_count: 2,
        op0_kind: OpKind::Register,
        op0_reg: Register::v_at(field(raw, 4, 0)),
        op1_kind: OpKind::Immediate,
        op1_imm: (field(raw, 18, 16) * 32 + field(raw, 9, 5)) as u64,
        ..Instruction::meta(
            vaddr,
            raw,
            Code::Simd_modified_imm,
            modified_imm_op(bit_at(raw, 29), field(raw, 15, 12), bit_at(raw, 11)),
        )
    }
}

fn decode_modified_imm(vaddr: u64, raw: u32) -> (r: Instruction)
    ensures
        r == modified_imm_spec(vaddr, raw),
{
    let q = bit(raw, 30);
    let op = bit(raw, 29);
    let c = bits(raw, 15, 12);
    let o2 = bit(raw, 11);
    let abc = bits(raw, 18, 16);
    let defgh = bits(raw, 9, 5);
    assert(abc <= 7 && defgh <= 31 ==> (abc << 5u32) | defgh == abc * 32 + defgh) by (bit_vector);
    let imm8 = (abc << 5) | defgh;
    let odd = c == 1 || c == 3 || c == 5 || c == 7 || c == 9 || c == 11;
    let mnemonic = if op == 0 && o2 == 0 && odd {
        Mnemonic::Orr
    } else if op == 1 && o2 == 0 && odd {
        Mnemonic::Bic
    } else if op == 0 && o2 == 0 && (c & 9 == 0 || c & 9 == 2 || c & 13 == 8 || c & 14 == 12) {
        Mnemonic::Movi
    } else if op == 1 && o2 == 0 && (c & 9 == 0 || c & 9 == 2 || c & 13 == 8) {
        Mnemonic::Mvni
    } else if (op == 0 || op == 1) && c == 15 && o2 == 0 {
        Mnemonic::Fmov
    } else {
        Mnemonic::Movi
    };
    let mut i = Instruction::with_meta(vaddr, raw, Code::Simd_modified_imm, mnemonic);
    i.arrangement = if q != 0 { Arrangement::B16 } else { Arrangement::B8 };
    i.op_count = 2;
    i.op0_kind = OpKind::Register;
    i.op0_reg = Register::v(bits(raw, 4, 0));
    i.op1_kind = OpKind::Immediate;
    i.op1_imm = imm8 as u64;
    i
}

/// Mnemonic and GPR destination of a copy instruction by `op`, `imm4` and the scalar
/// form: DUP (element or general), MOV (INS, UMOV, scalar DUP), SMOV.
pub open spec fn copy_op(op: u32, imm4: u32, scalar: bool) -> Option<(Mnemonic, bool)> {
    if op == 0 && imm4 == 0 {
        Some((if scalar { Mnemonic::Mov } else { Mnemonic::Dup }, false))
    } else if op == 0 && imm4 == 1 {
        Some((Mnemonic::Dup, false))
    } else if op == 0 && imm4 == 3 {
        Some((Mnemonic::Mov, false))
    } else if op == 0 && imm4 == 5 {
        Some((Mnemonic::Smov, true))
    } else if op == 0 && imm4 == 7 {
        Some((Mnemonic::Mov, true))
    } else if op == 1 {
        Some((Mnemonic::Mov, false))
    } else {
        None
    }
}

/// DUP/INS/SMOV/UMOV and their MOV aliases. To a GPR: `Wd`/`Xd` (64-bit for `Q` or the
/// scalar form) and `Vn`; INS (general): `Vd`, `Xn`; otherwise `Vd` (a scalar register
/// of the element size given by the lowest set bit of `imm5` for the scalar form) and
/// `Vn`. The lane field `imm5` is the vector index.
pub open spec fn copy_spec(vaddr: u64, raw: u32) -> Instruction {
    let op = bit_at(raw, 29);
    let imm4 = field(raw, 14, 11);
    let imm5 = field(raw, 20, 16);
    let rn = field(raw, 9, 5);
    let rd = field(raw, 4, 0);
    let scalar = bit_at(raw, 30) == 1 && field(raw, 28, 21) == 0b11110000;
    match copy_op(op, imm4, scalar) {
        None => undefined(vaddr, raw),
        Some((mnemonic, to_gpr)) => {
            let (r0, r1) = if to_gpr {
                (Register::gpr_at(bit_at(raw, 30) != 0 || scalar, rd, false), Register::v_at(rn))
            } else if op == 0 && imm4 == 3 {
                (Register::v_at(rd), Register::gpr_at(true, rn, false))
            } else if op == 1 {
                (Register::v_at(rd), Register::v_at(rn))
            } else if scalar {
                (Register::fp_at((if low_zeros3(imm5) == 0 { 1u32 } else if low_zeros3(imm5) == 1 { 2u32 } else if low_zeros3(imm5) == 2 { 4u32 } else { 8u32 }), rd), Register::v_at(rn))
            } else {
                (Register::v_at(rd), Register::v_at(rn))
            };
            Instruction {
                op_count: 2,
                op0_kind: OpKind::Register,
                op0_reg: r0,
                op1_kind: OpKind::Register,
                op1_reg: r1,
                vector_index: imm5 as u8,
                ..Instruction::meta(vaddr, raw, Code::Simd_copy, mnemonic)
            }
        },
    }
}

fn decode_copy(vaddr: u64, raw: u32) -> (r: Instruction)
    ensures
        r == copy_spec(vaddr, raw),
{
    let q = bit(raw, 30);
    let op = bit(raw, 29);
    let imm5 = bits(raw, 20, 16);
    let imm4 = bits(raw, 14, 11);
    let rn = bits(raw, 9, 5);
    let rd = bits(raw, 4, 0);
    let scalar = bit(raw, 30) == 1 && bits(raw, 28, 21) == 0b11110000;

    // Capstone aliases many copy forms as `mov`.
    let (mnemonic, to_gpr) = if op == 0 && imm4 == 0 {
        (if scalar { Mnemonic::Mov } else { Mnemonic::Dup }, false)
    } else if op == 0 && imm4 == 1 {
        (Mnemonic::Dup, false)  // general Dup element→vector
    } else if op == 0 && imm4 == 3 {
        (Mnemonic::Mov, false)  // INS from GPR → mov
    } else if op == 0 && imm4 == 5 {
        (Mnemonic::Smov, true)
    } else if op == 0 && imm4 == 7 {
        (Mnemonic::Mov, true)  // umov → mov
    } else if op == 1 {
        (Mnemonic::Mov, false)  // ins element → mov
    } else {
        return undef(vaddr, raw);
    };
    let mut i = Instruction::with_meta(vaddr, raw, Code::Simd_copy, mnemonic);
    i.op_count = 2;
    i.op0_kind = OpKind::Register;
    i.op1_kind = OpKind::Register;
    if to_gpr {
        i.op0_reg = Register::gpr(q != 0 || scalar, rd, false);
        i.op1_reg = Register::v(rn);
    } else if op == 0 && imm4 == 0b0011 {
        // INS (general) — mov Vd.T[i], Rn
        i.op0_reg = Register::v(rd);
        i.op1_reg = Register::gpr(true, rn, false);
    } else if op == 1 {
        i.op0_reg = Register::v(rd);
        i.op1_reg = Register::v(rn);
    } else {
        i.op0_reg = if scalar {
            let size = trailing_zeros3(imm5);
            Register::fp_sized(if size == 0 { 1 } else if size == 1 { 2 } else if size == 2 { 4 } else { 8 }, rd)
        } else {
            Register::v(rd)
        };
        i.op1_reg = Register::v(rn);
    }
    i.vector_index = imm5 as u8;
    i
}

/// Two-register miscellaneous (vector): AES forms (arrangement 16B), half-precision
/// forms (4H/8H) and the general forms (arrangement by `Q` and `size`), with `Vd`, `Vn`.
pub open spec fn two_misc_spec(vaddr: u64, raw: u32) -> Instruction {
    let q = bit_at(raw, 30);
    let u = bit_at(raw, 29);
    let size = field(raw, 23, 22);
    let opcode = field(raw, 16, 12);
    let fp16 = field(raw, 21, 17) == 0b11000;
    let crypto = field(raw, 21, 17) == 0b10100;
    let op = if crypto {
        two_misc_crypto_op(u, opcode)
    } else if fp16 {
        two_misc_fp16_op(u, opcode)
    } else {
        two_misc_op(u, opcode, size, q)
    };
    match op {
        None => undefined(vaddr, raw),
        Some(mnemonic) => two_vregs(
            Instruction {
                arrangement: if fp16 {
                    if q != 0 { Arrangement::H8 } else { Arrangement::H4 }
                } else if crypto {
                    Arrangement::B16
                } else {
                    arrangement_of(q, size)
                },
                ..Instruction::meta(vaddr, raw, Code::Simd_two_misc, mnemonic)
            },
            raw,
        ),
    }
}

fn decode_two_misc(vaddr: u64, raw: u32) -> (r: Instruction)
    ensures
        r == two_misc_spec(vaddr, raw),
{
    let q = bit(raw, 30);
    let u = bit(raw, 29);
    let size = bits(raw, 23, 22);
    let opcode = bits(raw, 16, 12);
    let fp16 = bits(raw, 21, 17) == 0b11000;
    let crypto = bits(raw, 21, 17) == 0b10100;
    let op = if crypto {
        two_misc_crypto_op_exec(u, opcode)
    } else if fp16 {
        two_misc_fp16_op_exec(u, opcode)
    } else {
        two_misc_op_exec(u, opcode, size, q)
    };
    let mnemonic = match op {
        Some(m) => m,
        None => {
            return undef(vaddr, raw);
        },
    };
    let mut i = Instruction::with_meta(vaddr, raw, Code::Simd_two_misc, mnemonic);
    i.arrangement = if fp16 {
        if q != 0 { Arrangement::H8 } else { Arrangement::H4 }
    } else if crypto {
        Arrangement::B16
    } else {
        arrangement(q, size)
    };
    i.op_count = 2;
    i.op0_kind = OpKind::Register;
    i.op0_reg = Register::v(bits(raw, 4, 0));
    i.op1_kind = OpKind::Register;
    i.op1_reg = Register::v(bits(raw, 9, 5));
    i
}

/// Across-lanes reductions: `Vd`, `Vn`, arrangement by `Q` and `size`.
pub open spec fn across_spec(vaddr: u64, raw: u32) -> Instruction {
    match across_op(bit_at(raw, 29), field(raw, 16, 12)) {
        None => undefined(vaddr, raw),
        Some(mnemonic) => two_vregs(
            Instruction {
                arrangement: arrangement_of(bit_at(raw, 30), field(raw, 23, 22)),
                ..Instruction::meta(vaddr, raw, Code::Simd_across, mnemonic)
            },
            raw,
        ),
    }
}

fn decode_across(vaddr: u64, raw: u32) -> (r: Instruction)
    ensures
        r == across_spec(vaddr, raw),
{
    let mnemonic = match across_op_exec(bit(raw, 29), bits(raw, 16, 12)) {
        Some(m) => m,
        None => {
            return undef(vaddr, raw);
        },
    };
    let mut i = Instruction::with_meta(vaddr, raw, Code::Simd_across, mnemonic);
    i.arrangement = arrangement(bit(raw, 30), bits(raw, 23, 22));
    i.op_count = 2;
    i.op0_kind = OpKind::Register;
    i.op0_reg = Register::v(bits(raw, 4, 0));
    i.op1_kind = OpKind::Register;
    i.op1_reg = Register::v(bits(raw, 9, 5));
    i
}

/// Shift by immediate: `Vd`, `Vn` and the immediate `immh:immb`; the arrangement's
/// element size is given by the highest set bit of `immh`, read here as its number of
/// low zero bits (at most 3).
pub open spec fn shift_imm_spec(vaddr: u64, raw: u32) -> Instruction {
    let q = bit_at(raw, 30);
    let immh = field(raw, 22, 19);
    match shift_imm_op(bit_at(raw, 29), field(raw, 15, 11), q) {
        None => undefined(vaddr, raw),
        Some(mnemonic) => Instruction {
            op_count: 3,
            op2_kind: OpKind::Immediate,
            op2_imm: (immh * 8 + field(raw, 18, 16)) as u64,
            arrangement: arrangement_of(q, low_zeros3(immh)),
            ..two_vregs(Instruction::meta(vaddr, raw, Code::Simd_shift_imm, mnemonic), raw)
        },
    }
}

fn decode_shift_imm(vaddr: u64, raw: u32) -> (r: Instruction)
    ensures
        r == shift_imm_spec(vaddr, raw),
{
    let q = bit(raw, 30);
    let immh = bits(raw, 22, 19);
    let immb = bits(raw, 18, 16);
    let mnemonic = match shift_imm_op_exec(bit(raw, 29), bits(raw, 15, 11), q) {
        Some(m) => m,
        None => {
            return undef(vaddr, raw);
        },
    };
    assert(immh <= 15 && immb <= 7 ==> (immh << 3u32) | immb == immh * 8 + immb) by (bit_vector);
    let mut i = Instruction::with_meta(vaddr, raw, Code::Simd_shift_imm, mnemonic);
    i.op_count = 3;
    i.op0_kind = OpKind::Register;
    i.op0_reg = Register::v(bits(raw, 4, 0));
    i.op1_kind = OpKind::Register;
    i.op1_reg = Register::v(bits(raw, 9, 5));
    i.op2_kind = OpKind::Immediate;
    i.op2_imm = ((immh << 3) | immb) as u64;
    i.arrangement = arrangement(q, trailing_zeros3(immh));
    i
}

/// TBL/TBX: `Vd`, `Vn`, `Vm` (arrangement 16B/8B by `Q`); the table register count
/// `len + 1` is kept in the fourth immediate slot.
pub open spec fn tbl_spec(vaddr: u64, raw: u32) -> Instruction {
    Instruction {
        arrangement: if bit_at(raw, 30) != 0 { Arrangement::B16 } else { Arrangement::B8 },
        op3_imm: (field(raw, 14, 13) + 1) as u64,
        ..three_vregs(
            Instruction::meta(
                vaddr,
                raw,
                Code::Simd_tbl,
                if bit_at(raw, 12) == 0 { Mnemonic::Tbl } else { Mnemonic::Tbx },
            ),
            raw,
        )
    }
}

fn decode_tbl(vaddr: u64, raw: u32) -> (r: Instruction)
    ensures
        r == tbl_spec(vaddr, raw),
{
    let q = bit(raw, 30);
    let len = bits(raw, 14, 13);
    let op = bit(raw, 12);
    let mut i = Instruction::with_meta(
        vaddr,
        raw,
        Code::Simd_tbl,
        if op == 0 { Mnemonic::Tbl } else { Mnemonic::Tbx },
    );
    i.arrangement = if q != 0 { Arrangement::B16 } else { Arrangement::B8 };
    i.op_count = 3;
    i.op0_kind = OpKind::Register;
    i.op0_reg = Register::v(bits(raw, 4, 0));
    i.op1_kind = OpKind::Register;
    i.op1_reg = Register::v(bits(raw, 9, 5));
    i.op2_kind = OpKind::Register;
    i.op2_reg = Register::v(bits(raw, 20, 16));
    i.op3_imm = (len + 1) as u64;  // register list length
    i
}

/// ZIP/UZP/TRN: three vector registers, arrangement by `Q` and `size`.
pub open spec fn permute_spec(vaddr: u64, raw: u32) -> Instruction {
    match permute_op(field(raw, 14, 12)) {
        None => undefined(vaddr, raw),
        Some(mnemonic) => three_vregs(
            Instruction {
                arrangement: arrangement_of(bit_at(raw, 30), field(raw, 23, 22)),
                ..Instruction::meta(vaddr, raw, Code::Simd_permute, mnemonic)
            },
            raw,
        ),
    }
}

fn decode_permute(vaddr: u64, raw: u32) -> (r: Instruction)
    ensures
        r == permute_spec(vaddr, raw),
{
    let mnemonic = match permute_op_exec(bits(raw, 14, 12)) {
        Some(m) => m,
        None => {
            return undef(vaddr, raw);
        },
    };
    let mut i = Instruction::with_meta(vaddr, raw, Code::Simd_permute, mnemonic);
    i.arrangement = arrangement(bit(raw, 30), bits(raw, 23, 22));
    i.op_count = 3;
    i.op0_kind = OpKind::Register;
    i.op0_reg = Register::v(bits(raw, 4, 0));
    i.op1_kind = OpKind::Register;
    i.op1_reg = Register::v(bits(raw, 9, 5));
    i.op2_kind = OpKind::Register;
    i.op2_reg = Register::v(bits(raw, 20, 16));
    i
}

/// EXT: three vector registers (arrangement 16B/8B by `Q`) and the byte index `imm4`.
pub open spec fn ext_spec(vaddr: u64, raw: u32) -> Instruction {
    Instruction {
        arrangement: if bit_at(raw, 30) != 0 { Arrangement::B16 } else { Arrangement::B8 },
        op_count: 4,
        op3_kind: OpKind::Immediate,
        op3_imm: field(raw, 14, 11) as u64,
        ..three_vregs(Instruction::meta(vaddr, raw, Code::Simd_ext, Mnemonic::Ext), raw)
    }
}

fn decode_ext(vaddr: u64, raw: u32) -> (r: Instruction)
    ensures
        r == ext_spec(vaddr, raw),
{
    let q = bit(raw, 30);
    let mut i = Instruction::with_meta(vaddr, raw, Code::Simd_ext, Mnemonic::Ext);
    i.arrangement = if q != 0 { Arrangement::B16 } else { Arrangement::B8 };
    i.op_count = 4;
    i.op0_kind = OpKind::Register;
    i.op0_reg = Register::v(bits(raw, 4, 0));
    i.op1_kind = OpKind::Register;
    i.op1_reg = Register::v(bits(raw, 9, 5));
    i.op2_kind = OpKind::Register;
    i.op2_reg = Register::v(bits(raw, 20, 16));
    i.op3_kind = OpKind::Immediate;
    i.op3_imm = bits(raw, 14, 11) as u64;
    i
}

/// FP data-processing (two source): three scalar registers of the `ftype` size.
pub open spec fn fp_2src_spec(vaddr: u64, raw: u32) -> Instruction {
    match (fp_2src_op(field(raw, 15, 12)), fp_bytes(field(raw, 23, 22))) {
        (Some(mnemonic), Some(bytes)) => fp_regs(
            Instruction::meta(vaddr, raw, Code::Fp_data_2src, mnemonic),
            3,
            Register::fp_at(bytes, field(raw, 4, 0)),
            Register::fp_at(bytes, field(raw, 9, 5)),
            Register::fp_at(bytes, field(raw, 20, 16)),
        ),
        _ => undefined(vaddr, raw),
    }
}

fn decode_fp_2src(vaddr: u64, raw: u32) -> (r: Instruction)
    ensures
        r == fp_2src_spec(vaddr, raw),
{
    let mnemonic = match fp_2src_op_exec(bits(raw, 15, 12)) {
        Some(m) => m,
        None => {
            return undef(vaddr, raw);
        },
    };
    let bytes = match fp_bytes_exec(bits(raw, 23, 22)) {
        Some(b) => b,
        None => {
            return undef(vaddr, raw);
        },
    };
    let mut i = Instruction::with_meta(vaddr, raw, Code::Fp_data_2src, mnemonic);
    i.op_count = 3;
    i.op0_kind = OpKind::Register;
    i.op0_reg = Register::fp_sized(bytes, bits(raw, 4, 0));
    i.op1_kind = OpKind::Register;
    i.op1_reg = Register::fp_sized(bytes, bits(raw, 9, 5));
    i.op2_kind = OpKind::Register;
    i.op2_reg = Register::fp_sized(bytes, bits(raw, 20, 16));
    i
}

/// FP data-processing (one source): two scalar registers of the `ftype` size.
pub open spec fn fp_1src_spec(vaddr: u64, raw: u32) -> Instruction {
    match (fp_bytes(field(raw, 23, 22)), fp_1src_op(field(raw, 20, 15))) {
        (Some(bytes), Some(mnemonic)) => fp_regs(
            Instruction::meta(vaddr, raw, Code::Fp_1src, mnemonic),
            2,
            Register::fp_at(bytes, field(raw, 4, 0)),
            Register::fp_at(bytes, field(raw, 9, 5)),
            Register::Absent,
        ),
        _ => undefined(vaddr, raw),
    }
}

fn decode_fp_1src(vaddr: u64, raw: u32) -> (r: Instruction)
    ensures
        r == fp_1src_spec(vaddr, raw),
{
    let bytes = match fp_bytes_exec(bits(raw, 23, 22)) {
        Some(b) => b,
        None => {
            return undef(vaddr, raw);
        },
    };
    // opcode in bits[20:15] for FP 1-source
    let mnemonic = match fp_1src_op_exec(bits(raw, 20, 15)) {
        Some(m) => m,
        None => {
            return undef(vaddr, raw);
        },
    };
    let mut i = Instruction::with_meta(vaddr, raw, Code::Fp_1src, mnemonic);
    i.op_count = 2;
    i.op0_kind = OpKind::Register;
    i.op0_reg = Register::fp_sized(bytes, bits(raw, 4, 0));
    i.op1_kind = OpKind::Register;
    i.op1_reg = Register::fp_sized(bytes, bits(raw, 9, 5));
    i
}

/// Mnemonic of an FP three-source instruction by `o1` and `o0`.
pub open spec fn fp_3src_op(o1: u32, o0: u32) -> Mnemonic {
    if o1 == 0 && o0 == 0 {
        Mnemonic::Fmadd
    } else if o1 == 0 {
        Mnemonic::Fmsub
    } else if o0 == 0 {
        Mnemonic::Fnmadd
    } else {
        Mnemonic::Fnmsub
    }
}

/// FP data-processing (three source): `Rd`, `Rn`, `Rm`, `Ra` of the `ftype` size.
pub open spec fn fp_3src_spec(vaddr: u64, raw: u32) -> Instruction {
    match fp_bytes(field(raw, 23, 22)) {
        None => undefined(vaddr, raw),
        Some(bytes) => Instruction {
            op_count: 4,
            op3_kind: OpKind::Register,
            op3_reg: Register::fp_at(bytes, field(raw, 14, 10)),
            ..fp_regs(
                Instruction::meta(vaddr, raw, Code::Fp_data_2src, fp_3src_op(bit_at(raw, 21), bit_at(raw, 15))),
                3,
                Register::fp_at(bytes, field(raw, 4, 0)),
                Register::fp_at(bytes, field(raw, 9, 5)),
                Register::fp_at(bytes, field(raw, 20, 16)),
            )
        },
    }
}

fn decode_fp_3src(vaddr: u64, raw: u32) -> (r: Instruction)
    ensures
        r == fp_3src_spec(vaddr, raw),
{
    let o1 = bit(raw, 21);
    let o0 = bit(raw, 15);
    let mnemonic = if o1 == 0 && o0 == 0 {
        Mnemonic::Fmadd
    } else if o1 == 0 {
        Mnemonic::Fmsub
    } else if o0 == 0 {
        Mnemonic::Fnmadd
    } else {
        Mnemonic::Fnmsub
    };
    let bytes = match fp_bytes_exec(bits(raw, 23, 22)) {
        Some(b) => b,
        None => {
            return undef(vaddr, raw);
        },
    };
    let mut i = Instruction::with_meta(vaddr, raw, Code::Fp_data_2src, mnemonic);
    i.op_count = 4;
    i.op0_kind = OpKind::Register;
    i.op0_reg = Register::fp_sized(bytes, bits(raw, 4, 0));
    i.op1_kind = OpKind::Register;
    i.op1_reg = Register::fp_sized(bytes, bits(raw, 9, 5));
    i.op2_kind = OpKind::Register;
    i.op2_reg = Register::fp_sized(bytes, bits(raw, 20, 16));
    i.op3_kind = OpKind::Register;
    i.op3_reg = Register::fp_sized(bytes, bits(raw, 14, 10));
    i
}

/// SHA three-register instructions (bits [11:10] = 00, `size` = 00): three vector
/// registers.
pub open spec fn crypto_3reg_spec(vaddr: u64, raw: u32) -> Instruction {
    if field(raw, 11, 10) != 0 || field(raw, 23, 22) != 0 {
        undefined(vaddr, raw)
    } else {
        match crypto_3reg_op(field(raw, 15, 12)) {
            None => undefined(vaddr, raw),
            Some(mnemonic) => three_vregs(Instruction::meta(vaddr, raw, Code::Simd_three_same, mnemonic), raw),
        }
    }
}

fn decode_crypto_3reg(vaddr: u64, raw: u32) -> (r: Instruction)
    ensures
        r == crypto_3reg_spec(vaddr, raw),
{
    // bits[11:10] must be 00 for 3-reg forms (avoids aliasing scalar MOV/DUP).
    if bits(raw, 11, 10) != 0b00 || bits(raw, 23, 22) != 0b00 {
        return undef(vaddr, raw);
    }
    let mnemonic = match crypto_3reg_op_exec(bits(raw, 15, 12)) {
        Some(m) => m,
        None => {
            return undef(vaddr, raw);
        },
    };
    let mut i = Instruction::with_meta(vaddr, raw, Code::Simd_three_same, mnemonic);
    i.op_count = 3;
    i.op0_kind = OpKind::Register;
    i.op0_reg = Register::v(bits(raw, 4, 0));
    i.op1_kind = OpKind::Register;
    i.op1_reg = Register::v(bits(raw, 9, 5));
    i.op2_kind = OpKind::Register;
    i.op2_reg = Register::v(bits(raw, 20, 16));
    i
}

/// Three-different (widening, narrowing and long multiply forms): three vector
/// registers, arrangement by `Q` and `size`.
pub open spec fn three_diff_spec(vaddr: u64, raw: u32) -> Instruction {
    let q = bit_at(raw, 30);
    match three_diff_op(bit_at(raw, 29), field(raw, 15, 12), q) {
        None => undefined(vaddr, raw),
        Some(mnemonic) => three_vregs(
            Instruction {
                arrangement: arrangement_of(q, field(raw, 23, 22)),
                ..Instruction::meta(vaddr, raw, Code::Simd_three_diff, mnemonic)
            },
            raw,
        ),
    }
}

fn decode_three_diff(vaddr: u64, raw: u32) -> (r: Instruction)
    ensures
        r == three_diff_spec(vaddr, raw),
{
    let q = bit(raw, 30);
    let mnemonic = match three_diff_op_exec(bit(raw, 29), bits(raw, 15, 12), q) {
        Some(m) => m,
        None => {
            return undef(vaddr, raw);
        },
    };
    let mut i = Instruction::with_meta(vaddr, raw, Code::Simd_three_diff, mnemonic);
    i.arrangement = arrangement(q, bits(raw, 23, 22));
    i.op_count = 3;
    i.op0_kind = OpKind::Register;
    i.op0_reg = Register::v(bits(raw, 4, 0));
    i.op1_kind = OpKind::Register;
    i.op1_reg = Register::v(bits(raw, 9, 5));
    i.op2_kind = OpKind::Register;
    i.op2_reg = Register::v(bits(raw, 20, 16));
    i
}

/// By-element forms: `Vd`, `Vn` and `Vm` with `M` (bit 20) as the high register bit;
/// the lane index is `H:L:size<0>`; arrangement by `Q` and `size`.
pub open spec fn by_element_spec(vaddr: u64, raw: u32) -> Instruction {
    let q = bit_at(raw, 30);
    let size = field(raw, 23, 22);
    match by_element_op(bit_at(raw, 29), field(raw, 15, 12), size, q) {
        None => undefined(vaddr, raw),
        Some(mnemonic) => Instruction {
            arrangement: arrangement_of(q, size),
            op_count: 3,
            op2_kind: OpKind::Register,
            op2_reg: Register::v_at((field(raw, 19, 16) + bit_at(raw, 20) * 16) as u32),
            vector_index: (bit_at(raw, 11) * 4 + bit_at(raw, 21) * 2 + size % 2) as u8,
            ..two_vregs(Instruction::meta(vaddr, raw, Code::Simd_by_element, mnemonic), raw)
        },
    }
}

fn decode_by_element(vaddr: u64, raw: u32) -> (r: Instruction)
    ensures
        r == by_element_spec(vaddr, raw),
{
    let q = bit(raw, 30);
    let size = bits(raw, 23, 22);
    let l = bit(raw, 21);
    let m = bit(raw, 20);
    let rm = bits(raw, 19, 16);
    let h = bit(raw, 11);
    let mnemonic = match by_element_op_exec(bit(raw, 29), bits(raw, 15, 12), size, q) {
        Some(mn) => mn,
        None => {
            return undef(vaddr, raw);
        },
    };
    assert(rm <= 15 && m <= 1 ==> rm | (m << 4u32) == rm + m * 16) by (bit_vector);
    assert(h <= 1 && l <= 1 && size <= 3 ==> (h << 2u32) | (l << 1u32) | (size & 1) == h * 4 + l * 2 + size % 2) by (bit_vector);
    let mut i = Instruction::with_meta(vaddr, raw, Code::Simd_by_element, mnemonic);
    i.arrangement = arrangement(q, size);
    i.op_count = 3;
    i.op0_kind = OpKind::Register;
    i.op0_reg = Register::v(bits(raw, 4, 0));
    i.op1_kind = OpKind::Register;
    i.op1_reg = Register::v(bits(raw, 9, 5));
    i.op2_kind = OpKind::Register;
    i.op2_reg = Register::v(rm | (m << 4));
    i.vector_index = ((h << 2) | (l << 1) | (size & 1)) as u8;
    i
}

/// Conversions between floating point and fixed point: SCVTF/UCVTF take a scalar
/// destination and a GPR source, FCVTZS/FCVTZU the reverse; the third operand is the
/// `scale` field (bits [15:10]).
pub open spec fn fp_conversion_fixed_spec(vaddr: u64, raw: u32) -> Instruction {
    let sf = bit_at(raw, 31) != 0;
    match (fp_bytes(field(raw, 23, 22)), fp_fixed_op(field(raw, 18, 16))) {
        (Some(bytes), Some(mnemonic)) => {
            let to_fp = mnemonic == Mnemonic::Scvtf || mnemonic == Mnemonic::Ucvtf;
            Instruction {
                op_count: 3,
                op2_kind: OpKind::Immediate,
                op2_imm: field(raw, 15, 10) as u64,
                ..fp_regs(
                    Instruction::meta(vaddr, raw, Code::Fp_conversion, mnemonic),
                    2,
                    if to_fp { Register::fp_at(bytes, field(raw, 4, 0)) } else { Register::gpr_at(sf, field(raw, 4, 0), false) },
                    if to_fp { Register::gpr_at(sf, field(raw, 9, 5), false) } else { Register::fp_at(bytes, field(raw, 9, 5)) },
                    Register::Absent,
                )
            }
        },
        _ => undefined(vaddr, raw),
    }
}

fn decode_fp_conversion_fixed(vaddr: u64, raw: u32) -> (r: Instruction)
    ensures
        r == fp_conversion_fixed_spec(vaddr, raw),
{
    let sf = bit(raw, 31) != 0;
    let rn = bits(raw, 9, 5);
    let rd = bits(raw, 4, 0);
    let bytes = match fp_bytes_exec(bits(raw, 23, 22)) {
        Some(b) => b,
        None => {
            return undef(vaddr, raw);
        },
    };
    let mnemonic = match fp_fixed_op_exec(bits(raw, 18, 16)) {
        Some(m) => m,
        None => {
            return undef(vaddr, raw);
        },
    };
    let to_fp = mnemonic == Mnemonic::Scvtf || mnemonic == Mnemonic::Ucvtf;
    let mut i = Instruction::with_meta(vaddr, raw, Code::Fp_conversion, mnemonic);
    i.op_count = 3;
    i.op0_kind = OpKind::Register;
    i.op1_kind = OpKind::Register;
    i.op2_kind = OpKind::Immediate;
    i.op2_imm = bits(raw, 15, 10) as u64;
    if to_fp {
        i.op0_reg = Register::fp_sized(bytes, rd);
        i.op1_reg = Register::gpr(sf, rn, false);
    } else {
        i.op0_reg = Register::gpr(sf, rd, false);
        i.op1_reg = Register::fp_sized(bytes, rn);
    }
    i
}

/// Scalar two-register miscellaneous: the SHA two-register forms (bits [21:16] =
/// 101000) with two vector registers; otherwise a scalar destination of `min(2^size, 8)`
/// bytes and a source of twice that size (at most 16).
pub open spec fn scalar_two_misc_spec(vaddr: u64, raw: u32) -> Instruction {
    let size = field(raw, 23, 22);
    let opcode = field(raw, 16, 12);
    if field(raw, 21, 16) == 0b101000 && field(raw, 11, 10) == 0b10 {
        match sha_two_op(opcode) {
            None => undefined(vaddr, raw),
            Some(mnemonic) => two_vregs(Instruction::meta(vaddr, raw, Code::Simd_two_misc, mnemonic), raw),
        }
    } else {
        match scalar_two_misc_op(bit_at(raw, 29), opcode) {
            None => undefined(vaddr, raw),
            Some(mnemonic) => {
                let bytes: u32 = if size == 0 { 1 } else if size == 1 { 2 } else if size == 2 { 4 } else { 8 };
                fp_regs(
                    Instruction::meta(vaddr, raw, Code::Simd_two_misc, mnemonic),
                    2,
                    Register::fp_at(if bytes < 8 { bytes } else { 8 }, field(raw, 4, 0)),
                    Register::fp_at(if bytes * 2 < 16 { (bytes * 2) as u32 } else { 16 }, field(raw, 9, 5)),
                    Register::Absent,
                )
            },
        }
    }
}

fn decode_simd_scalar_two_misc(vaddr: u64, raw: u32) -> (r: Instruction)
    ensures
        r == scalar_two_misc_spec(vaddr, raw),
{
    let size = bits(raw, 23, 22);
    let opcode = bits(raw, 16, 12);
    let rn = bits(raw, 9, 5);
    let rd = bits(raw, 4, 0);
    // SHA1H / SHA1SU1 / SHA256SU0 (two-register crypto)
    if bits(raw, 21, 16) == 0b101000 && bits(raw, 11, 10) == 0b10 {
        let mnemonic = match sha_two_op_exec(opcode) {
            Some(m) => m,
            None => {
                return undef(vaddr, raw);
            },
        };
        let mut i = Instruction::with_meta(vaddr, raw, Code::Simd_two_misc, mnemonic);
        i.op_count = 2;
        i.op0_kind = OpKind::Register;
        i.op0_reg = Register::v(rd);
        i.op1_kind = OpKind::Register;
        i.op1_reg = Register::v(rn);
        return i;
    }
    let mnemonic = match scalar_two_misc_op_exec(bit(raw, 29), opcode) {
        Some(m) => m,
        None => {
            return undef(vaddr, raw);
        },
    };
    let bytes: u32 = if size == 0 { 1 } else if size == 1 { 2 } else if size == 2 { 4 } else { 8 };
    let mut i = Instruction::with_meta(vaddr, raw, Code::Simd_two_misc, mnemonic);
    i.op_count = 2;
    i.op0_kind = OpKind::Register;
    i.op0_reg = Register::fp_sized(if bytes < 8 { bytes } else { 8 }, rd);
    i.op1_kind = OpKind::Register;
    i.op1_reg = Register::fp_sized(if bytes * 2 < 16 { bytes * 2 } else { 16 }, rn);
    i
}

/// Whether a conversion mnemonic converts to an integer register.
pub open spec fn fp_to_int(m: Mnemonic) -> bool {
    m == Mnemonic::Fcvtns || m == Mnemonic::Fcvtnu || m == Mnemonic::Fcvtps || m == Mnemonic::Fcvtpu
        || m == Mnemonic::Fcvtms || m == Mnemonic::Fcvtmu || m == Mnemonic::Fcvtas || m == Mnemonic::Fcvtau
        || m == Mnemonic::Fcvtzs || m == Mnemonic::Fcvtzu
}

/// Conversions between floating point and integer (and FMOV between FP and general
/// registers): conversions to integer and FMOV with `opcode = 110` write a GPR from a
/// scalar register; the others write a scalar register from a GPR.
pub open spec fn fp_conversion_spec(vaddr: u64, raw: u32) -> Instruction {
    let sf = bit_at(raw, 31) != 0;
    let opcode = field(raw, 18, 16);
    match (fp_bytes(field(raw, 23, 22)), fp_conversion_op(field(raw, 20, 19), opcode)) {
        (Some(bytes), Some(mnemonic)) => {
            let to_int = fp_to_int(mnemonic) || (mnemonic == Mnemonic::Fmov && opcode == 6);
            fp_regs(
                Instruction::meta(vaddr, raw, Code::Fp_conversion, mnemonic),
                2,
                if to_int { Register::gpr_at(sf, field(raw, 4, 0), false) } else { Register::fp_at(bytes, field(raw, 4, 0)) },
                if to_int { Register::fp_at(bytes, field(raw, 9, 5)) } else { Register::gpr_at(sf, field(raw, 9, 5), false) },
                Register::Absent,
            )
        },
        _ => undefined(vaddr, raw),
    }
}

fn decode_fp_conversion(vaddr: u64, raw: u32) -> (r: Instruction)
    ensures
        r == fp_conversion_spec(vaddr, raw),
{
    let sf = bit(raw, 31) != 0;
    let opcode = bits(raw, 18, 16);
    let rn = bits(raw, 9, 5);
    let rd = bits(raw, 4, 0);
    let bytes = match fp_bytes_exec(bits(raw, 23, 22)) {
        Some(b) => b,
        None => {
            return undef(vaddr, raw);
        },
    };
    let mnemonic = match fp_conversion_op_exec(bits(raw, 20, 19), opcode) {
        Some(m) => m,
        None => {
            return undef(vaddr, raw);
        },
    };
    let to_int = mnemonic == Mnemonic::Fcvtns || mnemonic == Mnemonic::Fcvtnu || mnemonic == Mnemonic::Fcvtps
        || mnemonic == Mnemonic::Fcvtpu || mnemonic == Mnemonic::Fcvtms || mnemonic == Mnemonic::Fcvtmu
        || mnemonic == Mnemonic::Fcvtas || mnemonic == Mnemonic::Fcvtau || mnemonic == Mnemonic::Fcvtzs
        || mnemonic == Mnemonic::Fcvtzu || (mnemonic == Mnemonic::Fmov && opcode == 0b110);
    let mut i = Instruction::with_meta(vaddr, raw, Code::Fp_conversion, mnemonic);
    i.op_count = 2;
    i.op0_kind = OpKind::Register;
    i.op1_kind = OpKind::Register;
    if to_int {
        i.op0_reg = Register::gpr(sf, rd, false);
        i.op1_reg = Register::fp_sized(bytes, rn);
    } else {
        i.op0_reg = Register::fp_sized(bytes, rd);
        i.op1_reg = Register::gpr(sf, rn, false);
    }
    i
}

/// FCMP/FCMPE (bit 4 of `opcode2` selects FCMPE): `Rn` and `Rm`, or `#0` when bit 3 of
/// `opcode2` is set.
pub open spec fn fp_compare_spec(vaddr: u64, raw: u32) -> Instruction {
    let opcode2 = field(raw, 4, 0);
    match fp_bytes(field(raw, 23, 22)) {
        None => undefined(vaddr, raw),
        Some(bytes) => {
            let i = Instruction {
                op_count: 2,
                op0_kind: OpKind::Register,
                op0_reg: Register::fp_at(bytes, field(raw, 9, 5)),
                ..Instruction::meta(
                    vaddr,
                    raw,
                    Code::Fp_compare,
                    if opcode2 & 16 != 0 { Mnemonic::Fcmpe } else { Mnemonic::Fcmp },
                )
            };
            if opcode2 & 8 != 0 {
                Instruction { op1_kind: OpKind::Immediate, op1_imm: 0, ..i }
            } else {
                Instruction { op1_kind: OpKind::Register, op1_reg: Register::fp_at(bytes, field(raw, 20, 16)), ..i }
            }
        },
    }
}

fn decode_fp_compare(vaddr: u64, raw: u32) -> (r: Instruction)
    ensures
        r == fp_compare_spec(vaddr, raw),
{
    let opcode2 = bits(raw, 4, 0);
    let bytes = match fp_bytes_exec(bits(raw, 23, 22)) {
        Some(b) => b,
        None => {
            return undef(vaddr, raw);
        },
    };
    let mnemonic = if (opcode2 & 0b10000) != 0 { Mnemonic::Fcmpe } else { Mnemonic::Fcmp };
    let mut i = Instruction::with_meta(vaddr, raw, Code::Fp_compare, mnemonic);
    i.op_count = 2;
    i.op0_kind = OpKind::Register;
    i.op0_reg = Register::fp_sized(bytes, bits(raw, 9, 5));
    if (opcode2 & 0b01000) != 0 {
        i.op1_kind = OpKind::Immediate;
        i.op1_imm = 0;
    } else {
        i.op1_kind = OpKind::Register;
        i.op1_reg = Register::fp_sized(bytes, bits(raw, 20, 16));
    }
    i
}

/// FCCMP/FCCMPE (bit 4): `Rn`, `Rm`, the flag value `nzcv` and the condition from bits
/// [15:12].
pub open spec fn fp_cond_compare_spec(vaddr: u64, raw: u32) -> Instruction {
    match fp_bytes(field(raw, 23, 22)) {
        None => undefined(vaddr, raw),
        Some(bytes) => Instruction {
            op_count: 3,
            op2_kind: OpKind::Immediate,
            op2_imm: field64(raw, 3, 0),
            condition: Condition::decode_spec(field(raw, 15, 12)),
            ..fp_regs(
                Instruction::meta(
                    vaddr,
                    raw,
                    Code::Fp_compare,
                    if bit_at(raw, 4) != 0 { Mnemonic::Fccmpe } else { Mnemonic::Fccmp },
                ),
                2,
                Register::fp_at(bytes, field(raw, 9, 5)),
                Register::fp_at(bytes, field(raw, 20, 16)),
                Register::Absent,
            )
        },
    }
}

fn decode_fp_cond_compare(vaddr: u64, raw: u32) -> (r: Instruction)
    ensures
        r == fp_cond_compare_spec(vaddr, raw),
{
    let cond = Condition::from_u32(bits(raw, 15, 12));
    let bytes = match fp_bytes_exec(bits(raw, 23, 22)) {
        Some(b) => b,
        None => {
            return undef(vaddr, raw);
        },
    };
    let mut i = Instruction::with_meta(
        vaddr,
        raw,
        Code::Fp_compare,
        if bit(raw, 4) != 0 { Mnemonic::Fccmpe } else { Mnemonic::Fccmp },
    );
    i.op_count = 3;
    i.op0_kind = OpKind::Register;
    i.op0_reg = Register::fp_sized(bytes, bits(raw, 9, 5));
    i.op1_kind = OpKind::Register;
    i.op1_reg = Register::fp_sized(bytes, bits(raw, 20, 16));
    i.op2_kind = OpKind::Immediate;
    i.op2_imm = bits64(raw, 3, 0);
    i.condition = cond;
    i
}

/// FCSEL: three scalar registers and the condition from bits [15:12].
pub open spec fn fp_csel_spec(vaddr: u64, raw: u32) -> Instruction {
    match fp_bytes(field(raw, 23, 22)) {
        None => undefined(vaddr, raw),
        Some(bytes) => Instruction {
            condition: Condition::decode_spec(field(raw, 15, 12)),
            ..fp_regs(
                Instruction::meta(vaddr, raw, Code::Fp_data_2src, Mnemonic::Fcsel),
                3,
                Register::fp_at(bytes, field(raw, 4, 0)),
                Register::fp_at(bytes, field(raw, 9, 5)),
                Register::fp_at(bytes, field(raw, 20, 16)),
            )
        },
    }
}

fn decode_fp_csel(vaddr: u64, raw: u32) -> (r: Instruction)
    ensures
        r == fp_csel_spec(vaddr, raw),
{
    let cond = Condition::from_u32(bits(raw, 15, 12));
    let bytes = match fp_bytes_exec(bits(raw, 23, 22)) {
        Some(b) => b,
        None => {
            return undef(vaddr, raw);
        },
    };
    let mut i = Instruction::with_meta(vaddr, raw, Code::Fp_data_2src, Mnemonic::Fcsel);
    i.op_count = 3;
    i.op0_kind = OpKind::Register;
    i.op0_reg = Register::fp_sized(bytes, bits(raw, 4, 0));
    i.op1_kind = OpKind::Register;
    i.op1_reg = Register::fp_sized(bytes, bits(raw, 9, 5));
    i.op2_kind = OpKind::Register;
    i.op2_reg = Register::fp_sized(bytes, bits(raw, 20, 16));
    i.condition = cond;
    i
}

/// FMOV (scalar, immediate): single or double destination and the 8-bit encoded
/// constant; other types are undefined.
pub open spec fn fp_imm_spec(vaddr: u64, raw: u32) -> Instruction {
    let ftype = field(raw, 23, 22);
    if ftype > 1 {
        undefined(vaddr, raw)
    } else {
        Instruction {
            op_count: 2,
            op0_kind: OpKind::Register,
            op0_reg: Register::fp_at(if ftype == 0 { 4 } else { 8 }, field(raw, 4, 0)),
            op1_kind: OpKind::Immediate,
            op1_imm: field(raw, 20, 13) as u64,
            ..Instruction::meta(vaddr, raw, Code::Fp_imm, Mnemonic::Fmov)
        }
    }
}

fn decode_fp_imm(vaddr: u64, raw: u32) -> (r: Instruction)
    ensures
        r == fp_imm_spec(vaddr, raw),
{
    let ftype = bits(raw, 23, 22);
    let bytes: u32 = if ftype == 0 {
        4
    } else if ftype == 1 {
        8
    } else {
        return undef(vaddr, raw);
    };
    let mut i = Instruction::with_meta(vaddr, raw, Code::Fp_imm, Mnemonic::Fmov);
    i.op_count = 2;
    i.op0_kind = OpKind::Register;
    i.op0_reg = Register::fp_sized(bytes, bits(raw, 4, 0));
    i.op1_kind = OpKind::Immediate;
    i.op1_imm = bits(raw, 20, 13) as u64;
    i
}

/// Mnemonic of an Advanced SIMD three-same instruction by `U`, `opcode` (bits [15:11]),
/// `size` and whether `Rn` and `Rm` are the same register (ORR as MOV).
pub open spec fn three_same_op(u: u32, opcode: u32, size: u32, same: bool) -> Option<Mnemonic> {
    if u == 0 && opcode == 3 && size == 0 {
        Some(Mnemonic::And)
    } else if u == 0 && opcode == 3 && size == 1 {
        Some(Mnemonic::Bic)
    } else if u == 0 && opcode == 3 && size == 2 && (same) {
        Some(Mnemonic::Mov)
    } else if u == 0 && opcode == 3 && size == 2 {
        Some(Mnemonic::Orr)
    } else if u == 0 && opcode == 3 && size == 3 {
        Some(Mnemonic::Orn)
    } else if u == 1 && opcode == 3 && size == 0 {
        Some(Mnemonic::Eor)
    } else if u == 1 && opcode == 3 && size == 1 {
        Some(Mnemonic::Bsl)
    } else if u == 1 && opcode == 3 && size == 2 {
        Some(Mnemonic::Bit)
    } else if u == 1 && opcode == 3 && size == 3 {
        Some(Mnemonic::Bif)
    } else if u == 0 && opcode == 2 && size == 1 {
        Some(Mnemonic::Fadd)
    } else if u == 0 && opcode == 2 && size == 3 {
        Some(Mnemonic::Fsub)
    } else if u == 1 && opcode == 2 && size == 1 {
        Some(Mnemonic::Faddp)
    } else if u == 1 && opcode == 2 && size == 3 {
        Some(Mnemonic::Fabd)
    } else if u == 0 && opcode == 0 && size == 1 {
        Some(Mnemonic::Fmaxnm)
    } else if u == 0 && opcode == 0 && size == 3 {
        Some(Mnemonic::Fminnm)
    } else if u == 0 && opcode == 6 && size == 1 {
        Some(Mnemonic::Fmax)
    } else if u == 0 && opcode == 6 && size == 3 {
        Some(Mnemonic::Fmin)
    } else if u == 0 && opcode == 4 && size == 1 {
        Some(Mnemonic::Fcmeq)
    } else if u == 1 && opcode == 4 && size == 1 {
        Some(Mnemonic::Fcmge)
    } else if u == 1 && opcode == 4 && size == 3 {
        Some(Mnemonic::Fcmgt)
    } else if u == 1 && opcode == 7 && size == 1 {
        Some(Mnemonic::Fdiv)
    } else if u == 0 && opcode == 1 && size == 1 {
        Some(Mnemonic::Fmla)
    } else if u == 0 && opcode == 1 && size == 3 {
        Some(Mnemonic::Fmls)
    } else if u == 0 && opcode == 16 {
        Some(Mnemonic::Add)
    } else if u == 1 && opcode == 16 {
        Some(Mnemonic::Sub)
    } else if u == 0 && opcode == 18 {
        Some(Mnemonic::Mla)
    } else if u == 1 && opcode == 18 {
        Some(Mnemonic::Mls)
    } else if u == 0 && opcode == 19 {
        Some(Mnemonic::Mul)
    } else if u == 1 && opcode == 6 {
        Some(Mnemonic::Cmhi)
    } else if u == 1 && opcode == 7 {
        Some(Mnemonic::Cmhs)
    } else if u == 1 && opcode == 17 {
        Some(Mnemonic::Cmeq)
    } else if u == 0 && opcode == 6 {
        Some(Mnemonic::Cmge)
    } else if u == 0 && opcode == 7 {
        Some(Mnemonic::Cmgt)
    } else if u == 0 && opcode == 12 {
        Some(Mnemonic::Smax)
    } else if u == 0 && opcode == 13 {
        Some(Mnemonic::Smin)
    } else if u == 1 && opcode == 12 {
        Some(Mnemonic::Umax)
    } else if u == 1 && opcode == 13 {
        Some(Mnemonic::Umin)
    } else if u == 0 && opcode == 8 {
        Some(Mnemonic::Sshl)
    } else if u == 1 && opcode == 8 {
        Some(Mnemonic::Ushl)
    } else if u == 0 && opcode == 23 {
        Some(Mnemonic::Addp)
    } else if u == 0 && opcode == 25 && (size % 4 < 2) {
        Some(Mnemonic::Fmla)
    } else if u == 0 && opcode == 25 {
        Some(Mnemonic::Fmls)
    } else if u == 0 && opcode == 26 && (size % 4 < 2) {
        Some(Mnemonic::Fadd)
    } else if u == 0 && opcode == 26 {
        Some(Mnemonic::Fsub)
    } else if u == 1 && opcode == 26 && (size % 4 < 2) {
        Some(Mnemonic::Faddp)
    } else if u == 1 && opcode == 26 {
        Some(Mnemonic::Fabd)
    } else if u == 0 && opcode == 27 {
        Some(Mnemonic::Fmulx)
    } else if u == 1 && opcode == 27 {
        Some(Mnemonic::Fmul)
    } else if u == 1 && opcode == 31 {
        Some(Mnemonic::Fdiv)
    } else if u == 0 && opcode == 28 {
        Some(Mnemonic::Fcmeq)
    } else if u == 1 && opcode == 28 {
        Some(Mnemonic::Fcmge)
    } else if u == 1 && opcode == 29 {
        Some(Mnemonic::Fcmgt)
    } else if u == 0 && opcode == 30 && (size % 4 < 2) {
        Some(Mnemonic::Fmax)
    } else if u == 0 && opcode == 30 {
        Some(Mnemonic::Fmin)
    } else if u == 0 && opcode == 24 && (size % 4 < 2) {
        Some(Mnemonic::Fmaxnm)
    } else if u == 0 && opcode == 24 {
        Some(Mnemonic::Fminnm)
    } else if u == 1 && opcode == 15 {
        Some(Mnemonic::Fmulx)
    } else {
        None
    }
}

fn three_same_op_exec(u: u32, opcode: u32, size: u32, same: bool) -> (m: Option<Mnemonic>)
    ensures
        m == three_same_op(u, opcode, size, same),
{
    if u == 0 && opcode == 3 && size == 0 {
        Some(Mnemonic::And)
    } else if u == 0 && opcode == 3 && size == 1 {
        Some(Mnemonic::Bic)
    } else if u == 0 && opcode == 3 && size == 2 && (same) {
        Some(Mnemonic::Mov)
    } else if u == 0 && opcode == 3 && size == 2 {
        Some(Mnemonic::Orr)
    } else if u == 0 && opcode == 3 && size == 3 {
        Some(Mnemonic::Orn)
    } else if u == 1 && opcode == 3 && size == 0 {
        Some(Mnemonic::Eor)
    } else if u == 1 && opcode == 3 && size == 1 {
        Some(Mnemonic::Bsl)
    } else if u == 1 && opcode == 3 && size == 2 {
        Some(Mnemonic::Bit)
    } else if u == 1 && opcode == 3 && size == 3 {
        Some(Mnemonic::Bif)
    } else if u == 0 && opcode == 2 && size == 1 {
        Some(Mnemonic::Fadd)
    } else if u == 0 && opcode == 2 && size == 3 {
        Some(Mnemonic::Fsub)
    } else if u == 1 && opcode == 2 && size == 1 {
        Some(Mnemonic::Faddp)
    } else if u == 1 && opcode == 2 && size == 3 {
        Some(Mnemonic::Fabd)
    } else if u == 0 && opcode == 0 && size == 1 {
        Some(Mnemonic::Fmaxnm)
    } else if u == 0 && opcode == 0 && size == 3 {
        Some(Mnemonic::Fminnm)
    } else if u == 0 && opcode == 6 && size == 1 {
        Some(Mnemonic::Fmax)
    } else if u == 0 && opcode == 6 && size == 3 {
        Some(Mnemonic::Fmin)
    } else if u == 0 && opcode == 4 && size == 1 {
        Some(Mnemonic::Fcmeq)
    } else if u == 1 && opcode == 4 && size == 1 {
        Some(Mnemonic::Fcmge)
    } else if u == 1 && opcode == 4 && size == 3 {
        Some(Mnemonic::Fcmgt)
    } else if u == 1 && opcode == 7 && size == 1 {
        Some(Mnemonic::Fdiv)
    } else if u == 0 && opcode == 1 && size == 1 {
        Some(Mnemonic::Fmla)
    } else if u == 0 && opcode == 1 && size == 3 {
        Some(Mnemonic::Fmls)
    } else if u == 0 && opcode == 16 {
        Some(Mnemonic::Add)
    } else if u == 1 && opcode == 16 {
        Some(Mnemonic::Sub)
    } else if u == 0 && opcode == 18 {
        Some(Mnemonic::Mla)
    } else if u == 1 && opcode == 18 {
        Some(Mnemonic::Mls)
    } else if u == 0 && opcode == 19 {
        Some(Mnemonic::Mul)
    } else if u == 1 && opcode == 6 {
        Some(Mnemonic::Cmhi)
    } else if u == 1 && opcode == 7 {
        Some(Mnemonic::Cmhs)
    } else if u == 1 && opcode == 17 {
        Some(Mnemonic::Cmeq)
    } else if u == 0 && opcode == 6 {
        Some(Mnemonic::Cmge)
    } else if u == 0 && opcode == 7 {
        Some(Mnemonic::Cmgt)
    } else if u == 0 && opcode == 12 {
        Some(Mnemonic::Smax)
    } else if u == 0 && opcode == 13 {
        Some(Mnemonic::Smin)
    } else if u == 1 && opcode == 12 {
        Some(Mnemonic::Umax)
    } else if u == 1 && opcode == 13 {
        Some(Mnemonic::Umin)
    } else if u == 0 && opcode == 8 {
        Some(Mnemonic::Sshl)
    } else if u == 1 && opcode == 8 {
        Some(Mnemonic::Ushl)
    } else if u == 0 && opcode == 23 {
        Some(Mnemonic::Addp)
    } else if u == 0 && opcode == 25 && (size % 4 < 2) {
        Some(Mnemonic::Fmla)
    } else if u == 0 && opcode == 25 {
        Some(Mnemonic::Fmls)
    } else if u == 0 && opcode == 26 && (size % 4 < 2) {
        Some(Mnemonic::Fadd)
    } else if u == 0 && opcode == 26 {
        Some(Mnemonic::Fsub)
    } else if u == 1 && opcode == 26 && (size % 4 < 2) {
        Some(Mnemonic::Faddp)
    } else if u == 1 && opcode == 26 {
        Some(Mnemonic::Fabd)
    } else if u == 0 && opcode == 27 {
        Some(Mnemonic::Fmulx)
    } else if u == 1 && opcode == 27 {
        Some(Mnemonic::Fmul)
    } else if u == 1 && opcode == 31 {
        Some(Mnemonic::Fdiv)
    } else if u == 0 && opcode == 28 {
        Some(Mnemonic::Fcmeq)
    } else if u == 1 && opcode == 28 {
        Some(Mnemonic::Fcmge)
    } else if u == 1 && opcode == 29 {
        Some(Mnemonic::Fcmgt)
    } else if u == 0 && opcode == 30 && (size % 4 < 2) {
        Some(Mnemonic::Fmax)
    } else if u == 0 && opcode == 30 {
        Some(Mnemonic::Fmin)
    } else if u == 0 && opcode == 24 && (size % 4 < 2) {
        Some(Mnemonic::Fmaxnm)
    } else if u == 0 && opcode == 24 {
        Some(Mnemonic::Fminnm)
    } else if u == 1 && opcode == 15 {
        Some(Mnemonic::Fmulx)
    } else {
        None
    }
}

/// Mnemonic of a three-same-extra instruction by `U`, `opcode` and `size`.
pub open spec fn complex_three_same_op(u: u32, opcode: u32, size: u32) -> Option<Mnemonic> {
    if (opcode == 24 || opcode == 25 || opcode == 26 || opcode == 27) {
        Some(Mnemonic::Fcmla)
    } else if (opcode == 28 || opcode == 30) {
        Some(Mnemonic::Fcadd)
    } else if u == 1 && opcode == 16 {
        Some(Mnemonic::Sqrdmlah)
    } else if u == 1 && opcode == 17 {
        Some(Mnemonic::Sqrdmlsh)
    } else if u == 1 && opcode == 31 && (size == 0b01) {
        Some(Mnemonic::Bfdot)
    } else if u == 0 && opcode == 18 {
        Some(Mnemonic::Sdot)
    } else if u == 1 && opcode == 18 {
        Some(Mnemonic::Udot)
    } else if u == 0 && opcode == 19 {
        Some(Mnemonic::Usdot)
    } else if u == 1 && opcode == 29 && (size == 0b01) {
        Some(Mnemonic::Bfmmla)
    } else {
        None
    }
}

fn complex_three_same_op_exec(u: u32, opcode: u32, size: u32) -> (m: Option<Mnemonic>)
    ensures
        m == complex_three_same_op(u, opcode, size),
{
    if (opcode == 24 || opcode == 25 || opcode == 26 || opcode == 27) {
        Some(Mnemonic::Fcmla)
    } else if (opcode == 28 || opcode == 30) {
        Some(Mnemonic::Fcadd)
    } else if u == 1 && opcode == 16 {
        Some(Mnemonic::Sqrdmlah)
    } else if u == 1 && opcode == 17 {
        Some(Mnemonic::Sqrdmlsh)
    } else if u == 1 && opcode == 31 && (size == 0b01) {
        Some(Mnemonic::Bfdot)
    } else if u == 0 && opcode == 18 {
        Some(Mnemonic::Sdot)
    } else if u == 1 && opcode == 18 {
        Some(Mnemonic::Udot)
    } else if u == 0 && opcode == 19 {
        Some(Mnemonic::Usdot)
    } else if u == 1 && opcode == 29 && (size == 0b01) {
        Some(Mnemonic::Bfmmla)
    } else {
        None
    }
}

/// Mnemonic of an AES two-register instruction by `U` and `opcode`.
pub open spec fn two_misc_crypto_op(u: u32, opcode: u32) -> Option<Mnemonic> {
    if u == 0 && opcode == 4 {
        Some(Mnemonic::Aese)
    } else if u == 0 && opcode == 5 {
        Some(Mnemonic::Aesd)
    } else if u == 0 && opcode == 6 {
        Some(Mnemonic::Aesmc)
    } else if u == 0 && opcode == 7 {
        Some(Mnemonic::Aesimc)
    } else {
        None
    }
}

fn two_misc_crypto_op_exec(u: u32, opcode: u32) -> (m: Option<Mnemonic>)
    ensures
        m == two_misc_crypto_op(u, opcode),
{
    if u == 0 && opcode == 4 {
        Some(Mnemonic::Aese)
    } else if u == 0 && opcode == 5 {
        Some(Mnemonic::Aesd)
    } else if u == 0 && opcode == 6 {
        Some(Mnemonic::Aesmc)
    } else if u == 0 && opcode == 7 {
        Some(Mnemonic::Aesimc)
    } else {
        None
    }
}

/// Mnemonic of a half-precision two-register miscellaneous instruction by `U` and
/// `opcode`.
pub open spec fn two_misc_fp16_op(u: u32, opcode: u32) -> Option<Mnemonic> {
    if u == 0 && opcode == 15 {
        Some(Mnemonic::Fabs)
    } else if u == 1 && opcode == 15 {
        Some(Mnemonic::Fneg)
    } else if u == 0 && opcode == 29 {
        Some(Mnemonic::Frecpe)
    } else if u == 1 && opcode == 29 {
        Some(Mnemonic::Frsqrte)
    } else if u == 0 && opcode == 24 {
        Some(Mnemonic::Frintn)
    } else if u == 0 && opcode == 25 {
        Some(Mnemonic::Frintp)
    } else if u == 0 && opcode == 26 {
        Some(Mnemonic::Frintm)
    } else if u == 0 && opcode == 27 {
        Some(Mnemonic::Frintz)
    } else if u == 1 && opcode == 24 {
        Some(Mnemonic::Frinta)
    } else if u == 1 && opcode == 25 {
        Some(Mnemonic::Frintx)
    } else if u == 1 && opcode == 27 {
        Some(Mnemonic::Frinti)
    } else if u == 1 && opcode == 31 {
        Some(Mnemonic::Fsqrt)
    } else {
        None
    }
}

fn two_misc_fp16_op_exec(u: u32, opcode: u32) -> (m: Option<Mnemonic>)
    ensures
        m == two_misc_fp16_op(u, opcode),
{
    if u == 0 && opcode == 15 {
        Some(Mnemonic::Fabs)
    } else if u == 1 && opcode == 15 {
        Some(Mnemonic::Fneg)
    } else if u == 0 && opcode == 29 {
        Some(Mnemonic::Frecpe)
    } else if u == 1 && opcode == 29 {
        Some(Mnemonic::Frsqrte)
    } else if u == 0 && opcode == 24 {
        Some(Mnemonic::Frintn)
    } else if u == 0 && opcode == 25 {
        Some(Mnemonic::Frintp)
    } else if u == 0 && opcode == 26 {
        Some(Mnemonic::Frintm)
    } else if u == 0 && opcode == 27 {
        Some(Mnemonic::Frintz)
    } else if u == 1 && opcode == 24 {
        Some(Mnemonic::Frinta)
    } else if u == 1 && opcode == 25 {
        Some(Mnemonic::Frintx)
    } else if u == 1 && opcode == 27 {
        Some(Mnemonic::Frinti)
    } else if u == 1 && opcode == 31 {
        Some(Mnemonic::Fsqrt)
    } else {
        None
    }
}

/// Mnemonic of a two-register miscellaneous instruction by `U`, `opcode`, `size` and
/// `Q` (narrowing and widening forms have a second-half variant for `Q = 1`).
pub open spec fn two_misc_op(u: u32, opcode: u32, size: u32, q: u32) -> Option<Mnemonic> {
    if u == 0 && opcode == 0 {
        Some(Mnemonic::Rev64)
    } else if u == 0 && opcode == 1 {
        Some(Mnemonic::Rev16)
    } else if u == 0 && opcode == 2 {
        Some(Mnemonic::Saddlp)
    } else if u == 1 && opcode == 2 {
        Some(Mnemonic::Uaddlp)
    } else if u == 0 && opcode == 6 {
        Some(Mnemonic::Sadalp)
    } else if u == 1 && opcode == 6 {
        Some(Mnemonic::Uadalp)
    } else if u == 0 && opcode == 3 {
        Some(Mnemonic::Suqadd)
    } else if u == 1 && opcode == 3 {
        Some(Mnemonic::Usqadd)
    } else if u == 0 && opcode == 4 {
        Some(Mnemonic::Cls)
    } else if u == 1 && opcode == 4 {
        Some(Mnemonic::Clz)
    } else if u == 0 && opcode == 5 {
        Some(Mnemonic::Cnt)
    } else if u == 1 && opcode == 5 {
        Some(Mnemonic::Mvn)
    } else if u == 0 && opcode == 18 {
        Some(if q != 0 { Mnemonic::Xtn2 } else { Mnemonic::Xtn })
    } else if u == 1 && opcode == 18 {
        Some(if q != 0 { Mnemonic::Sqxtun2 } else { Mnemonic::Sqxtun })
    } else if u == 0 && opcode == 7 {
        Some(Mnemonic::Rev32)
    } else if u == 1 && opcode == 19 {
        Some(if q != 0 { Mnemonic::Shll2 } else { Mnemonic::Shll })
    } else if u == 0 && opcode == 8 {
        Some(Mnemonic::Cmgt)
    } else if u == 0 && opcode == 9 {
        Some(Mnemonic::Cmeq)
    } else if u == 0 && opcode == 10 {
        Some(Mnemonic::Cmlt)
    } else if u == 0 && opcode == 11 {
        Some(Mnemonic::Abs)
    } else if u == 1 && opcode == 8 {
        Some(Mnemonic::Cmge)
    } else if u == 1 && opcode == 9 {
        Some(Mnemonic::Cmle)
    } else if u == 1 && opcode == 10 {
        Some(Mnemonic::Cmeq)
    } else if u == 1 && opcode == 11 {
        Some(Mnemonic::Neg)
    } else if u == 0 && opcode == 26 && (size % 4 < 2) {
        Some(Mnemonic::Fcvtns)
    } else if u == 1 && opcode == 26 && (size % 4 < 2) {
        Some(Mnemonic::Fcvtnu)
    } else if u == 0 && opcode == 27 && (size % 4 < 2) {
        Some(Mnemonic::Fcvtms)
    } else if u == 1 && opcode == 27 && (size % 4 < 2) {
        Some(Mnemonic::Fcvtmu)
    } else if u == 0 && opcode == 26 {
        Some(Mnemonic::Fcvtps)
    } else if u == 1 && opcode == 26 {
        Some(Mnemonic::Fcvtpu)
    } else if u == 0 && opcode == 27 {
        Some(Mnemonic::Fcvtzs)
    } else if u == 1 && opcode == 27 {
        Some(Mnemonic::Fcvtzu)
    } else if u == 0 && opcode == 28 && (size % 4 < 2) {
        Some(Mnemonic::Fcvtas)
    } else if u == 1 && opcode == 28 && (size % 4 < 2) {
        Some(Mnemonic::Fcvtau)
    } else if u == 0 && opcode == 29 && (size % 4 < 2) {
        Some(Mnemonic::Scvtf)
    } else if u == 1 && opcode == 29 && (size % 4 < 2) {
        Some(Mnemonic::Ucvtf)
    } else if u == 0 && opcode == 29 {
        Some(Mnemonic::Frecpe)
    } else if u == 1 && opcode == 29 {
        Some(Mnemonic::Frsqrte)
    } else if u == 0 && opcode == 15 && (size >= 2) {
        Some(Mnemonic::Fabs)
    } else if u == 1 && opcode == 15 && (size >= 2) {
        Some(Mnemonic::Fneg)
    } else if u == 1 && opcode == 31 && (size >= 2) {
        Some(Mnemonic::Fsqrt)
    } else if u == 0 && opcode == 22 && (size >= 2) {
        Some(Mnemonic::Fabs)
    } else if u == 0 && opcode == 23 && (size >= 2) {
        Some(Mnemonic::Fneg)
    } else if u == 1 && opcode == 23 && (size >= 2) {
        Some(Mnemonic::Fsqrt)
    } else if u == 0 && opcode == 24 && (size >= 2) {
        Some(Mnemonic::Frintn)
    } else if u == 0 && opcode == 25 && (size >= 2) {
        Some(Mnemonic::Frintp)
    } else if u == 1 && opcode == 24 && (size >= 2) {
        Some(Mnemonic::Frinta)
    } else if u == 1 && opcode == 25 && (size >= 2) {
        Some(Mnemonic::Frintx)
    } else if u == 0 && opcode == 30 && (size <= 1) {
        Some(Mnemonic::Frint32z)
    } else if u == 1 && opcode == 30 && (size <= 1) {
        Some(Mnemonic::Frint32x)
    } else if u == 0 && opcode == 31 && (size <= 1) {
        Some(Mnemonic::Frint64z)
    } else if u == 1 && opcode == 31 && (size <= 1) {
        Some(Mnemonic::Frint64x)
    } else if u == 1 && opcode == 31 && (size >= 2) {
        Some(Mnemonic::Fsqrt)
    } else if u == 0 && opcode == 31 {
        Some(Mnemonic::Fsqrt)
    } else {
        None
    }
}

fn two_misc_op_exec(u: u32, opcode: u32, size: u32, q: u32) -> (m: Option<Mnemonic>)
    ensures
        m == two_misc_op(u, opcode, size, q),
{
    if u == 0 && opcode == 0 {
        Some(Mnemonic::Rev64)
    } else if u == 0 && opcode == 1 {
        Some(Mnemonic::Rev16)
    } else if u == 0 && opcode == 2 {
        Some(Mnemonic::Saddlp)
    } else if u == 1 && opcode == 2 {
        Some(Mnemonic::Uaddlp)
    } else if u == 0 && opcode == 6 {
        Some(Mnemonic::Sadalp)
    } else if u == 1 && opcode == 6 {
        Some(Mnemonic::Uadalp)
    } else if u == 0 && opcode == 3 {
        Some(Mnemonic::Suqadd)
    } else if u == 1 && opcode == 3 {
        Some(Mnemonic::Usqadd)
    } else if u == 0 && opcode == 4 {
        Some(Mnemonic::Cls)
    } else if u == 1 && opcode == 4 {
        Some(Mnemonic::Clz)
    } else if u == 0 && opcode == 5 {
        Some(Mnemonic::Cnt)
    } else if u == 1 && opcode == 5 {
        Some(Mnemonic::Mvn)
    } else if u == 0 && opcode == 18 {
        Some(if q != 0 { Mnemonic::Xtn2 } else { Mnemonic::Xtn })
    } else if u == 1 && opcode == 18 {
        Some(if q != 0 { Mnemonic::Sqxtun2 } else { Mnemonic::Sqxtun })
    } else if u == 0 && opcode == 7 {
        Some(Mnemonic::Rev32)
    } else if u == 1 && opcode == 19 {
        Some(if q != 0 { Mnemonic::Shll2 } else { Mnemonic::Shll })
    } else if u == 0 && opcode == 8 {
        Some(Mnemonic::Cmgt)
    } else if u == 0 && opcode == 9 {
        Some(Mnemonic::Cmeq)
    } else if u == 0 && opcode == 10 {
        Some(Mnemonic::Cmlt)
    } else if u == 0 && opcode == 11 {
        Some(Mnemonic::Abs)
    } else if u == 1 && opcode == 8 {
        Some(Mnemonic::Cmge)
    } else if u == 1 && opcode == 9 {
        Some(Mnemonic::Cmle)
    } else if u == 1 && opcode == 10 {
        Some(Mnemonic::Cmeq)
    } else if u == 1 && opcode == 11 {
        Some(Mnemonic::Neg)
    } else if u == 0 && opcode == 26 && (size % 4 < 2) {
        Some(Mnemonic::Fcvtns)
    } else if u == 1 && opcode == 26 && (size % 4 < 2) {
        Some(Mnemonic::Fcvtnu)
    } else if u == 0 && opcode == 27 && (size % 4 < 2) {
        Some(Mnemonic::Fcvtms)
    } else if u == 1 && opcode == 27 && (size % 4 < 2) {
        Some(Mnemonic::Fcvtmu)
    } else if u == 0 && opcode == 26 {
        Some(Mnemonic::Fcvtps)
    } else if u == 1 && opcode == 26 {
        Some(Mnemonic::Fcvtpu)
    } else if u == 0 && opcode == 27 {
        Some(Mnemonic::Fcvtzs)
    } else if u == 1 && opcode == 27 {
        Some(Mnemonic::Fcvtzu)
    } else if u == 0 && opcode == 28 && (size % 4 < 2) {
        Some(Mnemonic::Fcvtas)
    } else if u == 1 && opcode == 28 && (size % 4 < 2) {
        Some(Mnemonic::Fcvtau)
    } else if u == 0 && opcode == 29 && (size % 4 < 2) {
        Some(Mnemonic::Scvtf)
    } else if u == 1 && opcode == 29 && (size % 4 < 2) {
        Some(Mnemonic::Ucvtf)
    } else if u == 0 && opcode == 29 {
        Some(Mnemonic::Frecpe)
    } else if u == 1 && opcode == 29 {
        Some(Mnemonic::Frsqrte)
    } else if u == 0 && opcode == 15 && (size >= 2) {
        Some(Mnemonic::Fabs)
    } else if u == 1 && opcode == 15 && (size >= 2) {
        Some(Mnemonic::Fneg)
    } else if u == 1 && opcode == 31 && (size >= 2) {
        Some(Mnemonic::Fsqrt)
    } else if u == 0 && opcode == 22 && (size >= 2) {
        Some(Mnemonic::Fabs)
    } else if u == 0 && opcode == 23 && (size >= 2) {
        Some(Mnemonic::Fneg)
    } else if u == 1 && opcode == 23 && (size >= 2) {
        Some(Mnemonic::Fsqrt)
    } else if u == 0 && opcode == 24 && (size >= 2) {
        Some(Mnemonic::Frintn)
    } else if u == 0 && opcode == 25 && (size >= 2) {
        Some(Mnemonic::Frintp)
    } else if u == 1 && opcode == 24 && (size >= 2) {
        Some(Mnemonic::Frinta)
    } else if u == 1 && opcode == 25 && (size >= 2) {
        Some(Mnemonic::Frintx)
    } else if u == 0 && opcode == 30 && (size <= 1) {
        Some(Mnemonic::Frint32z)
    } else if u == 1 && opcode == 30 && (size <= 1) {
        Some(Mnemonic::Frint32x)
    } else if u == 0 && opcode == 31 && (size <= 1) {
        Some(Mnemonic::Frint64z)
    } else if u == 1 && opcode == 31 && (size <= 1) {
        Some(Mnemonic::Frint64x)
    } else if u == 1 && opcode == 31 && (size >= 2) {
        Some(Mnemonic::Fsqrt)
    } else if u == 0 && opcode == 31 {
        Some(Mnemonic::Fsqrt)
    } else {
        None
    }
}

/// Mnemonic of an across-lanes instruction by `U` and `opcode`.
pub open spec fn across_op(u: u32, opcode: u32) -> Option<Mnemonic> {
    if u == 0 && opcode == 3 {
        Some(Mnemonic::Saddlv)
    } else if u == 1 && opcode == 3 {
        Some(Mnemonic::Uaddlv)
    } else if u == 0 && opcode == 27 {
        Some(Mnemonic::Addv)
    } else if u == 0 && opcode == 10 {
        Some(Mnemonic::Smaxv)
    } else if u == 1 && opcode == 10 {
        Some(Mnemonic::Umaxv)
    } else if u == 0 && opcode == 26 {
        Some(Mnemonic::Sminv)
    } else if u == 1 && opcode == 26 {
        Some(Mnemonic::Uminv)
    } else if u == 0 && opcode == 12 {
        Some(Mnemonic::Fmaxnmv)
    } else if u == 1 && opcode == 12 {
        Some(Mnemonic::Fminnmv)
    } else if u == 0 && opcode == 15 {
        Some(Mnemonic::Fmaxv)
    } else if u == 1 && opcode == 15 {
        Some(Mnemonic::Fminv)
    } else {
        None
    }
}

fn across_op_exec(u: u32, opcode: u32) -> (m: Option<Mnemonic>)
    ensures
        m == across_op(u, opcode),
{
    if u == 0 && opcode == 3 {
        Some(Mnemonic::Saddlv)
    } else if u == 1 && opcode == 3 {
        Some(Mnemonic::Uaddlv)
    } else if u == 0 && opcode == 27 {
        Some(Mnemonic::Addv)
    } else if u == 0 && opcode == 10 {
        Some(Mnemonic::Smaxv)
    } else if u == 1 && opcode == 10 {
        Some(Mnemonic::Umaxv)
    } else if u == 0 && opcode == 26 {
        Some(Mnemonic::Sminv)
    } else if u == 1 && opcode == 26 {
        Some(Mnemonic::Uminv)
    } else if u == 0 && opcode == 12 {
        Some(Mnemonic::Fmaxnmv)
    } else if u == 1 && opcode == 12 {
        Some(Mnemonic::Fminnmv)
    } else if u == 0 && opcode == 15 {
        Some(Mnemonic::Fmaxv)
    } else if u == 1 && opcode == 15 {
        Some(Mnemonic::Fminv)
    } else {
        None
    }
}

/// Mnemonic of a shift-by-immediate instruction by `U`, `opcode` and `Q`.
pub open spec fn shift_imm_op(u: u32, opcode: u32, q: u32) -> Option<Mnemonic> {
    if u == 0 && opcode == 0 {
        Some(Mnemonic::Sshr)
    } else if u == 1 && opcode == 0 {
        Some(Mnemonic::Ushr)
    } else if u == 0 && opcode == 2 {
        Some(Mnemonic::Ssra)
    } else if u == 1 && opcode == 2 {
        Some(Mnemonic::Usra)
    } else if u == 0 && opcode == 4 {
        Some(Mnemonic::Srshr)
    } else if u == 1 && opcode == 4 {
        Some(Mnemonic::Urshr)
    } else if u == 0 && opcode == 6 {
        Some(Mnemonic::Srsra)
    } else if u == 1 && opcode == 6 {
        Some(Mnemonic::Ursra)
    } else if u == 1 && opcode == 8 {
        Some(Mnemonic::Sri)
    } else if u == 0 && opcode == 10 {
        Some(Mnemonic::Shl)
    } else if u == 1 && opcode == 10 {
        Some(Mnemonic::Sli)
    } else if u == 1 && opcode == 12 {
        Some(Mnemonic::Sqshlu)
    } else if u == 0 && opcode == 14 {
        Some(Mnemonic::Sqshl)
    } else if u == 1 && opcode == 14 {
        Some(Mnemonic::Uqshl)
    } else if u == 0 && opcode == 16 {
        Some(if q != 0 { Mnemonic::Shrn2 } else { Mnemonic::Shrn })
    } else if u == 1 && opcode == 16 {
        Some(if q != 0 { Mnemonic::Sqshrun2 } else { Mnemonic::Sqshrun })
    } else if u == 0 && opcode == 17 {
        Some(if q != 0 { Mnemonic::Rshrn2 } else { Mnemonic::Rshrn })
    } else if u == 1 && opcode == 17 {
        Some(if q != 0 { Mnemonic::Sqrshrun2 } else { Mnemonic::Sqrshrun })
    } else if u == 0 && opcode == 18 {
        Some(if q != 0 { Mnemonic::Sqshrn2 } else { Mnemonic::Sqshrn })
    } else if u == 1 && opcode == 18 {
        Some(if q != 0 { Mnemonic::Uqshrn2 } else { Mnemonic::Uqshrn })
    } else if u == 0 && opcode == 19 {
        Some(if q != 0 { Mnemonic::Sqrshrn2 } else { Mnemonic::Sqrshrn })
    } else if u == 1 && opcode == 19 {
        Some(if q != 0 { Mnemonic::Uqrshrn2 } else { Mnemonic::Uqrshrn })
    } else if u == 0 && opcode == 20 {
        Some(if q != 0 { Mnemonic::Sshll2 } else { Mnemonic::Sshll })
    } else if u == 1 && opcode == 20 {
        Some(if q != 0 { Mnemonic::Ushll2 } else { Mnemonic::Ushll })
    } else if u == 0 && opcode == 28 {
        Some(Mnemonic::Scvtf)
    } else if u == 1 && opcode == 28 {
        Some(Mnemonic::Ucvtf)
    } else if u == 0 && opcode == 31 {
        Some(Mnemonic::Fcvtzs)
    } else if u == 1 && opcode == 31 {
        Some(Mnemonic::Fcvtzu)
    } else {
        None
    }
}

fn shift_imm_op_exec(u: u32, opcode: u32, q: u32) -> (m: Option<Mnemonic>)
    ensures
        m == shift_imm_op(u, opcode, q),
{
    if u == 0 && opcode == 0 {
        Some(Mnemonic::Sshr)
    } else if u == 1 && opcode == 0 {
        Some(Mnemonic::Ushr)
    } else if u == 0 && opcode == 2 {
        Some(Mnemonic::Ssra)
    } else if u == 1 && opcode == 2 {
        Some(Mnemonic::Usra)
    } else if u == 0 && opcode == 4 {
        Some(Mnemonic::Srshr)
    } else if u == 1 && opcode == 4 {
        Some(Mnemonic::Urshr)
    } else if u == 0 && opcode == 6 {
        Some(Mnemonic::Srsra)
    } else if u == 1 && opcode == 6 {
        Some(Mnemonic::Ursra)
    } else if u == 1 && opcode == 8 {
        Some(Mnemonic::Sri)
    } else if u == 0 && opcode == 10 {
        Some(Mnemonic::Shl)
    } else if u == 1 && opcode == 10 {
        Some(Mnemonic::Sli)
    } else if u == 1 && opcode == 12 {
        Some(Mnemonic::Sqshlu)
    } else if u == 0 && opcode == 14 {
        Some(Mnemonic::Sqshl)
    } else if u == 1 && opcode == 14 {
        Some(Mnemonic::Uqshl)
    } else if u == 0 && opcode == 16 {
        Some(if q != 0 { Mnemonic::Shrn2 } else { Mnemonic::Shrn })
    } else if u == 1 && opcode == 16 {
        Some(if q != 0 { Mnemonic::Sqshrun2 } else { Mnemonic::Sqshrun })
    } else if u == 0 && opcode == 17 {
        Some(if q != 0 { Mnemonic::Rshrn2 } else { Mnemonic::Rshrn })
    } else if u == 1 && opcode == 17 {
        Some(if q != 0 { Mnemonic::Sqrshrun2 } else { Mnemonic::Sqrshrun })
    } else if u == 0 && opcode == 18 {
        Some(if q != 0 { Mnemonic::Sqshrn2 } else { Mnemonic::Sqshrn })
    } else if u == 1 && opcode == 18 {
        Some(if q != 0 { Mnemonic::Uqshrn2 } else { Mnemonic::Uqshrn })
    } else if u == 0 && opcode == 19 {
        Some(if q != 0 { Mnemonic::Sqrshrn2 } else { Mnemonic::Sqrshrn })
    } else if u == 1 && opcode == 19 {
        Some(if q != 0 { Mnemonic::Uqrshrn2 } else { Mnemonic::Uqrshrn })
    } else if u == 0 && opcode == 20 {
        Some(if q != 0 { Mnemonic::Sshll2 } else { Mnemonic::Sshll })
    } else if u == 1 && opcode == 20 {
        Some(if q != 0 { Mnemonic::Ushll2 } else { Mnemonic::Ushll })
    } else if u == 0 && opcode == 28 {
        Some(Mnemonic::Scvtf)
    } else if u == 1 && opcode == 28 {
        Some(Mnemonic::Ucvtf)
    } else if u == 0 && opcode == 31 {
        Some(Mnemonic::Fcvtzs)
    } else if u == 1 && opcode == 31 {
        Some(Mnemonic::Fcvtzu)
    } else {
        None
    }
}

/// Mnemonic of a permute instruction by `opcode` (bits [14:12]).
pub open spec fn permute_op(opcode: u32) -> Option<Mnemonic> {
    if opcode == 1 {
        Some(Mnemonic::Uzp1)
    } else if opcode == 2 {
        Some(Mnemonic::Trn1)
    } else if opcode == 3 {
        Some(Mnemonic::Zip1)
    } else if opcode == 5 {
        Some(Mnemonic::Uzp2)
    } else if opcode == 6 {
        Some(Mnemonic::Trn2)
    } else if opcode == 7 {
        Some(Mnemonic::Zip2)
    } else {
        None
    }
}

fn permute_op_exec(opcode: u32) -> (m: Option<Mnemonic>)
    ensures
        m == permute_op(opcode),
{
    if opcode == 1 {
        Some(Mnemonic::Uzp1)
    } else if opcode == 2 {
        Some(Mnemonic::Trn1)
    } else if opcode == 3 {
        Some(Mnemonic::Zip1)
    } else if opcode == 5 {
        Some(Mnemonic::Uzp2)
    } else if opcode == 6 {
        Some(Mnemonic::Trn2)
    } else if opcode == 7 {
        Some(Mnemonic::Zip2)
    } else {
        None
    }
}

/// Mnemonic of a floating-point data-processing (two source) instruction by `opcode`.
pub open spec fn fp_2src_op(opcode: u32) -> Option<Mnemonic> {
    if opcode == 0 {
        Some(Mnemonic::Fmul)
    } else if opcode == 1 {
        Some(Mnemonic::Fdiv)
    } else if opcode == 2 {
        Some(Mnemonic::Fadd)
    } else if opcode == 3 {
        Some(Mnemonic::Fsub)
    } else if opcode == 4 {
        Some(Mnemonic::Fmax)
    } else if opcode == 5 {
        Some(Mnemonic::Fmin)
    } else if opcode == 6 {
        Some(Mnemonic::Fmaxnm)
    } else if opcode == 7 {
        Some(Mnemonic::Fminnm)
    } else if opcode == 8 {
        Some(Mnemonic::Fnmul)
    } else {
        None
    }
}

fn fp_2src_op_exec(opcode: u32) -> (m: Option<Mnemonic>)
    ensures
        m == fp_2src_op(opcode),
{
    if opcode == 0 {
        Some(Mnemonic::Fmul)
    } else if opcode == 1 {
        Some(Mnemonic::Fdiv)
    } else if opcode == 2 {
        Some(Mnemonic::Fadd)
    } else if opcode == 3 {
        Some(Mnemonic::Fsub)
    } else if opcode == 4 {
        Some(Mnemonic::Fmax)
    } else if opcode == 5 {
        Some(Mnemonic::Fmin)
    } else if opcode == 6 {
        Some(Mnemonic::Fmaxnm)
    } else if opcode == 7 {
        Some(Mnemonic::Fminnm)
    } else if opcode == 8 {
        Some(Mnemonic::Fnmul)
    } else {
        None
    }
}

/// Mnemonic of a floating-point data-processing (one source) instruction by `opc`
/// (bits [20:15]).
pub open spec fn fp_1src_op(opc: u32) -> Option<Mnemonic> {
    if opc == 0 {
        Some(Mnemonic::Fmov)
    } else if opc == 1 {
        Some(Mnemonic::Fabs)
    } else if opc == 2 {
        Some(Mnemonic::Fneg)
    } else if opc == 3 {
        Some(Mnemonic::Fsqrt)
    } else if (opc == 4 || opc == 5 || opc == 7) {
        Some(Mnemonic::Fcvt)
    } else if opc == 8 {
        Some(Mnemonic::Frintn)
    } else if opc == 9 {
        Some(Mnemonic::Frintp)
    } else if opc == 10 {
        Some(Mnemonic::Frintm)
    } else if opc == 11 {
        Some(Mnemonic::Frintz)
    } else if opc == 12 {
        Some(Mnemonic::Frinta)
    } else if opc == 14 {
        Some(Mnemonic::Frintx)
    } else if opc == 15 {
        Some(Mnemonic::Frinti)
    } else if opc == 16 {
        Some(Mnemonic::Frint32z)
    } else if opc == 17 {
        Some(Mnemonic::Frint32x)
    } else if opc == 18 {
        Some(Mnemonic::Frint64z)
    } else if opc == 19 {
        Some(Mnemonic::Frint64x)
    } else {
        None
    }
}

fn fp_1src_op_exec(opc: u32) -> (m: Option<Mnemonic>)
    ensures
        m == fp_1src_op(opc),
{
    if opc == 0 {
        Some(Mnemonic::Fmov)
    } else if opc == 1 {
        Some(Mnemonic::Fabs)
    } else if opc == 2 {
        Some(Mnemonic::Fneg)
    } else if opc == 3 {
        Some(Mnemonic::Fsqrt)
    } else if (opc == 4 || opc == 5 || opc == 7) {
        Some(Mnemonic::Fcvt)
    } else if opc == 8 {
        Some(Mnemonic::Frintn)
    } else if opc == 9 {
        Some(Mnemonic::Frintp)
    } else if opc == 10 {
        Some(Mnemonic::Frintm)
    } else if opc == 11 {
        Some(Mnemonic::Frintz)
    } else if opc == 12 {
        Some(Mnemonic::Frinta)
    } else if opc == 14 {
        Some(Mnemonic::Frintx)
    } else if opc == 15 {
        Some(Mnemonic::Frinti)
    } else if opc == 16 {
        Some(Mnemonic::Frint32z)
    } else if opc == 17 {
        Some(Mnemonic::Frint32x)
    } else if opc == 18 {
        Some(Mnemonic::Frint64z)
    } else if opc == 19 {
        Some(Mnemonic::Frint64x)
    } else {
        None
    }
}

/// Mnemonic of a SHA three-register instruction by `opcode` (bits [15:12]).
pub open spec fn crypto_3reg_op(opcode: u32) -> Option<Mnemonic> {
    if opcode == 0 {
        Some(Mnemonic::Sha1c)
    } else if opcode == 1 {
        Some(Mnemonic::Sha1p)
    } else if opcode == 2 {
        Some(Mnemonic::Sha1m)
    } else if opcode == 3 {
        Some(Mnemonic::Sha1su0)
    } else if opcode == 4 {
        Some(Mnemonic::Sha256h)
    } else if opcode == 5 {
        Some(Mnemonic::Sha256h2)
    } else if opcode == 6 {
        Some(Mnemonic::Sha256su1)
    } else {
        None
    }
}

fn crypto_3reg_op_exec(opcode: u32) -> (m: Option<Mnemonic>)
    ensures
        m == crypto_3reg_op(opcode),
{
    if opcode == 0 {
        Some(Mnemonic::Sha1c)
    } else if opcode == 1 {
        Some(Mnemonic::Sha1p)
    } else if opcode == 2 {
        Some(Mnemonic::Sha1m)
    } else if opcode == 3 {
        Some(Mnemonic::Sha1su0)
    } else if opcode == 4 {
        Some(Mnemonic::Sha256h)
    } else if opcode == 5 {
        Some(Mnemonic::Sha256h2)
    } else if opcode == 6 {
        Some(Mnemonic::Sha256su1)
    } else {
        None
    }
}

/// Mnemonic of a three-different instruction by `U`, `opcode` and `Q`.
pub open spec fn three_diff_op(u: u32, opcode: u32, q: u32) -> Option<Mnemonic> {
    if u == 0 && opcode == 0 {
        Some(if q != 0 { Mnemonic::Saddl2 } else { Mnemonic::Saddl })
    } else if u == 1 && opcode == 0 {
        Some(if q != 0 { Mnemonic::Uaddl2 } else { Mnemonic::Uaddl })
    } else if u == 0 && opcode == 8 {
        Some(if q != 0 { Mnemonic::Smlal2 } else { Mnemonic::Smlal })
    } else if u == 1 && opcode == 8 {
        Some(if q != 0 { Mnemonic::Umlal2 } else { Mnemonic::Umlal })
    } else if u == 0 && opcode == 9 {
        Some(if q != 0 { Mnemonic::Sqdmlal2 } else { Mnemonic::Sqdmlal })
    } else if u == 0 && opcode == 10 {
        Some(if q != 0 { Mnemonic::Smlsl2 } else { Mnemonic::Smlsl })
    } else if u == 1 && opcode == 10 {
        Some(if q != 0 { Mnemonic::Umlsl2 } else { Mnemonic::Umlsl })
    } else if u == 0 && opcode == 11 {
        Some(if q != 0 { Mnemonic::Sqdmlsl2 } else { Mnemonic::Sqdmlsl })
    } else if u == 0 && opcode == 12 {
        Some(if q != 0 { Mnemonic::Smull2 } else { Mnemonic::Smull })
    } else if u == 1 && opcode == 12 {
        Some(if q != 0 { Mnemonic::Umull2 } else { Mnemonic::Umull })
    } else if u == 0 && opcode == 13 {
        Some(if q != 0 { Mnemonic::Sqdmull2 } else { Mnemonic::Sqdmull })
    } else if opcode == 14 {
        Some(if q != 0 { Mnemonic::Pmull2 } else { Mnemonic::Pmull })
    } else if u == 0 && opcode == 4 {
        Some(if q != 0 { Mnemonic::Addhn2 } else { Mnemonic::Addhn })
    } else if u == 1 && opcode == 4 {
        Some(if q != 0 { Mnemonic::Raddhn2 } else { Mnemonic::Raddhn })
    } else if u == 0 && opcode == 2 {
        Some(if q != 0 { Mnemonic::Ssubl2 } else { Mnemonic::Ssubl })
    } else if u == 1 && opcode == 2 {
        Some(if q != 0 { Mnemonic::Usubl2 } else { Mnemonic::Usubl })
    } else {
        None
    }
}

fn three_diff_op_exec(u: u32, opcode: u32, q: u32) -> (m: Option<Mnemonic>)
    ensures
        m == three_diff_op(u, opcode, q),
{
    if u == 0 && opcode == 0 {
        Some(if q != 0 { Mnemonic::Saddl2 } else { Mnemonic::Saddl })
    } else if u == 1 && opcode == 0 {
        Some(if q != 0 { Mnemonic::Uaddl2 } else { Mnemonic::Uaddl })
    } else if u == 0 && opcode == 8 {
        Some(if q != 0 { Mnemonic::Smlal2 } else { Mnemonic::Smlal })
    } else if u == 1 && opcode == 8 {
        Some(if q != 0 { Mnemonic::Umlal2 } else { Mnemonic::Umlal })
    } else if u == 0 && opcode == 9 {
        Some(if q != 0 { Mnemonic::Sqdmlal2 } else { Mnemonic::Sqdmlal })
    } else if u == 0 && opcode == 10 {
        Some(if q != 0 { Mnemonic::Smlsl2 } else { Mnemonic::Smlsl })
    } else if u == 1 && opcode == 10 {
        Some(if q != 0 { Mnemonic::Umlsl2 } else { Mnemonic::Umlsl })
    } else if u == 0 && opcode == 11 {
        Some(if q != 0 { Mnemonic::Sqdmlsl2 } else { Mnemonic::Sqdmlsl })
    } else if u == 0 && opcode == 12 {
        Some(if q != 0 { Mnemonic::Smull2 } else { Mnemonic::Smull })
    } else if u == 1 && opcode == 12 {
        Some(if q != 0 { Mnemonic::Umull2 } else { Mnemonic::Umull })
    } else if u == 0 && opcode == 13 {
        Some(if q != 0 { Mnemonic::Sqdmull2 } else { Mnemonic::Sqdmull })
    } else if opcode == 14 {
        Some(if q != 0 { Mnemonic::Pmull2 } else { Mnemonic::Pmull })
    } else if u == 0 && opcode == 4 {
        Some(if q != 0 { Mnemonic::Addhn2 } else { Mnemonic::Addhn })
    } else if u == 1 && opcode == 4 {
        Some(if q != 0 { Mnemonic::Raddhn2 } else { Mnemonic::Raddhn })
    } else if u == 0 && opcode == 2 {
        Some(if q != 0 { Mnemonic::Ssubl2 } else { Mnemonic::Ssubl })
    } else if u == 1 && opcode == 2 {
        Some(if q != 0 { Mnemonic::Usubl2 } else { Mnemonic::Usubl })
    } else {
        None
    }
}

/// Mnemonic of a by-element instruction by `U`, `opcode`, `size` and `Q`.
pub open spec fn by_element_op(u: u32, opcode: u32, size: u32, q: u32) -> Option<Mnemonic> {
    if u == 0 && opcode == 1 {
        Some(Mnemonic::Fmla)
    } else if u == 0 && opcode == 5 {
        Some(Mnemonic::Fmls)
    } else if u == 0 && opcode == 9 {
        Some(Mnemonic::Fmul)
    } else if u == 1 && opcode == 9 {
        Some(Mnemonic::Fmulx)
    } else if u == 1 && opcode == 1 {
        Some(Mnemonic::Fcmla)
    } else if u == 1 && opcode == 5 {
        Some(Mnemonic::Fcmla)
    } else if u == 0 && opcode == 2 {
        Some(if q != 0 { Mnemonic::Smlal2 } else { Mnemonic::Smlal })
    } else if u == 1 && opcode == 2 {
        Some(if q != 0 { Mnemonic::Umlal2 } else { Mnemonic::Umlal })
    } else if u == 0 && opcode == 3 {
        Some(if q != 0 { Mnemonic::Sqdmlal2 } else { Mnemonic::Sqdmlal })
    } else if u == 0 && opcode == 6 {
        Some(if q != 0 { Mnemonic::Smlsl2 } else { Mnemonic::Smlsl })
    } else if u == 0 && opcode == 7 {
        Some(if q != 0 { Mnemonic::Sqdmlsl2 } else { Mnemonic::Sqdmlsl })
    } else if u == 0 && opcode == 10 {
        Some(if q != 0 { Mnemonic::Smull2 } else { Mnemonic::Smull })
    } else if u == 1 && opcode == 10 {
        Some(if q != 0 { Mnemonic::Umull2 } else { Mnemonic::Umull })
    } else if u == 0 && opcode == 11 {
        Some(if q != 0 { Mnemonic::Sqdmull2 } else { Mnemonic::Sqdmull })
    } else if u == 0 && opcode == 12 {
        Some(Mnemonic::Sqdmulh)
    } else if u == 0 && opcode == 13 {
        Some(Mnemonic::Sqrdmulh)
    } else if u == 1 && opcode == 13 {
        Some(Mnemonic::Sqrdmlah)
    } else if u == 1 && opcode == 15 {
        Some(Mnemonic::Sqrdmlsh)
    } else if u == 0 && opcode == 8 {
        Some(Mnemonic::Mul)
    } else if u == 0 && opcode == 4 {
        Some(Mnemonic::Mla)
    } else if u == 1 && opcode == 4 {
        Some(Mnemonic::Mls)
    } else if u == 1 && opcode == 0 {
        Some(Mnemonic::Mla)
    } else if u == 0 && opcode == 14 {
        Some(Mnemonic::Sdot)
    } else if u == 1 && opcode == 14 {
        Some(Mnemonic::Udot)
    } else if u == 0 && opcode == 15 && (size == 0b00) {
        Some(Mnemonic::Sudot)
    } else if u == 0 && opcode == 15 && (size == 0b01) {
        Some(Mnemonic::Bfdot)
    } else if u == 0 && opcode == 15 && (size == 0b10) {
        Some(Mnemonic::Usdot)
    } else {
        None
    }
}

fn by_element_op_exec(u: u32, opcode: u32, size: u32, q: u32) -> (m: Option<Mnemonic>)
    ensures
        m == by_element_op(u, opcode, size, q),
{
    if u == 0 && opcode == 1 {
        Some(Mnemonic::Fmla)
    } else if u == 0 && opcode == 5 {
        Some(Mnemonic::Fmls)
    } else if u == 0 && opcode == 9 {
        Some(Mnemonic::Fmul)
    } else if u == 1 && opcode == 9 {
        Some(Mnemonic::Fmulx)
    } else if u == 1 && opcode == 1 {
        Some(Mnemonic::Fcmla)
    } else if u == 1 && opcode == 5 {
        Some(Mnemonic::Fcmla)
    } else if u == 0 && opcode == 2 {
        Some(if q != 0 { Mnemonic::Smlal2 } else { Mnemonic::Smlal })
    } else if u == 1 && opcode == 2 {
        Some(if q != 0 { Mnemonic::Umlal2 } else { Mnemonic::Umlal })
    } else if u == 0 && opcode == 3 {
        Some(if q != 0 { Mnemonic::Sqdmlal2 } else { Mnemonic::Sqdmlal })
    } else if u == 0 && opcode == 6 {
        Some(if q != 0 { Mnemonic::Smlsl2 } else { Mnemonic::Smlsl })
    } else if u == 0 && opcode == 7 {
        Some(if q != 0 { Mnemonic::Sqdmlsl2 } else { Mnemonic::Sqdmlsl })
    } else if u == 0 && opcode == 10 {
        Some(if q != 0 { Mnemonic::Smull2 } else { Mnemonic::Smull })
    } else if u == 1 && opcode == 10 {
        Some(if q != 0 { Mnemonic::Umull2 } else { Mnemonic::Umull })
    } else if u == 0 && opcode == 11 {
        Some(if q != 0 { Mnemonic::Sqdmull2 } else { Mnemonic::Sqdmull })
    } else if u == 0 && opcode == 12 {
        Some(Mnemonic::Sqdmulh)
    } else if u == 0 && opcode == 13 {
        Some(Mnemonic::Sqrdmulh)
    } else if u == 1 && opcode == 13 {
        Some(Mnemonic::Sqrdmlah)
    } else if u == 1 && opcode == 15 {
        Some(Mnemonic::Sqrdmlsh)
    } else if u == 0 && opcode == 8 {
        Some(Mnemonic::Mul)
    } else if u == 0 && opcode == 4 {
        Some(Mnemonic::Mla)
    } else if u == 1 && opcode == 4 {
        Some(Mnemonic::Mls)
    } else if u == 1 && opcode == 0 {
        Some(Mnemonic::Mla)
    } else if u == 0 && opcode == 14 {
        Some(Mnemonic::Sdot)
    } else if u == 1 && opcode == 14 {
        Some(Mnemonic::Udot)
    } else if u == 0 && opcode == 15 && (size == 0b00) {
        Some(Mnemonic::Sudot)
    } else if u == 0 && opcode == 15 && (size == 0b01) {
        Some(Mnemonic::Bfdot)
    } else if u == 0 && opcode == 15 && (size == 0b10) {
        Some(Mnemonic::Usdot)
    } else {
        None
    }
}

/// Mnemonic of a fixed-point conversion by `opcode` (bits [18:16]).
pub open spec fn fp_fixed_op(opcode: u32) -> Option<Mnemonic> {
    if opcode == 0 {
        Some(Mnemonic::Fcvtzs)
    } else if opcode == 1 {
        Some(Mnemonic::Fcvtzu)
    } else if opcode == 2 {
        Some(Mnemonic::Scvtf)
    } else if opcode == 3 {
        Some(Mnemonic::Ucvtf)
    } else {
        None
    }
}

fn fp_fixed_op_exec(opcode: u32) -> (m: Option<Mnemonic>)
    ensures
        m == fp_fixed_op(opcode),
{
    if opcode == 0 {
        Some(Mnemonic::Fcvtzs)
    } else if opcode == 1 {
        Some(Mnemonic::Fcvtzu)
    } else if opcode == 2 {
        Some(Mnemonic::Scvtf)
    } else if opcode == 3 {
        Some(Mnemonic::Ucvtf)
    } else {
        None
    }
}

/// Mnemonic of a scalar two-register miscellaneous instruction by `U` and `opcode`.
pub open spec fn scalar_two_misc_op(u: u32, opcode: u32) -> Option<Mnemonic> {
    if u == 1 && opcode == 20 {
        Some(Mnemonic::Uqxtn)
    } else if u == 0 && opcode == 20 {
        Some(Mnemonic::Sqxtn)
    } else if u == 0 && opcode == 21 {
        Some(Mnemonic::Sqxtun)
    } else if u == 1 && opcode == 8 {
        Some(Mnemonic::Cmge)
    } else if u == 0 && opcode == 8 {
        Some(Mnemonic::Cmgt)
    } else if u == 0 && opcode == 9 {
        Some(Mnemonic::Cmeq)
    } else if u == 0 && opcode == 11 {
        Some(Mnemonic::Cmlt)
    } else if u == 1 && opcode == 9 {
        Some(Mnemonic::Cmle)
    } else if u == 0 && opcode == 10 {
        Some(Mnemonic::Abs)
    } else if u == 1 && opcode == 11 {
        Some(Mnemonic::Neg)
    } else if u == 0 && opcode == 29 {
        Some(Mnemonic::Fcvtns)
    } else if u == 0 && opcode == 27 {
        Some(Mnemonic::Fcvtzs)
    } else if u == 1 && opcode == 27 {
        Some(Mnemonic::Fcvtzu)
    } else if u == 0 && opcode == 28 {
        Some(Mnemonic::Fcvtas)
    } else if u == 1 && opcode == 28 {
        Some(Mnemonic::Fcvtau)
    } else if u == 0 && opcode == 30 {
        Some(Mnemonic::Scvtf)
    } else if u == 1 && opcode == 30 {
        Some(Mnemonic::Ucvtf)
    } else {
        None
    }
}

fn scalar_two_misc_op_exec(u: u32, opcode: u32) -> (m: Option<Mnemonic>)
    ensures
        m == scalar_two_misc_op(u, opcode),
{
    if u == 1 && opcode == 20 {
        Some(Mnemonic::Uqxtn)
    } else if u == 0 && opcode == 20 {
        Some(Mnemonic::Sqxtn)
    } else if u == 0 && opcode == 21 {
        Some(Mnemonic::Sqxtun)
    } else if u == 1 && opcode == 8 {
        Some(Mnemonic::Cmge)
    } else if u == 0 && opcode == 8 {
        Some(Mnemonic::Cmgt)
    } else if u == 0 && opcode == 9 {
        Some(Mnemonic::Cmeq)
    } else if u == 0 && opcode == 11 {
        Some(Mnemonic::Cmlt)
    } else if u == 1 && opcode == 9 {
        Some(Mnemonic::Cmle)
    } else if u == 0 && opcode == 10 {
        Some(Mnemonic::Abs)
    } else if u == 1 && opcode == 11 {
        Some(Mnemonic::Neg)
    } else if u == 0 && opcode == 29 {
        Some(Mnemonic::Fcvtns)
    } else if u == 0 && opcode == 27 {
        Some(Mnemonic::Fcvtzs)
    } else if u == 1 && opcode == 27 {
        Some(Mnemonic::Fcvtzu)
    } else if u == 0 && opcode == 28 {
        Some(Mnemonic::Fcvtas)
    } else if u == 1 && opcode == 28 {
        Some(Mnemonic::Fcvtau)
    } else if u == 0 && opcode == 30 {
        Some(Mnemonic::Scvtf)
    } else if u == 1 && opcode == 30 {
        Some(Mnemonic::Ucvtf)
    } else {
        None
    }
}

/// Mnemonic of a SHA two-register instruction by `opcode`.
pub open spec fn sha_two_op(opcode: u32) -> Option<Mnemonic> {
    if opcode == 0 {
        Some(Mnemonic::Sha1h)
    } else if opcode == 1 {
        Some(Mnemonic::Sha1su1)
    } else if opcode == 2 {
        Some(Mnemonic::Sha256su0)
    } else {
        None
    }
}

fn sha_two_op_exec(opcode: u32) -> (m: Option<Mnemonic>)
    ensures
        m == sha_two_op(opcode),
{
    if opcode == 0 {
        Some(Mnemonic::Sha1h)
    } else if opcode == 1 {
        Some(Mnemonic::Sha1su1)
    } else if opcode == 2 {
        Some(Mnemonic::Sha256su0)
    } else {
        None
    }
}

/// Mnemonic of a conversion between floating-point and integer by `rmode` and `opcode`.
pub open spec fn fp_conversion_op(rmode: u32, opcode: u32) -> Option<Mnemonic> {
    if rmode == 0 && opcode == 0 {
        Some(Mnemonic::Fcvtns)
    } else if rmode == 0 && opcode == 1 {
        Some(Mnemonic::Fcvtnu)
    } else if rmode == 1 && opcode == 0 {
        Some(Mnemonic::Fcvtps)
    } else if rmode == 1 && opcode == 1 {
        Some(Mnemonic::Fcvtpu)
    } else if rmode == 2 && opcode == 0 {
        Some(Mnemonic::Fcvtms)
    } else if rmode == 2 && opcode == 1 {
        Some(Mnemonic::Fcvtmu)
    } else if rmode == 3 && opcode == 0 {
        Some(Mnemonic::Fcvtzs)
    } else if rmode == 3 && opcode == 1 {
        Some(Mnemonic::Fcvtzu)
    } else if rmode == 0 && opcode == 2 {
        Some(Mnemonic::Scvtf)
    } else if rmode == 0 && opcode == 3 {
        Some(Mnemonic::Ucvtf)
    } else if ((rmode == 0 && opcode == 4) || (rmode == 1 && opcode == 4) || (rmode == 2 && opcode == 4) || (rmode == 3 && opcode == 4)) {
        Some(Mnemonic::Fcvtas)
    } else if ((rmode == 0 && opcode == 5) || (rmode == 1 && opcode == 5) || (rmode == 2 && opcode == 5) || (rmode == 3 && opcode == 5)) {
        Some(Mnemonic::Fcvtau)
    } else if rmode == 0 && opcode == 6 {
        Some(Mnemonic::Fmov)
    } else if rmode == 0 && opcode == 7 {
        Some(Mnemonic::Fmov)
    } else if rmode == 1 && opcode == 6 {
        Some(Mnemonic::Fmov)
    } else if rmode == 1 && opcode == 7 {
        Some(Mnemonic::Fmov)
    } else {
        None
    }
}

fn fp_conversion_op_exec(rmode: u32, opcode: u32) -> (m: Option<Mnemonic>)
    ensures
        m == fp_conversion_op(rmode, opcode),
{
    if rmode == 0 && opcode == 0 {
        Some(Mnemonic::Fcvtns)
    } else if rmode == 0 && opcode == 1 {
        Some(Mnemonic::Fcvtnu)
    } else if rmode == 1 && opcode == 0 {
        Some(Mnemonic::Fcvtps)
    } else if rmode == 1 && opcode == 1 {
        Some(Mnemonic::Fcvtpu)
    } else if rmode == 2 && opcode == 0 {
        Some(Mnemonic::Fcvtms)
    } else if rmode == 2 && opcode == 1 {
        Some(Mnemonic::Fcvtmu)
    } else if rmode == 3 && opcode == 0 {
        Some(Mnemonic::Fcvtzs)
    } else if rmode == 3 && opcode == 1 {
        Some(Mnemonic::Fcvtzu)
    } else if rmode == 0 && opcode == 2 {
        Some(Mnemonic::Scvtf)
    } else if rmode == 0 && opcode == 3 {
        Some(Mnemonic::Ucvtf)
    } else if ((rmode == 0 && opcode == 4) || (rmode == 1 && opcode == 4) || (rmode == 2 && opcode == 4) || (rmode == 3 && opcode == 4)) {
        Some(Mnemonic::Fcvtas)
    } else if ((rmode == 0 && opcode == 5) || (rmode == 1 && opcode == 5) || (rmode == 2 && opcode == 5) || (rmode == 3 && opcode == 5)) {
        Some(Mnemonic::Fcvtau)
    } else if rmode == 0 && opcode == 6 {
        Some(Mnemonic::Fmov)
    } else if rmode == 0 && opcode == 7 {
        Some(Mnemonic::Fmov)
    } else if rmode == 1 && opcode == 6 {
        Some(Mnemonic::Fmov)
    } else if rmode == 1 && opcode == 7 {
        Some(Mnemonic::Fmov)
    } else {
        None
    }
}

} // verus!
