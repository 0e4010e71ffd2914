//! Data processing with an immediate: PC-relative addressing, add/subtract (with the
//! MTE tag and min/max forms), logical, move wide, bitfield and extract.

use super::{decoded_ok, lemma_base_facts, undef, undefined};
use crate::enums::{Code, OpKind, Register, ShiftKind};
use crate::helpers::{bit, bit_at, bitmask_spec, bits, decode_bitmask, field, sext, sign_extend};
use crate::instruction::Instruction;
use crate::mnemonic::Mnemonic;
use vstd::prelude::*;

verus! {

/// The cases of `dp_imm_spec`, visible to every module.
pub open spec fn dp_imm_cases(vaddr: u64, raw: u32) -> Instruction {
    let op = field(raw, 25, 23);
    if op <= 1 {
        pc_rel_spec(vaddr, raw)
    } else if op <= 3 {
        add_sub_imm_spec(vaddr, raw)
    } else if op == 4 {
        logic_imm_spec(vaddr, raw)
    } else if op == 5 {
        mov_wide_spec(vaddr, raw)
    } else if op == 6 {
        bitfield_spec(vaddr, raw)
    } else {
        extract_spec(vaddr, raw)
    }
}

/// Decoding of the data-processing-immediate group, by bits [25:23].
#[verifier::opaque]
pub open spec fn dp_imm_spec(vaddr: u64, raw: u32) -> Instruction {
    dp_imm_cases(vaddr, raw)
}

/// Unfolds `dp_imm_spec` into its cases, for use outside this module.
pub proof fn lemma_dp_imm_unfold(vaddr: u64, raw: u32)
    ensures
        dp_imm_spec(vaddr, raw) == dp_imm_cases(vaddr, raw),
{
    reveal(dp_imm_spec);
}

/// Every word of the group decodes to a record of itself.
pub(super) proof fn lemma_records(vaddr: u64, raw: u32)
    ensures
        dp_imm_spec(vaddr, raw).records(vaddr, raw),
{
    reveal(dp_imm_spec);
}

/// The form a word of the group decodes to does not depend on its address.
pub(super) proof fn lemma_same_form(v1: u64, v2: u64, raw: u32)
    ensures
        dp_imm_spec(v1, raw).same_form(dp_imm_spec(v2, raw)),
{
    reveal(dp_imm_spec);
}

proof fn lemma_ok_dp_imm_cases(vaddr: u64, raw: u32)
    ensures
        decoded_ok(dp_imm_cases(vaddr, raw), vaddr, raw),
{
    lemma_base_facts(raw);
    lemma_ok_pc_rel_spec(vaddr, raw);
    lemma_ok_add_sub_imm_spec(vaddr, raw);
    lemma_ok_logic_imm_spec(vaddr, raw);
    lemma_ok_mov_wide_spec(vaddr, raw);
    lemma_ok_bitfield_spec(vaddr, raw);
    lemma_ok_extract_spec(vaddr, raw);
}

/// Every word of the group decodes soundly.
pub(super) proof fn lemma_ok_dp_imm_spec(vaddr: u64, raw: u32)
    ensures
        decoded_ok(dp_imm_spec(vaddr, raw), vaddr, raw),
{
    reveal(dp_imm_spec);
    lemma_base_facts(raw);
    lemma_ok_dp_imm_cases(vaddr, raw);
}

proof fn lemma_ok_pc_rel_spec(vaddr: u64, raw: u32)
    ensures
        decoded_ok(pc_rel_spec(vaddr, raw), vaddr, raw),
{
    lemma_base_facts(raw);
}

proof fn lemma_ok_add_sub_imm_spec(vaddr: u64, raw: u32)
    ensures
        decoded_ok(add_sub_imm_spec(vaddr, raw), vaddr, raw),
{
    lemma_base_facts(raw);
    lemma_ok_minmax_imm_spec(vaddr, raw);
    lemma_ok_tag_imm_spec(vaddr, raw);
    lemma_ok_add_sub_plain_spec(vaddr, raw);
}

proof fn lemma_ok_minmax_imm_spec(vaddr: u64, raw: u32)
    ensures
        decoded_ok(minmax_imm_spec(vaddr, raw), vaddr, raw),
{
    lemma_base_facts(raw);
}

proof fn lemma_ok_tag_imm_spec(vaddr: u64, raw: u32)
    ensures
        decoded_ok(tag_imm_spec(vaddr, raw), vaddr, raw),
{
    lemma_base_facts(raw);
}

proof fn lemma_ok_add_sub_plain_spec(vaddr: u64, raw: u32)
    ensures
        decoded_ok(add_sub_plain_spec(vaddr, raw), vaddr, raw),
{
    lemma_base_facts(raw);
}

proof fn lemma_ok_logic_imm_spec(vaddr: u64, raw: u32)
    ensures
        decoded_ok(logic_imm_spec(vaddr, raw), vaddr, raw),
{
    lemma_base_facts(raw);
}

proof fn lemma_ok_mov_wide_spec(vaddr: u64, raw: u32)
    ensures
        decoded_ok(mov_wide_spec(vaddr, raw), vaddr, raw),
{
    lemma_base_facts(raw);
}

proof fn lemma_ok_bitfield_spec(vaddr: u64, raw: u32)
    ensures
        decoded_ok(bitfield_spec(vaddr, raw), vaddr, raw),
{
    lemma_base_facts(raw);
}

proof fn lemma_ok_extract_spec(vaddr: u64, raw: u32)
    ensures
        decoded_ok(extract_spec(vaddr, raw), vaddr, raw),
{
    lemma_base_facts(raw);
}

pub(super) fn decode(vaddr: u64, raw: u32) -> (r: Instruction)
    ensures
        r == dp_imm_spec(vaddr, raw),
{
    proof {
        reveal(dp_imm_spec);
    }
    let op = bits(raw, 25, 23);
    if op <= 1 {
        decode_pc_rel(vaddr, raw)
    } else if op <= 3 {
        decode_add_sub_imm(vaddr, raw)
    } else if op == 4 {
        decode_logic_imm(vaddr, raw)
    } else if op == 5 {
        decode_mov_wide(vaddr, raw)
    } else if op == 6 {
        decode_bitfield(vaddr, raw)
    } else {
        decode_extract(vaddr, raw)
    }
}

/// ADR / ADRP: the 21-bit signed immediate `immhi:immlo` is a byte offset from the
/// instruction (ADR) or a 4 KiB page offset from the instruction's page (ADRP).
pub open spec fn pc_rel_spec(vaddr: u64, raw: u32) -> Instruction {
    let imm = sext((field(raw, 23, 5) * 4 + field(raw, 30, 29)) as u64, 21);
    let page = bit_at(raw, 31) != 0;
    let target = if page {
        (vaddr & !0xFFFu64).wrapping_add_signed((imm * 4096) as i64)
    } else {
        vaddr.wrapping_add_signed(imm as i64)
    };
    Instruction {
        op_count: 2,
        op0_kind: OpKind::Register,
        op0_reg: Register::gpr_at(true, field(raw, 4, 0), false),
        op1_kind: OpKind::Immediate,
        op1_imm: target,
        near_branch_target: target,
        ..Instruction::meta(
            vaddr,
            raw,
            if page { Code::Adrp } else { Code::Adr },
            if page { Mnemonic::Adrp } else { Mnemonic::Adr },
        )
    }
}

fn decode_pc_rel(vaddr: u64, raw: u32) -> (r: Instruction)
    ensures
        r == pc_rel_spec(vaddr, raw),
{
    let op = bit(raw, 31);
    let immlo = bits(raw, 30, 29) as u64;
    let immhi = bits(raw, 23, 5) as u64;
    let rd = bits(raw, 4, 0);
    assert(immlo < 4 && immhi < 0x80000 ==> (immhi << 2) | immlo == immhi * 4 + immlo) by (bit_vector);
    assert((1u32 << 2u32) == 4 && (1u32 << 19u32) == 0x80000) by (bit_vector);
    let imm = sign_extend((immhi << 2) | immlo, 21);
    assert(-0x10_0000 <= imm < 0x10_0000) by {
        vstd::arithmetic::power2::lemma2_to64();
    }
    let (code, mnemonic, target) = if op == 0 {
        (Code::Adr, Mnemonic::Adr, vaddr.wrapping_add_signed(imm))
    } else {
        (Code::Adrp, Mnemonic::Adrp, (vaddr & !0xFFF).wrapping_add_signed(imm * 4096))
    };
    let mut i = Instruction::with_meta(vaddr, raw, code, mnemonic);
    i.op_count = 2;
    i.op0_kind = OpKind::Register;
    i.op0_reg = Register::gpr(true, rd, false);
    i.op1_kind = OpKind::Immediate;
    i.op1_imm = target;
    i.near_branch_target = target;
    i
}

/// Mnemonic of the min/max (immediate) forms by bits [19:18].
pub open spec fn minmax_imm_mnemonic(sel: u32) -> Mnemonic {
    if sel == 0 {
        Mnemonic::Smax
    } else if sel == 1 {
        Mnemonic::Umax
    } else if sel == 2 {
        Mnemonic::Smin
    } else {
        Mnemonic::Umin
    }
}

/// ADD/ADDS/SUB/SUBS (immediate) with their MOV/CMP/CMN aliases, the MTE ADDG/SUBG
/// forms and the SMAX/UMAX/SMIN/UMIN (immediate) forms.
pub open spec fn add_sub_imm_spec(vaddr: u64, raw: u32) -> Instruction {
    if bit_at(raw, 23) != 0 && field(raw, 22, 21) == 2 && bit_at(raw, 30) == 0 && bit_at(raw, 29) == 0 {
        minmax_imm_spec(vaddr, raw)
    } else if bit_at(raw, 23) != 0 && field(raw, 15, 14) == 0 {
        tag_imm_spec(vaddr, raw)
    } else {
        add_sub_plain_spec(vaddr, raw)
    }
}

fn decode_add_sub_imm(vaddr: u64, raw: u32) -> (r: Instruction)
    ensures
        r == add_sub_imm_spec(vaddr, raw),
{
    if bit(raw, 23) != 0 && bits(raw, 22, 21) == 0b10 && bit(raw, 30) == 0 && bit(raw, 29) == 0 {
        decode_minmax_imm(vaddr, raw)
    } else if bit(raw, 23) != 0 && bits(raw, 15, 14) == 0 {
        decode_tag_imm(vaddr, raw)
    } else {
        decode_add_sub_plain(vaddr, raw)
    }
}

/// SMAX/UMAX/SMIN/UMIN (immediate): bit 23 set, bits [22:21] = 10, op = S = 0.
pub open spec fn minmax_imm_spec(vaddr: u64, raw: u32) -> Instruction {
    let sf = bit_at(raw, 31) == 1;
    Instruction {
        op_count: 3,
        op0_kind: OpKind::Register,
        op0_reg: Register::gpr_at(sf, field(raw, 4, 0), false),
        op1_kind: OpKind::Register,
        op1_reg: Register::gpr_at(sf, field(raw, 9, 5), false),
        op2_kind: OpKind::Immediate,
        op2_imm: field(raw, 15, 10) as u64,
        ..Instruction::meta(vaddr, raw, Code::Add_imm, minmax_imm_mnemonic(field(raw, 19, 18)))
    }
}

fn decode_minmax_imm(vaddr: u64, raw: u32) -> (r: Instruction)
    ensures
        r == minmax_imm_spec(vaddr, raw),
{
    let sf = bit(raw, 31) == 1;
    let sel = bits(raw, 19, 18);
    let mnemonic = if sel == 0 {
        Mnemonic::Smax
    } else if sel == 1 {
        Mnemonic::Umax
    } else if sel == 2 {
        Mnemonic::Smin
    } else {
        Mnemonic::Umin
    };
    let imm = bits(raw, 15, 10) as u64;
    let rn = bits(raw, 9, 5);
    let rd = bits(raw, 4, 0);
    let mut i = Instruction::with_meta(vaddr, raw, Code::Add_imm, mnemonic);
    i.op_count = 3;
    i.op0_kind = OpKind::Register;
    i.op0_reg = Register::gpr(sf, rd, false);
    i.op1_kind = OpKind::Register;
    i.op1_reg = Register::gpr(sf, rn, false);
    i.op2_kind = OpKind::Immediate;
    i.op2_imm = imm;
    i
}

/// ADDG/SUBG (MTE): bit 23 set and bits [15:14] = 00; the offset `uimm6` is scaled by
/// the 16-byte tag granule.
pub open spec fn tag_imm_spec(vaddr: u64, raw: u32) -> Instruction {
    Instruction {
        op_count: 4,
        op0_kind: OpKind::Register,
        op0_reg: Register::gpr_at(true, field(raw, 4, 0), true),
        op1_kind: OpKind::Register,
        op1_reg: Register::gpr_at(true, field(raw, 9, 5), true),
        op2_kind: OpKind::Immediate,
        op2_imm: (field(raw, 21, 16) * 16) as u64,
        op3_kind: OpKind::Immediate,
        op3_imm: field(raw, 13, 10) as u64,
        ..Instruction::meta(
            vaddr,
            raw,
            Code::Add_imm,
            if bit_at(raw, 30) == 0 { Mnemonic::Addg } else { Mnemonic::Subg },
        )
    }
}

fn decode_tag_imm(vaddr: u64, raw: u32) -> (r: Instruction)
    ensures
        r == tag_imm_spec(vaddr, raw),
{
    let uimm6 = bits(raw, 21, 16);
    let uimm4 = bits(raw, 13, 10);
    let rn = bits(raw, 9, 5);
    let rd = bits(raw, 4, 0);
    let mnemonic = if bit(raw, 30) == 0 {
        Mnemonic::Addg
    } else {
        Mnemonic::Subg
    };
    let mut i = Instruction::with_meta(vaddr, raw, Code::Add_imm, mnemonic);
    i.op_count = 4;
    i.op0_kind = OpKind::Register;
    i.op0_reg = Register::gpr(true, rd, true);
    i.op1_kind = OpKind::Register;
    i.op1_reg = Register::gpr(true, rn, true);
    i.op2_kind = OpKind::Immediate;
    i.op2_imm = (uimm6 as u64) * 16;  // tag offset scale
    i.op3_kind = OpKind::Immediate;
    i.op3_imm = uimm4 as u64;
    i
}

/// The immediate of ADD/SUB: `imm12`, shifted left by 12 when bit 22 is set.
pub open spec fn add_sub_imm_value(raw: u32) -> u64 {
    if bit_at(raw, 22) != 0 {
        (field(raw, 21, 10) * 4096) as u64
    } else {
        field(raw, 21, 10) as u64
    }
}

/// ADD/ADDS/SUB/SUBS (immediate): `add #0` with SP or ZR is MOV, `subs`/`adds` into
/// ZR are CMP/CMN.
pub open spec fn add_sub_plain_spec(vaddr: u64, raw: u32) -> Instruction {
    let sf = bit_at(raw, 31) == 1;
    let op = bit_at(raw, 30);
    let s = bit_at(raw, 29);
    let rn = field(raw, 9, 5);
    let rd = field(raw, 4, 0);
    let imm = add_sub_imm_value(raw);
    if op == 0 && s == 0 && imm == 0 && (rd == 31 || rn == 31) {
        Instruction {
            op_count: 2,
            op0_kind: OpKind::Register,
            op0_reg: Register::gpr_at(sf, rd, true),
            op1_kind: OpKind::Register,
            op1_reg: Register::gpr_at(sf, rn, true),
            ..Instruction::meta(vaddr, raw, Code::Add_imm, Mnemonic::Mov)
        }
    } else if s == 1 && rd == 31 {
        Instruction {
            op_count: 2,
            op0_kind: OpKind::Register,
            op0_reg: Register::gpr_at(sf, rn, true),
            op1_kind: OpKind::Immediate,
            op1_imm: imm,
            ..Instruction::meta(
                vaddr,
                raw,
                if op == 1 { Code::Subs_imm } else { Code::Adds_imm },
                if op == 1 { Mnemonic::Cmp } else { Mnemonic::Cmn },
            )
        }
    } else {
        let code = if op == 0 {
            if s == 0 { Code::Add_imm } else { Code::Adds_imm }
        } else {
            if s == 0 { Code::Sub_imm } else { Code::Subs_imm }
        };
        let mnemonic = if op == 0 {
            if s == 0 { Mnemonic::Add } else { Mnemonic::Adds }
        } else {
            if s == 0 { Mnemonic::Sub } else { Mnemonic::Subs }
        };
        Instruction {
            op_count: 3,
            op0_kind: OpKind::Register,
            op0_reg: Register::gpr_at(sf, rd, true),
            op1_kind: OpKind::Register,
            op1_reg: Register::gpr_at(sf, rn, true),
            op2_kind: OpKind::Immediate,
            op2_imm: imm,
            ..Instruction::meta(vaddr, raw, code, mnemonic)
        }
    }
}

fn decode_add_sub_plain(vaddr: u64, raw: u32) -> (r: Instruction)
    ensures
        r == add_sub_plain_spec(vaddr, raw),
{
    let sf = bit(raw, 31) == 1;
    let op = bit(raw, 30);
    let s = bit(raw, 29);
    let sh = bit(raw, 22);
    let imm12 = bits(raw, 21, 10) as u64;
    let rn = bits(raw, 9, 5);
    let rd = bits(raw, 4, 0);
    let imm = if sh != 0 { imm12 * 4096 } else { imm12 };

    if op == 0 && s == 0 && imm == 0 && (rd == 31 || rn == 31) {
        let mut i = Instruction::with_meta(vaddr, raw, Code::Add_imm, Mnemonic::Mov);
        i.op_count = 2;
        i.op0_kind = OpKind::Register;
        i.op0_reg = Register::gpr(sf, rd, true);
        i.op1_kind = OpKind::Register;
        i.op1_reg = Register::gpr(sf, rn, true);
        return i;
    }
    if op == 1 && s == 1 && rd == 31 {
        let mut i = Instruction::with_meta(vaddr, raw, Code::Subs_imm, Mnemonic::Cmp);
        i.op_count = 2;
        i.op0_kind = OpKind::Register;
        i.op0_reg = Register::gpr(sf, rn, true);
        i.op1_kind = OpKind::Immediate;
        i.op1_imm = imm;
        return i;
    }
    if op == 0 && s == 1 && rd == 31 {
        let mut i = Instruction::with_meta(vaddr, raw, Code::Adds_imm, Mnemonic::Cmn);
        i.op_count = 2;
        i.op0_kind = OpKind::Register;
        i.op0_reg = Register::gpr(sf, rn, true);
        i.op1_kind = OpKind::Immediate;
        i.op1_imm = imm;
        return i;
    }
    let (code, mnemonic) = if op == 0 {
        if s == 0 {
            (Code::Add_imm, Mnemonic::Add)
        } else {
            (Code::Adds_imm, Mnemonic::Adds)
        }
    } else {
        if s == 0 {
            (Code::Sub_imm, Mnemonic::Sub)
        } else {
            (Code::Subs_imm, Mnemonic::Subs)
        }
    };
    let mut i = Instruction::with_meta(vaddr, raw, code, mnemonic);
    i.op_count = 3;
    i.op0_kind = OpKind::Register;
    i.op0_reg = Register::gpr(sf, rd, true);
    i.op1_kind = OpKind::Register;
    i.op1_reg = Register::gpr(sf, rn, true);
    i.op2_kind = OpKind::Immediate;
    i.op2_imm = imm;
    i
}

/// AND/ORR/EOR/ANDS (immediate) and the TST alias; a reserved bitmask is undefined.
pub open spec fn logic_imm_spec(vaddr: u64, raw: u32) -> Instruction {
    let sf = bit_at(raw, 31) == 1;
    let opc = field(raw, 30, 29);
    let rn = field(raw, 9, 5);
    let rd = field(raw, 4, 0);
    match bitmask_spec(sf, bit_at(raw, 22), field(raw, 15, 10), field(raw, 21, 16)) {
        None => undefined(vaddr, raw),
        Some(imm) => if opc == 3 && rd == 31 {
            Instruction {
                op_count: 2,
                op0_kind: OpKind::Register,
                op0_reg: Register::gpr_at(sf, rn, false),
                op1_kind: OpKind::Immediate,
                op1_imm: imm,
                ..Instruction::meta(vaddr, raw, Code::Ands_imm, Mnemonic::Tst)
            }
        } else {
            let code = if opc == 0 {
                Code::And_imm
            } else if opc == 1 {
                Code::Orr_imm
            } else if opc == 2 {
                Code::Eor_imm
            } else {
                Code::Ands_imm
            };
            let mnemonic = if opc == 0 {
                Mnemonic::And
            } else if opc == 1 {
                Mnemonic::Orr
            } else if opc == 2 {
                Mnemonic::Eor
            } else {
                Mnemonic::Ands
            };
            Instruction {
                op_count: 3,
                op0_kind: OpKind::Register,
                op0_reg: Register::gpr_at(sf, rd, true),
                op1_kind: OpKind::Register,
                op1_reg: Register::gpr_at(sf, rn, false),
                op2_kind: OpKind::Immediate,
                op2_imm: imm,
                ..Instruction::meta(vaddr, raw, code, mnemonic)
            }
        },
    }
}

fn decode_logic_imm(vaddr: u64, raw: u32) -> (r: Instruction)
    ensures
        r == logic_imm_spec(vaddr, raw),
{
    let sf = bit(raw, 31) == 1;
    let opc = bits(raw, 30, 29);
    let n = bit(raw, 22);
    let immr = bits(raw, 21, 16);
    let imms = bits(raw, 15, 10);
    let rn = bits(raw, 9, 5);
    let rd = bits(raw, 4, 0);
    let imm = match decode_bitmask(sf, n, imms, immr) {
        Some(imm) => imm,
        None => {
            return undef(vaddr, raw);
        },
    };
    if opc == 0b11 && rd == 31 {
        let mut i = Instruction::with_meta(vaddr, raw, Code::Ands_imm, Mnemonic::Tst);
        i.op_count = 2;
        i.op0_kind = OpKind::Register;
        i.op0_reg = Register::gpr(sf, rn, false);
        i.op1_kind = OpKind::Immediate;
        i.op1_imm = imm;
        return i;
    }
    let (code, mnemonic) = if opc == 0 {
        (Code::And_imm, Mnemonic::And)
    } else if opc == 1 {
        (Code::Orr_imm, Mnemonic::Orr)
    } else if opc == 2 {
        (Code::Eor_imm, Mnemonic::Eor)
    } else {
        (Code::Ands_imm, Mnemonic::Ands)
    };
    let mut i = Instruction::with_meta(vaddr, raw, code, mnemonic);
    i.op_count = 3;
    i.op0_kind = OpKind::Register;
    i.op0_reg = Register::gpr(sf, rd, true);
    i.op1_kind = OpKind::Register;
    i.op1_reg = Register::gpr(sf, rn, false);
    i.op2_kind = OpKind::Immediate;
    i.op2_imm = imm;
    i
}

/// MOVN/MOVZ/MOVK. MOVZ and MOVN are shown as MOV with the value they produce
/// (`imm16 << 16*hw`, or its complement within the register width for MOVN); MOVK keeps
/// `imm16` and an LSL by `16*hw` when `hw` is not zero. `opc = 01` and, for 32-bit
/// registers, `hw > 1` are undefined.
pub open spec fn mov_wide_spec(vaddr: u64, raw: u32) -> Instruction {
    let sf = bit_at(raw, 31) == 1;
    let opc = field(raw, 30, 29);
    let hw = field(raw, 22, 21);
    let imm16 = field(raw, 20, 5);
    let rd = field(raw, 4, 0);
    let full = (imm16 as u64) << ((hw * 16) as u64);
    if (!sf && hw > 1) || opc == 1 {
        undefined(vaddr, raw)
    } else if opc == 3 {
        Instruction {
            op_count: 2,
            op0_kind: OpKind::Register,
            op0_reg: Register::gpr_at(sf, rd, false),
            op1_kind: OpKind::Immediate,
            op1_imm: imm16 as u64,
            shift_kind: if hw != 0 { ShiftKind::Lsl } else { ShiftKind::Absent },
            shift_amount: if hw != 0 { (hw * 16) as u8 } else { 0 },
            ..Instruction::meta(vaddr, raw, Code::Movk, Mnemonic::Movk)
        }
    } else {
        Instruction {
            op_count: 2,
            op0_kind: OpKind::Register,
            op0_reg: Register::gpr_at(sf, rd, false),
            op1_kind: OpKind::Immediate,
            op1_imm: if opc == 0 {
                !full & (if sf { u64::MAX } else { 0xFFFF_FFFFu64 })
            } else {
                full
            },
            ..Instruction::meta(
                vaddr,
                raw,
                if opc == 0 { Code::Movn } else { Code::Movz },
                Mnemonic::Mov,
            )
        }
    }
}

fn decode_mov_wide(vaddr: u64, raw: u32) -> (r: Instruction)
    ensures
        r == mov_wide_spec(vaddr, raw),
{
    let sf = bit(raw, 31) == 1;
    let opc = bits(raw, 30, 29);
    let hw = bits(raw, 22, 21);
    let imm16 = bits(raw, 20, 5);
    let rd = bits(raw, 4, 0);
    assert((1u32 << 2u32) == 4) by (bit_vector);
    if !sf && hw > 1 {
        return undef(vaddr, raw);
    }
    let code = if opc == 0 {
        Code::Movn
    } else if opc == 2 {
        Code::Movz
    } else if opc == 3 {
        Code::Movk
    } else {
        return undef(vaddr, raw);
    };
    // Capstone/ARM prefer the MOV alias for MOVZ/MOVN.
    let full_imm = (imm16 as u64) << (hw * 16);
    let mut i = Instruction::with_meta(
        vaddr,
        raw,
        code,
        if opc == 3 { Mnemonic::Movk } else { Mnemonic::Mov },
    );
    i.op_count = 2;
    i.op0_kind = OpKind::Register;
    i.op0_reg = Register::gpr(sf, rd, false);
    i.op1_kind = OpKind::Immediate;
    if opc == 0 {
        let mask = if sf { u64::MAX } else { 0xFFFF_FFFF };
        i.op1_imm = (!full_imm) & mask;
    } else if opc == 2 {
        i.op1_imm = full_imm;
    } else {
        i.op1_imm = imm16 as u64;
        if hw != 0 {
            i.shift_kind = ShiftKind::Lsl;
            i.shift_amount = (hw * 16) as u8;
        }
    }
    i
}

/// SBFM/BFM/UBFM with the LSL/LSR/ASR aliases (shift amount as the third operand);
/// `opc = 11` is undefined. The LSL amount is `(width - immr) mod width`.
pub open spec fn bitfield_spec(vaddr: u64, raw: u32) -> Instruction {
    let sf = bit_at(raw, 31) == 1;
    let opc = field(raw, 30, 29);
    let immr = field(raw, 21, 16);
    let imms = field(raw, 15, 10);
    let rn = field(raw, 9, 5);
    let rd = field(raw, 4, 0);
    let width: u32 = if sf { 64 } else { 32 };
    let mnemonic = if opc == 2 && imms != width - 1 && immr == imms + 1 {
        Mnemonic::Lsl
    } else if opc == 2 && imms == width - 1 {
        Mnemonic::Lsr
    } else if opc == 0 && imms == width - 1 {
        Mnemonic::Asr
    } else if opc == 0 {
        Mnemonic::Sbfm
    } else if opc == 1 {
        Mnemonic::Bfm
    } else {
        Mnemonic::Ubfm
    };
    let code = if opc == 0 {
        Code::Sbfm
    } else if opc == 1 {
        Code::Bfm
    } else {
        Code::Ubfm
    };
    let base = Instruction {
        op0_kind: OpKind::Register,
        op0_reg: Register::gpr_at(sf, rd, false),
        op1_kind: OpKind::Register,
        op1_reg: Register::gpr_at(sf, rn, false),
        op2_kind: OpKind::Immediate,
        ..Instruction::meta(vaddr, raw, code, mnemonic)
    };
    if opc == 3 {
        undefined(vaddr, raw)
    } else if mnemonic == Mnemonic::Lsl {
        Instruction {
            op_count: 3,
            op2_imm: ((width as int - immr as int) % (width as int)) as u64,
            ..base
        }
    } else if mnemonic == Mnemonic::Lsr || mnemonic == Mnemonic::Asr {
        Instruction { op_count: 3, op2_imm: immr as u64, ..base }
    } else {
        Instruction {
            op_count: 4,
            op2_imm: immr as u64,
            op3_kind: OpKind::Immediate,
            op3_imm: imms as u64,
            ..base
        }
    }
}

fn decode_bitfield(vaddr: u64, raw: u32) -> (r: Instruction)
    ensures
        r == bitfield_spec(vaddr, raw),
{
    let sf = bit(raw, 31) == 1;
    let opc = bits(raw, 30, 29);
    let immr = bits(raw, 21, 16);
    let imms = bits(raw, 15, 10);
    let rn = bits(raw, 9, 5);
    let rd = bits(raw, 4, 0);
    assert((1u32 << 6u32) == 64) by (bit_vector);
    let width: u32 = if sf { 64 } else { 32 };

    let (code, base) = if opc == 0 {
        (Code::Sbfm, Mnemonic::Sbfm)
    } else if opc == 1 {
        (Code::Bfm, Mnemonic::Bfm)
    } else if opc == 2 {
        (Code::Ubfm, Mnemonic::Ubfm)
    } else {
        return undef(vaddr, raw);
    };

    let mnemonic = if base == Mnemonic::Ubfm && imms != width - 1 && immr == imms + 1 {
        Mnemonic::Lsl
    } else if base == Mnemonic::Ubfm && imms == width - 1 {
        Mnemonic::Lsr
    } else if base == Mnemonic::Sbfm && imms == width - 1 {
        Mnemonic::Asr
    } else {
        base
    };

    let mut i = Instruction::with_meta(vaddr, raw, code, mnemonic);
    i.op0_kind = OpKind::Register;
    i.op0_reg = Register::gpr(sf, rd, false);
    i.op1_kind = OpKind::Register;
    i.op1_reg = Register::gpr(sf, rn, false);
    if mnemonic == Mnemonic::Lsl || mnemonic == Mnemonic::Lsr || mnemonic == Mnemonic::Asr {
        i.op_count = 3;
        i.op2_kind = OpKind::Immediate;
        i.op2_imm = if mnemonic == Mnemonic::Lsl {
            // immr < 64 may exceed a 32-bit width: the difference wraps, as in release
            // builds, and the remainder is the same as that of the exact difference.
            (width.wrapping_sub(immr) % width) as u64
        } else {
            immr as u64
        };
    } else {
        i.op_count = 4;
        i.op2_kind = OpKind::Immediate;
        i.op2_imm = immr as u64;
        i.op3_kind = OpKind::Immediate;
        i.op3_imm = imms as u64;
    }
    i
}

/// EXTR, and the ROR (immediate) alias when both source registers are the same.
pub open spec fn extract_spec(vaddr: u64, raw: u32) -> Instruction {
    let sf = bit_at(raw, 31) == 1;
    let rm = field(raw, 20, 16);
    let imms = field(raw, 15, 10);
    let rn = field(raw, 9, 5);
    let rd = field(raw, 4, 0);
    let base = Instruction {
        op0_kind: OpKind::Register,
        op0_reg: Register::gpr_at(sf, rd, false),
        op1_kind: OpKind::Register,
        op1_reg: Register::gpr_at(sf, rn, false),
        ..Instruction::meta(
            vaddr,
            raw,
            Code::Extr,
            if rn == rm { Mnemonic::Ror } else { Mnemonic::Extr },
        )
    };
    if rn == rm {
        Instruction { op_count: 3, op2_kind: OpKind::Immediate, op2_imm: imms as u64, ..base }
    } else {
        Instruction {
            op_count: 4,
            op2_kind: OpKind::Register,
            op2_reg: Register::gpr_at(sf, rm, false),
            op3_kind: OpKind::Immediate,
            op3_imm: imms as u64,
            ..base
        }
    }
}

fn decode_extract(vaddr: u64, raw: u32) -> (r: Instruction)
    ensures
        r == extract_spec(vaddr, raw),
{
    let sf = bit(raw, 31) == 1;
    let rm = bits(raw, 20, 16);
    let imms = bits(raw, 15, 10);
    let rn = bits(raw, 9, 5);
    let rd = bits(raw, 4, 0);
    let mnemonic = if rn == rm { Mnemonic::Ror } else { Mnemonic::Extr };
    let mut i = Instruction::with_meta(vaddr, raw, Code::Extr, mnemonic);
    i.op0_kind = OpKind::Register;
    i.op0_reg = Register::gpr(sf, rd, false);
    i.op1_kind = OpKind::Register;
    i.op1_reg = Register::gpr(sf, rn, false);
    if rn == rm {
        i.op_count = 3;
        i.op2_kind = OpKind::Immediate;
        i.op2_imm = imms as u64;
    } else {
        i.op_count = 4;
        i.op2_kind = OpKind::Register;
        i.op2_reg = Register::gpr(sf, rm, false);
        i.op3_kind = OpKind::Immediate;
        i.op3_imm = imms as u64;
    }
    i
}

} // verus!
