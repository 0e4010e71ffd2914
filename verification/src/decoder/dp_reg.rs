//! Data processing with register operands: logical and add/subtract (shifted and
//! extended register), add/subtract with carry, conditional compare and select, and
//! the one-, two- and three-source groups.

use super::{decoded_ok, lemma_base_facts, undef, undefined};
use crate::enums::{Code, Condition, ExtendKind, OpKind, Register, ShiftKind};
use crate::helpers::{bit, bit_at, bits, bits64, field, field64};
use crate::instruction::Instruction;
use crate::mnemonic::Mnemonic;
use vstd::prelude::*;

verus! {

/// The cases of `dp_reg_spec`, visible to every module.
pub open spec fn dp_reg_cases(vaddr: u64, raw: u32) -> Instruction {
    if field(raw, 28, 24) == 0b01010 {
        logic_shifted_spec(vaddr, raw)
    } else if field(raw, 28, 24) == 0b01011 && bit_at(raw, 21) == 0 {
        add_sub_shifted_spec(vaddr, raw)
    } else if field(raw, 28, 24) == 0b01011 {
        add_sub_extended_spec(vaddr, raw)
    } else if field(raw, 28, 21) == 0b11010000 {
        adc_sbc_spec(vaddr, raw)
    } else if field(raw, 28, 21) == 0b11010010 {
        cond_compare_spec(vaddr, raw)
    } else if field(raw, 28, 21) == 0b11010100 {
        csel_spec(vaddr, raw)
    } else if field(raw, 28, 21) == 0b11010110 && bit_at(raw, 30) == 1 {
        dp_1src_spec(vaddr, raw)
    } else if field(raw, 28, 21) == 0b11010110 {
        dp_2src_spec(vaddr, raw)
    } else if field(raw, 28, 24) == 0b11011 {
        dp_3src_spec(vaddr, raw)
    } else {
        undefined(vaddr, raw)
    }
}

/// Decoding of the data-processing-register group.
#[verifier::opaque]
pub open spec fn dp_reg_spec(vaddr: u64, raw: u32) -> Instruction {
    dp_reg_cases(vaddr, raw)
}

/// Unfolds `dp_reg_spec` into its cases, for use outside this module.
pub proof fn lemma_dp_reg_unfold(vaddr: u64, raw: u32)
    ensures
        dp_reg_spec(vaddr, raw) == dp_reg_cases(vaddr, raw),
{
    reveal(dp_reg_spec);
}

proof fn lemma_records_logic_shifted_spec(vaddr: u64, raw: u32)
    ensures
        logic_shifted_spec(vaddr, raw).records(vaddr, raw),
{
}

proof fn lemma_same_form_logic_shifted_spec(v1: u64, v2: u64, raw: u32)
    ensures
        logic_shifted_spec(v1, raw).same_form(logic_shifted_spec(v2, raw)),
{
}

proof fn lemma_records_add_sub_shifted_spec(vaddr: u64, raw: u32)
    ensures
        add_sub_shifted_spec(vaddr, raw).records(vaddr, raw),
{
}

proof fn lemma_same_form_add_sub_shifted_spec(v1: u64, v2: u64, raw: u32)
    ensures
        add_sub_shifted_spec(v1, raw).same_form(add_sub_shifted_spec(v2, raw)),
{
}

proof fn lemma_records_add_sub_extended_spec(vaddr: u64, raw: u32)
    ensures
        add_sub_extended_spec(vaddr, raw).records(vaddr, raw),
{
}

proof fn lemma_same_form_add_sub_extended_spec(v1: u64, v2: u64, raw: u32)
    ensures
        add_sub_extended_spec(v1, raw).same_form(add_sub_extended_spec(v2, raw)),
{
}

proof fn lemma_records_adc_sbc_spec(vaddr: u64, raw: u32)
    ensures
        adc_sbc_spec(vaddr, raw).records(vaddr, raw),
{
}

proof fn lemma_same_form_adc_sbc_spec(v1: u64, v2: u64, raw: u32)
    ensures
        adc_sbc_spec(v1, raw).same_form(adc_sbc_spec(v2, raw)),
{
}

proof fn lemma_records_cond_compare_spec(vaddr: u64, raw: u32)
    ensures
        cond_compare_spec(vaddr, raw).records(vaddr, raw),
{
}

proof fn lemma_same_form_cond_compare_spec(v1: u64, v2: u64, raw: u32)
    ensures
        cond_compare_spec(v1, raw).same_form(cond_compare_spec(v2, raw)),
{
}

proof fn lemma_records_csel_spec(vaddr: u64, raw: u32)
    ensures
        csel_spec(vaddr, raw).records(vaddr, raw),
{
}

proof fn lemma_same_form_csel_spec(v1: u64, v2: u64, raw: u32)
    ensures
        csel_spec(v1, raw).same_form(csel_spec(v2, raw)),
{
}

proof fn lemma_records_dp_1src_spec(vaddr: u64, raw: u32)
    ensures
        dp_1src_spec(vaddr, raw).records(vaddr, raw),
{
}

proof fn lemma_same_form_dp_1src_spec(v1: u64, v2: u64, raw: u32)
    ensures
        dp_1src_spec(v1, raw).same_form(dp_1src_spec(v2, raw)),
{
}

proof fn lemma_records_dp_2src_spec(vaddr: u64, raw: u32)
    ensures
        dp_2src_spec(vaddr, raw).records(vaddr, raw),
{
}

proof fn lemma_same_form_dp_2src_spec(v1: u64, v2: u64, raw: u32)
    ensures
        dp_2src_spec(v1, raw).same_form(dp_2src_spec(v2, raw)),
{
}

proof fn lemma_records_dp_3src_spec(vaddr: u64, raw: u32)
    ensures
        dp_3src_spec(vaddr, raw).records(vaddr, raw),
{
}

proof fn lemma_same_form_dp_3src_spec(v1: u64, v2: u64, raw: u32)
    ensures
        dp_3src_spec(v1, raw).same_form(dp_3src_spec(v2, raw)),
{
}

/// The form a word of the group decodes to does not depend on its address.
pub(super) proof fn lemma_same_form(v1: u64, v2: u64, raw: u32)
    ensures
        dp_reg_spec(v1, raw).same_form(dp_reg_spec(v2, raw)),
{
    reveal(dp_reg_spec);
    lemma_same_form_logic_shifted_spec(v1, v2, raw);
    lemma_same_form_add_sub_shifted_spec(v1, v2, raw);
    lemma_same_form_add_sub_extended_spec(v1, v2, raw);
    lemma_same_form_adc_sbc_spec(v1, v2, raw);
    lemma_same_form_cond_compare_spec(v1, v2, raw);
    lemma_same_form_csel_spec(v1, v2, raw);
    lemma_same_form_dp_1src_spec(v1, v2, raw);
    lemma_same_form_dp_2src_spec(v1, v2, raw);
    lemma_same_form_dp_3src_spec(v1, v2, raw);
}

/// Every word of the group decodes to a record of itself.
pub(super) proof fn lemma_records(vaddr: u64, raw: u32)
    ensures
        dp_reg_spec(vaddr, raw).records(vaddr, raw),
{
    reveal(dp_reg_spec);
    lemma_records_logic_shifted_spec(vaddr, raw);
    lemma_records_add_sub_shifted_spec(vaddr, raw);
    lemma_records_add_sub_extended_spec(vaddr, raw);
    lemma_records_adc_sbc_spec(vaddr, raw);
    lemma_records_cond_compare_spec(vaddr, raw);
    lemma_records_csel_spec(vaddr, raw);
    lemma_records_dp_1src_spec(vaddr, raw);
    lemma_records_dp_2src_spec(vaddr, raw);
    lemma_records_dp_3src_spec(vaddr, raw);
}

proof fn lemma_ok_dp_reg_cases(vaddr: u64, raw: u32)
    ensures
        decoded_ok(dp_reg_cases(vaddr, raw), vaddr, raw),
{
    lemma_base_facts(raw);
    lemma_ok_logic_shifted_spec(vaddr, raw);
    lemma_ok_add_sub_shifted_spec(vaddr, raw);
    lemma_ok_add_sub_extended_spec(vaddr, raw);
    lemma_ok_adc_sbc_spec(vaddr, raw);
    lemma_ok_cond_compare_spec(vaddr, raw);
    lemma_ok_csel_spec(vaddr, raw);
    lemma_ok_dp_2src_spec(vaddr, raw);
    lemma_ok_dp_1src_spec(vaddr, raw);
    lemma_ok_dp_3src_spec(vaddr, raw);
}

/// Every word of the group decodes soundly.
pub(super) proof fn lemma_ok_dp_reg_spec(vaddr: u64, raw: u32)
    ensures
        decoded_ok(dp_reg_spec(vaddr, raw), vaddr, raw),
{
    reveal(dp_reg_spec);
    lemma_base_facts(raw);
    lemma_ok_dp_reg_cases(vaddr, raw);
}

proof fn lemma_ok_logic_shifted_spec(vaddr: u64, raw: u32)
    ensures
        decoded_ok(logic_shifted_spec(vaddr, raw), vaddr, raw),
{
    lemma_base_facts(raw);
}

proof fn lemma_ok_add_sub_shifted_spec(vaddr: u64, raw: u32)
    ensures
        decoded_ok(add_sub_shifted_spec(vaddr, raw), vaddr, raw),
{
    lemma_base_facts(raw);
    lemma_ok_sub_alias_spec(vaddr, raw);
}

proof fn lemma_ok_sub_alias_spec(vaddr: u64, raw: u32)
    ensures
        decoded_ok(sub_alias_spec(vaddr, raw), vaddr, raw),
{
    lemma_base_facts(raw);
}

proof fn lemma_ok_add_sub_extended_spec(vaddr: u64, raw: u32)
    ensures
        decoded_ok(add_sub_extended_spec(vaddr, raw), vaddr, raw),
{
    lemma_base_facts(raw);
}

proof fn lemma_ok_adc_sbc_spec(vaddr: u64, raw: u32)
    ensures
        decoded_ok(adc_sbc_spec(vaddr, raw), vaddr, raw),
{
    lemma_base_facts(raw);
}

proof fn lemma_ok_cond_compare_spec(vaddr: u64, raw: u32)
    ensures
        decoded_ok(cond_compare_spec(vaddr, raw), vaddr, raw),
{
    lemma_base_facts(raw);
}

proof fn lemma_ok_csel_spec(vaddr: u64, raw: u32)
    ensures
        decoded_ok(csel_spec(vaddr, raw), vaddr, raw),
{
    lemma_base_facts(raw);
}

proof fn lemma_ok_dp_2src_spec(vaddr: u64, raw: u32)
    ensures
        decoded_ok(dp_2src_spec(vaddr, raw), vaddr, raw),
{
    lemma_base_facts(raw);
}

proof fn lemma_ok_dp_1src_spec(vaddr: u64, raw: u32)
    ensures
        decoded_ok(dp_1src_spec(vaddr, raw), vaddr, raw),
{
    lemma_base_facts(raw);
}

proof fn lemma_ok_dp_3src_spec(vaddr: u64, raw: u32)
    ensures
        decoded_ok(dp_3src_spec(vaddr, raw), vaddr, raw),
{
    lemma_base_facts(raw);
}

pub(super) fn decode(vaddr: u64, raw: u32) -> (r: Instruction)
    ensures
        r == dp_reg_spec(vaddr, raw),
{
    proof {
        reveal(dp_reg_spec);
    }
    if bits(raw, 28, 24) == 0b01010 {
        return decode_logic_shifted(vaddr, raw);
    }
    if bits(raw, 28, 24) == 0b01011 && bit(raw, 21) == 0 {
        return decode_add_sub_shifted(vaddr, raw);
    }
    if bits(raw, 28, 24) == 0b01011 && bit(raw, 21) == 1 {
        return decode_add_sub_extended(vaddr, raw);
    }
    // ADC / SBC
    if bits(raw, 28, 21) == 0b11010000 {
        return decode_adc_sbc(vaddr, raw);
    }
    if bits(raw, 28, 21) == 0b11010010 {
        return decode_cond_compare(vaddr, raw);
    }
    if bits(raw, 28, 21) == 0b11010100 {
        return decode_csel(vaddr, raw);
    }
    // Data-processing 1-source: bit30=1, bits[28:21]=11010110
    // Data-processing 2-source: bit30=0, bits[28:21]=11010110
    if bits(raw, 28, 21) == 0b11010110 {
        if bit(raw, 30) == 1 {
            return decode_dp_1src(vaddr, raw);
        }
        return decode_dp_2src(vaddr, raw);
    }
    if bits(raw, 28, 24) == 0b11011 {
        return decode_dp_3src(vaddr, raw);
    }
    undef(vaddr, raw)
}

/// The shift of a shifted-register operand: type from bits [23:22], amount `imm6`
/// (bits [15:10]); the type is not shown when the amount is 0.
pub open spec fn with_shift(i: Instruction, raw: u32) -> Instruction {
    let imm6 = field(raw, 15, 10);
    Instruction {
        shift_kind: if imm6 != 0 { ShiftKind::decode_spec(field(raw, 23, 22)) } else { ShiftKind::Absent },
        shift_amount: imm6 as u8,
        ..i
    }
}

/// Two register operands `op0`, `op1`.
pub open spec fn two_regs(i: Instruction, r0: Register, r1: Register) -> Instruction {
    Instruction {
        op_count: 2,
        op0_kind: OpKind::Register,
        op0_reg: r0,
        op1_kind: OpKind::Register,
        op1_reg: r1,
        ..i
    }
}

/// Three register operands `op0`, `op1`, `op2`.
pub open spec fn three_regs(i: Instruction, r0: Register, r1: Register, r2: Register) -> Instruction {
    Instruction {
        op_count: 3,
        op0_kind: OpKind::Register,
        op0_reg: r0,
        op1_kind: OpKind::Register,
        op1_reg: r1,
        op2_kind: OpKind::Register,
        op2_reg: r2,
        ..i
    }
}

/// Code and mnemonic of a logical (shifted register) instruction by `opc` and `N`.
pub open spec fn logic_shifted_op(opc: u32, n: u32) -> (Code, Mnemonic) {
    if opc == 0 {
        if n == 0 { (Code::And_shift, Mnemonic::And) } else { (Code::Bic_shift, Mnemonic::Bic) }
    } else if opc == 1 {
        if n == 0 { (Code::Orr_shift, Mnemonic::Orr) } else { (Code::Orn_shift, Mnemonic::Orn) }
    } else if opc == 2 {
        if n == 0 { (Code::Eor_shift, Mnemonic::Eor) } else { (Code::Eon_shift, Mnemonic::Eon) }
    } else {
        if n == 0 { (Code::Ands_shift, Mnemonic::Ands) } else { (Code::Bics_shift, Mnemonic::Bics) }
    }
}

/// AND/BIC/ORR/ORN/EOR/EON/ANDS/BICS (shifted register) with the MOV (ORR from ZR,
/// unshifted), MVN (ORN from ZR) and TST (ANDS into ZR) aliases.
pub open spec fn logic_shifted_spec(vaddr: u64, raw: u32) -> Instruction {
    let sf = bit_at(raw, 31) == 1;
    let opc = field(raw, 30, 29);
    let n = bit_at(raw, 21);
    let rm = field(raw, 20, 16);
    let rn = field(raw, 9, 5);
    let rd = field(raw, 4, 0);
    if opc == 1 && n == 0 && rn == 31 && field(raw, 23, 22) == 0 && field(raw, 15, 10) == 0 {
        two_regs(
            Instruction::meta(vaddr, raw, Code::Orr_shift, Mnemonic::Mov),
            Register::gpr_at(sf, rd, false),
            Register::gpr_at(sf, rm, false),
        )
    } else if opc == 1 && n == 1 && rn == 31 {
        with_shift(
            two_regs(
                Instruction::meta(vaddr, raw, Code::Orn_shift, Mnemonic::Mvn),
                Register::gpr_at(sf, rd, false),
                Register::gpr_at(sf, rm, false),
            ),
            raw,
        )
    } else if opc == 3 && n == 0 && rd == 31 {
        with_shift(
            two_regs(
                Instruction::meta(vaddr, raw, Code::Ands_shift, Mnemonic::Tst),
                Register::gpr_at(sf, rn, false),
                Register::gpr_at(sf, rm, false),
            ),
            raw,
        )
    } else {
        let (code, mnemonic) = logic_shifted_op(opc, n);
        with_shift(
            three_regs(
                Instruction::meta(vaddr, raw, code, mnemonic),
                Register::gpr_at(sf, rd, false),
                Register::gpr_at(sf, rn, false),
                Register::gpr_at(sf, rm, false),
            ),
            raw,
        )
    }
}

fn decode_logic_shifted(vaddr: u64, raw: u32) -> (r: Instruction)
    ensures
        r == logic_shifted_spec(vaddr, raw),
{
    let sf = bit(raw, 31) == 1;
    let opc = bits(raw, 30, 29);
    let shift = ShiftKind::from_u32(bits(raw, 23, 22));
    let n = bit(raw, 21);
    let rm = bits(raw, 20, 16);
    let imm6 = bits(raw, 15, 10);
    let rn = bits(raw, 9, 5);
    let rd = bits(raw, 4, 0);
    proof {
        let t = field(raw, 23, 22);
        assert(t & 3 == t) by (bit_vector)
            requires
                t <= 3,
        ;
    }
    if opc == 0b01 && n == 0 && rn == 31 && shift == ShiftKind::Lsl && imm6 == 0 {
        let mut i = Instruction::with_meta(vaddr, raw, Code::Orr_shift, Mnemonic::Mov);
        i.op_count = 2;
        i.op0_kind = OpKind::Register;
        i.op0_reg = Register::gpr(sf, rd, false);
        i.op1_kind = OpKind::Register;
        i.op1_reg = Register::gpr(sf, rm, false);
        return i;
    }
    if opc == 0b01 && n == 1 && rn == 31 {
        let mut i = Instruction::with_meta(vaddr, raw, Code::Orn_shift, Mnemonic::Mvn);
        i.op_count = 2;
        i.op0_kind = OpKind::Register;
        i.op0_reg = Register::gpr(sf, rd, false);
        i.op1_kind = OpKind::Register;
        i.op1_reg = Register::gpr(sf, rm, false);
        i.shift_kind = if imm6 != 0 { shift } else { ShiftKind::Absent };
        i.shift_amount = imm6 as u8;
        return i;
    }
    if opc == 0b11 && n == 0 && rd == 31 {
        let mut i = Instruction::with_meta(vaddr, raw, Code::Ands_shift, Mnemonic::Tst);
        i.op_count = 2;
        i.op0_kind = OpKind::Register;
        i.op0_reg = Register::gpr(sf, rn, false);
        i.op1_kind = OpKind::Register;
        i.op1_reg = Register::gpr(sf, rm, false);
        i.shift_kind = if imm6 != 0 { shift } else { ShiftKind::Absent };
        i.shift_amount = imm6 as u8;
        return i;
    }
    let (code, mnemonic) = if opc == 0 {
        if n == 0 { (Code::And_shift, Mnemonic::And) } else { (Code::Bic_shift, Mnemonic::Bic) }
    } else if opc == 1 {
        if n == 0 { (Code::Orr_shift, Mnemonic::Orr) } else { (Code::Orn_shift, Mnemonic::Orn) }
    } else if opc == 2 {
        if n == 0 { (Code::Eor_shift, Mnemonic::Eor) } else { (Code::Eon_shift, Mnemonic::Eon) }
    } else {
        if n == 0 { (Code::Ands_shift, Mnemonic::Ands) } else { (Code::Bics_shift, Mnemonic::Bics) }
    };
    let mut i = Instruction::with_meta(vaddr, raw, code, mnemonic);
    i.op_count = 3;
    i.op0_kind = OpKind::Register;
    i.op0_reg = Register::gpr(sf, rd, false);
    i.op1_kind = OpKind::Register;
    i.op1_reg = Register::gpr(sf, rn, false);
    i.op2_kind = OpKind::Register;
    i.op2_reg = Register::gpr(sf, rm, false);
    i.shift_kind = if imm6 != 0 { shift } else { ShiftKind::Absent };
    i.shift_amount = imm6 as u8;
    i
}

/// ADD/ADDS/SUB/SUBS (shifted register) with the CMP (SUBS into ZR), NEG (SUB from ZR)
/// and NEGS (SUBS from ZR, shown unshifted) aliases.
pub open spec fn add_sub_shifted_spec(vaddr: u64, raw: u32) -> Instruction {
    let sf = bit_at(raw, 31) == 1;
    let op = bit_at(raw, 30);
    let s = bit_at(raw, 29);
    let rm = field(raw, 20, 16);
    let rn = field(raw, 9, 5);
    let rd = field(raw, 4, 0);
    if op == 1 && (rd == 31 || rn == 31) {
        sub_alias_spec(vaddr, raw)
    } else {
        let (code, mnemonic) = if op == 0 {
            if s == 0 { (Code::Add_shift, Mnemonic::Add) } else { (Code::Adds_shift, Mnemonic::Adds) }
        } else {
            if s == 0 { (Code::Sub_shift, Mnemonic::Sub) } else { (Code::Subs_shift, Mnemonic::Subs) }
        };
        with_shift(
            three_regs(
                Instruction::meta(vaddr, raw, code, mnemonic),
                Register::gpr_at(sf, rd, false),
                Register::gpr_at(sf, rn, false),
                Register::gpr_at(sf, rm, false),
            ),
            raw,
        )
    }
}

/// The subtract aliases: CMP (SUBS into ZR), else NEG (SUB from ZR) and NEGS (SUBS from
/// ZR, shown unshifted); a SUB into ZR from a register stays SUB.
pub open spec fn sub_alias_spec(vaddr: u64, raw: u32) -> Instruction {
    let sf = bit_at(raw, 31) == 1;
    let s = bit_at(raw, 29);
    let rm = field(raw, 20, 16);
    let rn = field(raw, 9, 5);
    let rd = field(raw, 4, 0);
    if s == 1 && rd == 31 {
        with_shift(
            two_regs(
                Instruction::meta(vaddr, raw, Code::Subs_shift, Mnemonic::Cmp),
                Register::gpr_at(sf, rn, false),
                Register::gpr_at(sf, rm, false),
            ),
            raw,
        )
    } else if s == 0 && rn == 31 {
        with_shift(
            two_regs(
                Instruction::meta(vaddr, raw, Code::Sub_shift, Mnemonic::Neg),
                Register::gpr_at(sf, rd, false),
                Register::gpr_at(sf, rm, false),
            ),
            raw,
        )
    } else if s == 1 && rn == 31 {
        two_regs(
            Instruction::meta(vaddr, raw, Code::Subs_shift, Mnemonic::Negs),
            Register::gpr_at(sf, rd, false),
            Register::gpr_at(sf, rm, false),
        )
    } else {
        with_shift(
            three_regs(
                Instruction::meta(vaddr, raw, Code::Sub_shift, Mnemonic::Sub),
                Register::gpr_at(sf, rd, false),
                Register::gpr_at(sf, rn, false),
                Register::gpr_at(sf, rm, false),
            ),
            raw,
        )
    }
}

fn decode_add_sub_shifted(vaddr: u64, raw: u32) -> (r: Instruction)
    ensures
        r == add_sub_shifted_spec(vaddr, raw),
{
    let sf = bit(raw, 31) == 1;
    let op = bit(raw, 30);
    let s = bit(raw, 29);
    let shift = ShiftKind::from_u32(bits(raw, 23, 22));
    let rm = bits(raw, 20, 16);
    let imm6 = bits(raw, 15, 10);
    let rn = bits(raw, 9, 5);
    let rd = bits(raw, 4, 0);
    if op == 1 && (rd == 31 || rn == 31) {
        return decode_sub_alias(vaddr, raw);
    }
    let (code, mnemonic) = if op == 0 {
        if s == 0 { (Code::Add_shift, Mnemonic::Add) } else { (Code::Adds_shift, Mnemonic::Adds) }
    } else {
        if s == 0 { (Code::Sub_shift, Mnemonic::Sub) } else { (Code::Subs_shift, Mnemonic::Subs) }
    };
    let mut i = Instruction::with_meta(vaddr, raw, code, mnemonic);
    i.op_count = 3;
    i.op0_kind = OpKind::Register;
    i.op0_reg = Register::gpr(sf, rd, false);
    i.op1_kind = OpKind::Register;
    i.op1_reg = Register::gpr(sf, rn, false);
    i.op2_kind = OpKind::Register;
    i.op2_reg = Register::gpr(sf, rm, false);
    i.shift_kind = if imm6 != 0 { shift } else { ShiftKind::Absent };
    i.shift_amount = imm6 as u8;
    i
}

#[verifier::rlimit(30)]
fn decode_sub_alias(vaddr: u64, raw: u32) -> (r: Instruction)
    ensures
        r == sub_alias_spec(vaddr, raw),
{
    let sf = bit(raw, 31) == 1;
    let s = bit(raw, 29);
    let shift = ShiftKind::from_u32(bits(raw, 23, 22));
    let rm = bits(raw, 20, 16);
    let imm6 = bits(raw, 15, 10);
    let rn = bits(raw, 9, 5);
    let rd = bits(raw, 4, 0);
    if s == 1 && rd == 31 {
        let mut i = Instruction::with_meta(vaddr, raw, Code::Subs_shift, Mnemonic::Cmp);
        i.op_count = 2;
        i.op0_kind = OpKind::Register;
        i.op0_reg = Register::gpr(sf, rn, false);
        i.op1_kind = OpKind::Register;
        i.op1_reg = Register::gpr(sf, rm, false);
        i.shift_kind = if imm6 != 0 { shift } else { ShiftKind::Absent };
        i.shift_amount = imm6 as u8;
        return i;
    }
    if s == 0 && rn == 31 {
        let mut i = Instruction::with_meta(vaddr, raw, Code::Sub_shift, Mnemonic::Neg);
        i.op_count = 2;
        i.op0_kind = OpKind::Register;
        i.op0_reg = Register::gpr(sf, rd, false);
        i.op1_kind = OpKind::Register;
        i.op1_reg = Register::gpr(sf, rm, false);
        i.shift_kind = if imm6 != 0 { shift } else { ShiftKind::Absent };
        i.shift_amount = imm6 as u8;
        return i;
    }
    if s == 1 && rn == 31 {
        let mut i = Instruction::with_meta(vaddr, raw, Code::Subs_shift, Mnemonic::Negs);
        i.op_count = 2;
        i.op0_kind = OpKind::Register;
        i.op0_reg = Register::gpr(sf, rd, false);
        i.op1_kind = OpKind::Register;
        i.op1_reg = Register::gpr(sf, rm, false);
        return i;
    }
    let mut i = Instruction::with_meta(vaddr, raw, Code::Sub_shift, Mnemonic::Sub);
    i.op_count = 3;
    i.op0_kind = OpKind::Register;
    i.op0_reg = Register::gpr(sf, rd, false);
    i.op1_kind = OpKind::Register;
    i.op1_reg = Register::gpr(sf, rn, false);
    i.op2_kind = OpKind::Register;
    i.op2_reg = Register::gpr(sf, rm, false);
    i.shift_kind = if imm6 != 0 { shift } else { ShiftKind::Absent };
    i.shift_amount = imm6 as u8;
    i
}

/// The extension of an extended-register operand: kind from `option` (bits [15:13]),
/// amount `imm3` (bits [12:10]).
pub open spec fn with_extend(i: Instruction, raw: u32) -> Instruction {
    Instruction {
        extend_kind: ExtendKind::decode_spec(field(raw, 15, 13)),
        extend_amount: field(raw, 12, 10) as u8,
        ..i
    }
}

/// ADD/ADDS/SUB/SUBS (extended register) with the CMP/CMN aliases (flag-setting into
/// ZR). The index register is 64-bit for a 64-bit operation or a UXTX/SXTX extension.
pub open spec fn add_sub_extended_spec(vaddr: u64, raw: u32) -> Instruction {
    let sf = bit_at(raw, 31) == 1;
    let op = bit_at(raw, 30);
    let s = bit_at(raw, 29);
    let rm = field(raw, 20, 16);
    let option = field(raw, 15, 13);
    let rn = field(raw, 9, 5);
    let rd = field(raw, 4, 0);
    let wide_rm = sf || option == 3 || option == 7;
    if s == 1 && rd == 31 {
        with_extend(
            two_regs(
                Instruction::meta(
                    vaddr,
                    raw,
                    if op == 1 { Code::Subs_ext } else { Code::Adds_ext },
                    if op == 1 { Mnemonic::Cmp } else { Mnemonic::Cmn },
                ),
                Register::gpr_at(sf, rn, true),
                Register::gpr_at(wide_rm, rm, false),
            ),
            raw,
        )
    } else {
        let (code, mnemonic) = if op == 0 {
            if s == 0 { (Code::Add_ext, Mnemonic::Add) } else { (Code::Adds_ext, Mnemonic::Adds) }
        } else {
            if s == 0 { (Code::Sub_ext, Mnemonic::Sub) } else { (Code::Subs_ext, Mnemonic::Subs) }
        };
        with_extend(
            three_regs(
                Instruction::meta(vaddr, raw, code, mnemonic),
                Register::gpr_at(sf, rd, true),
                Register::gpr_at(sf, rn, true),
                Register::gpr_at(wide_rm, rm, false),
            ),
            raw,
        )
    }
}

fn decode_add_sub_extended(vaddr: u64, raw: u32) -> (r: Instruction)
    ensures
        r == add_sub_extended_spec(vaddr, raw),
{
    let sf = bit(raw, 31) == 1;
    let op = bit(raw, 30);
    let s = bit(raw, 29);
    let rm = bits(raw, 20, 16);
    let option = bits(raw, 15, 13);
    let imm3 = bits(raw, 12, 10);
    let rn = bits(raw, 9, 5);
    let rd = bits(raw, 4, 0);

    // CMP / CMN (extended register) aliases
    if s == 1 && rd == 31 {
        let mut i = Instruction::with_meta(
            vaddr,
            raw,
            if op == 1 { Code::Subs_ext } else { Code::Adds_ext },
            if op == 1 { Mnemonic::Cmp } else { Mnemonic::Cmn },
        );
        i.op_count = 2;
        i.op0_kind = OpKind::Register;
        i.op0_reg = Register::gpr(sf, rn, true);
        i.op1_kind = OpKind::Register;
        i.op1_reg = Register::gpr(option == 3 || option == 7 || sf, rm, false);
        i.extend_kind = ExtendKind::from_u32(option);
        i.extend_amount = imm3 as u8;
        return i;
    }

    let (code, mnemonic) = if op == 0 {
        if s == 0 { (Code::Add_ext, Mnemonic::Add) } else { (Code::Adds_ext, Mnemonic::Adds) }
    } else {
        if s == 0 { (Code::Sub_ext, Mnemonic::Sub) } else { (Code::Subs_ext, Mnemonic::Subs) }
    };
    let mut i = Instruction::with_meta(vaddr, raw, code, mnemonic);
    i.op_count = 3;
    i.op0_kind = OpKind::Register;
    i.op0_reg = Register::gpr(sf, rd, true);
    i.op1_kind = OpKind::Register;
    i.op1_reg = Register::gpr(sf, rn, true);
    i.op2_kind = OpKind::Register;
    i.op2_reg = Register::gpr(sf || option == 3 || option == 7, rm, false);
    i.extend_kind = ExtendKind::from_u32(option);
    i.extend_amount = imm3 as u8;
    i
}

/// ADC/ADCS/SBC/SBCS.
pub open spec fn adc_sbc_spec(vaddr: u64, raw: u32) -> Instruction {
    let sf = bit_at(raw, 31) == 1;
    let op = bit_at(raw, 30);
    let s = bit_at(raw, 29);
    let (code, mnemonic) = if op == 0 {
        if s == 0 { (Code::Adc, Mnemonic::Adc) } else { (Code::Adcs, Mnemonic::Adcs) }
    } else {
        if s == 0 { (Code::Sbc, Mnemonic::Sbc) } else { (Code::Sbcs, Mnemonic::Sbcs) }
    };
    three_regs(
        Instruction::meta(vaddr, raw, code, mnemonic),
        Register::gpr_at(sf, field(raw, 4, 0), false),
        Register::gpr_at(sf, field(raw, 9, 5), false),
        Register::gpr_at(sf, field(raw, 20, 16), false),
    )
}

fn decode_adc_sbc(vaddr: u64, raw: u32) -> (r: Instruction)
    ensures
        r == adc_sbc_spec(vaddr, raw),
{
    let sf = bit(raw, 31) == 1;
    let op = bit(raw, 30);
    let s = bit(raw, 29);
    let rm = bits(raw, 20, 16);
    let rn = bits(raw, 9, 5);
    let rd = bits(raw, 4, 0);
    let (code, mnemonic) = if op == 0 {
        if s == 0 { (Code::Adc, Mnemonic::Adc) } else { (Code::Adcs, Mnemonic::Adcs) }
    } else {
        if s == 0 { (Code::Sbc, Mnemonic::Sbc) } else { (Code::Sbcs, Mnemonic::Sbcs) }
    };
    let mut i = Instruction::with_meta(vaddr, raw, code, mnemonic);
    i.op_count = 3;
    i.op0_kind = OpKind::Register;
    i.op0_reg = Register::gpr(sf, rd, false);
    i.op1_kind = OpKind::Register;
    i.op1_reg = Register::gpr(sf, rn, false);
    i.op2_kind = OpKind::Register;
    i.op2_reg = Register::gpr(sf, rm, false);
    i
}

/// CCMP/CCMN (register or immediate): `Rn`, then `Rm` or a 5-bit immediate, then the
/// flag value `nzcv`; the condition comes from bits [15:12].
pub open spec fn cond_compare_spec(vaddr: u64, raw: u32) -> Instruction {
    let sf = bit_at(raw, 31) == 1;
    let compare = bit_at(raw, 30) == 1;
    let is_imm = bit_at(raw, 11) != 0;
    let code = if compare {
        if is_imm { Code::Ccmp_imm } else { Code::Ccmp_reg }
    } else {
        if is_imm { Code::Ccmn_imm } else { Code::Ccmn_reg }
    };
    let base = Instruction {
        op_count: 3,
        op0_kind: OpKind::Register,
        op0_reg: Register::gpr_at(sf, field(raw, 9, 5), false),
        op2_kind: OpKind::Immediate,
        op2_imm: field64(raw, 3, 0),
        condition: Condition::decode_spec(field(raw, 15, 12)),
        ..Instruction::meta(vaddr, raw, code, if compare { Mnemonic::Ccmp } else { Mnemonic::Ccmn })
    };
    if is_imm {
        Instruction { op1_kind: OpKind::Immediate, op1_imm: field64(raw, 20, 16), ..base }
    } else {
        Instruction {
            op1_kind: OpKind::Register,
            op1_reg: Register::gpr_at(sf, field(raw, 20, 16), false),
            ..base
        }
    }
}

fn decode_cond_compare(vaddr: u64, raw: u32) -> (r: Instruction)
    ensures
        r == cond_compare_spec(vaddr, raw),
{
    let sf = bit(raw, 31) == 1;
    let op = bit(raw, 30);  // 0=CCMN 1=CCMP
    let rn = bits(raw, 9, 5);
    let cond = Condition::from_u32(bits(raw, 15, 12));
    let is_imm = bit(raw, 11) != 0;
    let (code, mnemonic) = if op == 1 {
        if is_imm { (Code::Ccmp_imm, Mnemonic::Ccmp) } else { (Code::Ccmp_reg, Mnemonic::Ccmp) }
    } else {
        if is_imm { (Code::Ccmn_imm, Mnemonic::Ccmn) } else { (Code::Ccmn_reg, Mnemonic::Ccmn) }
    };
    let mut i = Instruction::with_meta(vaddr, raw, code, mnemonic);
    i.op_count = 3;
    i.op0_kind = OpKind::Register;
    i.op0_reg = Register::gpr(sf, rn, false);
    if is_imm {
        i.op1_kind = OpKind::Immediate;
        i.op1_imm = bits64(raw, 20, 16);
    } else {
        i.op1_kind = OpKind::Register;
        i.op1_reg = Register::gpr(sf, bits(raw, 20, 16), false);
    }
    i.op2_kind = OpKind::Immediate;
    i.op2_imm = bits64(raw, 3, 0);
    i.condition = cond;
    i
}

/// Code, mnemonic and operand count of a conditional select by `op`, `op2`, `Rn` and
/// `Rm`, with the CSET/CSETM (both sources ZR) and CINC/CINV/CNEG (equal sources)
/// aliases.
pub open spec fn csel_op(op: u32, op2: u32, rn: u32, rm: u32) -> (Code, Mnemonic, u8) {
    if op == 0 && op2 == 1 && rn == 31 && rm == 31 {
        (Code::Csinc, Mnemonic::Cset, 1)
    } else if op == 1 && op2 == 0 && rn == 31 && rm == 31 {
        (Code::Csinv, Mnemonic::Csetm, 1)
    } else if op == 0 && op2 == 1 && rn == rm {
        (Code::Csinc, Mnemonic::Cinc, 2)
    } else if op == 1 && op2 == 0 && rn == rm {
        (Code::Csinv, Mnemonic::Cinv, 2)
    } else if op == 1 && op2 == 1 && rn == rm {
        (Code::Csneg, Mnemonic::Cneg, 2)
    } else if op == 0 && op2 == 0 {
        (Code::Csel, Mnemonic::Csel, 3)
    } else if op == 0 {
        (Code::Csinc, Mnemonic::Csinc, 3)
    } else if op2 == 0 {
        (Code::Csinv, Mnemonic::Csinv, 3)
    } else {
        (Code::Csneg, Mnemonic::Csneg, 3)
    }
}

/// CSEL/CSINC/CSINV/CSNEG and their aliases; the condition comes from bits [15:12].
pub open spec fn csel_spec(vaddr: u64, raw: u32) -> Instruction {
    let sf = bit_at(raw, 31) == 1;
    let rm = field(raw, 20, 16);
    let rn = field(raw, 9, 5);
    let (code, mnemonic, count) = csel_op(bit_at(raw, 30), bit_at(raw, 10), rn, rm);
    let base = Instruction {
        op0_kind: OpKind::Register,
        op0_reg: Register::gpr_at(sf, field(raw, 4, 0), false),
        condition: Condition::decode_spec(field(raw, 15, 12)),
        ..Instruction::meta(vaddr, raw, code, mnemonic)
    };
    if count == 1 {
        Instruction { op_count: 1, ..base }
    } else if count == 2 {
        Instruction {
            op_count: 2,
            op1_kind: OpKind::Register,
            op1_reg: Register::gpr_at(sf, rn, false),
            ..base
        }
    } else {
        Instruction {
            op_count: 3,
            op1_kind: OpKind::Register,
            op1_reg: Register::gpr_at(sf, rn, false),
            op2_kind: OpKind::Register,
            op2_reg: Register::gpr_at(sf, rm, false),
            ..base
        }
    }
}

fn decode_csel(vaddr: u64, raw: u32) -> (r: Instruction)
    ensures
        r == csel_spec(vaddr, raw),
{
    let sf = bit(raw, 31) == 1;
    let op = bit(raw, 30);
    let op2 = bit(raw, 10);
    let rm = bits(raw, 20, 16);
    let cond = Condition::from_u32(bits(raw, 15, 12));
    let rn = bits(raw, 9, 5);
    let rd = bits(raw, 4, 0);

    // Aliases: CSET, CSETM, CINC, CINV, CNEG
    let (code, mnemonic, alias_ops) = if op == 0 && op2 == 1 && rn == 31 && rm == 31 {
        (Code::Csinc, Mnemonic::Cset, 1u8)
    } else if op == 1 && op2 == 0 && rn == 31 && rm == 31 {
        (Code::Csinv, Mnemonic::Csetm, 1)
    } else if op == 0 && op2 == 1 && rn == rm {
        (Code::Csinc, Mnemonic::Cinc, 2)
    } else if op == 1 && op2 == 0 && rn == rm {
        (Code::Csinv, Mnemonic::Cinv, 2)
    } else if op == 1 && op2 == 1 && rn == rm {
        (Code::Csneg, Mnemonic::Cneg, 2)
    } else if op == 0 && op2 == 0 {
        (Code::Csel, Mnemonic::Csel, 3)
    } else if op == 0 {
        (Code::Csinc, Mnemonic::Csinc, 3)
    } else if op2 == 0 {
        (Code::Csinv, Mnemonic::Csinv, 3)
    } else {
        (Code::Csneg, Mnemonic::Csneg, 3)
    };

    let mut i = Instruction::with_meta(vaddr, raw, code, mnemonic);
    i.condition = cond;
    i.op0_kind = OpKind::Register;
    i.op0_reg = Register::gpr(sf, rd, false);
    if alias_ops == 1 {
        i.op_count = 1;
    } else if alias_ops == 2 {
        i.op_count = 2;
        i.op1_kind = OpKind::Register;
        i.op1_reg = Register::gpr(sf, rn, false);
    } else {
        i.op_count = 3;
        i.op1_kind = OpKind::Register;
        i.op1_reg = Register::gpr(sf, rn, false);
        i.op2_kind = OpKind::Register;
        i.op2_reg = Register::gpr(sf, rm, false);
    }
    i
}

/// Code and mnemonic of a two-source instruction by `opcode` (bits [15:10]) and `S`
/// (bit 29): UDIV/SDIV, the variable shifts, CRC32*, SUBP/SUBPS, IRG, GMI and the
/// register min/max forms.
pub open spec fn dp_2src_op(opcode: u32, s: u32) -> Option<(Code, Mnemonic)> {
    if opcode == 0b000010 {
        Some((Code::Udiv, Mnemonic::Udiv))
    } else if opcode == 0b000011 {
        Some((Code::Sdiv, Mnemonic::Sdiv))
    } else if opcode == 0b001000 {
        Some((Code::Lslv, Mnemonic::Lsl))
    } else if opcode == 0b001001 {
        Some((Code::Lsrv, Mnemonic::Lsr))
    } else if opcode == 0b001010 {
        Some((Code::Asrv, Mnemonic::Asr))
    } else if opcode == 0b001011 {
        Some((Code::Rorv, Mnemonic::Ror))
    } else if opcode == 0b010000 {
        Some((Code::Udiv, Mnemonic::Crc32b))
    } else if opcode == 0b010001 {
        Some((Code::Udiv, Mnemonic::Crc32h))
    } else if opcode == 0b010010 {
        Some((Code::Udiv, Mnemonic::Crc32w))
    } else if opcode == 0b010011 {
        Some((Code::Udiv, Mnemonic::Crc32x))
    } else if opcode == 0b010100 {
        Some((Code::Udiv, Mnemonic::Crc32cb))
    } else if opcode == 0b010101 {
        Some((Code::Udiv, Mnemonic::Crc32ch))
    } else if opcode == 0b010110 {
        Some((Code::Udiv, Mnemonic::Crc32cw))
    } else if opcode == 0b010111 {
        Some((Code::Udiv, Mnemonic::Crc32cx))
    } else if opcode == 0b000000 {
        Some((Code::Udiv, if s != 0 { Mnemonic::Subps } else { Mnemonic::Subp }))
    } else if opcode == 0b000100 {
        Some((Code::Udiv, Mnemonic::Irg))
    } else if opcode == 0b000101 {
        Some((Code::Udiv, Mnemonic::Gmi))
    } else if opcode == 0b011000 {
        Some((Code::Udiv, Mnemonic::Smax))
    } else if opcode == 0b011001 {
        Some((Code::Udiv, Mnemonic::Umax))
    } else if opcode == 0b011010 {
        Some((Code::Udiv, Mnemonic::Smin))
    } else if opcode == 0b011011 {
        Some((Code::Udiv, Mnemonic::Umin))
    } else {
        None
    }
}

fn dp_2src_op_exec(opcode: u32, s: u32) -> (r: Option<(Code, Mnemonic)>)
    ensures
        r == dp_2src_op(opcode, s),
{
    match opcode {
        0b000010 => Some((Code::Udiv, Mnemonic::Udiv)),
        0b000011 => Some((Code::Sdiv, Mnemonic::Sdiv)),
        0b001000 => Some((Code::Lslv, Mnemonic::Lsl)),
        0b001001 => Some((Code::Lsrv, Mnemonic::Lsr)),
        0b001010 => Some((Code::Asrv, Mnemonic::Asr)),
        0b001011 => Some((Code::Rorv, Mnemonic::Ror)),
        // CRC32*
        0b010000 => Some((Code::Udiv, Mnemonic::Crc32b)),
        0b010001 => Some((Code::Udiv, Mnemonic::Crc32h)),
        0b010010 => Some((Code::Udiv, Mnemonic::Crc32w)),
        0b010011 => Some((Code::Udiv, Mnemonic::Crc32x)),
        0b010100 => Some((Code::Udiv, Mnemonic::Crc32cb)),
        0b010101 => Some((Code::Udiv, Mnemonic::Crc32ch)),
        0b010110 => Some((Code::Udiv, Mnemonic::Crc32cw)),
        0b010111 => Some((Code::Udiv, Mnemonic::Crc32cx)),
        // MTE: SUBP / SUBPS (S bit)
        0b000000 => Some((Code::Udiv, if s != 0 { Mnemonic::Subps } else { Mnemonic::Subp })),
        0b000100 => Some((Code::Udiv, Mnemonic::Irg)),
        0b000101 => Some((Code::Udiv, Mnemonic::Gmi)),
        // min/max (register)
        0b011000 => Some((Code::Udiv, Mnemonic::Smax)),
        0b011001 => Some((Code::Udiv, Mnemonic::Umax)),
        0b011010 => Some((Code::Udiv, Mnemonic::Smin)),
        0b011011 => Some((Code::Udiv, Mnemonic::Umin)),
        _ => None,
    }
}

/// Whether the mnemonic is one of the CRC32 checksum instructions.
pub open spec fn is_crc(m: Mnemonic) -> bool {
    m == Mnemonic::Crc32b || m == Mnemonic::Crc32h || m == Mnemonic::Crc32w || m == Mnemonic::Crc32x
        || m == Mnemonic::Crc32cb || m == Mnemonic::Crc32ch || m == Mnemonic::Crc32cw
        || m == Mnemonic::Crc32cx
}

/// Two-source instructions: CRC32 forms take `Wd, Wn` and `Xm` (for the doubleword
/// forms) or `Wm`; all others take three registers of the operation width.
pub open spec fn dp_2src_spec(vaddr: u64, raw: u32) -> Instruction {
    let sf = bit_at(raw, 31) == 1;
    let rm = field(raw, 20, 16);
    let rn = field(raw, 9, 5);
    let rd = field(raw, 4, 0);
    match dp_2src_op(field(raw, 15, 10), bit_at(raw, 29)) {
        None => undefined(vaddr, raw),
        Some((code, mnemonic)) => if is_crc(mnemonic) {
            three_regs(
                Instruction::meta(vaddr, raw, code, mnemonic),
                Register::w_at(rd),
                Register::w_at(rn),
                if mnemonic == Mnemonic::Crc32x || mnemonic == Mnemonic::Crc32cx {
                    Register::x_at(rm)
                } else {
                    Register::w_at(rm)
                },
            )
        } else {
            three_regs(
                Instruction::meta(vaddr, raw, code, mnemonic),
                Register::gpr_at(sf, rd, false),
                Register::gpr_at(sf, rn, false),
                Register::gpr_at(sf, rm, false),
            )
        },
    }
}

fn decode_dp_2src(vaddr: u64, raw: u32) -> (r: Instruction)
    ensures
        r == dp_2src_spec(vaddr, raw),
{
    let sf = bit(raw, 31) == 1;
    let opcode = bits(raw, 15, 10);
    let rm = bits(raw, 20, 16);
    let rn = bits(raw, 9, 5);
    let rd = bits(raw, 4, 0);
    let (code, mnemonic) = match dp_2src_op_exec(opcode, bit(raw, 29)) {
        Some(p) => p,
        None => {
            return undef(vaddr, raw);
        },
    };
    let mut i = Instruction::with_meta(vaddr, raw, code, mnemonic);
    i.op_count = 3;
    i.op0_kind = OpKind::Register;
    let crc = mnemonic == Mnemonic::Crc32b || mnemonic == Mnemonic::Crc32h || mnemonic
        == Mnemonic::Crc32w || mnemonic == Mnemonic::Crc32x || mnemonic == Mnemonic::Crc32cb
        || mnemonic == Mnemonic::Crc32ch || mnemonic == Mnemonic::Crc32cw || mnemonic
        == Mnemonic::Crc32cx;
    if crc {
        // CRC32* destination and accumulator are always W
        i.op0_reg = Register::w(rd);
        i.op1_kind = OpKind::Register;
        i.op1_reg = Register::w(rn);
        i.op2_kind = OpKind::Register;
        i.op2_reg = if mnemonic == Mnemonic::Crc32x || mnemonic == Mnemonic::Crc32cx {
            Register::x(rm)
        } else {
            Register::w(rm)
        };
    } else {
        i.op0_reg = Register::gpr(sf, rd, false);
        i.op1_kind = OpKind::Register;
        i.op1_reg = Register::gpr(sf, rn, false);
        i.op2_kind = OpKind::Register;
        i.op2_reg = Register::gpr(sf, rm, false);
    }
    i
}

/// Code and mnemonic of a one-source instruction by `opcode` (bits [15:10]) and `sf`:
/// RBIT, REV16, REV32 (REV for 32-bit), REV (64-bit only), CLZ, CLS, CTZ, CNT.
pub open spec fn dp_1src_op(opcode: u32, sf: bool) -> Option<(Code, Mnemonic)> {
    if opcode == 0 {
        Some((Code::Rbit, Mnemonic::Rbit))
    } else if opcode == 1 {
        Some((Code::Rev16, Mnemonic::Rev16))
    } else if opcode == 2 {
        Some((Code::Rev32, if sf { Mnemonic::Rev32 } else { Mnemonic::Rev }))
    } else if opcode == 3 && sf {
        Some((Code::Rev, Mnemonic::Rev))
    } else if opcode == 4 {
        Some((Code::Clz, Mnemonic::Clz))
    } else if opcode == 5 {
        Some((Code::Cls, Mnemonic::Cls))
    } else if opcode == 6 {
        Some((Code::Clz, Mnemonic::Ctz))
    } else if opcode == 7 {
        Some((Code::Clz, Mnemonic::Cnt))
    } else {
        None
    }
}

/// One-source instructions with two registers of the operation width.
pub open spec fn dp_1src_spec(vaddr: u64, raw: u32) -> Instruction {
    let sf = bit_at(raw, 31) == 1;
    match dp_1src_op(field(raw, 15, 10), sf) {
        None => undefined(vaddr, raw),
        Some((code, mnemonic)) => two_regs(
            Instruction::meta(vaddr, raw, code, mnemonic),
            Register::gpr_at(sf, field(raw, 4, 0), false),
            Register::gpr_at(sf, field(raw, 9, 5), false),
        ),
    }
}

fn decode_dp_1src(vaddr: u64, raw: u32) -> (r: Instruction)
    ensures
        r == dp_1src_spec(vaddr, raw),
{
    let sf = bit(raw, 31) == 1;
    let opcode = bits(raw, 15, 10);
    let rn = bits(raw, 9, 5);
    let rd = bits(raw, 4, 0);
    let (code, mnemonic) = if opcode == 0 {
        (Code::Rbit, Mnemonic::Rbit)
    } else if opcode == 1 {
        (Code::Rev16, Mnemonic::Rev16)
    } else if opcode == 2 {
        (Code::Rev32, if sf { Mnemonic::Rev32 } else { Mnemonic::Rev })
    } else if opcode == 3 && sf {
        (Code::Rev, Mnemonic::Rev)
    } else if opcode == 4 {
        (Code::Clz, Mnemonic::Clz)
    } else if opcode == 5 {
        (Code::Cls, Mnemonic::Cls)
    } else if opcode == 6 {
        (Code::Clz, Mnemonic::Ctz)  // FEAT_CSSC
    } else if opcode == 7 {
        (Code::Clz, Mnemonic::Cnt)  // FEAT_CSSC
    } else {
        return undef(vaddr, raw);
    };
    let mut i = Instruction::with_meta(vaddr, raw, code, mnemonic);
    i.op_count = 2;
    i.op0_kind = OpKind::Register;
    i.op0_reg = Register::gpr(sf, rd, false);
    i.op1_kind = OpKind::Register;
    i.op1_reg = Register::gpr(sf, rn, false);
    i
}

/// Code, mnemonic and use of the accumulator `Ra` of a three-source instruction by
/// `sf`, `op31` (bits [23:21]), `o0` (bit 15) and `Ra`: MADD/MSUB (MUL/MNEG with
/// `Ra` = ZR), SMADDL/SMSUBL (SMULL), SMULH, UMADDL/UMSUBL (UMULL), UMULH.
pub open spec fn dp_3src_op(sf: bool, op31: u32, o0: u32, ra: u32) -> Option<(Code, Mnemonic, bool)> {
    if op31 == 0 && o0 == 0 {
        Some(if ra == 31 { (Code::Madd, Mnemonic::Mul, false) } else { (Code::Madd, Mnemonic::Madd, true) })
    } else if op31 == 0 {
        Some(if ra == 31 { (Code::Msub, Mnemonic::Mneg, false) } else { (Code::Msub, Mnemonic::Msub, true) })
    } else if !sf {
        None
    } else if op31 == 1 && o0 == 0 {
        Some(if ra == 31 { (Code::Smaddl, Mnemonic::Smull, false) } else { (Code::Smaddl, Mnemonic::Smaddl, true) })
    } else if op31 == 1 {
        Some((Code::Smsubl, Mnemonic::Smsubl, true))
    } else if op31 == 2 && o0 == 0 {
        Some((Code::Smulh, Mnemonic::Smulh, false))
    } else if op31 == 5 && o0 == 0 {
        Some(if ra == 31 { (Code::Umaddl, Mnemonic::Umull, false) } else { (Code::Umaddl, Mnemonic::Umaddl, true) })
    } else if op31 == 5 {
        Some((Code::Umsubl, Mnemonic::Umsubl, true))
    } else if op31 == 6 && o0 == 0 {
        Some((Code::Umulh, Mnemonic::Umulh, false))
    } else {
        None
    }
}

fn dp_3src_op_exec(sf: bool, op31: u32, o0: u32, ra: u32) -> (r: Option<(Code, Mnemonic, bool)>)
    ensures
        r == dp_3src_op(sf, op31, o0, ra),
{
    if op31 == 0 && o0 == 0 {
        Some(if ra == 31 { (Code::Madd, Mnemonic::Mul, false) } else { (Code::Madd, Mnemonic::Madd, true) })
    } else if op31 == 0 {
        Some(if ra == 31 { (Code::Msub, Mnemonic::Mneg, false) } else { (Code::Msub, Mnemonic::Msub, true) })
    } else if !sf {
        None
    } else if op31 == 1 && o0 == 0 {
        Some(if ra == 31 { (Code::Smaddl, Mnemonic::Smull, false) } else { (Code::Smaddl, Mnemonic::Smaddl, true) })
    } else if op31 == 1 {
        Some((Code::Smsubl, Mnemonic::Smsubl, true))
    } else if op31 == 2 && o0 == 0 {
        Some((Code::Smulh, Mnemonic::Smulh, false))
    } else if op31 == 5 && o0 == 0 {
        Some(if ra == 31 { (Code::Umaddl, Mnemonic::Umull, false) } else { (Code::Umaddl, Mnemonic::Umaddl, true) })
    } else if op31 == 5 {
        Some((Code::Umsubl, Mnemonic::Umsubl, true))
    } else if op31 == 6 && o0 == 0 {
        Some((Code::Umulh, Mnemonic::Umulh, false))
    } else {
        None
    }
}

/// Three-source instructions. The widening forms (SMADDL…UMULH) write an X register
/// from W sources (the high-multiply forms read X sources); MADD/MSUB use the
/// operation width. `Ra` is a fourth (64-bit) operand when it is used.
pub open spec fn dp_3src_spec(vaddr: u64, raw: u32) -> Instruction {
    let sf = bit_at(raw, 31) == 1;
    let rm = field(raw, 20, 16);
    let ra = field(raw, 14, 10);
    let rn = field(raw, 9, 5);
    let rd = field(raw, 4, 0);
    match dp_3src_op(sf, field(raw, 23, 21), bit_at(raw, 15), ra) {
        None => undefined(vaddr, raw),
        Some((code, mnemonic, use_ra)) => {
            let long = code == Code::Smaddl || code == Code::Smsubl || code == Code::Umaddl
                || code == Code::Umsubl;
            let wide_dest = sf || long || code == Code::Smulh || code == Code::Umulh;
            let wide_src = (code == Code::Madd || code == Code::Msub || code == Code::Smulh
                || code == Code::Umulh) && sf;
            let base = three_regs(
                Instruction::meta(vaddr, raw, code, mnemonic),
                Register::gpr_at(wide_dest, rd, false),
                if long { Register::w_at(rn) } else { Register::gpr_at(wide_src, rn, false) },
                if long { Register::w_at(rm) } else { Register::gpr_at(sf, rm, false) },
            );
            if use_ra {
                Instruction {
                    op_count: 4,
                    op3_kind: OpKind::Register,
                    op3_reg: Register::gpr_at(true, ra, false),
                    ..base
                }
            } else {
                base
            }
        },
    }
}

fn decode_dp_3src(vaddr: u64, raw: u32) -> (r: Instruction)
    ensures
        r == dp_3src_spec(vaddr, raw),
{
    let sf = bit(raw, 31) == 1;
    let op31 = bits(raw, 23, 21);
    let o0 = bit(raw, 15);
    let rm = bits(raw, 20, 16);
    let ra = bits(raw, 14, 10);
    let rn = bits(raw, 9, 5);
    let rd = bits(raw, 4, 0);

    let (code, mnemonic, use_ra) = match dp_3src_op_exec(sf, op31, o0, ra) {
        Some(t) => t,
        None => {
            return undef(vaddr, raw);
        },
    };
    let long = code == Code::Smaddl || code == Code::Smsubl || code == Code::Umaddl || code
        == Code::Umsubl;
    let mut i = Instruction::with_meta(vaddr, raw, code, mnemonic);
    i.op0_kind = OpKind::Register;
    i.op0_reg = Register::gpr(sf || long || code == Code::Smulh || code == Code::Umulh, rd, false);
    i.op1_kind = OpKind::Register;
    i.op1_reg = Register::gpr(
        (code == Code::Madd || code == Code::Msub || code == Code::Smulh || code == Code::Umulh)
            && sf,
        rn,
        false,
    );
    // For the long (maddl) family, Rn/Rm are W regs
    if long {
        i.op1_reg = Register::w(rn);
        i.op2_kind = OpKind::Register;
        i.op2_reg = Register::w(rm);
    } else {
        i.op2_kind = OpKind::Register;
        i.op2_reg = Register::gpr(sf, rm, false);
    }
    if use_ra {
        i.op_count = 4;
        i.op3_kind = OpKind::Register;
        i.op3_reg = Register::gpr(true, ra, false);
    } else {
        i.op_count = 3;
    }
    i
}

} // verus!
