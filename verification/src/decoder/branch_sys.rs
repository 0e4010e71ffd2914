//! Branches, exception generation and system instructions.

use super::{decoded_ok, lemma_base_facts, branch_target, rel_target, undef, undefined};
use crate::enums::{Code, Condition, OpKind, Register};
use crate::helpers::{bit, bit_at, bits, field};
use crate::instruction::Instruction;
use crate::mnemonic::Mnemonic;
use vstd::prelude::*;

verus! {

/// The cases of `branch_sys_spec`, visible to every module.
pub open spec fn branch_sys_cases(vaddr: u64, raw: u32) -> Instruction {
    if field(raw, 30, 26) == 0b00101 {
        b_imm_spec(vaddr, raw)
    } else if field(raw, 31, 25) == 0b0101010 && bit_at(raw, 4) == 0 {
        b_cond_spec(vaddr, raw)
    } else if field(raw, 30, 25) == 0b011010 {
        cbz_spec(vaddr, raw)
    } else if field(raw, 30, 25) == 0b011011 {
        tbz_spec(vaddr, raw)
    } else if field(raw, 31, 25) == 0b1101011 {
        uncond_reg_spec(vaddr, raw)
    } else if field(raw, 31, 22) == 0b1101010100 {
        system_spec(vaddr, raw)
    } else if field(raw, 31, 24) == 0b11010100 {
        exception_spec(vaddr, raw)
    } else {
        undefined(vaddr, raw)
    }
}

/// Decoding of the branch / exception / system group.
#[verifier::opaque]
pub open spec fn branch_sys_spec(vaddr: u64, raw: u32) -> Instruction {
    branch_sys_cases(vaddr, raw)
}

/// Unfolds `branch_sys_spec` into its cases, for use outside this module.
pub proof fn lemma_branch_sys_unfold(vaddr: u64, raw: u32)
    ensures
        branch_sys_spec(vaddr, raw) == branch_sys_cases(vaddr, raw),
{
    reveal(branch_sys_spec);
}

/// The form a word of the group decodes to does not depend on its address.
pub(super) proof fn lemma_same_form(v1: u64, v2: u64, raw: u32)
    ensures
        branch_sys_spec(v1, raw).same_form(branch_sys_spec(v2, raw)),
{
    reveal(branch_sys_spec);
}

/// Every word of the group decodes to a record of itself.
pub(super) proof fn lemma_records(vaddr: u64, raw: u32)
    ensures
        branch_sys_spec(vaddr, raw).records(vaddr, raw),
{
    reveal(branch_sys_spec);
}

proof fn lemma_ok_branch_sys_cases(vaddr: u64, raw: u32)
    ensures
        decoded_ok(branch_sys_cases(vaddr, raw), vaddr, raw),
{
    lemma_base_facts(raw);
    lemma_ok_b_imm_spec(vaddr, raw);
    lemma_ok_b_cond_spec(vaddr, raw);
    lemma_ok_cbz_spec(vaddr, raw);
    lemma_ok_tbz_spec(vaddr, raw);
    lemma_ok_uncond_reg_spec(vaddr, raw);
    lemma_ok_exception_spec(vaddr, raw);
    lemma_ok_system_spec(vaddr, raw);
}

/// Every word of the group decodes soundly.
pub(super) proof fn lemma_ok_branch_sys_spec(vaddr: u64, raw: u32)
    ensures
        decoded_ok(branch_sys_spec(vaddr, raw), vaddr, raw),
{
    reveal(branch_sys_spec);
    lemma_base_facts(raw);
    lemma_ok_branch_sys_cases(vaddr, raw);
}

proof fn lemma_ok_b_imm_spec(vaddr: u64, raw: u32)
    ensures
        decoded_ok(b_imm_spec(vaddr, raw), vaddr, raw),
{
    lemma_base_facts(raw);
}

proof fn lemma_ok_b_cond_spec(vaddr: u64, raw: u32)
    ensures
        decoded_ok(b_cond_spec(vaddr, raw), vaddr, raw),
{
    lemma_base_facts(raw);
}

proof fn lemma_ok_cbz_spec(vaddr: u64, raw: u32)
    ensures
        decoded_ok(cbz_spec(vaddr, raw), vaddr, raw),
{
    lemma_base_facts(raw);
}

proof fn lemma_ok_tbz_spec(vaddr: u64, raw: u32)
    ensures
        decoded_ok(tbz_spec(vaddr, raw), vaddr, raw),
{
    lemma_base_facts(raw);
}

proof fn lemma_ok_uncond_reg_spec(vaddr: u64, raw: u32)
    ensures
        decoded_ok(uncond_reg_spec(vaddr, raw), vaddr, raw),
{
    lemma_base_facts(raw);
}

proof fn lemma_ok_exception_spec(vaddr: u64, raw: u32)
    ensures
        decoded_ok(exception_spec(vaddr, raw), vaddr, raw),
{
    lemma_base_facts(raw);
}

proof fn lemma_ok_system_spec(vaddr: u64, raw: u32)
    ensures
        decoded_ok(system_spec(vaddr, raw), vaddr, raw),
{
    lemma_base_facts(raw);
    lemma_ok_hint_spec(vaddr, raw);
    lemma_ok_barrier_spec(vaddr, raw);
    lemma_ok_sysreg_spec(vaddr, raw);
}

proof fn lemma_ok_hint_spec(vaddr: u64, raw: u32)
    ensures
        decoded_ok(hint_spec(vaddr, raw), vaddr, raw),
{
    lemma_base_facts(raw);
}

proof fn lemma_ok_barrier_spec(vaddr: u64, raw: u32)
    ensures
        decoded_ok(barrier_spec(vaddr, raw), vaddr, raw),
{
    lemma_base_facts(raw);
}

proof fn lemma_ok_sysreg_spec(vaddr: u64, raw: u32)
    ensures
        decoded_ok(sysreg_spec(vaddr, raw), vaddr, raw),
{
    lemma_base_facts(raw);
}

pub(super) fn decode(vaddr: u64, raw: u32) -> (r: Instruction)
    ensures
        r == branch_sys_spec(vaddr, raw),
{
    proof {
        reveal(branch_sys_spec);
    }
    if bits(raw, 30, 26) == 0b00101 {
        return decode_b_imm(vaddr, raw);
    }
    if bits(raw, 31, 25) == 0b0101010 && bit(raw, 4) == 0 {
        return decode_b_cond(vaddr, raw);
    }
    if bits(raw, 30, 25) == 0b011010 {
        return decode_cbz(vaddr, raw);
    }
    if bits(raw, 30, 25) == 0b011011 {
        return decode_tbz(vaddr, raw);
    }
    if bits(raw, 31, 25) == 0b1101011 {
        return decode_uncond_reg(vaddr, raw);
    }
    if bits(raw, 31, 22) == 0b1101010100 {
        return decode_system(vaddr, raw);
    }
    // Exception generation: SVC/HVC/SMC/BRK/HLT/DCPS
    if bits(raw, 31, 24) == 0b11010100 {
        return decode_exception(vaddr, raw);
    }
    undef(vaddr, raw)
}

/// B / BL: the target is the instruction address plus four times the signed 26-bit
/// immediate; bit 31 selects BL.
pub open spec fn b_imm_spec(vaddr: u64, raw: u32) -> Instruction {
    let link = bit_at(raw, 31) != 0;
    let target = rel_target(vaddr, field(raw, 25, 0), 26);
    Instruction {
        op_count: 1,
        op0_kind: OpKind::NearBranch,
        op0_imm: target,
        near_branch_target: target,
        ..Instruction::meta(
            vaddr,
            raw,
            if link { Code::Bl } else { Code::B },
            if link { Mnemonic::Bl } else { Mnemonic::B },
        )
    }
}

fn decode_b_imm(vaddr: u64, raw: u32) -> (r: Instruction)
    ensures
        r == b_imm_spec(vaddr, raw),
{
    let target = branch_target(vaddr, bits(raw, 25, 0), 26);
    let link = bit(raw, 31) != 0;
    let mut i = Instruction::with_meta(
        vaddr,
        raw,
        if link { Code::Bl } else { Code::B },
        if link { Mnemonic::Bl } else { Mnemonic::B },
    );
    i.op_count = 1;
    i.op0_kind = OpKind::NearBranch;
    i.op0_imm = target;
    i.near_branch_target = target;
    i
}

/// B.cond: signed 19-bit word offset, condition in bits [3:0].
pub open spec fn b_cond_spec(vaddr: u64, raw: u32) -> Instruction {
    let target = rel_target(vaddr, field(raw, 23, 5), 19);
    Instruction {
        op_count: 1,
        op0_kind: OpKind::NearBranch,
        op0_imm: target,
        near_branch_target: target,
        condition: Condition::decode_spec(field(raw, 3, 0)),
        is_conditional_branch: true,
        ..Instruction::meta(vaddr, raw, Code::B_cond, Mnemonic::Bcond)
    }
}

fn decode_b_cond(vaddr: u64, raw: u32) -> (r: Instruction)
    ensures
        r == b_cond_spec(vaddr, raw),
{
    let cond = Condition::from_u32(bits(raw, 3, 0));
    let target = branch_target(vaddr, bits(raw, 23, 5), 19);
    let mut i = Instruction::with_meta(vaddr, raw, Code::B_cond, Mnemonic::Bcond);
    i.op_count = 1;
    i.op0_kind = OpKind::NearBranch;
    i.op0_imm = target;
    i.near_branch_target = target;
    i.condition = cond;
    i.is_conditional_branch = true;
    i
}

/// CBZ / CBNZ: register tested against zero, signed 19-bit word offset.
pub open spec fn cbz_spec(vaddr: u64, raw: u32) -> Instruction {
    let nz = bit_at(raw, 24) != 0;
    let target = rel_target(vaddr, field(raw, 23, 5), 19);
    Instruction {
        op_count: 2,
        op0_kind: OpKind::Register,
        op0_reg: Register::gpr_at(bit_at(raw, 31) == 1, field(raw, 4, 0), false),
        op1_kind: OpKind::NearBranch,
        op1_imm: target,
        near_branch_target: target,
        is_conditional_branch: true,
        ..Instruction::meta(
            vaddr,
            raw,
            if nz { Code::Cbnz } else { Code::Cbz },
            if nz { Mnemonic::Cbnz } else { Mnemonic::Cbz },
        )
    }
}

fn decode_cbz(vaddr: u64, raw: u32) -> (r: Instruction)
    ensures
        r == cbz_spec(vaddr, raw),
{
    let sf = bit(raw, 31) == 1;
    let is_cbnz = bit(raw, 24) != 0;
    let rt = bits(raw, 4, 0);
    let target = branch_target(vaddr, bits(raw, 23, 5), 19);
    let mut i = Instruction::with_meta(
        vaddr,
        raw,
        if is_cbnz { Code::Cbnz } else { Code::Cbz },
        if is_cbnz { Mnemonic::Cbnz } else { Mnemonic::Cbz },
    );
    i.op_count = 2;
    i.op0_kind = OpKind::Register;
    i.op0_reg = Register::gpr(sf, rt, false);
    i.op1_kind = OpKind::NearBranch;
    i.op1_imm = target;
    i.near_branch_target = target;
    i.is_conditional_branch = true;
    i
}

/// TBZ / TBNZ: the bit number is `b5:b40` (bit 31 and bits [23:19]), signed 14-bit
/// word offset.
pub open spec fn tbz_spec(vaddr: u64, raw: u32) -> Instruction {
    let nz = bit_at(raw, 24) != 0;
    let target = rel_target(vaddr, field(raw, 18, 5), 14);
    Instruction {
        op_count: 3,
        op0_kind: OpKind::Register,
        op0_reg: Register::x_at(field(raw, 4, 0)),
        op1_kind: OpKind::Immediate,
        op1_imm: (bit_at(raw, 31) * 32 + field(raw, 23, 19)) as u64,
        op2_kind: OpKind::NearBranch,
        op2_imm: target,
        near_branch_target: target,
        is_conditional_branch: true,
        ..Instruction::meta(
            vaddr,
            raw,
            if nz { Code::Tbnz } else { Code::Tbz },
            if nz { Mnemonic::Tbnz } else { Mnemonic::Tbz },
        )
    }
}

fn decode_tbz(vaddr: u64, raw: u32) -> (r: Instruction)
    ensures
        r == tbz_spec(vaddr, raw),
{
    let b5 = bit(raw, 31);
    let op = bit(raw, 24);
    let b40 = bits(raw, 23, 19);
    let rt = bits(raw, 4, 0);
    assert(b5 <= 1 && b40 <= 31 ==> (b5 << 5u32) | b40 == b5 * 32 + b40) by (bit_vector);
    let bitpos = (b5 << 5) | b40;
    let target = branch_target(vaddr, bits(raw, 18, 5), 14);
    let mut i = Instruction::with_meta(
        vaddr,
        raw,
        if op == 0 { Code::Tbz } else { Code::Tbnz },
        if op == 0 { Mnemonic::Tbz } else { Mnemonic::Tbnz },
    );
    i.op_count = 3;
    i.op0_kind = OpKind::Register;
    i.op0_reg = Register::x(rt);
    i.op1_kind = OpKind::Immediate;
    i.op1_imm = bitpos as u64;
    i.op2_kind = OpKind::NearBranch;
    i.op2_imm = target;
    i.near_branch_target = target;
    i.is_conditional_branch = true;
    i
}

/// Code and mnemonic of a branch to register by `opc` (bits [24:21]), the pointer
/// authentication bit 11 and the key bit 10; `None` for an unallocated `opc`.
pub open spec fn uncond_reg_op(opc: u32, pac: bool, key_b: bool) -> Option<(Code, Mnemonic)> {
    if opc == 0 {
        Some((Code::Br, if !pac { Mnemonic::Br } else if key_b { Mnemonic::Brabz } else { Mnemonic::Braaz }))
    } else if opc == 1 {
        Some((Code::Blr, if !pac { Mnemonic::Blr } else if key_b { Mnemonic::Blrabz } else { Mnemonic::Blraaz }))
    } else if opc == 2 {
        Some((Code::Ret, if !pac { Mnemonic::Ret } else if key_b { Mnemonic::Retab } else { Mnemonic::Retaa }))
    } else if opc == 8 {
        Some((Code::Br, if key_b { Mnemonic::Brab } else { Mnemonic::Braa }))
    } else if opc == 9 {
        Some((Code::Blr, if key_b { Mnemonic::Blrab } else { Mnemonic::Blraa }))
    } else if opc == 10 {
        Some((Code::Ret, Mnemonic::Retaa))
    } else if opc == 12 {
        Some((Code::Br, Mnemonic::Brab))
    } else if opc == 13 {
        Some((Code::Blr, Mnemonic::Blrab))
    } else if opc == 14 {
        Some((Code::Ret, Mnemonic::Retab))
    } else {
        None
    }
}

/// BR/BLR/RET and their pointer-authenticated forms; a return through X30 (or
/// register 31) is written without an operand.
pub open spec fn uncond_reg_spec(vaddr: u64, raw: u32) -> Instruction {
    let rn = field(raw, 9, 5);
    match uncond_reg_op(field(raw, 24, 21), field(raw, 11, 11) != 0, field(raw, 10, 10) != 0) {
        None => undefined(vaddr, raw),
        Some((code, mnemonic)) => {
            let bare = (mnemonic == Mnemonic::Ret || mnemonic == Mnemonic::Retaa
                || mnemonic == Mnemonic::Retab) && (rn == 30 || rn == 31);
            if bare {
                Instruction::meta(vaddr, raw, code, mnemonic)
            } else {
                Instruction {
                    op_count: 1,
                    op0_kind: OpKind::Register,
                    op0_reg: Register::x_at(rn),
                    ..Instruction::meta(vaddr, raw, code, mnemonic)
                }
            }
        },
    }
}

fn uncond_reg_op_exec(opc: u32, pac: bool, key_b: bool) -> (r: Option<(Code, Mnemonic)>)
    ensures
        r == uncond_reg_op(opc, pac, key_b),
{
    match opc {
        // BR / BRAAZ / BRABZ (Z forms share opc with BR; PAC bit selects auth)
        0b0000 => Some((Code::Br, if !pac { Mnemonic::Br } else if key_b { Mnemonic::Brabz } else { Mnemonic::Braaz })),
        // BLR / BLRAAZ / BLRABZ
        0b0001 => Some((Code::Blr, if !pac { Mnemonic::Blr } else if key_b { Mnemonic::Blrabz } else { Mnemonic::Blraaz })),
        // RET / RETAA / RETAB
        0b0010 => Some((Code::Ret, if !pac { Mnemonic::Ret } else if key_b { Mnemonic::Retab } else { Mnemonic::Retaa })),
        // BRAA / BRAB (with modifier register)
        0b1000 => Some((Code::Br, if key_b { Mnemonic::Brab } else { Mnemonic::Braa })),
        // BLRAA / BLRAB
        0b1001 => Some((Code::Blr, if key_b { Mnemonic::Blrab } else { Mnemonic::Blraa })),
        0b1010 => Some((Code::Ret, Mnemonic::Retaa)),
        0b1100 => Some((Code::Br, Mnemonic::Brab)),
        0b1101 => Some((Code::Blr, Mnemonic::Blrab)),
        0b1110 => Some((Code::Ret, Mnemonic::Retab)),
        _ => None,
    }
}

fn decode_uncond_reg(vaddr: u64, raw: u32) -> (r: Instruction)
    ensures
        r == uncond_reg_spec(vaddr, raw),
{
    let opc = bits(raw, 24, 21);
    let rn = bits(raw, 9, 5);
    let pac = bits(raw, 11, 11) != 0;
    let key_b = bits(raw, 10, 10) != 0;
    let (code, mnemonic) = match uncond_reg_op_exec(opc, pac, key_b) {
        Some(p) => p,
        None => {
            return undef(vaddr, raw);
        },
    };
    let mut i = Instruction::with_meta(vaddr, raw, code, mnemonic);
    let bare = (mnemonic == Mnemonic::Ret || mnemonic == Mnemonic::Retaa || mnemonic == Mnemonic::Retab)
        && (rn == 30 || rn == 31);
    if !bare {
        i.op_count = 1;
        i.op0_kind = OpKind::Register;
        i.op0_reg = Register::x(rn);
    }
    i
}

/// Code and mnemonic of an exception-generating instruction by `opc` (bits [23:21])
/// and `LL` (bits [1:0]).
pub open spec fn exception_op(opc: u32, ll: u32) -> Option<(Code, Mnemonic)> {
    if opc == 0 && ll == 1 {
        Some((Code::Svc, Mnemonic::Svc))
    } else if opc == 0 && ll == 2 {
        Some((Code::Hvc, Mnemonic::Hvc))
    } else if opc == 0 && ll == 3 {
        Some((Code::Smc, Mnemonic::Smc))
    } else if opc == 1 && ll == 0 {
        Some((Code::Brk, Mnemonic::Brk))
    } else if opc == 2 && ll == 0 {
        Some((Code::Hlt, Mnemonic::Hlt))
    } else if opc == 5 {
        Some((Code::Dcps, Mnemonic::Dcps1))
    } else {
        None
    }
}

/// SVC/HVC/SMC/BRK/HLT/DCPS with the 16-bit immediate as operand.
pub open spec fn exception_spec(vaddr: u64, raw: u32) -> Instruction {
    match exception_op(field(raw, 23, 21), field(raw, 1, 0)) {
        None => undefined(vaddr, raw),
        Some((code, mnemonic)) => Instruction {
            op_count: 1,
            op0_kind: OpKind::Immediate,
            op0_imm: field(raw, 20, 5) as u64,
            ..Instruction::meta(vaddr, raw, code, mnemonic)
        },
    }
}

fn decode_exception(vaddr: u64, raw: u32) -> (r: Instruction)
    ensures
        r == exception_spec(vaddr, raw),
{
    let opc = bits(raw, 23, 21);
    let imm16 = bits(raw, 20, 5);
    let ll = bits(raw, 1, 0);
    let (code, mnemonic) = if opc == 0 && ll == 1 {
        (Code::Svc, Mnemonic::Svc)
    } else if opc == 0 && ll == 2 {
        (Code::Hvc, Mnemonic::Hvc)
    } else if opc == 0 && ll == 3 {
        (Code::Smc, Mnemonic::Smc)
    } else if opc == 1 && ll == 0 {
        (Code::Brk, Mnemonic::Brk)
    } else if opc == 2 && ll == 0 {
        (Code::Hlt, Mnemonic::Hlt)
    } else if opc == 5 {
        (Code::Dcps, Mnemonic::Dcps1)
    } else {
        return undef(vaddr, raw);
    };
    let mut i = Instruction::with_meta(vaddr, raw, code, mnemonic);
    i.op_count = 1;
    i.op0_kind = OpKind::Immediate;
    i.op0_imm = imm16 as u64;
    i
}

/// The operand-less HINT-space instructions recognised by their whole encoding.
pub open spec fn hint_alias(raw: u32) -> Option<(Code, Mnemonic)> {
    if raw == 0xD503201F {
        Some((Code::Nop, Mnemonic::Nop))
    } else if raw == 0xD503203F {
        Some((Code::Yield, Mnemonic::Yield))
    } else if raw == 0xD503205F {
        Some((Code::Wfe, Mnemonic::Wfe))
    } else if raw == 0xD503207F {
        Some((Code::Wfi, Mnemonic::Wfi))
    } else if raw == 0xD503209F {
        Some((Code::Sev, Mnemonic::Sev))
    } else if raw == 0xD50320BF {
        Some((Code::Sevl, Mnemonic::Sevl))
    } else if raw == 0xD50320FF {
        Some((Code::Xpaclri, Mnemonic::Xpaclri))
    } else if raw == 0xD503211F {
        Some((Code::Pacia1716, Mnemonic::Pacia1716))
    } else if raw == 0xD503215F {
        Some((Code::Pacib1716, Mnemonic::Pacib1716))
    } else if raw == 0xD503219F {
        Some((Code::Autia1716, Mnemonic::Autia1716))
    } else if raw == 0xD50321DF {
        Some((Code::Autib1716, Mnemonic::Autib1716))
    } else if raw == 0xD503231F {
        Some((Code::Paciaz, Mnemonic::Paciaz))
    } else if raw == 0xD503233F {
        Some((Code::Paciasp, Mnemonic::Paciasp))
    } else if raw == 0xD503235F {
        Some((Code::Pacibz, Mnemonic::Pacibz))
    } else if raw == 0xD503237F {
        Some((Code::Pacibsp, Mnemonic::Pacibsp))
    } else if raw == 0xD503239F {
        Some((Code::Autiaz, Mnemonic::Autiaz))
    } else if raw == 0xD50323BF {
        Some((Code::Autiasp, Mnemonic::Autiasp))
    } else if raw == 0xD50323DF {
        Some((Code::Autibz, Mnemonic::Autibz))
    } else if raw == 0xD50323FF {
        Some((Code::Autibsp, Mnemonic::Autibsp))
    } else {
        None
    }
}

fn hint_alias_exec(raw: u32) -> (r: Option<(Code, Mnemonic)>)
    ensures
        r == hint_alias(raw),
{
    // PAC/AUT/XPAC live in the HINT encoding space (ARMv8.3+).
    match raw {
        0xD503201F => Some((Code::Nop, Mnemonic::Nop)),
        0xD503203F => Some((Code::Yield, Mnemonic::Yield)),
        0xD503205F => Some((Code::Wfe, Mnemonic::Wfe)),
        0xD503207F => Some((Code::Wfi, Mnemonic::Wfi)),
        0xD503209F => Some((Code::Sev, Mnemonic::Sev)),
        0xD50320BF => Some((Code::Sevl, Mnemonic::Sevl)),
        // CRm=0 op2=7
        0xD50320FF => Some((Code::Xpaclri, Mnemonic::Xpaclri)),
        // CRm=1 — *1716 forms (IA/IB keys, modifier x16)
        0xD503211F => Some((Code::Pacia1716, Mnemonic::Pacia1716)),
        0xD503215F => Some((Code::Pacib1716, Mnemonic::Pacib1716)),
        0xD503219F => Some((Code::Autia1716, Mnemonic::Autia1716)),
        0xD50321DF => Some((Code::Autib1716, Mnemonic::Autib1716)),
        // CRm=3 — SP / zero-modifier LR signing
        0xD503231F => Some((Code::Paciaz, Mnemonic::Paciaz)),
        0xD503233F => Some((Code::Paciasp, Mnemonic::Paciasp)),
        0xD503235F => Some((Code::Pacibz, Mnemonic::Pacibz)),
        0xD503237F => Some((Code::Pacibsp, Mnemonic::Pacibsp)),
        0xD503239F => Some((Code::Autiaz, Mnemonic::Autiaz)),
        0xD50323BF => Some((Code::Autiasp, Mnemonic::Autiasp)),
        0xD50323DF => Some((Code::Autibz, Mnemonic::Autibz)),
        0xD50323FF => Some((Code::Autibsp, Mnemonic::Autibsp)),
        _ => None,
    }
}

/// System instructions: the named HINT aliases, BTI/CLRBHB and HINT #imm, MSR
/// (immediate) to PSTATE, the barriers, then MRS/MSR (register) and SYS with its
/// AT/DC/IC/TLBI aliases.
pub open spec fn system_spec(vaddr: u64, raw: u32) -> Instruction {
    match hint_alias(raw) {
        Some((code, mnemonic)) => Instruction::meta(vaddr, raw, code, mnemonic),
        None => if raw & 0xFFFFF01F == 0xD503201F {
            hint_spec(vaddr, raw)
        } else if field(raw, 31, 19) == 0b1101010100000 && field(raw, 15, 12) == 0b0100 && field(
            raw,
            4,
            0,
        ) == 31 {
            Instruction {
                op_count: 2,
                op0_kind: OpKind::SystemRegister,
                op0_imm: field(raw, 18, 5) as u64,
                op1_kind: OpKind::Immediate,
                op1_imm: field(raw, 11, 8) as u64,
                ..Instruction::meta(vaddr, raw, Code::Msr, Mnemonic::Msr)
            }
        } else if bit_at(raw, 21) == 0 && field(raw, 15, 12) == 0b0011 && field(raw, 4, 0) == 31 {
            barrier_spec(vaddr, raw)
        } else {
            sysreg_spec(vaddr, raw)
        },
    }
}

fn decode_system(vaddr: u64, raw: u32) -> (r: Instruction)
    requires
        field(raw, 31, 22) == 0b1101010100,
    ensures
        r == system_spec(vaddr, raw),
{
    if let Some((code, mnemonic)) = hint_alias_exec(raw) {
        return Instruction::with_meta(vaddr, raw, code, mnemonic);
    }
    if raw & 0xFFFFF01F == 0xD503201F {
        return decode_hint(vaddr, raw);
    }
    // MSR (immediate) PSTATE: 1101 0101 0000 0 op1 0100 CRm op2 11111
    if bits(raw, 31, 19) == 0b1101010100000 && bits(raw, 15, 12) == 0b0100 && bits(raw, 4, 0) == 31 {
        let mut i = Instruction::with_meta(vaddr, raw, Code::Msr, Mnemonic::Msr);
        i.op_count = 2;
        i.op0_kind = OpKind::SystemRegister;
        i.op0_imm = bits(raw, 18, 5) as u64;  // op1:CRm:op2
        i.op1_kind = OpKind::Immediate;
        i.op1_imm = bits(raw, 11, 8) as u64;  // CRm as imm for Capstone-style
        return i;
    }
    // Barriers: DSB/DMB/ISB/SB — 1101 0101 0000 0011 0011 CRm op2 11111
    if bits(raw, 31, 22) == 0b1101010100 && bit(raw, 21) == 0 && bits(raw, 15, 12) == 0b0011
        && bits(raw, 4, 0) == 31 {
        return decode_barrier(vaddr, raw);
    }
    decode_sysreg(vaddr, raw)
}

/// HINT space other than the named aliases: BTI (CRm = 4, op2 <= 3), CLRBHB (hint #22),
/// otherwise `hint #imm` with `CRm:op2` as immediate.
pub open spec fn hint_spec(vaddr: u64, raw: u32) -> Instruction {
    if field(raw, 11, 8) == 0b0100 && field(raw, 7, 5) <= 0b011 {
        Instruction::meta(vaddr, raw, Code::Hint, Mnemonic::Bti)
    } else if field(raw, 11, 5) == 0b010110 {
        Instruction::meta(vaddr, raw, Code::Hint, Mnemonic::Clrbhb)
    } else {
        Instruction {
            op_count: 1,
            op0_kind: OpKind::Immediate,
            op0_imm: field(raw, 11, 5) as u64,
            ..Instruction::meta(vaddr, raw, Code::Hint, Mnemonic::Hint)
        }
    }
}

fn decode_hint(vaddr: u64, raw: u32) -> (r: Instruction)
    ensures
        r == hint_spec(vaddr, raw),
{
    let op = bits(raw, 11, 5);
    // BTI: CRm=4, op2 in 0..3 (hint #32/#34/#36/#38)
    if bits(raw, 11, 8) == 0b0100 && bits(raw, 7, 5) <= 0b011 {
        return Instruction::with_meta(vaddr, raw, Code::Hint, Mnemonic::Bti);
    }
    // CLRBHB: hint #22 (CRm=2, op2=6)
    if op == 0b010110 {
        return Instruction::with_meta(vaddr, raw, Code::Hint, Mnemonic::Clrbhb);
    }
    let mut i = Instruction::with_meta(vaddr, raw, Code::Hint, Mnemonic::Hint);
    i.op_count = 1;
    i.op0_kind = OpKind::Immediate;
    i.op0_imm = op as u64;
    i
}

/// Barriers by `op2` (bits [7:5]): DSB (1, 4), DMB (5), ISB (6), SB (7) with `CRm` as
/// immediate; other `op2` values are MSR with the system register `op0:op1:CRn:CRm:op2`
/// (bits [20:5]) and XZR.
pub open spec fn barrier_spec(vaddr: u64, raw: u32) -> Instruction {
    let op2 = field(raw, 7, 5);
    if op2 == 1 || op2 == 4 || op2 == 5 || op2 == 6 || op2 == 7 {
        Instruction {
            op_count: 1,
            op0_kind: OpKind::Immediate,
            op0_imm: field(raw, 11, 8) as u64,
            ..Instruction::meta(
                vaddr,
                raw,
                Code::Sys,
                if op2 == 5 {
                    Mnemonic::Dmb
                } else if op2 == 6 {
                    Mnemonic::Isb
                } else if op2 == 7 {
                    Mnemonic::Sb
                } else {
                    Mnemonic::Dsb
                },
            )
        }
    } else {
        Instruction {
            op_count: 2,
            op0_kind: OpKind::SystemRegister,
            op0_imm: field(raw, 20, 5) as u64,
            op1_kind: OpKind::Register,
            op1_reg: Register::x_at(31),
            ..Instruction::meta(vaddr, raw, Code::Msr, Mnemonic::Msr)
        }
    }
}

/// The system register number `op0:op1:CRn:CRm:op2`, assembled from its fields.
fn sysreg_number(raw: u32) -> (r: u64)
    ensures
        r == field(raw, 20, 5) as u64,
{
    let op0 = bits(raw, 20, 19) as u64;
    let op1 = bits(raw, 18, 16) as u64;
    let crn = bits(raw, 15, 12) as u64;
    let crm = bits(raw, 11, 8) as u64;
    let op2 = bits(raw, 7, 5) as u64;
    let all = bits(raw, 20, 5) as u64;
    assert((op0 << 14u64) | (op1 << 11u64) | (crn << 7u64) | (crm << 3u64) | op2 == all) by (bit_vector)
        requires
            op0 == ((raw >> 19u32) & 3u32) as u64,
            op1 == ((raw >> 16u32) & 7u32) as u64,
            crn == ((raw >> 12u32) & 15u32) as u64,
            crm == ((raw >> 8u32) & 15u32) as u64,
            op2 == ((raw >> 5u32) & 7u32) as u64,
            all == ((raw >> 5u32) & 0xFFFFu32) as u64,
    ;
    (op0 << 14) | (op1 << 11) | (crn << 7) | (crm << 3) | op2
}

fn decode_barrier(vaddr: u64, raw: u32) -> (r: Instruction)
    ensures
        r == barrier_spec(vaddr, raw),
{
    let crm = bits(raw, 11, 8);
    let op2 = bits(raw, 7, 5);
    let mnemonic = if op2 == 1 || op2 == 4 {
        Mnemonic::Dsb  // 001: nXS / SSBB-style DSB forms in Capstone
    } else if op2 == 5 {
        Mnemonic::Dmb
    } else if op2 == 6 {
        Mnemonic::Isb
    } else if op2 == 7 {
        Mnemonic::Sb
    } else {
        let mut i = Instruction::with_meta(vaddr, raw, Code::Msr, Mnemonic::Msr);
        i.op_count = 2;
        i.op0_kind = OpKind::SystemRegister;
        i.op0_imm = sysreg_number(raw);
        i.op1_kind = OpKind::Register;
        i.op1_reg = Register::x(31);
        return i;
    };
    let mut i = Instruction::with_meta(vaddr, raw, Code::Sys, mnemonic);
    i.op_count = 1;
    i.op0_kind = OpKind::Immediate;
    i.op0_imm = crm as u64;
    i
}

/// Alias of a SYS instruction by `CRn`, `CRm` and `op2`: TLBI (CRn 8, 9), AT (CRn 7 with
/// CRm 8 or 9), IC (CRn 7 with CRm 1 or 5 and op2 0), DC (other CRn 7).
pub open spec fn sys_alias(crn: u32, crm: u32, op2: u32) -> Option<Mnemonic> {
    if crn == 8 || crn == 9 {
        Some(Mnemonic::Tlbi)
    } else if crn == 7 && (crm == 8 || crm == 9) {
        Some(Mnemonic::At)
    } else if crn == 7 && (crm == 1 || crm == 5) && op2 == 0 {
        Some(Mnemonic::Ic)
    } else if crn == 7 {
        Some(Mnemonic::Dc)
    } else {
        None
    }
}

/// MRS (bit 21 set), SYS with its aliases (op0 = 0, or op0 = 1 with CRn >= 7), or MSR
/// (register); the system register operand is `op0:op1:CRn:CRm:op2` (bits [20:5]).
pub open spec fn sysreg_spec(vaddr: u64, raw: u32) -> Instruction {
    let rt = field(raw, 4, 0);
    let op0 = field(raw, 20, 19);
    let crn = field(raw, 15, 12);
    let sysreg = field(raw, 20, 5) as u64;
    if bit_at(raw, 21) != 0 {
        Instruction {
            op_count: 2,
            op0_kind: OpKind::Register,
            op0_reg: Register::x_at(rt),
            op1_kind: OpKind::SystemRegister,
            op1_imm: sysreg,
            ..Instruction::meta(vaddr, raw, Code::Mrs, Mnemonic::Mrs)
        }
    } else if op0 == 0 || (op0 == 1 && crn >= 7) {
        match sys_alias(crn, field(raw, 11, 8), field(raw, 7, 5)) {
            Some(mnemonic) => if rt == 31 {
                Instruction::meta(vaddr, raw, Code::Sys, mnemonic)
            } else {
                Instruction {
                    op_count: 1,
                    op0_kind: OpKind::Register,
                    op0_reg: Register::x_at(rt),
                    ..Instruction::meta(vaddr, raw, Code::Sys, mnemonic)
                }
            },
            None => Instruction {
                op_count: 1,
                op0_kind: OpKind::Immediate,
                op0_imm: sysreg,
                ..Instruction::meta(vaddr, raw, Code::Sys, Mnemonic::Sys)
            },
        }
    } else {
        Instruction {
            op_count: 2,
            op0_kind: OpKind::SystemRegister,
            op0_imm: sysreg,
            op1_kind: OpKind::Register,
            op1_reg: Register::x_at(rt),
            ..Instruction::meta(vaddr, raw, Code::Msr, Mnemonic::Msr)
        }
    }
}

fn decode_sysreg(vaddr: u64, raw: u32) -> (r: Instruction)
    ensures
        r == sysreg_spec(vaddr, raw),
{
    let l = bit(raw, 21);
    let rt = bits(raw, 4, 0);
    let op0 = bits(raw, 20, 19);
    let crn = bits(raw, 15, 12);
    let crm = bits(raw, 11, 8);
    let op2 = bits(raw, 7, 5);
    let sysreg = sysreg_number(raw);

    if l != 0 {
        let mut i = Instruction::with_meta(vaddr, raw, Code::Mrs, Mnemonic::Mrs);
        i.op_count = 2;
        i.op0_kind = OpKind::Register;
        i.op0_reg = Register::x(rt);
        i.op1_kind = OpKind::SystemRegister;
        i.op1_imm = sysreg;
        i
    } else {
        // SYS aliases: AT/DC/IC/TLBI — only in SYS encoding space (not MSR sysregs)
        let is_sys = op0 == 0b00 || (op0 == 0b01 && crn >= 7);
        if is_sys {
            let alias = if crn == 8 || crn == 9 {
                Some(Mnemonic::Tlbi)  // CRn=9: FEAT_XS nxs forms
            } else if crn == 7 && (crm == 8 || crm == 9) {
                Some(Mnemonic::At)
            } else if crn == 7 && (crm == 1 || crm == 5) && op2 == 0 {
                Some(Mnemonic::Ic)
            } else if crn == 7 {
                Some(Mnemonic::Dc)
            } else {
                None
            };
            if let Some(mnemonic) = alias {
                let mut i = Instruction::with_meta(vaddr, raw, Code::Sys, mnemonic);
                i.op_count = if rt == 31 { 0 } else { 1 };
                if rt != 31 {
                    i.op0_kind = OpKind::Register;
                    i.op0_reg = Register::x(rt);
                }
                return i;
            }
            let mut i = Instruction::with_meta(vaddr, raw, Code::Sys, Mnemonic::Sys);
            i.op_count = 1;
            i.op0_kind = OpKind::Immediate;
            i.op0_imm = sysreg;
            i
        } else {
            let mut i = Instruction::with_meta(vaddr, raw, Code::Msr, Mnemonic::Msr);
            i.op_count = 2;
            i.op0_kind = OpKind::SystemRegister;
            i.op0_imm = sysreg;
            i.op1_kind = OpKind::Register;
            i.op1_reg = Register::x(rt);
            i
        }
    }
}

} // verus!
