//! The flat decoded-instruction record.

use crate::enums::{Arrangement, Code, Condition, ExtendKind, MemMode, OpKind, Register, ShiftKind};
use crate::mnemonic::Mnemonic;
use vstd::prelude::*;

verus! {

/// A decoded instruction: encoding, mnemonic, up to four operand slots and the
/// attributes of memory, shift, extend, condition and vector operands.
#[derive(Debug, Copy, Clone)]
pub struct Instruction {
    pub vaddr: u64,
    pub raw: u32,
    pub len: u8,
    pub code: Code,
    pub mnemonic: Mnemonic,
    pub op_count: u8,
    pub op0_kind: OpKind,
    pub op0_reg: Register,
    pub op0_imm: u64,
    pub op1_kind: OpKind,
    pub op1_reg: Register,
    pub op1_imm: u64,
    pub op2_kind: OpKind,
    pub op2_reg: Register,
    pub op2_imm: u64,
    pub op3_kind: OpKind,
    pub op3_reg: Register,
    pub op3_imm: u64,
    pub memory_base: Register,
    pub memory_index: Register,
    pub memory_offset: i32,
    pub memory_index_shift: u8,
    pub mem_mode: MemMode,
    pub shift_kind: ShiftKind,
    pub shift_amount: u8,
    pub extend_kind: ExtendKind,
    pub extend_amount: u8,
    pub condition: Condition,
    pub near_branch_target: u64,
    pub arrangement: Arrangement,
    pub vector_index: u8,
    pub is_conditional_branch: bool,
}

impl Instruction {
    /// The record of an instruction that was never decoded: no operands, code
    /// `INVALID`, length 4, condition `Al`.
    pub open spec fn empty() -> Instruction {
        Instruction {
            vaddr: 0,
            raw: 0,
            len: 4,
            code: Code::INVALID,
            mnemonic: Mnemonic::Invalid,
            op_count: 0,
            op0_kind: OpKind::Absent,
            op0_reg: Register::Absent,
            op0_imm: 0,
            op1_kind: OpKind::Absent,
            op1_reg: Register::Absent,
            op1_imm: 0,
            op2_kind: OpKind::Absent,
            op2_reg: Register::Absent,
            op2_imm: 0,
            op3_kind: OpKind::Absent,
            op3_reg: Register::Absent,
            op3_imm: 0,
            memory_base: Register::Absent,
            memory_index: Register::Absent,
            memory_offset: 0,
            memory_index_shift: 0,
            mem_mode: MemMode::Absent,
            shift_kind: ShiftKind::Absent,
            shift_amount: 0,
            extend_kind: ExtendKind::Absent,
            extend_amount: 0,
            condition: Condition::Al,
            near_branch_target: 0,
            arrangement: Arrangement::Absent,
            vector_index: 0,
            is_conditional_branch: false,
        }
    }

    /// The empty record with address, raw word, code and mnemonic filled in.
    pub open spec fn meta(vaddr: u64, raw: u32, code: Code, mnemonic: Mnemonic) -> Instruction {
        Instruction { vaddr, raw, code, mnemonic, ..Instruction::empty() }
    }

    /// Whether this is a record of the word `raw` found at `vaddr`: both kept, length
    /// four bytes, at most four operands.
    pub open spec fn records(self, vaddr: u64, raw: u32) -> bool {
        self.vaddr == vaddr && self.raw == raw && self.len == 4 && self.op_count <= 4
    }

    /// Whether an operand of kind `kind` and immediate `imm` is well formed: present;
    /// a memory operand with an addressing mode and an address register as base; a
    /// branch target equal to the record's `near_branch_target`.
    pub open spec fn operand_ok(self, kind: OpKind, imm: u64) -> bool {
        &&& kind != OpKind::Absent
        &&& kind == OpKind::Memory ==> self.mem_mode != MemMode::Absent && self.memory_base.is_address_register()
        &&& kind == OpKind::NearBranch ==> imm == self.near_branch_target
    }

    /// Whether every operand in use is well formed, and at most four are in use.
    pub open spec fn well_formed(self) -> bool {
        &&& self.op_count <= 4
        &&& self.op_count > 0 ==> self.operand_ok(self.op0_kind, self.op0_imm)
        &&& self.op_count > 1 ==> self.operand_ok(self.op1_kind, self.op1_imm)
        &&& self.op_count > 2 ==> self.operand_ok(self.op2_kind, self.op2_imm)
        &&& self.op_count > 3 ==> self.operand_ok(self.op3_kind, self.op3_imm)
    }

    /// Whether two records name the same instruction form: the same code and
    /// mnemonic, and the same kinds and registers in their operand slots.
    pub open spec fn same_form(self, other: Instruction) -> bool {
        &&& self.code == other.code
        &&& self.mnemonic == other.mnemonic
        &&& self.op_count == other.op_count
        &&& self.op0_kind == other.op0_kind
        &&& self.op1_kind == other.op1_kind
        &&& self.op2_kind == other.op2_kind
        &&& self.op3_kind == other.op3_kind
        &&& self.op0_reg == other.op0_reg
        &&& self.op1_reg == other.op1_reg
        &&& self.op2_reg == other.op2_reg
        &&& self.op3_reg == other.op3_reg
    }

    /// Whether the record stands for no valid instruction.
    pub open spec fn invalid(self) -> bool {
        self.code == Code::INVALID || self.code == Code::Undefined
    }

    /// Whether the record stands for no valid instruction (`INVALID` or `Undefined`).
    pub fn is_invalid(&self) -> (r: bool)
        ensures
            r == self.invalid(),
    {
        matches!(self.code, Code::INVALID | Code::Undefined)
    }

    /// The empty record with address, raw word, code and mnemonic filled in.
    #[verifier::when_used_as_spec(meta)]
    pub(crate) fn with_meta(vaddr: u64, raw: u32, code: Code, mnemonic: Mnemonic) -> (r: Self)
        ensures
            r == Instruction::meta(vaddr, raw, code, mnemonic),
    {
        Instruction { vaddr, raw, code, mnemonic, ..Self::default() }
    }
}

impl Default for Instruction {
    fn default() -> (r: Self)
        ensures
            r == Instruction::empty(),
    {
        Self {
            vaddr: 0,
            raw: 0,
            len: 4,
            code: Code::INVALID,
            mnemonic: Mnemonic::Invalid,
            op_count: 0,
            op0_kind: OpKind::Absent,
            op0_reg: Register::Absent,
            op0_imm: 0,
            op1_kind: OpKind::Absent,
            op1_reg: Register::Absent,
            op1_imm: 0,
            op2_kind: OpKind::Absent,
            op2_reg: Register::Absent,
            op2_imm: 0,
            op3_kind: OpKind::Absent,
            op3_reg: Register::Absent,
            op3_imm: 0,
            memory_base: Register::Absent,
            memory_index: Register::Absent,
            memory_offset: 0,
            memory_index_shift: 0,
            mem_mode: MemMode::Absent,
            shift_kind: ShiftKind::Absent,
            shift_amount: 0,
            extend_kind: ExtendKind::Absent,
            extend_amount: 0,
            condition: Condition::Al,
            near_branch_target: 0,
            arrangement: Arrangement::Absent,
            vector_index: 0,
            is_conditional_branch: false,
        }
    }
}

} // verus!
