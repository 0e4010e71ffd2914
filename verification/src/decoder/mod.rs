//! Table-driven A64 decoder: the primary dispatch on bits [28:25] selects one of the
//! instruction groups, each decoded in a module of its own.

pub mod branch_sys;
pub mod dp_imm;
pub mod dp_reg;
pub mod ldst;
pub mod simd_fp;

use crate::enums::{Arrangement, Code, OpKind, Register};
use crate::helpers::{bits, field, sext, sign_extend};
use crate::instruction::Instruction;
use crate::mnemonic::Mnemonic;
use vstd::prelude::*;

verus! {

/// The record of an instruction word that decodes to nothing: mnemonic `undefined`,
/// with the raw word as its only (immediate) operand.
pub open spec fn undefined(vaddr: u64, raw: u32) -> Instruction {
    Instruction {
        op_count: 1,
        op0_kind: OpKind::Immediate,
        op0_imm: raw as u64,
        ..Instruction::meta(vaddr, raw, Code::Undefined, Mnemonic::Undefined)
    }
}

/// The record of an instruction word that decodes to nothing.
pub(crate) fn undef(vaddr: u64, raw: u32) -> (r: Instruction)
    ensures
        r == undefined(vaddr, raw),
{
    let mut i = Instruction::with_meta(vaddr, raw, Code::Undefined, Mnemonic::Undefined);
    i.op_count = 1;
    i.op0_kind = OpKind::Immediate;
    i.op0_imm = raw as u64;
    i
}

/// Whether `i` is a sound decoding of `raw` at `vaddr`: well formed, and either the
/// `undefined` record or one with a code and mnemonic other than `Undefined` and
/// `INVALID` / `Invalid`.
pub open spec fn decoded_ok(i: Instruction, vaddr: u64, raw: u32) -> bool {
    &&& i.well_formed()
    &&& (i == undefined(vaddr, raw) || (i.code != Code::Undefined && i.code != Code::INVALID && i.mnemonic
        != Mnemonic::Undefined && i.mnemonic != Mnemonic::Invalid))
}

/// The base register field (bits [9:5]) names an address register.
pub(crate) proof fn lemma_base_facts(raw: u32)
    ensures
        field(raw, 9, 5) < 32,
        Register::gpr_at(true, field(raw, 9, 5), true).is_address_register(),
{
    assert(field(raw, 9, 5) < 32) by (bit_vector);
    let n = field(raw, 9, 5);
    if n != 31 {
        assert(Register::gpr_at(true, n, true) == Register::x_at(n));
    }
}

/// `vaddr` plus the signed `width`-bit word offset `imm` (a byte offset of `4 * imm`),
/// modulo 2^64.
pub open spec fn rel_target(vaddr: u64, imm: u32, width: u32) -> u64 {
    vaddr.wrapping_add_signed(sext(((imm as u64) * 4) as u64, (width + 2) as u32) as i64)
}

/// `vaddr` plus the signed `width`-bit word offset `imm`, modulo 2^64.
pub(crate) fn branch_target(vaddr: u64, imm: u32, width: u32) -> (r: u64)
    requires
        1 <= width <= 30,
    ensures
        r == rel_target(vaddr, imm, width),
{
    let wide = imm as u64;
    assert(wide < 0x1_0000_0000 ==> wide << 2 == wide * 4) by (bit_vector);
    vaddr.wrapping_add_signed(sign_extend(wide << 2, width + 2))
}

/// Vector arrangement by `Q` and element `size`: 8B/16B, 4H/8H, 2S/4S, 1D/2D.
pub open spec fn arrangement_of(q: u32, size: u32) -> Arrangement {
    if q == 0 && size == 0 {
        Arrangement::B8
    } else if q == 1 && size == 0 {
        Arrangement::B16
    } else if q == 0 && size == 1 {
        Arrangement::H4
    } else if q == 1 && size == 1 {
        Arrangement::H8
    } else if q == 0 && size == 2 {
        Arrangement::S2
    } else if q == 1 && size == 2 {
        Arrangement::S4
    } else if q == 0 && size == 3 {
        Arrangement::D1
    } else if q == 1 && size == 3 {
        Arrangement::D2
    } else {
        Arrangement::Absent
    }
}

/// Vector arrangement by `Q` and element `size`.
#[verifier::when_used_as_spec(arrangement_of)]
pub(crate) fn arrangement(q: u32, size: u32) -> (r: Arrangement)
    ensures
        r == arrangement_of(q, size),
{
    match (q, size) {
        (0, 0) => Arrangement::B8,
        (1, 0) => Arrangement::B16,
        (0, 1) => Arrangement::H4,
        (1, 1) => Arrangement::H8,
        (0, 2) => Arrangement::S2,
        (1, 2) => Arrangement::S4,
        (0, 3) => Arrangement::D1,
        (1, 3) => Arrangement::D2,
        _ => Arrangement::Absent,
    }
}

/// Decoding of one instruction word at address `vaddr`: the primary dispatch on
/// bits [28:25] (`op0`) picks the instruction group.
pub open spec fn decode_spec(vaddr: u64, raw: u32) -> Instruction {
    let op0 = field(raw, 28, 25);
    if op0 == 0b1000 || op0 == 0b1001 {
        dp_imm::dp_imm_spec(vaddr, raw)
    } else if op0 == 0b1010 || op0 == 0b1011 {
        branch_sys::branch_sys_spec(vaddr, raw)
    } else if op0 == 0b0100 || op0 == 0b0110 || op0 == 0b1100 || op0 == 0b1110 || op0 == 0b0011 {
        ldst::ldst_spec(vaddr, raw)
    } else if op0 == 0b0101 || op0 == 0b1101 {
        dp_reg::dp_reg_spec(vaddr, raw)
    } else if op0 == 0b0111 || op0 == 0b1111 {
        simd_fp::simd_fp_spec(vaddr, raw)
    } else {
        undefined(vaddr, raw)
    }
}

/// Every word, whatever its group, decodes to a record of itself.
pub(crate) proof fn lemma_decode_records(vaddr: u64, raw: u32)
    ensures
        decode_spec(vaddr, raw).records(vaddr, raw),
{
    dp_imm::lemma_records(vaddr, raw);
    branch_sys::lemma_records(vaddr, raw);
    ldst::lemma_records(vaddr, raw);
    dp_reg::lemma_records(vaddr, raw);
    simd_fp::lemma_records(vaddr, raw);
}

/// Every word decodes soundly.
pub(crate) proof fn lemma_decode_ok(vaddr: u64, raw: u32)
    ensures
        decoded_ok(decode_spec(vaddr, raw), vaddr, raw),
{
    dp_imm::lemma_ok_dp_imm_spec(vaddr, raw);
    branch_sys::lemma_ok_branch_sys_spec(vaddr, raw);
    ldst::lemma_ok_ldst_spec(vaddr, raw);
    dp_reg::lemma_ok_dp_reg_spec(vaddr, raw);
    simd_fp::lemma_ok_simd_fp_spec(vaddr, raw);
    lemma_base_facts(raw);
}

/// The form a word decodes to does not depend on its address.
pub(crate) proof fn lemma_decode_same_form(v1: u64, v2: u64, raw: u32)
    ensures
        decode_spec(v1, raw).same_form(decode_spec(v2, raw)),
{
    dp_imm::lemma_same_form(v1, v2, raw);
    branch_sys::lemma_same_form(v1, v2, raw);
    ldst::lemma_same_form(v1, v2, raw);
    dp_reg::lemma_same_form(v1, v2, raw);
    simd_fp::lemma_same_form(v1, v2, raw);
}

/// Decodes the instruction word `raw` found at address `vaddr`.
pub fn decode_raw(vaddr: u64, raw: u32) -> (r: Instruction)
    ensures
        r == decode_spec(vaddr, raw),
{
    let op0 = bits(raw, 28, 25);
    match op0 {
        0b1000 | 0b1001 => dp_imm::decode(vaddr, raw),
        0b1010 | 0b1011 => branch_sys::decode(vaddr, raw),
        0b0100 | 0b0110 | 0b1100 | 0b1110 => ldst::decode(vaddr, raw),
        // LDAPUR / STLUR (unscaled ordered) live in op0 = 0011
        0b0011 => ldst::decode(vaddr, raw),
        0b0101 | 0b1101 => dp_reg::decode(vaddr, raw),
        0b0111 | 0b1111 => simd_fp::decode(vaddr, raw),
        _ => undef(vaddr, raw),
    }
}

/// The little-endian 32-bit word made of the bytes `b0` (lowest) to `b3` (highest).
pub open spec fn le_word(b0: u8, b1: u8, b2: u8, b3: u8) -> u32 {
    (b0 + 0x100 * b1 + 0x1_0000 * b2 + 0x100_0000 * b3) as u32
}

/// The little-endian word at byte `p` of `bytes`.
pub open spec fn word_at(bytes: Seq<u8>, p: int) -> u32 {
    le_word(bytes[p], bytes[p + 1], bytes[p + 2], bytes[p + 3])
}

/// A cursor over a byte buffer of A64 code: the next instruction is read at byte
/// offset `position()` and is taken to live at address `ip()`.
pub struct Decoder<'a> {
    code: &'a [u8],
    ip: u64,
    pos: usize,
}

impl<'a> Decoder<'a> {
    /// The bytes being decoded.
    pub closed spec fn bytes(&self) -> Seq<u8> {
        self.code@
    }

    /// The address of the next instruction.
    pub closed spec fn next_ip(&self) -> u64 {
        self.ip
    }

    /// The byte offset of the next instruction.
    pub closed spec fn offset(&self) -> nat {
        self.pos as nat
    }

    /// Whether a whole instruction word remains at the current offset.
    pub open spec fn has_word(&self) -> bool {
        self.offset() + 4 <= self.bytes().len()
    }

    /// The little-endian word at the current offset.
    pub open spec fn next_word(&self) -> u32
        recommends
            self.has_word(),
    {
        word_at(self.bytes(), self.offset() as int)
    }

    /// Whether `next` is this decoder after one `decode` that found a word: the same
    /// bytes, four bytes further, an address four higher (modulo 2^64).
    pub open spec fn steps_to(&self, next: Decoder<'a>) -> bool {
        &&& self.has_word()
        &&& next.bytes() == self.bytes()
        &&& next.offset() == self.offset() + 4
        &&& next.next_ip() == self.next_ip().wrapping_add(4)
    }

    /// What the next call of `decode` returns: the decoding of the next word, or the
    /// empty record once the buffer is exhausted.
    pub open spec fn next_instruction(&self) -> Instruction {
        if self.has_word() {
            decode_spec(self.next_ip(), self.next_word())
        } else {
            Instruction::empty()
        }
    }

    /// A decoder over `code` whose first instruction lives at address `ip`.
    pub fn new(code: &'a [u8], ip: u64) -> (r: Self)
        ensures
            r.bytes() == code@,
            r.next_ip() == ip,
            r.offset() == 0,
    {
        Self { code, ip, pos: 0 }
    }

    /// The address of the next instruction.
    pub fn ip(&self) -> (r: u64)
        ensures
            r == self.next_ip(),
    {
        self.ip
    }

    /// Moves the address of the next instruction to `ip`; the offset is kept.
    pub fn set_ip(&mut self, ip: u64)
        ensures
            final(self).next_ip() == ip,
            final(self).bytes() == old(self).bytes(),
            final(self).offset() == old(self).offset(),
    {
        self.ip = ip;
    }

    /// The byte offset of the next instruction.
    pub fn position(&self) -> (r: usize)
        ensures
            r == self.offset(),
    {
        self.pos
    }

    /// Whether at least four bytes remain from the current offset.
    pub fn can_decode(&self) -> (r: bool)
        ensures
            r == self.has_word(),
    {
        self.code.len() >= 4 && self.pos <= self.code.len() - 4
    }

    /// Decodes the next instruction into `instruction`, as `decode` does.
    pub fn decode_out(&mut self, instruction: &mut Instruction)
        ensures
            *final(instruction) == old(self).next_instruction(),
            final(self).bytes() == old(self).bytes(),
            old(self).has_word() ==> old(self).steps_to(*final(self)),
            !old(self).has_word() ==> final(self).offset() == old(self).offset()
                && final(self).next_ip() == old(self).next_ip(),
    {
        *instruction = self.decode();
    }

    /// Decodes the next instruction and moves past it: four bytes further and an
    /// address four higher (modulo 2^64). With fewer than four bytes left, returns the
    /// empty record and changes nothing.
    pub fn decode(&mut self) -> (r: Instruction)
        ensures
            r == old(self).next_instruction(),
            final(self).bytes() == old(self).bytes(),
            old(self).has_word() ==> old(self).steps_to(*final(self)),
            !old(self).has_word() ==> final(self).offset() == old(self).offset()
                && final(self).next_ip() == old(self).next_ip(),
    {
        if !self.can_decode() {
            return Instruction::default();
        }
        let p = self.pos;
        let b0 = self.code[p];
        let b1 = self.code[p + 1];
        let b2 = self.code[p + 2];
        let b3 = self.code[p + 3];
        let raw = (b0 as u32) | ((b1 as u32) << 8u32) | ((b2 as u32) << 16u32) | ((b3 as u32) << 24u32);
        assert((b0 as u32) | ((b1 as u32) << 8u32) | ((b2 as u32) << 16u32) | ((b3 as u32) << 24u32)
            == (b0 + 0x100 * b1 + 0x1_0000 * b2 + 0x100_0000 * b3) as u32) by (bit_vector);
        let vaddr = self.ip;
        self.pos = p + 4;
        self.ip = self.ip.wrapping_add(4);
        decode_raw(vaddr, raw)
    }
}

} // verus!
