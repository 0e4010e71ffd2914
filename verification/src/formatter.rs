//! Rendering of decoded instructions as assembler text, separate from the decoder.

use crate::enums::{ExtendKind, MemMode, OpKind, Register, ShiftKind};
use crate::instruction::Instruction;
use crate::mnemonic::Mnemonic;
use vstd::prelude::*;

verus! {

/// Names code addresses: a branch target for which `resolve` gives a name is
/// written as that name.
pub trait SymbolResolver {
    fn resolve(&self, vaddr: u64) -> Option<&str>;
}

/// The resolver that knows no names.
impl SymbolResolver for () {
    fn resolve(&self, _vaddr: u64) -> (r: Option<&str>)
        ensures
            r is None,
    {
        None
    }
}

/// A sink for text. A sink that `keeps_text` has its text in `written`, and each
/// `write_str` succeeds and appends what it is given; of any other sink nothing is
/// known.
pub trait FmtWrite {
    /// Whether this sink keeps the text it is given in `written`.
    open spec fn keeps_text(&self) -> bool {
        false
    }

    /// The text this sink holds.
    open spec fn written(&self) -> Seq<char> {
        Seq::empty()
    }

    fn write_str(&mut self, s: &str) -> (r: core::fmt::Result)
        ensures
            old(self).keeps_text() ==> r is Ok && final(self).keeps_text() && final(self).written() == old(
                self,
            ).written() + s@,
    ;
}

/// `core::fmt::Error`, what a text sink reports on failure: carried as an opaque value.
#[verifier::external_type_specification]
#[verifier::external_body]
pub struct ExFmtError(core::fmt::Error);

/// A `String` sink appends what it is given and never fails.
impl FmtWrite for String {
    open spec fn keeps_text(&self) -> bool {
        true
    }

    open spec fn written(&self) -> Seq<char> {
        self@
    }

    fn write_str(&mut self, s: &str) -> (r: core::fmt::Result)
        ensures
            final(self)@ == old(self)@ + s@,
            r is Ok,
    {
        self.append(s);
        Ok(())
    }
}

/// The hexadecimal digit of value `d` (below 16), in upper or lower case.
pub open spec fn hex_digit(d: nat, upper: bool) -> char {
    if d == 0 {
        '0'
    } else if d == 1 {
        '1'
    } else if d == 2 {
        '2'
    } else if d == 3 {
        '3'
    } else if d == 4 {
        '4'
    } else if d == 5 {
        '5'
    } else if d == 6 {
        '6'
    } else if d == 7 {
        '7'
    } else if d == 8 {
        '8'
    } else if d == 9 {
        '9'
    } else if d == 10 {
        if upper { 'A' } else { 'a' }
    } else if d == 11 {
        if upper { 'B' } else { 'b' }
    } else if d == 12 {
        if upper { 'C' } else { 'c' }
    } else if d == 13 {
        if upper { 'D' } else { 'd' }
    } else if d == 14 {
        if upper { 'E' } else { 'e' }
    } else if d == 15 {
        if upper { 'F' } else { 'f' }
    } else {
        '?'
    }
}

/// The hexadecimal digit of value `d` as a one-character string.
fn digit_str(d: u64, upper: bool) -> (r: &'static str)
    requires
        d < 16,
    ensures
        r@ == seq![hex_digit(d as nat, upper)],
{
    match d {
        0 => {
            proof { reveal_strlit("0"); }
            "0"
        },
        1 => {
            proof { reveal_strlit("1"); }
            "1"
        },
        2 => {
            proof { reveal_strlit("2"); }
            "2"
        },
        3 => {
            proof { reveal_strlit("3"); }
            "3"
        },
        4 => {
            proof { reveal_strlit("4"); }
            "4"
        },
        5 => {
            proof { reveal_strlit("5"); }
            "5"
        },
        6 => {
            proof { reveal_strlit("6"); }
            "6"
        },
        7 => {
            proof { reveal_strlit("7"); }
            "7"
        },
        8 => {
            proof { reveal_strlit("8"); }
            "8"
        },
        9 => {
            proof { reveal_strlit("9"); }
            "9"
        },
        10 => if upper {
            proof { reveal_strlit("A"); }
            "A"
        } else {
            proof { reveal_strlit("a"); }
            "a"
        },
        11 => if upper {
            proof { reveal_strlit("B"); }
            "B"
        } else {
            proof { reveal_strlit("b"); }
            "b"
        },
        12 => if upper {
            proof { reveal_strlit("C"); }
            "C"
        } else {
            proof { reveal_strlit("c"); }
            "c"
        },
        13 => if upper {
            proof { reveal_strlit("D"); }
            "D"
        } else {
            proof { reveal_strlit("d"); }
            "d"
        },
        14 => if upper {
            proof { reveal_strlit("E"); }
            "E"
        } else {
            proof { reveal_strlit("e"); }
            "e"
        },
        _ => if upper {
            proof { reveal_strlit("F"); }
            "F"
        } else {
            proof { reveal_strlit("f"); }
            "f"
        },
    }
}

/// Decimal spelling of `n`, without leading zeros.
pub open spec fn decimal_text(n: nat) -> Seq<char>
    decreases n,
{
    if n < 10 {
        seq![hex_digit(n, false)]
    } else {
        decimal_text(n / 10).push(hex_digit(n % 10, false))
    }
}

/// Hexadecimal spelling of `n`, without leading zeros.
pub open spec fn hex_text(n: nat, upper: bool) -> Seq<char>
    decreases n,
{
    if n < 16 {
        seq![hex_digit(n, upper)]
    } else {
        hex_text(n / 16, upper).push(hex_digit(n % 16, upper))
    }
}

/// Decimal spelling of a signed number: a minus sign before the magnitude.
pub open spec fn signed_text(v: int) -> Seq<char> {
    if v < 0 {
        seq!['-'] + decimal_text((-v) as nat)
    } else {
        decimal_text(v as nat)
    }
}

/// Whether the sink `after` holds what `before` held followed by `t`, wherever
/// `before` keeps its text.
pub open spec fn gains<W: FmtWrite>(before: W, after: W, t: Seq<char>) -> bool {
    before.keeps_text() ==> after.keeps_text() && after.written() == before.written() + t
}

/// Writes `s` to the sink as a piece of its own; a failure is ignored.
fn put<W: FmtWrite>(out: &mut W, s: &str)
    ensures
        gains(*old(out), *final(out), s@),
{
    let _ = out.write_str(s);
}

/// Writes `s` as the next piece of a group that stops at its first failure: only
/// while `ok`, the group has not failed yet. Whether the group still stands.
fn put_if<W: FmtWrite>(out: &mut W, ok: bool, s: &str) -> (r: bool)
    ensures
        ok && old(out).keeps_text() ==> r && gains(*old(out), *final(out), s@),
        !ok ==> !r && *final(out) == *old(out),
{
    if ok {
        out.write_str(s).is_ok()
    } else {
        false
    }
}

/// Writes the decimal spelling of `n`.
fn push_decimal<W: FmtWrite>(out: &mut W, n: u64)
    ensures
        gains(*old(out), *final(out), decimal_text(n as nat)),
    decreases n,
{
    let ghost w0 = *out;
    if n >= 10 {
        push_decimal(out, n / 10);
    }
    put(out, digit_str(n % 10, false));
    proof {
        if w0.keeps_text() {
            assert(out.written() =~= w0.written() + decimal_text(n as nat));
        }
    }
}

/// Writes the hexadecimal spelling of `n`.
fn push_hex<W: FmtWrite>(out: &mut W, n: u64, upper: bool)
    ensures
        gains(*old(out), *final(out), hex_text(n as nat, upper)),
    decreases n,
{
    let ghost w0 = *out;
    if n >= 16 {
        push_hex(out, n / 16, upper);
    }
    put(out, digit_str(n % 16, upper));
    proof {
        if w0.keeps_text() {
            assert(out.written() =~= w0.written() + hex_text(n as nat, upper));
        }
    }
}

/// The decimal spelling of `n`, as one string.
fn decimal_string(n: u64) -> (r: String)
    ensures
        r@ == decimal_text(n as nat),
{
    let mut s = String::new();
    push_decimal(&mut s, n);
    s
}

/// The hexadecimal spelling of `n`, as one string.
fn hex_string(n: u64, upper: bool) -> (r: String)
    ensures
        r@ == hex_text(n as nat, upper),
{
    let mut s = String::new();
    push_hex(&mut s, n, upper);
    s
}

/// Writes the signed decimal spelling of `v` as the next pieces of a group: the
/// minus sign and the magnitude. Whether the group still stands.
fn put_signed<W: FmtWrite>(out: &mut W, ok: bool, v: i32) -> (r: bool)
    ensures
        ok && old(out).keeps_text() ==> r && gains(*old(out), *final(out), signed_text(v as int)),
        !ok ==> !r && *final(out) == *old(out),
{
    let ghost w0 = *out;
    let mut ok = ok;
    let digits = if v < 0 {
        proof { reveal_strlit("-"); }
        ok = put_if(out, ok, "-");
        decimal_string((-(v as i64)) as u64)
    } else {
        decimal_string(v as u64)
    };
    let r = put_if(out, ok, digits.as_str());
    proof {
        if w0.keeps_text() && r {
            assert(out.written() =~= w0.written() + signed_text(v as int));
        }
    }
    r
}

/// Kind, register and immediate of operand slot `idx`; every index from 3 on reads
/// the last slot.
pub open spec fn slot_kind(ins: Instruction, idx: int) -> OpKind {
    if idx == 0 {
        ins.op0_kind
    } else if idx == 1 {
        ins.op1_kind
    } else if idx == 2 {
        ins.op2_kind
    } else {
        ins.op3_kind
    }
}

/// Register of operand slot `idx` (the last slot from index 3 on).
pub open spec fn slot_reg(ins: Instruction, idx: int) -> Register {
    if idx == 0 {
        ins.op0_reg
    } else if idx == 1 {
        ins.op1_reg
    } else if idx == 2 {
        ins.op2_reg
    } else {
        ins.op3_reg
    }
}

/// Immediate of operand slot `idx` (the last slot from index 3 on).
pub open spec fn slot_imm(ins: Instruction, idx: int) -> u64 {
    if idx == 0 {
        ins.op0_imm
    } else if idx == 1 {
        ins.op1_imm
    } else if idx == 2 {
        ins.op2_imm
    } else {
        ins.op3_imm
    }
}

/// Mnemonics written with their condition after the operands.
pub open spec fn takes_condition_suffix(m: Mnemonic) -> bool {
    m == Mnemonic::Csel || m == Mnemonic::Csinc || m == Mnemonic::Csinv || m == Mnemonic::Csneg
        || m == Mnemonic::Ccmp || m == Mnemonic::Ccmn || m == Mnemonic::Cset || m == Mnemonic::Csetm
        || m == Mnemonic::Cinc || m == Mnemonic::Cinv || m == Mnemonic::Cneg
}

/// Mnemonics of the move-wide group, whose immediate carries its shift.
pub open spec fn is_move_wide(m: Mnemonic) -> bool {
    m == Mnemonic::Movz || m == Mnemonic::Movk || m == Mnemonic::Movn
}

/// The mnemonic as written: `b.<cond>` for a conditional branch.
pub open spec fn mnemonic_text(ins: Instruction) -> Seq<char> {
    if ins.mnemonic == Mnemonic::Bcond {
        seq!['b', '.'] + ins.condition.text()
    } else {
        ins.mnemonic.text()
    }
}

/// `, <shift> #<amount>`.
pub open spec fn shift_suffix(ins: Instruction) -> Seq<char> {
    seq![',', ' '] + ins.shift_kind.text() + seq![' ', '#'] + decimal_text(ins.shift_amount as nat)
}

/// `, <extend>` and ` #<amount>` when the amount is not zero.
pub open spec fn extend_suffix(ins: Instruction, amount: u8) -> Seq<char> {
    seq![',', ' '] + ins.extend_kind.text() + if amount != 0 {
        seq![' ', '#'] + decimal_text(amount as nat)
    } else {
        seq![]
    }
}

/// What follows the last register operand: its shift, else its extend.
pub open spec fn register_suffix(ins: Instruction) -> Seq<char> {
    if ins.shift_kind != ShiftKind::Absent {
        shift_suffix(ins)
    } else if ins.extend_kind != ExtendKind::Absent {
        extend_suffix(ins, ins.extend_amount)
    } else {
        seq![]
    }
}

/// The index register of a register-offset address with its extend or shift.
pub open spec fn index_text(ins: Instruction) -> Seq<char> {
    ins.memory_index.name() + if ins.extend_kind != ExtendKind::Absent {
        extend_suffix(ins, ins.memory_index_shift)
    } else if ins.memory_index_shift != 0 {
        seq![',', ' ', 'l', 's', 'l', ' ', '#'] + decimal_text(ins.memory_index_shift as nat)
    } else {
        seq![]
    }
}

/// A memory operand by addressing mode: `[base], #off`, `[base, #off]!`,
/// `[base, index{, ext}]`, or `[base{, #off}]`.
pub open spec fn memory_text(ins: Instruction) -> Seq<char> {
    let base = ins.memory_base.name();
    let off = signed_text(ins.memory_offset as int);
    match ins.mem_mode {
        MemMode::PostIndex => seq!['['] + base + seq![']', ',', ' ', '#'] + off,
        MemMode::PreIndex => seq!['['] + base + seq![',', ' ', '#'] + off + seq![']', '!'],
        MemMode::Register => seq!['['] + base + seq![',', ' '] + index_text(ins) + seq![']'],
        _ => seq!['['] + base + (if ins.memory_offset != 0 {
            seq![',', ' ', '#'] + off
        } else {
            seq![]
        }) + seq![']'],
    }
}

/// The name handed for operand `idx`, if any.
pub open spec fn label_at(labels: Seq<Option<Seq<char>>>, idx: int) -> Option<Seq<char>> {
    if 0 <= idx < labels.len() {
        labels[idx]
    } else {
        None
    }
}

/// The views of the names handed to `format_resolved`.
pub open spec fn label_views(names: Seq<Option<&str>>) -> Seq<Option<Seq<char>>> {
    Seq::new(
        names.len(),
        |i: int|
            match names[i] {
                Some(s) => Some(s@),
                None => None,
            },
    )
}

/// Options of the assembler text: immediates in hexadecimal with a `0x` prefix (or
/// in decimal), hexadecimal digits in upper or lower case.
pub struct Formatter {
    pub hex_prefix: bool,
    pub uppercase_hex: bool,
}

impl Default for Formatter {
    fn default() -> (r: Self)
        ensures
            r.hex_prefix,
            !r.uppercase_hex,
    {
        Self { hex_prefix: true, uppercase_hex: false }
    }
}

impl Formatter {
    /// An immediate: `#0x<hex>` or `#<decimal>`.
    pub open spec fn imm_text(self, imm: u64) -> Seq<char> {
        if self.hex_prefix {
            seq!['#', '0', 'x'] + hex_text(imm as nat, self.uppercase_hex)
        } else {
            seq!['#'] + decimal_text(imm as nat)
        }
    }

    /// Operand `idx`, with `label` as the name of a branch target.
    pub open spec fn operand_text(self, ins: Instruction, idx: int, label: Option<Seq<char>>) -> Seq<char> {
        let imm = slot_imm(ins, idx);
        match slot_kind(ins, idx) {
            OpKind::Absent => seq![],
            OpKind::Register => slot_reg(ins, idx).name() + if idx + 1 == ins.op_count {
                register_suffix(ins)
            } else {
                seq![]
            },
            OpKind::Immediate | OpKind::SystemRegister => self.imm_text(imm) + if is_move_wide(ins.mnemonic)
                && ins.shift_kind != ShiftKind::Absent {
                shift_suffix(ins)
            } else {
                seq![]
            },
            OpKind::NearBranch => match label {
                Some(name) => name,
                None => self.imm_text(imm),
            },
            OpKind::Memory => memory_text(ins),
        }
    }

    /// The first `n` operands, separated by `, `.
    pub open spec fn operands_text(self, ins: Instruction, n: int, labels: Seq<Option<Seq<char>>>) -> Seq<char>
        decreases n,
    {
        if n <= 0 {
            seq![]
        } else {
            self.operands_text(ins, n - 1, labels) + (if n > 1 {
                seq![',', ' ']
            } else {
                seq![]
            }) + self.operand_text(ins, n - 1, label_at(labels, n - 1))
        }
    }

    /// The assembler text of `ins`, with `labels[i]` as the name of operand `i` where
    /// that operand is a branch target: mnemonic, then the operands after a space,
    /// then the condition of a conditional select or compare.
    pub open spec fn text(self, ins: Instruction, labels: Seq<Option<Seq<char>>>) -> Seq<char> {
        if ins.op_count == 0 {
            mnemonic_text(ins)
        } else {
            mnemonic_text(ins) + seq![' '] + self.operands_text(ins, ins.op_count as int, labels) + if takes_condition_suffix(
                ins.mnemonic,
            ) {
                seq![',', ' '] + ins.condition.text()
            } else {
                seq![]
            }
        }
    }

    /// Hexadecimal immediates with a `0x` prefix, lower-case digits.
    pub fn new() -> (r: Self)
        ensures
            r.hex_prefix,
            !r.uppercase_hex,
    {
        Self::default()
    }

    /// Writes an immediate as one group: `#`, then `0x` and the hexadecimal digits,
    /// or the decimal digits.
    fn push_imm<W: FmtWrite>(&self, out: &mut W, imm: u64)
        ensures
            gains(*old(out), *final(out), self.imm_text(imm)),
    {
        let ghost w0 = *out;
        proof { reveal_strlit("#"); reveal_strlit("0x"); }
        let ok = put_if(out, true, "#");
        if self.hex_prefix {
            let ok = put_if(out, ok, "0x");
            let digits = hex_string(imm, self.uppercase_hex);
            let _ = put_if(out, ok, digits.as_str());
        } else {
            let digits = decimal_string(imm);
            let _ = put_if(out, ok, digits.as_str());
        }
        proof {
            if w0.keeps_text() {
                assert(out.written() =~= w0.written() + self.imm_text(imm));
            }
        }
    }
}

/// Two choices of names give the same first `n` operands when they agree on every
/// operand among them that is a branch target.
pub(crate) proof fn lemma_operands_agree(
    f: Formatter,
    ins: Instruction,
    n: int,
    l1: Seq<Option<Seq<char>>>,
    l2: Seq<Option<Seq<char>>>,
)
    requires
        forall|i: int|
            0 <= i < n && #[trigger] slot_kind(ins, i) == OpKind::NearBranch ==> label_at(l1, i) == label_at(l2, i),
    ensures
        f.operands_text(ins, n, l1) == f.operands_text(ins, n, l2),
    decreases n,
{
    if n > 0 {
        lemma_operands_agree(f, ins, n - 1, l1, l2);
        assert(f.operand_text(ins, n - 1, label_at(l1, n - 1)) == f.operand_text(ins, n - 1, label_at(l2, n - 1)))
            by {
            if slot_kind(ins, n - 1) == OpKind::NearBranch {
                assert(label_at(l1, n - 1) == label_at(l2, n - 1));
            }
        }
    }
}

/// Writes `, <shift> #<amount>` as one group.
fn push_shift_suffix<W: FmtWrite>(out: &mut W, ins: &Instruction)
    ensures
        gains(*old(out), *final(out), shift_suffix(*ins)),
{
    let ghost w0 = *out;
    proof { reveal_strlit(", "); reveal_strlit(" #"); }
    let ok = put_if(out, true, ", ");
    let ok = put_if(out, ok, ins.shift_kind.as_str());
    let ok = put_if(out, ok, " #");
    let digits = decimal_string(ins.shift_amount as u64);
    let _ = put_if(out, ok, digits.as_str());
    proof {
        if w0.keeps_text() {
            assert(out.written() =~= w0.written() + shift_suffix(*ins));
        }
    }
}

/// Writes `, <extend>` as one group, then ` #<amount>` as another when the amount is
/// not zero.
fn push_extend_suffix<W: FmtWrite>(out: &mut W, ins: &Instruction, amount: u8)
    ensures
        gains(*old(out), *final(out), extend_suffix(*ins, amount)),
{
    let ghost w0 = *out;
    proof { reveal_strlit(", "); reveal_strlit(" #"); }
    let ok = put_if(out, true, ", ");
    let _ = put_if(out, ok, ins.extend_kind.as_str());
    if amount != 0 {
        let ok = put_if(out, true, " #");
        let digits = decimal_string(amount as u64);
        let _ = put_if(out, ok, digits.as_str());
    }
    proof {
        if w0.keeps_text() {
            assert(out.written() =~= w0.written() + extend_suffix(*ins, amount));
        }
    }
}

/// Writes what follows the last register operand.
fn push_register_suffix<W: FmtWrite>(out: &mut W, ins: &Instruction)
    ensures
        gains(*old(out), *final(out), register_suffix(*ins)),
{
    if ins.shift_kind != ShiftKind::Absent {
        push_shift_suffix(out, ins);
    } else if ins.extend_kind != ExtendKind::Absent {
        push_extend_suffix(out, ins, ins.extend_amount);
    } else {
        assert(out.written() =~= out.written() + register_suffix(*ins));
    }
}

/// Writes a post-indexed memory operand: `[base]`, then `, #off`.
fn push_post_index<W: FmtWrite>(out: &mut W, ins: &Instruction)
    requires
        ins.mem_mode == MemMode::PostIndex,
    ensures
        gains(*old(out), *final(out), memory_text(*ins)),
{
    let ghost w0 = *out;
    proof { reveal_strlit("["); reveal_strlit("]"); reveal_strlit(", #"); }
    let ok = put_if(out, true, "[");
    let ok = put_if(out, ok, ins.memory_base.as_str());
    let _ = put_if(out, ok, "]");
    let ok = put_if(out, true, ", #");
    let _ = put_signed(out, ok, ins.memory_offset);
    proof {
        if w0.keeps_text() {
            assert(out.written() =~= w0.written() + memory_text(*ins));
        }
    }
}

/// Writes a pre-indexed memory operand as one group: `[base, #off]!`.
fn push_pre_index<W: FmtWrite>(out: &mut W, ins: &Instruction)
    requires
        ins.mem_mode == MemMode::PreIndex,
    ensures
        gains(*old(out), *final(out), memory_text(*ins)),
{
    let ghost w0 = *out;
    proof { reveal_strlit("["); reveal_strlit(", #"); reveal_strlit("]!"); }
    let ok = put_if(out, true, "[");
    let ok = put_if(out, ok, ins.memory_base.as_str());
    let ok = put_if(out, ok, ", #");
    let ok = put_signed(out, ok, ins.memory_offset);
    let _ = put_if(out, ok, "]!");
    proof {
        if w0.keeps_text() {
            assert(out.written() =~= w0.written() + memory_text(*ins));
        }
    }
}

/// Writes a register-offset memory operand: `[base, index`, its extend or shift,
/// and `]`.
fn push_register_offset<W: FmtWrite>(out: &mut W, ins: &Instruction)
    requires
        ins.mem_mode == MemMode::Register,
    ensures
        gains(*old(out), *final(out), memory_text(*ins)),
{
    let ghost w0 = *out;
    proof { reveal_strlit("["); reveal_strlit("]"); reveal_strlit(", "); reveal_strlit(", lsl #"); }
    let ok = put_if(out, true, "[");
    let ok = put_if(out, ok, ins.memory_base.as_str());
    let ok = put_if(out, ok, ", ");
    let _ = put_if(out, ok, ins.memory_index.as_str());
    if ins.extend_kind != ExtendKind::Absent {
        push_extend_suffix(out, ins, ins.memory_index_shift);
    } else if ins.memory_index_shift != 0 {
        let ok = put_if(out, true, ", lsl #");
        let digits = decimal_string(ins.memory_index_shift as u64);
        let _ = put_if(out, ok, digits.as_str());
    }
    put(out, "]");
    proof {
        if w0.keeps_text() {
            assert(out.written() =~= w0.written() + memory_text(*ins));
        }
    }
}

/// Writes a plain memory operand: `[base`, then `, #off` when not zero, then `]`.
fn push_offset<W: FmtWrite>(out: &mut W, ins: &Instruction)
    requires
        ins.mem_mode != MemMode::PostIndex,
        ins.mem_mode != MemMode::PreIndex,
        ins.mem_mode != MemMode::Register,
    ensures
        gains(*old(out), *final(out), memory_text(*ins)),
{
    let ghost w0 = *out;
    proof { reveal_strlit("["); reveal_strlit("]"); reveal_strlit(", #"); }
    let ok = put_if(out, true, "[");
    let _ = put_if(out, ok, ins.memory_base.as_str());
    if ins.memory_offset != 0 {
        let ok = put_if(out, true, ", #");
        let _ = put_signed(out, ok, ins.memory_offset);
    }
    put(out, "]");
    proof {
        if w0.keeps_text() {
            assert(out.written() =~= w0.written() + memory_text(*ins));
        }
    }
}

/// Writes a memory operand in the groups of its addressing mode.
fn push_memory<W: FmtWrite>(out: &mut W, ins: &Instruction)
    ensures
        gains(*old(out), *final(out), memory_text(*ins)),
{
    match ins.mem_mode {
        MemMode::PostIndex => push_post_index(out, ins),
        MemMode::PreIndex => push_pre_index(out, ins),
        MemMode::Register => push_register_offset(out, ins),
        _ => push_offset(out, ins),
    }
}

/// Whether the mnemonic is written with its condition after the operands.
fn has_condition_suffix(m: Mnemonic) -> (r: bool)
    ensures
        r == takes_condition_suffix(m),
{
    matches!(
        m,
        Mnemonic::Csel | Mnemonic::Csinc | Mnemonic::Csinv | Mnemonic::Csneg | Mnemonic::Ccmp | Mnemonic::Ccmn
            | Mnemonic::Cset | Mnemonic::Csetm | Mnemonic::Cinc | Mnemonic::Cinv | Mnemonic::Cneg
    )
}

/// Kind, register and immediate of operand slot `idx`.
fn slot(ins: &Instruction, idx: u8) -> (r: (OpKind, Register, u64))
    ensures
        r == (slot_kind(*ins, idx as int), slot_reg(*ins, idx as int), slot_imm(*ins, idx as int)),
{
    match idx {
        0 => (ins.op0_kind, ins.op0_reg, ins.op0_imm),
        1 => (ins.op1_kind, ins.op1_reg, ins.op1_imm),
        2 => (ins.op2_kind, ins.op2_reg, ins.op2_imm),
        _ => (ins.op3_kind, ins.op3_reg, ins.op3_imm),
    }
}

/// The view of one name handed for an operand.
pub open spec fn label_view(name: Option<&str>) -> Option<Seq<char>> {
    match name {
        Some(s) => Some(s@),
        None => None,
    }
}

/// Whether `names` are what `symbols` answers for the operands of `ins`: for each
/// branch-target operand, a result of `resolve` on its address; for every other
/// operand, no name.
pub open spec fn resolved_names<R: SymbolResolver>(ins: Instruction, symbols: &R, names: Seq<Option<&str>>) -> bool {
    &&& names.len() == ins.op_count
    &&& forall|i: int|
        0 <= i < names.len() ==> if #[trigger] slot_kind(ins, i) == OpKind::NearBranch {
            call_ensures(R::resolve, (symbols, slot_imm(ins, i)), names[i])
        } else {
            names[i] is None
        }
}

impl Formatter {
    /// Writes operand `idx`, with `label` as the name of a branch target.
    fn push_operand<W: FmtWrite>(&self, out: &mut W, ins: &Instruction, idx: u8, label: Option<&str>)
        requires
            idx < ins.op_count,
        ensures
            gains(*old(out), *final(out), self.operand_text(*ins, idx as int, label_view(label))),
    {
        let ghost w0 = *out;
        let (kind, reg, imm) = slot(ins, idx);
        match kind {
            OpKind::Absent => {
                assert(out.written() =~= out.written() + seq![]);
            },
            OpKind::Register => {
                put(out, reg.as_str());
                if idx + 1 == ins.op_count {
                    push_register_suffix(out, ins);
                }
                proof {
                    if w0.keeps_text() {
                        assert(out.written() =~= w0.written() + self.operand_text(*ins, idx as int, None));
                    }
                }
            },
            OpKind::Immediate | OpKind::SystemRegister => {
                self.push_imm(out, imm);
                if matches!(ins.mnemonic, Mnemonic::Movz | Mnemonic::Movk | Mnemonic::Movn) && ins.shift_kind
                    != ShiftKind::Absent {
                    push_shift_suffix(out, ins);
                }
                proof {
                    if w0.keeps_text() {
                        assert(out.written() =~= w0.written() + self.operand_text(*ins, idx as int, None));
                    }
                }
            },
            OpKind::NearBranch => {
                match label {
                    Some(name) => put(out, name),
                    None => self.push_imm(out, imm),
                }
            },
            OpKind::Memory => {
                push_memory(out, ins);
                proof {
                    if w0.keeps_text() {
                        assert(out.written() =~= w0.written() + self.operand_text(*ins, idx as int, None));
                    }
                }
            },
        }
    }

    /// Writes the mnemonic, and a space where operands follow.
    fn push_head<W: FmtWrite>(&self, out: &mut W, ins: &Instruction)
        ensures
            gains(
                *old(out),
                *final(out),
                mnemonic_text(*ins) + if ins.op_count == 0 {
                    seq![]
                } else {
                    seq![' ']
                },
            ),
    {
        let ghost w0 = *out;
        if ins.mnemonic == Mnemonic::Bcond {
            proof { reveal_strlit("b."); }
            let ok = put_if(out, true, "b.");
            let _ = put_if(out, ok, ins.condition.as_str());
        } else {
            put(out, ins.mnemonic.as_str());
        }
        if ins.op_count != 0 {
            proof { reveal_strlit(" "); }
            put(out, " ");
        }
        proof {
            if w0.keeps_text() {
                assert(out.written() =~= w0.written() + (mnemonic_text(*ins) + if ins.op_count == 0 {
                    seq![]
                } else {
                    seq![' ']
                }));
            }
        }
    }

    /// Writes the condition after the operands of a conditional select or compare.
    fn push_tail<W: FmtWrite>(&self, out: &mut W, ins: &Instruction)
        ensures
            gains(
                *old(out),
                *final(out),
                if takes_condition_suffix(ins.mnemonic) {
                    seq![',', ' '] + ins.condition.text()
                } else {
                    seq![]
                },
            ),
    {
        let ghost w0 = *out;
        if has_condition_suffix(ins.mnemonic) {
            proof { reveal_strlit(", "); }
            let ok = put_if(out, true, ", ");
            let _ = put_if(out, ok, ins.condition.as_str());
        }
        proof {
            if w0.keeps_text() {
                assert(out.written() =~= w0.written() + if takes_condition_suffix(ins.mnemonic) {
                    seq![',', ' '] + ins.condition.text()
                } else {
                    seq![]
                });
            }
        }
    }

    /// Writes operand `idx` after the separator that precedes it, and extends the
    /// operands written so far.
    proof fn lemma_next_operand(
        &self,
        ins: Instruction,
        idx: int,
        labels: Seq<Option<Seq<char>>>,
        before: Seq<char>,
        head: Seq<char>,
        after: Seq<char>,
    )
        requires
            0 <= idx,
            before == head + self.operands_text(ins, idx, labels),
            after == before + (if idx > 0 {
                seq![',', ' ']
            } else {
                seq![]
            }) + self.operand_text(ins, idx, label_at(labels, idx)),
        ensures
            after == head + self.operands_text(ins, idx + 1, labels),
    {
        assert(after =~= head + self.operands_text(ins, idx + 1, labels));
    }

    /// The assembler text of `instruction`, where `names[i]` (when present) is the
    /// name written for operand `i` if that operand is a branch target.
    pub fn format_resolved(&self, instruction: &Instruction, names: &[Option<&str>]) -> (r: String)
        ensures
            r@ == self.text(*instruction, label_views(names@)),
    {
        let ghost labels = label_views(names@);
        let mut s = String::new();
        self.push_head(&mut s, instruction);
        if instruction.op_count == 0 {
            assert(s@ =~= self.text(*instruction, labels));
            return s;
        }
        let ghost head = s@;
        let mut idx: u8 = 0;
        while idx < instruction.op_count
            invariant
                idx <= instruction.op_count,
                instruction.op_count != 0,
                head == mnemonic_text(*instruction) + seq![' '],
                labels == label_views(names@),
                s@ == head + self.operands_text(*instruction, idx as int, labels),
            decreases instruction.op_count - idx,
        {
            let ghost prev = s@;
            let ghost sep: Seq<char> = if idx > 0 {
                seq![',', ' ']
            } else {
                seq![]
            };
            proof { reveal_strlit(", "); }
            if idx > 0 {
                put(&mut s, ", ");
            }
            assert(s@ =~= prev + sep);
            let label = if (idx as usize) < names.len() {
                names[idx as usize]
            } else {
                None
            };
            assert(label_view(label) == label_at(labels, idx as int));
            self.push_operand(&mut s, instruction, idx, label);
            proof {
                self.lemma_next_operand(*instruction, idx as int, labels, prev, head, s@);
            }
            idx += 1;
        }
        self.push_tail(&mut s, instruction);
        assert(s@ =~= self.text(*instruction, labels));
        s
    }

    /// The assembler text of `instruction`: each branch target written as the name
    /// `symbols` gives for its address, or as the address where it gives none.
    pub fn format<R: SymbolResolver>(&self, instruction: &Instruction, symbols: &R) -> (r: String)
        ensures
            exists|names: Seq<Option<&str>>|
                resolved_names(*instruction, symbols, names) && r@ == #[trigger] self.text(
                    *instruction,
                    label_views(names),
                ),
    {
        let mut s = String::new();
        self.format_to(instruction, &mut s, symbols);
        s
    }

    /// The assembler text of `instruction`, branch targets as addresses.
    pub fn format_simple(&self, instruction: &Instruction) -> (r: String)
        ensures
            r@ == self.text(*instruction, seq![]),
    {
        let r = self.format(instruction, &());
        proof {
            let names = choose|names: Seq<Option<&str>>|
                resolved_names(*instruction, &(), names) && r@ == #[trigger] self.text(
                    *instruction,
                    label_views(names),
                );
            assert forall|i: int|
                0 <= i < instruction.op_count && #[trigger] slot_kind(*instruction, i) == OpKind::NearBranch
                    implies label_at(label_views(names), i) == label_at(seq![], i) by {
                assert(call_ensures(<() as SymbolResolver>::resolve, (&(), slot_imm(*instruction, i)), names[i]));
            }
            lemma_operands_agree(*self, *instruction, instruction.op_count as int, label_views(names), seq![]);
        }
        r
    }

    /// Writes the text of `format` to `out`, piece by piece, asking `symbols` for the
    /// name of each branch target as it comes; a failure of the sink is ignored. A
    /// sink that keeps its text gains exactly that text.
    pub fn format_to<R: SymbolResolver>(&self, instruction: &Instruction, out: &mut impl FmtWrite, symbols: &R)
        ensures
            exists|names: Seq<Option<&str>>|
                resolved_names(*instruction, symbols, names) && gains(
                    *old(out),
                    *final(out),
                    #[trigger] self.text(*instruction, label_views(names)),
                ),
    {
        let ghost w0 = *out;
        self.push_head(out, instruction);
        let ghost mut names: Seq<Option<&str>> = seq![];
        if instruction.op_count == 0 {
            proof {
                let t = self.text(*instruction, label_views(names));
                if w0.keeps_text() {
                    assert(out.written() =~= w0.written() + t);
                }
                assert(resolved_names(*instruction, symbols, names));
                assert(gains(w0, *out, t));
            }
            return;
        }
        let ghost head = mnemonic_text(*instruction) + seq![' '];
        assert(out.written() =~= out.written() + seq![]);
        let mut idx: u8 = 0;
        while idx < instruction.op_count
            invariant
                idx <= instruction.op_count,
                instruction.op_count != 0,
                names.len() == idx,
                forall|i: int|
                    0 <= i < names.len() ==> if #[trigger] slot_kind(*instruction, i) == OpKind::NearBranch {
                        call_ensures(R::resolve, (symbols, slot_imm(*instruction, i)), names[i])
                    } else {
                        names[i] is None
                    },
                w0.keeps_text() ==> out.keeps_text() && out.written() == w0.written() + head
                    + self.operands_text(*instruction, idx as int, label_views(names)),
            decreases instruction.op_count - idx,
        {
            let ghost prev = out.written();
            let ghost sep: Seq<char> = if idx > 0 {
                seq![',', ' ']
            } else {
                seq![]
            };
            proof { reveal_strlit(", "); }
            if idx > 0 {
                put(out, ", ");
            }
            proof {
                if w0.keeps_text() {
                    assert(out.written() =~= prev + sep);
                }
            }
            let (kind, _reg, imm) = slot(instruction, idx);
            let label = if kind == OpKind::NearBranch {
                symbols.resolve(imm)
            } else {
                None
            };
            self.push_operand(out, instruction, idx, label);
            proof {
                let old_names = names;
                names = names.push(label);
                assert(label_view(label) == label_at(label_views(names), idx as int));
                lemma_operands_agree(*self, *instruction, idx as int, label_views(old_names), label_views(names));
                if w0.keeps_text() {
                    self.lemma_next_operand(
                        *instruction,
                        idx as int,
                        label_views(names),
                        prev,
                        w0.written() + head,
                        out.written(),
                    );
                }
            }
            idx += 1;
        }
        self.push_tail(out, instruction);
        proof {
            let t = self.text(*instruction, label_views(names));
            if w0.keeps_text() {
                assert(out.written() =~= w0.written() + t);
            }
            assert(resolved_names(*instruction, symbols, names));
            assert(gains(w0, *out, t));
        }
    }
}

} // verus!
