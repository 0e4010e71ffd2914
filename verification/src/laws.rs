//! Properties of the library as a whole: of every decoded word, of the register
//! file, of sign extension, of the decoder cursor and of the assembler text.

use crate::decoder::branch_sys::{branch_sys_cases, lemma_branch_sys_unfold};
use crate::decoder::dp_reg::{dp_reg_cases, lemma_dp_reg_unfold};
use crate::decoder::simd_fp::{fp_2src_spec, fp_scalar_spec, lemma_simd_fp_unfold, simd_fp_cases, vector_rest_spec};
use crate::decoder::{rel_target, decode_spec, lemma_decode_ok, lemma_decode_records, lemma_decode_same_form, undefined, word_at, Decoder};
use crate::enums::{is_digit, reg_at, Code, fp_base, fp_prefix, lemma_index_of_reg_at, lemma_names_distinct, small_decimal, Condition, OpKind, Register, V_BASE, W_BASE, X_BASE};
use crate::formatter::{decimal_text, hex_digit, signed_text, label_at, lemma_operands_agree, mnemonic_text, slot_kind, Formatter};
use crate::helpers::{bit_at, bitmask_spec, field, lemma_bitmask_nontrivial, lemma_masked_below, sext};
use crate::instruction::Instruction;
use crate::mnemonic::Mnemonic;
use vstd::arithmetic::div_mod::{lemma_add_mod_noop, lemma_small_mod};
use vstd::arithmetic::power2::{lemma2_to64, lemma_pow2_adds, lemma_pow2_pos, lemma_pow2_strictly_increases, lemma_pow2_unfold, pow2};
use vstd::prelude::*;

verus! {

/// Every instruction word decodes to a record of itself: the address and the word
/// are kept, the length is four bytes, and no more than four operands are used.
pub proof fn decode_keeps_address_and_word(vaddr: u64, raw: u32)
    ensures
        decode_spec(vaddr, raw).records(vaddr, raw),
{
    lemma_decode_records(vaddr, raw);
}

/// Every operand of a decoded record is well formed: no operand in use is absent;
/// a memory operand has an addressing mode and `X0`..`X30` or `SP` as its base; a
/// branch-target operand holds the record's `near_branch_target`.
pub proof fn decoded_operands_are_well_formed(vaddr: u64, raw: u32)
    ensures
        decode_spec(vaddr, raw).well_formed(),
{
    lemma_decode_ok(vaddr, raw);
}

/// A decoded record is invalid exactly when its code is `Undefined`, exactly when its
/// mnemonic is `Undefined`, exactly when it is the `undefined` record of the word;
/// decoding never gives the code `INVALID` or the mnemonic `Invalid`.
pub proof fn decoded_invalid_iff_undefined(vaddr: u64, raw: u32)
    ensures
        decode_spec(vaddr, raw).invalid() <==> decode_spec(vaddr, raw).code == Code::Undefined,
        decode_spec(vaddr, raw).code == Code::Undefined <==> decode_spec(vaddr, raw).mnemonic == Mnemonic::Undefined,
        decode_spec(vaddr, raw).invalid() <==> decode_spec(vaddr, raw) == undefined(vaddr, raw),
        decode_spec(vaddr, raw).code != Code::INVALID,
        decode_spec(vaddr, raw).mnemonic != Mnemonic::Invalid,
{
    lemma_decode_ok(vaddr, raw);
}

/// The address a word is found at changes neither its code and mnemonic nor the
/// kinds and registers of its operands: only values derived from the address (branch
/// targets, PC-relative immediates) follow it.
pub proof fn form_does_not_depend_on_address(v1: u64, v2: u64, raw: u32)
    ensures
        decode_spec(v1, raw).same_form(decode_spec(v2, raw)),
{
    lemma_decode_same_form(v1, v2, raw);
}

/// A word whose bits [28:25] are `0000`, `0001` or `0010` belongs to no decoded
/// group: it decodes to `undefined`, an invalid record whose only operand is the
/// word itself.
pub proof fn unallocated_words_are_undefined(vaddr: u64, raw: u32)
    requires
        field(raw, 28, 25) <= 2,
    ensures
        decode_spec(vaddr, raw) == undefined(vaddr, raw),
        decode_spec(vaddr, raw).invalid(),
        decode_spec(vaddr, raw).op_count == 1,
        decode_spec(vaddr, raw).op0_imm == raw,
{
}

/// A decoder with fewer than four bytes left yields the empty record: invalid and
/// without operands.
pub proof fn exhausted_decoder_yields_invalid<'a>(d: Decoder<'a>)
    requires
        !d.has_word(),
    ensures
        d.next_instruction() == Instruction::empty(),
        d.next_instruction().invalid(),
        d.next_instruction().op_count == 0,
{
}

/// Decoding walks the buffer word by word. Along a run of decoders `ds` in which
/// each is the one before after a `decode` that found a word, the decoder reached
/// after `k` steps reads the same bytes at offset `4k` further, at an address `4k`
/// higher (modulo 2^64); if a word is left there, the instruction it yields is the
/// little-endian word at that offset decoded at that address.
pub proof fn decoding_walks_the_buffer<'a>(ds: Seq<Decoder<'a>>, k: int)
    requires
        0 <= k < ds.len(),
        forall|j: int| 0 <= j < k ==> #[trigger] ds[j].steps_to(ds[j + 1]),
    ensures
        ds[k].bytes() == ds[0].bytes(),
        ds[k].offset() == ds[0].offset() + 4 * k,
        ds[k].next_ip() == (ds[0].next_ip() + 4 * k) % 0x1_0000_0000_0000_0000,
        ds[k].has_word() ==> ds[k].next_instruction() == decode_spec(
            ((ds[0].next_ip() + 4 * k) % 0x1_0000_0000_0000_0000) as u64,
            word_at(ds[0].bytes(), ds[0].offset() + 4 * k),
        ),
    decreases k,
{
    if k > 0 {
        let j = k - 1;
        decoding_walks_the_buffer(ds, j);
        assert(ds[j].steps_to(ds[j + 1]));
        assert(j + 1 == k);
        let m: int = 0x1_0000_0000_0000_0000;
        let a: int = ds[0].next_ip() + 4 * j;
        lemma_add_mod_noop(a, 4, m);
        lemma_small_mod(4, m as nat);
    } else {
        lemma_small_mod(ds[0].next_ip() as nat, 0x1_0000_0000_0000_0000);
    }
}

/// One call of `decode`, `decode_out` or `set_ip` takes the decoder `a` to `b`: a
/// decode that found a word (`steps_to`), or a call that keeps the bytes and the
/// offset (a decode with no word left, or `set_ip`).
pub open spec fn decoder_call<'a>(a: Decoder<'a>, b: Decoder<'a>) -> bool {
    a.steps_to(b) || (b.bytes() == a.bytes() && b.offset() == a.offset())
}

/// One call of `decode` or `decode_out` takes the decoder `a` to `b`: one that found a
/// word, or one with no word left, which keeps bytes, offset and address.
pub open spec fn decode_call<'a>(a: Decoder<'a>, b: Decoder<'a>) -> bool {
    a.steps_to(b) || (!a.has_word() && b.bytes() == a.bytes() && b.offset() == a.offset() && b.next_ip()
        == a.next_ip())
}

/// How many of the first `k` calls along the run `ds` found a word.
pub open spec fn words_read<'a>(ds: Seq<Decoder<'a>>, k: int) -> int
    decreases k,
{
    if k <= 0 {
        0
    } else {
        words_read(ds, k - 1) + if ds[k - 1].steps_to(ds[k]) {
            1int
        } else {
            0int
        }
    }
}

/// The position of a decoder stays a multiple of four within its buffer: along any
/// run of calls of `decode`, `decode_out` and `set_ip` from a decoder whose offset is
/// such (as `new` gives, at 0), the offset has moved by four for each call that
/// found a word, and by nothing else.
pub proof fn decoder_position<'a>(ds: Seq<Decoder<'a>>, k: int)
    requires
        0 <= k < ds.len(),
        forall|j: int| 0 <= j < k ==> #[trigger] decoder_call(ds[j], ds[j + 1]),
        ds[0].offset() % 4 == 0,
        ds[0].offset() <= ds[0].bytes().len(),
    ensures
        ds[k].bytes() == ds[0].bytes(),
        0 <= words_read(ds, k) <= k,
        ds[k].offset() == ds[0].offset() + 4 * words_read(ds, k),
        ds[k].offset() % 4 == 0,
        ds[k].offset() <= ds[k].bytes().len(),
    decreases k,
{
    if k > 0 {
        let j = k - 1;
        decoder_position(ds, j);
        assert(decoder_call(ds[j], ds[j + 1]));
        assert(j + 1 == k);
    }
}

/// The address of a decoder moves by four (modulo 2^64) for each call of `decode` or
/// `decode_out` that found a word, and by nothing else.
pub proof fn decoder_address<'a>(ds: Seq<Decoder<'a>>, k: int)
    requires
        0 <= k < ds.len(),
        forall|j: int| 0 <= j < k ==> #[trigger] decode_call(ds[j], ds[j + 1]),
    ensures
        ds[k].next_ip() == (ds[0].next_ip() + 4 * words_read(ds, k)) % 0x1_0000_0000_0000_0000,
    decreases k,
{
    let m: int = 0x1_0000_0000_0000_0000;
    if k > 0 {
        let j = k - 1;
        decoder_address(ds, j);
        assert(decode_call(ds[j], ds[j + 1]));
        assert(j + 1 == k);
        let a: int = ds[0].next_ip() + 4 * words_read(ds, j);
        lemma_add_mod_noop(a, 4, m);
        lemma_small_mod(4, m as nat);
        lemma_small_mod(ds[j].next_ip() as nat, m as nat);
    } else {
        lemma_small_mod(ds[0].next_ip() as nat, m as nat);
    }
}

/// The decoding loop `while d.can_decode() { d.decode(); }` from a new decoder reads
/// every whole word of the buffer: it stops after exactly `len / 4` calls, at offset
/// `4 * (len / 4)`; the last `len % 4` bytes are never decoded.
pub proof fn decode_loop_reads_every_word<'a>(ds: Seq<Decoder<'a>>, k: int)
    requires
        0 <= k < ds.len(),
        ds[0].offset() == 0,
        forall|j: int| 0 <= j < k ==> #[trigger] ds[j].steps_to(ds[j + 1]),
        !ds[k].has_word(),
    ensures
        k == ds[0].bytes().len() / 4,
        ds[k].offset() == 4 * (ds[0].bytes().len() / 4),
{
    decoding_walks_the_buffer(ds, k);
    let len = ds[0].bytes().len() as int;
    if k > 0 {
        let j = k - 1;
        decoding_walks_the_buffer(ds, j);
        assert(ds[j].steps_to(ds[j + 1]));
    }
    assert(4 * k <= len < 4 * k + 4);
    assert(k == len / 4) by (nonlinear_arith)
        requires
            4 * k <= len < 4 * k + 4,
            0 <= k,
    ;
}

/// The 4-bit condition field round-trips: the condition read from the encoding of
/// a condition is that condition, and a condition read from any value has the low
/// four bits of that value as its encoding.
pub proof fn condition_encoding_round_trip(c: Condition, v: u32)
    ensures
        Condition::decode_spec(c.encoding()) == c,
        Condition::decode_spec(v).encoding() == v & 0xF,
{
    lemma_masked_below(c.encoding());
    lemma_masked_below(v);
}

/// `x(n)`, `w(n)`, `v(n)` and `fp_sized(size, n)` number registers modulo 32: each is
/// the register at position `n mod 32` of its bank of the register file.
pub proof fn register_banks(size_bytes: u32, n: u32)
    ensures
        Register::x_at(n) == reg_at((X_BASE + n % 32) as u32),
        Register::w_at(n) == reg_at((W_BASE + n % 32) as u32),
        Register::v_at(n) == reg_at((V_BASE + n % 32) as u32),
        Register::fp_at(size_bytes, n) == reg_at((fp_base(size_bytes) + n % 32) as u32),
{
    assert(n & 31 == n % 32) by (bit_vector);
}

/// `x(n)` is the 64-bit general register numbered `n mod 32`: `x0` to `x30`, and the
/// zero register `xzr` for 31.
pub proof fn x_register_names(n: u32)
    ensures
        Register::x_at(n).name() == if n & 31 == 31 {
            seq!['x', 'z', 'r']
        } else {
            seq!['x'] + small_decimal(n & 31)
        },
{
    lemma_masked_below(n);
    lemma_index_of_reg_at((X_BASE + (n & 31)) as u32);
}

/// `w(n)` is the 32-bit general register numbered `n mod 32`: `w0` to `w30`, and the
/// zero register `wzr` for 31.
pub proof fn w_register_names(n: u32)
    ensures
        Register::w_at(n).name() == if n & 31 == 31 {
            seq!['w', 'z', 'r']
        } else {
            seq!['w'] + small_decimal(n & 31)
        },
{
    lemma_masked_below(n);
    lemma_index_of_reg_at((W_BASE + (n & 31)) as u32);
}

/// `v(n)` is the vector register `v<n mod 32>`.
pub proof fn v_register_names(n: u32)
    ensures
        Register::v_at(n).name() == seq!['v'] + small_decimal(n & 31),
{
    lemma_masked_below(n);
    lemma_index_of_reg_at((V_BASE + (n & 31)) as u32);
}

/// `fp_sized(size, n)` is the scalar SIMD/FP register numbered `n mod 32` of the view
/// of that size: `b<n>` (1 byte), `h<n>` (2), `s<n>` (4), `d<n>` (8), `q<n>` (any
/// other size).
pub proof fn fp_register_names(size_bytes: u32, n: u32)
    ensures
        Register::fp_at(size_bytes, n).name() == seq![fp_prefix(fp_base(size_bytes))] + small_decimal(n & 31),
        fp_prefix(fp_base(size_bytes)) == if size_bytes == 1 {
            'b'
        } else if size_bytes == 2 {
            'h'
        } else if size_bytes == 4 {
            's'
        } else if size_bytes == 8 {
            'd'
        } else {
            'q'
        },
{
    lemma_masked_below(n);
    lemma_index_of_reg_at((fp_base(size_bytes) + (n & 31)) as u32);
}

/// Distinct registers have distinct names (the text `as_str` gives), and only
/// `Absent` has the empty name.
pub proof fn registers_have_distinct_names(r1: Register, r2: Register)
    ensures
        r1.name() == r2.name() ==> r1 == r2,
        r1.name().len() == 0 <==> r1 == Register::Absent,
{
    lemma_names_distinct(r1, r2);
}

/// Sign extension of a `width`-bit field gives a value in
/// `[-2^(width-1), 2^(width-1))`, and leaves every value below `2^(width-1)` as it is.
pub proof fn sign_extend_range(val: u64, width: u32)
    requires
        1 <= width <= 64,
    ensures
        -pow2((width - 1) as nat) <= sext(val, width) < pow2((width - 1) as nat),
        val < pow2((width - 1) as nat) ==> sext(val, width) == val,
{
    lemma_pow2_pos(width as nat);
    lemma_pow2_pos((width - 1) as nat);
    lemma_pow2_unfold(width as nat);
    if val < pow2((width - 1) as nat) {
        lemma_small_mod(val as nat, pow2(width as nat));
    }
}

/// A logical immediate is never all zeros nor all ones in the width of its
/// operation: every encoding that is not reserved gives a proper bit pattern. The
/// 32-bit forms with `N = 1` are left out: they decode here, and their 64-bit element
/// can lie wholly above bit 31.
pub proof fn logical_immediates_are_proper(sf: bool, n: u32, imms: u32, immr: u32)
    requires
        sf || n == 0,
    ensures
        bitmask_spec(sf, n, imms, immr) matches Some(v) ==> v != 0 && v != (if sf {
            u64::MAX
        } else {
            0xFFFF_FFFFu64
        }),
{
    lemma_bitmask_nontrivial(sf, n, imms, immr);
}

/// Names for branch targets change nothing where no operand is a branch target:
/// every choice of names then gives the text of `format_simple`.
pub proof fn names_only_affect_branch_targets(f: Formatter, ins: Instruction, labels: Seq<Option<Seq<char>>>)
    requires
        forall|i: int| 0 <= i < ins.op_count ==> slot_kind(ins, i) != OpKind::NearBranch,
    ensures
        f.text(ins, labels) == f.text(ins, seq![]),
{
    lemma_operands_agree(f, ins, ins.op_count as int, labels, seq![]);
}

/// A branch target left without a name is written as its address: a choice of names
/// that are all absent gives the text of `format_simple`.
pub proof fn unresolved_names_are_addresses(f: Formatter, ins: Instruction, labels: Seq<Option<Seq<char>>>)
    requires
        forall|i: int| 0 <= i < labels.len() ==> labels[i] is None,
    ensures
        f.text(ins, labels) == f.text(ins, seq![]),
{
    assert forall|i: int| 0 <= i < ins.op_count && #[trigger] slot_kind(ins, i) == OpKind::NearBranch implies label_at(
        labels,
        i,
    ) == label_at(seq![], i) by {
        if 0 <= i < labels.len() {
            assert(labels[i] is None);
        }
    }
    lemma_operands_agree(f, ins, ins.op_count as int, labels, seq![]);
}

/// The text of an instruction starts with its mnemonic (`b.<cond>` for a
/// conditional branch).
pub proof fn text_starts_with_mnemonic(f: Formatter, ins: Instruction, labels: Seq<Option<Seq<char>>>)
    ensures
        mnemonic_text(ins).len() <= f.text(ins, labels).len(),
        f.text(ins, labels).subrange(0, mnemonic_text(ins).len() as int) == mnemonic_text(ins),
{
    let m = mnemonic_text(ins);
    assert(f.text(ins, labels).subrange(0, m.len() as int) =~= m);
}

/// An instruction without operands is written as its mnemonic alone.
pub proof fn operandless_text_is_mnemonic(f: Formatter, ins: Instruction, labels: Seq<Option<Seq<char>>>)
    requires
        ins.op_count == 0,
    ensures
        f.text(ins, labels) == mnemonic_text(ins),
{
}

/// The two's-complement value of a `width`-bit field `imm`.
pub open spec fn twos_complement(imm: int, width: nat) -> int {
    if imm >= pow2((width - 1) as nat) {
        imm - pow2(width)
    } else {
        imm
    }
}

/// A PC-relative target is the address plus four times the two's-complement value
/// of the `width`-bit word-offset field, modulo 2^64: a field with its top bit set
/// points backwards.
pub proof fn pc_relative_targets(vaddr: u64, imm: u32, width: u32)
    requires
        1 <= width <= 26,
        imm < pow2(width as nat),
    ensures
        rel_target(vaddr, imm, width) as int == (vaddr + 4 * twos_complement(imm as int, width as nat))
            % 0x1_0000_0000_0000_0000,
{
    let w = width as nat;
    lemma_pow2_pos((w - 1) as nat);
    lemma_pow2_adds(w, 2);
    lemma_pow2_adds((w - 1) as nat, 2);
    lemma_pow2_unfold(w);
    lemma_pow2_strictly_increases(w + 2, 63);
    lemma2_to64();
    let v = ((imm as u64) * 4) as u64;
    assert(v == 4 * imm);
    lemma_small_mod(v as nat, pow2(w + 2));
    let off = twos_complement(imm as int, w);
    assert(sext(v, (width + 2) as u32) == 4 * off);
    let y = sext(v, (width + 2) as u32) as i64;
    assert(y == 4 * off);
    let m: int = 0x1_0000_0000_0000_0000;
    let t = vaddr + 4 * off;
    if t < 0 {
        assert(t % m == t + m) by {
            lemma_small_mod((t + m) as nat, m as nat);
            vstd::arithmetic::div_mod::lemma_mod_add_multiples_vanish(t, m);
        }
    } else if t >= m {
        assert(t % m == t - m) by {
            lemma_small_mod((t - m) as nat, m as nat);
            vstd::arithmetic::div_mod::lemma_mod_sub_multiples_vanish(t, m);
        }
    } else {
        lemma_small_mod(t as nat, m as nat);
    }
}

/// What fixed bits of a word tell about its other fields.
proof fn lemma_word_fields(raw: u32)
    by (bit_vector)
    ensures
        raw >> 24 == 0x1E ==> bit_at(raw, 31) == 0 && bit_at(raw, 30) == 0 && field(raw, 28, 24) == 0b11110
            && field(raw, 29, 24) == 0b011110 && field(raw, 28, 25) == 0b1111 && (field(raw, 28, 23) == 0b111100
            || field(raw, 28, 23) == 0b111101) && field(raw, 28, 21) != 0b01110000 && field(raw, 28, 19)
            != 0b0111100000 && (raw >> 24) & 0x7F == 0x1E && (raw >> 24) & 0xFE == 0x1E && (raw >> 24) & 0xEE == 0x0E,
        raw >> 24 == 0x1E && bit_at(raw, 21) == 1 ==> field(raw, 28, 21) != 0b11110000,
        field(raw, 28, 21) == 0b11010110 ==> field(raw, 28, 25) == 0b1101 && field(raw, 28, 24) == 0b11010,
        field(raw, 30, 26) == 0b00101 ==> field(raw, 28, 25) == 0b1010 || field(raw, 28, 25) == 0b1011,
        field(raw, 31, 25) == 0b0101010 ==> field(raw, 28, 25) == 0b1010 && field(raw, 30, 26) == 0b10101,
        bit_at(raw, 31) <= 1,
        field(raw, 23, 22) < 4,
        field(raw, 25, 0) < 0x400_0000,
        field(raw, 23, 5) < 0x8_0000,
        field(raw, 18, 5) < 0x4000,
        field(raw, 30, 25) == 0b011010 ==> field(raw, 28, 25) == 0b1010 && field(raw, 30, 26) == 0b01101
            && field(raw, 31, 25) != 0b0101010,
        field(raw, 30, 25) == 0b011011 ==> field(raw, 28, 25) == 0b1011 && field(raw, 30, 26) == 0b01101
            && field(raw, 31, 25) != 0b0101010,
{
}

/// An unconditional branch (`B`, or `BL` when bit 31 is set) goes to its address
/// plus four times the signed 26-bit offset in bits [25:0], modulo 2^64.
pub proof fn branch_targets(vaddr: u64, raw: u32)
    requires
        field(raw, 30, 26) == 0b00101,
    ensures
        decode_spec(vaddr, raw).mnemonic == if bit_at(raw, 31) == 1 {
            Mnemonic::Bl
        } else {
            Mnemonic::B
        },
        decode_spec(vaddr, raw).near_branch_target as int == (vaddr + 4 * twos_complement(
            field(raw, 25, 0) as int,
            26,
        )) % 0x1_0000_0000_0000_0000,
{
    lemma_word_fields(raw);
    lemma_branch_sys_unfold(vaddr, raw);
    lemma2_to64();
    pc_relative_targets(vaddr, field(raw, 25, 0), 26);
    assert(decode_spec(vaddr, raw) == branch_sys_cases(vaddr, raw));
}

/// A conditional branch `B.cond` goes to its address plus four times the signed
/// 19-bit offset in bits [23:5], modulo 2^64, under the condition in bits [3:0].
pub proof fn conditional_branch_targets(vaddr: u64, raw: u32)
    requires
        field(raw, 31, 25) == 0b0101010,
        bit_at(raw, 4) == 0,
    ensures
        decode_spec(vaddr, raw).mnemonic == Mnemonic::Bcond,
        decode_spec(vaddr, raw).condition == Condition::decode_spec(field(raw, 3, 0)),
        decode_spec(vaddr, raw).near_branch_target as int == (vaddr + 4 * twos_complement(
            field(raw, 23, 5) as int,
            19,
        )) % 0x1_0000_0000_0000_0000,
{
    lemma_word_fields(raw);
    lemma_branch_sys_unfold(vaddr, raw);
    lemma2_to64();
    pc_relative_targets(vaddr, field(raw, 23, 5), 19);
    assert(decode_spec(vaddr, raw) == branch_sys_cases(vaddr, raw));
}

/// A compare-and-branch (`CBZ`, or `CBNZ` when bit 24 is set) goes to its address
/// plus four times the signed 19-bit offset in bits [23:5], modulo 2^64.
pub proof fn compare_branch_targets(vaddr: u64, raw: u32)
    requires
        field(raw, 30, 25) == 0b011010,
    ensures
        decode_spec(vaddr, raw).near_branch_target as int == (vaddr + 4 * twos_complement(
            field(raw, 23, 5) as int,
            19,
        )) % 0x1_0000_0000_0000_0000,
{
    lemma_word_fields(raw);
    lemma_branch_sys_unfold(vaddr, raw);
    lemma2_to64();
    pc_relative_targets(vaddr, field(raw, 23, 5), 19);
    assert(decode_spec(vaddr, raw) == branch_sys_cases(vaddr, raw));
}

/// A test-and-branch (`TBZ`, or `TBNZ` when bit 24 is set) goes to its address plus
/// four times the signed 14-bit offset in bits [18:5], modulo 2^64.
pub proof fn test_branch_targets(vaddr: u64, raw: u32)
    requires
        field(raw, 30, 25) == 0b011011,
    ensures
        decode_spec(vaddr, raw).near_branch_target as int == (vaddr + 4 * twos_complement(
            field(raw, 18, 5) as int,
            14,
        )) % 0x1_0000_0000_0000_0000,
{
    lemma_word_fields(raw);
    lemma_branch_sys_unfold(vaddr, raw);
    lemma2_to64();
    pc_relative_targets(vaddr, field(raw, 18, 5), 14);
    assert(decode_spec(vaddr, raw) == branch_sys_cases(vaddr, raw));
}

/// The two-source data-processing words (bits [28:21] = `11010110`, bit 30 clear)
/// divide and shift by their opcode in bits [15:10]: `000010` is unsigned division,
/// `000011` signed division, `001000`..`001011` the variable shifts LSL, LSR, ASR, ROR.
pub proof fn two_source_operations(vaddr: u64, raw: u32)
    requires
        field(raw, 28, 21) == 0b11010110,
        bit_at(raw, 30) == 0,
    ensures
        field(raw, 15, 10) == 0b000010 ==> decode_spec(vaddr, raw).code == Code::Udiv
            && decode_spec(vaddr, raw).mnemonic == Mnemonic::Udiv,
        field(raw, 15, 10) == 0b000011 ==> decode_spec(vaddr, raw).code == Code::Sdiv
            && decode_spec(vaddr, raw).mnemonic == Mnemonic::Sdiv,
        field(raw, 15, 10) == 0b001000 ==> decode_spec(vaddr, raw).mnemonic == Mnemonic::Lsl,
        field(raw, 15, 10) == 0b001001 ==> decode_spec(vaddr, raw).mnemonic == Mnemonic::Lsr,
        field(raw, 15, 10) == 0b001010 ==> decode_spec(vaddr, raw).mnemonic == Mnemonic::Asr,
        field(raw, 15, 10) == 0b001011 ==> decode_spec(vaddr, raw).mnemonic == Mnemonic::Ror,
{
    lemma_word_fields(raw);
    lemma_dp_reg_unfold(vaddr, raw);
    assert(decode_spec(vaddr, raw) == dp_reg_cases(vaddr, raw));
}

/// The scalar floating-point two-source words (top byte `0x1E`, bit 21 set, bits
/// [11:10] = `10`, a single, double or half `ftype` in bits [23:22]) compute by their
/// opcode in bits [15:12]: `0000` FMUL, `0001` FDIV, `0010` FADD, `0011` FSUB, `0100`
/// FMAX, `0101` FMIN, `0110` FMAXNM, `0111` FMINNM, `1000` FNMUL; other opcodes are
/// undefined.
pub proof fn fp_two_source_operations(vaddr: u64, raw: u32)
    requires
        raw >> 24 == 0x1E,
        bit_at(raw, 21) == 1,
        field(raw, 11, 10) == 0b10,
        field(raw, 23, 22) != 0b10,
    ensures
        field(raw, 15, 12) == 0 ==> decode_spec(vaddr, raw).mnemonic == Mnemonic::Fmul,
        field(raw, 15, 12) == 1 ==> decode_spec(vaddr, raw).mnemonic == Mnemonic::Fdiv,
        field(raw, 15, 12) == 2 ==> decode_spec(vaddr, raw).mnemonic == Mnemonic::Fadd,
        field(raw, 15, 12) == 3 ==> decode_spec(vaddr, raw).mnemonic == Mnemonic::Fsub,
        field(raw, 15, 12) == 4 ==> decode_spec(vaddr, raw).mnemonic == Mnemonic::Fmax,
        field(raw, 15, 12) == 5 ==> decode_spec(vaddr, raw).mnemonic == Mnemonic::Fmin,
        field(raw, 15, 12) == 6 ==> decode_spec(vaddr, raw).mnemonic == Mnemonic::Fmaxnm,
        field(raw, 15, 12) == 7 ==> decode_spec(vaddr, raw).mnemonic == Mnemonic::Fminnm,
        field(raw, 15, 12) == 8 ==> decode_spec(vaddr, raw).mnemonic == Mnemonic::Fnmul,
        field(raw, 15, 12) <= 8 ==> decode_spec(vaddr, raw).code == Code::Fp_data_2src,
        field(raw, 15, 12) > 8 ==> decode_spec(vaddr, raw) == undefined(vaddr, raw),
{
    lemma_word_fields(raw);
    lemma_fp_two_source_dispatch(vaddr, raw);
}

/// The words of `fp_two_source_operations` reach the two-source FP decoding.
proof fn lemma_fp_two_source_dispatch(vaddr: u64, raw: u32)
    requires
        raw >> 24 == 0x1E,
        bit_at(raw, 21) == 1,
        field(raw, 11, 10) == 0b10,
    ensures
        decode_spec(vaddr, raw) == fp_2src_spec(vaddr, raw),
{
    lemma_word_fields(raw);
    lemma_simd_fp_unfold(vaddr, raw);
    assert(decode_spec(vaddr, raw) == simd_fp_cases(vaddr, raw));
    lemma_vector_forms_pass(vaddr, raw);
    lemma_vector_rest_pass(vaddr, raw);
    lemma_fp_scalar_two_source(vaddr, raw);
}

/// A word with top byte `0x1E` and bit 21 set is none of the first vector forms.
proof fn lemma_vector_forms_pass(vaddr: u64, raw: u32)
    requires
        raw >> 24 == 0x1E,
        bit_at(raw, 21) == 1,
    ensures
        simd_fp_cases(vaddr, raw) == vector_rest_spec(vaddr, raw),
{
    lemma_word_fields(raw);
}

/// A word with top byte `0x1E` is none of the remaining vector forms.
proof fn lemma_vector_rest_pass(vaddr: u64, raw: u32)
    requires
        raw >> 24 == 0x1E,
    ensures
        vector_rest_spec(vaddr, raw) == fp_scalar_spec(vaddr, raw),
{
    lemma_word_fields(raw);
}

/// Among the scalar FP forms, bit 21 set and bits [11:10] = `10` select two-source.
proof fn lemma_fp_scalar_two_source(vaddr: u64, raw: u32)
    requires
        raw >> 24 == 0x1E,
        bit_at(raw, 21) == 1,
        field(raw, 11, 10) == 0b10,
    ensures
        fp_scalar_spec(vaddr, raw) == fp_2src_spec(vaddr, raw),
{
    lemma_word_fields(raw);
}

/// The decimal digits spell digit characters, one for each value below ten.
proof fn lemma_decimal_digit(d: nat, e: nat)
    ensures
        d < 10 ==> is_digit(hex_digit(d, false)),
        d < 10 && e < 10 && hex_digit(d, false) == hex_digit(e, false) ==> d == e,
{
}

/// The decimal spelling of `n` is one digit exactly when `n` is below ten, and
/// starts with a digit.
proof fn lemma_decimal_shape(n: nat)
    ensures
        decimal_text(n).len() >= 1,
        decimal_text(n).len() == 1 <==> n < 10,
        is_digit(decimal_text(n)[0]),
    decreases n,
{
    if n < 10 {
        lemma_decimal_digit(n, 0);
    } else {
        lemma_decimal_shape(n / 10);
        assert(decimal_text(n)[0] == decimal_text(n / 10)[0]);
    }
}

/// Different numbers have different decimal spellings.
proof fn lemma_decimal_injective(n: nat, m: nat)
    ensures
        decimal_text(n) == decimal_text(m) ==> n == m,
    decreases n,
{
    lemma_decimal_shape(n);
    lemma_decimal_shape(m);
    if decimal_text(n) == decimal_text(m) {
        if n < 10 {
            lemma_decimal_digit(n, m);
            assert(decimal_text(n)[0] == decimal_text(m)[0]);
        } else {
            let a = decimal_text(n);
            assert(a.drop_last() =~= decimal_text(n / 10));
            assert(decimal_text(m).drop_last() =~= decimal_text(m / 10));
            assert(a.last() == hex_digit(n % 10, false));
            assert(decimal_text(m).last() == hex_digit(m % 10, false));
            lemma_decimal_injective(n / 10, m / 10);
            lemma_decimal_digit(n % 10, m % 10);
        }
    }
}

/// A signed decimal spelling tells its number: different numbers are spelled
/// differently, and a spelling starts with `-` exactly when the number is negative.
pub proof fn signed_text_distinguishes(v: int, w: int)
    ensures
        signed_text(v) == signed_text(w) ==> v == w,
        signed_text(v).len() >= 1,
        signed_text(v)[0] == '-' <==> v < 0,
{
    let nv: nat = if v < 0 { (-v) as nat } else { v as nat };
    let nw: nat = if w < 0 { (-w) as nat } else { w as nat };
    lemma_decimal_shape(nv);
    lemma_decimal_shape(nw);
    lemma_decimal_injective(nv, nw);
    if signed_text(v) == signed_text(w) {
        assert(signed_text(v)[0] == signed_text(w)[0]);
        if v < 0 && w < 0 {
            assert(decimal_text(nv) =~= signed_text(v).subrange(1, signed_text(v).len() as int));
            assert(decimal_text(nw) =~= signed_text(w).subrange(1, signed_text(w).len() as int));
        }
    }
}

} // verus!
