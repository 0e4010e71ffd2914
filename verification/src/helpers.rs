//! Bit-field helpers shared by the decoders.

use vstd::arithmetic::power2::{lemma2_to64, lemma2_to64_rest, lemma_pow2_pos, pow2};
use vstd::bits::{lemma_u64_low_bits_mask_is_mod, lemma_u64_pow2_no_overflow, lemma_u64_shl_is_mul, low_bits_mask};
use vstd::prelude::*;

verus! {

/// Bits `hi..=lo` of `insn`, moved down to bit 0.
pub open spec fn field(insn: u32, hi: u32, lo: u32) -> u32 {
    (insn >> lo) & (((1u32 << ((hi - lo + 1) as u32)) - 1) as u32)
}

/// Largest value of a `w`-bit field (`2^w - 1`), for widths 1 to 31.
pub open spec fn field_max(w: u32) -> u32 {
    match w {
        1 => 0x1,
        2 => 0x3,
        3 => 0x7,
        4 => 0xf,
        5 => 0x1f,
        6 => 0x3f,
        7 => 0x7f,
        8 => 0xff,
        9 => 0x1ff,
        10 => 0x3ff,
        11 => 0x7ff,
        12 => 0xfff,
        13 => 0x1fff,
        14 => 0x3fff,
        15 => 0x7fff,
        16 => 0xffff,
        17 => 0x1ffff,
        18 => 0x3ffff,
        19 => 0x7ffff,
        20 => 0xfffff,
        21 => 0x1fffff,
        22 => 0x3fffff,
        23 => 0x7fffff,
        24 => 0xffffff,
        25 => 0x1ffffff,
        26 => 0x3ffffff,
        27 => 0x7ffffff,
        28 => 0xfffffff,
        29 => 0x1fffffff,
        30 => 0x3fffffff,
        _ => 0x7fffffff,
    }
}

/// Masking keeps a value below the mask's width.
pub(crate) proof fn lemma_masked_below(n: u32)
    by (bit_vector)
    ensures
        n & 31 < 32,
        n & 0xF < 16,
        n & 7 < 8,
        n & 3 < 4,
        n < 16 ==> n & 0xF == n,
{
}

/// Bit `pos` of `insn` (0 or 1).
pub open spec fn bit_at(insn: u32, pos: u32) -> u32 {
    (insn >> pos) & 1
}

/// Bits `hi..=lo` of `insn`, moved down to bit 0.
#[verifier::when_used_as_spec(field)]
pub fn bits(insn: u32, hi: u32, lo: u32) -> (r: u32)
    requires
        lo <= hi,
        lo < 32,
        hi - lo + 1 < 32,
    ensures
        r == field(insn, hi, lo),
        r < (1u32 << ((hi - lo + 1) as u32)),
        r <= field_max((hi - lo + 1) as u32),
        r == (insn >> lo) & field_max((hi - lo + 1) as u32),
{
    let w = hi - lo + 1;
    assert(
        (w == 1 ==> ((1u32 << w) - 1) as u32 == 0x1)
        && (w == 2 ==> ((1u32 << w) - 1) as u32 == 0x3)
        && (w == 3 ==> ((1u32 << w) - 1) as u32 == 0x7)
        && (w == 4 ==> ((1u32 << w) - 1) as u32 == 0xf)
        && (w == 5 ==> ((1u32 << w) - 1) as u32 == 0x1f)
        && (w == 6 ==> ((1u32 << w) - 1) as u32 == 0x3f)
        && (w == 7 ==> ((1u32 << w) - 1) as u32 == 0x7f)
        && (w == 8 ==> ((1u32 << w) - 1) as u32 == 0xff)
        && (w == 9 ==> ((1u32 << w) - 1) as u32 == 0x1ff)
        && (w == 10 ==> ((1u32 << w) - 1) as u32 == 0x3ff)
        && (w == 11 ==> ((1u32 << w) - 1) as u32 == 0x7ff)
        && (w == 12 ==> ((1u32 << w) - 1) as u32 == 0xfff)
        && (w == 13 ==> ((1u32 << w) - 1) as u32 == 0x1fff)
        && (w == 14 ==> ((1u32 << w) - 1) as u32 == 0x3fff)
        && (w == 15 ==> ((1u32 << w) - 1) as u32 == 0x7fff)
        && (w == 16 ==> ((1u32 << w) - 1) as u32 == 0xffff)
        && (w == 17 ==> ((1u32 << w) - 1) as u32 == 0x1ffff)
        && (w == 18 ==> ((1u32 << w) - 1) as u32 == 0x3ffff)
        && (w == 19 ==> ((1u32 << w) - 1) as u32 == 0x7ffff)
        && (w == 20 ==> ((1u32 << w) - 1) as u32 == 0xfffff)
        && (w == 21 ==> ((1u32 << w) - 1) as u32 == 0x1fffff)
        && (w == 22 ==> ((1u32 << w) - 1) as u32 == 0x3fffff)
        && (w == 23 ==> ((1u32 << w) - 1) as u32 == 0x7fffff)
        && (w == 24 ==> ((1u32 << w) - 1) as u32 == 0xffffff)
        && (w == 25 ==> ((1u32 << w) - 1) as u32 == 0x1ffffff)
        && (w == 26 ==> ((1u32 << w) - 1) as u32 == 0x3ffffff)
        && (w == 27 ==> ((1u32 << w) - 1) as u32 == 0x7ffffff)
        && (w == 28 ==> ((1u32 << w) - 1) as u32 == 0xfffffff)
        && (w == 29 ==> ((1u32 << w) - 1) as u32 == 0x1fffffff)
        && (w == 30 ==> ((1u32 << w) - 1) as u32 == 0x3fffffff)
        && (w == 31 ==> ((1u32 << w) - 1) as u32 == 0x7fffffff)
    ) by (bit_vector);
    assert((1u32 << w) >= 1 && (insn >> lo) & (((1u32 << w) - 1) as u32) < (1u32 << w)) by (bit_vector)
        requires
            w < 32,
    ;
    (insn >> lo) & ((1 << (hi - lo + 1)) - 1)
}

/// Bits `hi..=lo` of `insn` as a 64-bit value.
pub open spec fn field64(insn: u32, hi: u32, lo: u32) -> u64 {
    field(insn, hi, lo) as u64
}

/// Bits `hi..=lo` of `insn` as a 64-bit value.
#[verifier::when_used_as_spec(field64)]
pub fn bits64(insn: u32, hi: u32, lo: u32) -> (r: u64)
    requires
        lo <= hi,
        lo < 32,
        hi - lo + 1 < 32,
    ensures
        r == field64(insn, hi, lo),
{
    bits(insn, hi, lo) as u64
}

/// Bit `pos` of `insn` (0 or 1).
#[verifier::when_used_as_spec(bit_at)]
pub fn bit(insn: u32, pos: u32) -> (r: u32)
    requires
        pos < 32,
    ensures
        r == bit_at(insn, pos),
        r == 0 || r == 1,
{
    assert((insn >> pos) & 1 == 0 || (insn >> pos) & 1 == 1) by (bit_vector);
    (insn >> pos) & 1
}

/// The low `width` bits of `val` read as a two's-complement number.
pub open spec fn sext(val: u64, width: u32) -> int {
    let m = val as int % pow2(width as nat) as int;
    if m < pow2((width - 1) as nat) {
        m
    } else {
        m - pow2(width as nat)
    }
}

/// The low `width` bits of `val` read as a two's-complement number.
pub open spec fn sign_extend_spec(val: u64, width: u32) -> i64 {
    sext(val, width) as i64
}

/// Facts that tie `1 << k` and the low-bits mask to powers of two.
proof fn lemma_shl_one(k: u64)
    requires
        k < 64,
    ensures
        (1u64 << k) == pow2(k as nat),
        (((1u64 << k) - 1) as u64) == low_bits_mask(k as nat),
        pow2(k as nat) <= u64::MAX,
{
    lemma_u64_pow2_no_overflow(k as nat);
    lemma_u64_shl_is_mul(1, k);
}

/// The low `width` bits of `val` read as a two's-complement number.
#[verifier::when_used_as_spec(sign_extend_spec)]
pub fn sign_extend(val: u64, width: u32) -> (r: i64)
    requires
        1 <= width <= 64,
    ensures
        r as int == sext(val, width),
        r == sign_extend_spec(val, width),
{
    let shift = 64 - width;
    let r = ((val as i64) << shift) >> shift;
    proof {
        lemma_pow2_pos(width as nat);
        lemma_pow2_pos((width - 1) as nat);
        if width == 64 {
            assert(r == val as i64) by (bit_vector)
                requires
                    r == ((val as i64) << shift) >> shift,
                    shift == 0,
            ;
            assert(val < 0x8000_0000_0000_0000u64 ==> r as int == val as int) by (bit_vector)
                requires
                    r == val as i64,
            ;
            assert(val >= 0x8000_0000_0000_0000u64 ==> r as int == val as int - 0xFFFF_FFFF_FFFF_FFFFu64 as int - 1) by (bit_vector)
                requires
                    r == val as i64,
            ;
            lemma2_to64();
            lemma2_to64_rest();
        } else {
            let w = width as u64;
            let half = 1u64 << ((w - 1) as u64);
            let mask = ((1u64 << w) - 1) as u64;
            assert((val & half) == 0 ==> r as int == (val & mask) as int) by (bit_vector)
                requires
                    r == ((val as i64) << shift) >> shift,
                    shift == 64 - width,
                    1 <= width < 64,
                    w == width,
                    half == 1u64 << ((w - 1) as u64),
                    mask == ((1u64 << w) - 1) as u64,
            ;
            assert((val & half) != 0 ==> r as int == (val & mask) as int - (1u64 << w) as int) by (bit_vector)
                requires
                    r == ((val as i64) << shift) >> shift,
                    shift == 64 - width,
                    1 <= width < 64,
                    w == width,
                    half == 1u64 << ((w - 1) as u64),
                    mask == ((1u64 << w) - 1) as u64,
            ;
            assert(((val & half) == 0) == ((val & mask) < half)) by (bit_vector)
                requires
                    1 <= w < 64,
                    half == 1u64 << ((w - 1) as u64),
                    mask == ((1u64 << w) - 1) as u64,
            ;
            lemma_shl_one(w);
            lemma_shl_one((w - 1) as u64);
            lemma_u64_low_bits_mask_is_mod(val, w as nat);
        }
    }
    r
}

/// Element size exponent of a logical immediate: the position of the highest set bit of
/// `N:NOT(imms<5:0>)`, or 0 when that is bit 0 or there is none.
pub open spec fn bitmask_len(n: u32, imms: u32) -> u32 {
    if n == 1 {
        6
    } else if imms & 32 == 0 {
        5
    } else if imms & 16 == 0 {
        4
    } else if imms & 8 == 0 {
        3
    } else if imms & 4 == 0 {
        2
    } else if imms & 2 == 0 {
        1
    } else {
        0
    }
}

/// Mask of the low `esize` bits (all ones for 64).
pub open spec fn elem_mask(esize: u32) -> u64 {
    if esize >= 64 {
        u64::MAX
    } else {
        ((1u64 << esize) - 1) as u64
    }
}

/// `elem` (of `esize` bits) rotated right by `r` within the element.
pub open spec fn rotate_elem(elem: u64, r: u32, esize: u32) -> u64 {
    if r == 0 {
        elem
    } else {
        ((elem >> r) | (elem << ((esize - r) as u32))) & elem_mask(esize)
    }
}

/// Copies of an `esize`-bit element at bit offsets `e`, `e + esize`, ... below `width`.
pub open spec fn replicate(elem: u64, esize: nat, e: nat, width: nat) -> u64
    decreases (if e < width { width - e } else { 0 }),
{
    if esize == 0 || e >= width || e >= 64 {
        0
    } else {
        (elem << (e as u64)) | replicate(elem, esize, e + esize, width)
    }
}

/// The value of a logical (bitmask) immediate: `None` for a reserved encoding, else
/// an element of `s + 1` ones rotated right by `r`, repeated from bit 0 up across 64
/// bits (`sf`) or across 32 bits.
pub open spec fn bitmask_spec(sf: bool, n: u32, imms: u32, immr: u32) -> Option<u64> {
    let len = bitmask_len(n, imms);
    let levels = ((1u32 << len) - 1) as u32;
    if len < 1 || (imms & levels) == levels {
        None
    } else {
        let s = imms & levels;
        let r = immr & levels;
        let esize = 1u32 << len;
        let elem = rotate_elem(((1u64 << ((s + 1) as u64)) - 1) as u64, r, esize);
        let width: nat = if sf { 64 } else { 32 };
        let imm = replicate(elem, esize as nat, 0, width);
        Some(if sf { imm } else { imm & 0xFFFF_FFFF })
    }
}

/// Decode the ARM bitmask immediate of a logical instruction (`DecodeBitMasks`).
#[verifier::when_used_as_spec(bitmask_spec)]
pub fn decode_bitmask(sf: bool, n: u32, imms: u32, immr: u32) -> (r: Option<u64>)
    ensures
        r == bitmask_spec(sf, n, imms, immr),
{
    // Highest zero bit of imms<5:0> (or 6 for N = 1).
    let len: u32 = if n == 1 {
        6
    } else if imms & 32 == 0 {
        5
    } else if imms & 16 == 0 {
        4
    } else if imms & 8 == 0 {
        3
    } else if imms & 4 == 0 {
        2
    } else if imms & 2 == 0 {
        1
    } else {
        0
    };
    if len < 1 {
        return None;
    }
    assert(1 <= len <= 6 ==> (1u32 << len) >= 2 && (1u32 << len) <= 64
        && ((1u32 << len) - 1) as u32 <= 63
        && ((1u32 << len) - 1) as u32 + 1 == (1u32 << len)) by (bit_vector);
    let levels = (1u32 << len) - 1;
    if (imms & levels) == levels {
        return None;
    }
    let s = imms & levels;
    let r = immr & levels;
    let esize = 1u32 << len;
    assert(s <= levels && r <= levels) by (bit_vector)
        requires
            s == imms & levels,
            r == immr & levels,
    ;
    assert(s < 63 ==> (1u64 << ((s + 1) as u64)) >= 1) by (bit_vector);
    let mut welem = (1u64 << (s + 1)) - 1;
    if r != 0 {
        assert(esize < 64 ==> (1u64 << esize) >= 1) by (bit_vector);
        let mask = if esize == 64 {
            u64::MAX
        } else {
            (1u64 << esize) - 1
        };
        welem = ((welem >> r) | (welem << (esize - r))) & mask;
    }
    let mut imm = 0u64;
    let mut e = 0u32;
    let ghost all = replicate(welem, esize as nat, 0, if sf { 64 } else { 32 });
    assert(0u64 | all == all) by (bit_vector);
    let width: u32 = if sf { 64 } else { 32 };
    while e < width
        invariant
            esize >= 2,
            esize <= 64,
            e <= 128,
            width == 32 || width == 64,
            (imm | replicate(welem, esize as nat, e as nat, width as nat)) == replicate(
                welem,
                esize as nat,
                0,
                width as nat,
            ),
        decreases width + 128 - e,
    {
        let ghost rest = replicate(welem, esize as nat, (e + esize) as nat, width as nat);
        let ghost piece = welem << (e as u64);
        assert(((imm | piece) | rest) == (imm | (piece | rest))) by (bit_vector);
        imm |= welem << e;
        e += esize;
    }
    assert(imm | 0 == imm) by (bit_vector);
    if !sf {
        imm &= 0xFFFF_FFFF;
    }
    Some(imm)
}


/// Above the first element, a replicated pattern has nothing in the low `esize` bits.
proof fn lemma_replicate_above_low_bits(elem: u64, esize: nat, e: nat, width: nat)
    requires
        1 <= esize <= 64,
        esize <= e,
    ensures
        replicate(elem, esize, e, width) & elem_mask(esize as u32) == 0,
    decreases (if e < width { width - e } else { 0 }),
{
    let m = elem_mask(esize as u32);
    if e >= width || e >= 64 {
        assert(0u64 & m == 0) by (bit_vector);
    } else {
        lemma_replicate_above_low_bits(elem, esize, e + esize, width);
        let a = elem << (e as u64);
        let b = replicate(elem, esize, e + esize, width);
        let es = esize as u64;
        let sh = e as u64;
        assert(m == ((1u64 << es) - 1) as u64);
        assert((a | b) & m == (a & m) | (b & m) && (a & m == 0)) by (bit_vector)
            requires
                a == elem << sh,
                es <= sh < 64,
                m == ((1u64 << es) - 1) as u64,
        ;
        assert(0u64 | 0u64 == 0u64) by (bit_vector);
    }
}

/// The low `esize` bits of a pattern replicated from bit 0 are the element itself.
proof fn lemma_replicate_low_bits(elem: u64, esize: nat, width: nat)
    requires
        1 <= esize <= 64,
        esize <= width,
        elem & elem_mask(esize as u32) == elem,
    ensures
        replicate(elem, esize, 0, width) & elem_mask(esize as u32) == elem,
{
    let m = elem_mask(esize as u32);
    let rest = replicate(elem, esize, esize, width);
    lemma_replicate_above_low_bits(elem, esize, esize, width);
    assert(replicate(elem, esize, 0, width) == (elem << 0u64) | rest);
    assert(((elem << 0u64) | rest) & m == elem) by (bit_vector)
        requires
            rest & m == 0,
            elem & m == elem,
    ;
}

/// A logical immediate is never all zeros nor all ones (in the width of the
/// operation), for every encoding that is not reserved; 32-bit operations with
/// `N = 1` are left out.
pub(crate) proof fn lemma_bitmask_nontrivial(sf: bool, n: u32, imms: u32, immr: u32)
    requires
        sf || n == 0,
    ensures
        bitmask_spec(sf, n, imms, immr) matches Some(v) ==> v != 0 && v != (if sf {
            u64::MAX
        } else {
            0xFFFF_FFFFu64
        }),
{
    let len = bitmask_len(n, imms);
    let levels = ((1u32 << len) - 1) as u32;
    if len >= 1 && (imms & levels) != levels {
        let s = imms & levels;
        let r = immr & levels;
        let esize = 1u32 << len;
        assert(levels + 1 == esize && 2 <= esize <= 64 && s < levels && r <= levels && (len <= 5 ==> esize <= 32))
            by (bit_vector)
            requires
                1 <= len <= 6,
                levels == ((1u32 << len) - 1) as u32,
                esize == 1u32 << len,
                s == imms & levels,
                r == immr & levels,
                s != levels,
        ;
        let k = (s + 1) as u64;
        let x0 = ((1u64 << k) - 1) as u64;
        let m = elem_mask(esize);
        let elem = rotate_elem(x0, r, esize);
        let es = esize as u64;
        let rr = r as u64;
        assert(m == if es == 64 { u64::MAX } else { ((1u64 << es) - 1) as u64 });
        assert(elem == if rr == 0 { x0 } else { ((x0 >> rr) | (x0 << ((es - rr) as u64))) & m });
        assert(elem != 0 && elem & m == elem && elem != m) by (bit_vector)
            requires
                x0 == ((1u64 << k) - 1) as u64,
                1 <= k < es,
                es <= 64,
                rr < es,
                m == if es == 64 { u64::MAX } else { ((1u64 << es) - 1) as u64 },
                elem == if rr == 0 { x0 } else { ((x0 >> rr) | (x0 << ((es - rr) as u64))) & m },
        ;
        let width: nat = if sf { 64 } else { 32 };
        lemma_replicate_low_bits(elem, esize as nat, width);
        let imm = replicate(elem, esize as nat, 0, width);
        assert(imm & m == elem ==> imm != 0 && imm != u64::MAX && (m <= 0xFFFF_FFFF ==> (imm & 0xFFFF_FFFF) & m == elem
            && (imm & 0xFFFF_FFFF) != 0 && (imm & 0xFFFF_FFFF) != 0xFFFF_FFFF)) by (bit_vector)
            requires
                elem != 0,
                elem != m,
        ;
        if !sf {
            assert(m <= 0xFFFF_FFFF) by (bit_vector)
                requires
                    es <= 32,
                    m == if es == 64 { u64::MAX } else { ((1u64 << es) - 1) as u64 },
            ;
        }
    }
}

} // verus!
