//! Registers, encoding variants and operand attributes of a decoded instruction.

use crate::helpers::lemma_masked_below;
use vstd::prelude::*;

verus! {

/// One decimal digit as a character.
pub open spec fn digit_char(d: u32) -> char {
    match d {
        0 => '0',
        1 => '1',
        2 => '2',
        3 => '3',
        4 => '4',
        5 => '5',
        6 => '6',
        7 => '7',
        8 => '8',
        _ => '9',
    }
}

/// Decimal spelling of a number below one hundred.
pub open spec fn small_decimal(n: u32) -> Seq<char> {
    if n < 10 {
        seq![digit_char(n)]
    } else {
        seq![digit_char(n / 10), digit_char(n % 10)]
    }
}

/// An AArch64 register: general-purpose (64-bit `X`, 32-bit `W`, zero registers and
/// stack pointers), SIMD vector `V`, the scalar SIMD/FP views `Q`/`D`/`S`/`H`/`B`,
/// and `PC`.
#[allow(non_camel_case_types)]
#[derive(Debug, Copy, Clone, PartialEq, Eq, Hash, Default, Structural)]
pub enum Register {
    #[default]
    Absent,
    X0,
    X1,
    X2,
    X3,
    X4,
    X5,
    X6,
    X7,
    X8,
    X9,
    X10,
    X11,
    X12,
    X13,
    X14,
    X15,
    X16,
    X17,
    X18,
    X19,
    X20,
    X21,
    X22,
    X23,
    X24,
    X25,
    X26,
    X27,
    X28,
    X29,
    X30,
    XZR,
    SP,
    W0,
    W1,
    W2,
    W3,
    W4,
    W5,
    W6,
    W7,
    W8,
    W9,
    W10,
    W11,
    W12,
    W13,
    W14,
    W15,
    W16,
    W17,
    W18,
    W19,
    W20,
    W21,
    W22,
    W23,
    W24,
    W25,
    W26,
    W27,
    W28,
    W29,
    W30,
    WZR,
    WSP,
    V0,
    V1,
    V2,
    V3,
    V4,
    V5,
    V6,
    V7,
    V8,
    V9,
    V10,
    V11,
    V12,
    V13,
    V14,
    V15,
    V16,
    V17,
    V18,
    V19,
    V20,
    V21,
    V22,
    V23,
    V24,
    V25,
    V26,
    V27,
    V28,
    V29,
    V30,
    V31,
    Q0,
    Q1,
    Q2,
    Q3,
    Q4,
    Q5,
    Q6,
    Q7,
    Q8,
    Q9,
    Q10,
    Q11,
    Q12,
    Q13,
    Q14,
    Q15,
    Q16,
    Q17,
    Q18,
    Q19,
    Q20,
    Q21,
    Q22,
    Q23,
    Q24,
    Q25,
    Q26,
    Q27,
    Q28,
    Q29,
    Q30,
    Q31,
    D0,
    D1,
    D2,
    D3,
    D4,
    D5,
    D6,
    D7,
    D8,
    D9,
    D10,
    D11,
    D12,
    D13,
    D14,
    D15,
    D16,
    D17,
    D18,
    D19,
    D20,
    D21,
    D22,
    D23,
    D24,
    D25,
    D26,
    D27,
    D28,
    D29,
    D30,
    D31,
    S0,
    S1,
    S2,
    S3,
    S4,
    S5,
    S6,
    S7,
    S8,
    S9,
    S10,
    S11,
    S12,
    S13,
    S14,
    S15,
    S16,
    S17,
    S18,
    S19,
    S20,
    S21,
    S22,
    S23,
    S24,
    S25,
    S26,
    S27,
    S28,
    S29,
    S30,
    S31,
    H0,
    H1,
    H2,
    H3,
    H4,
    H5,
    H6,
    H7,
    H8,
    H9,
    H10,
    H11,
    H12,
    H13,
    H14,
    H15,
    H16,
    H17,
    H18,
    H19,
    H20,
    H21,
    H22,
    H23,
    H24,
    H25,
    H26,
    H27,
    H28,
    H29,
    H30,
    H31,
    B0,
    B1,
    B2,
    B3,
    B4,
    B5,
    B6,
    B7,
    B8,
    B9,
    B10,
    B11,
    B12,
    B13,
    B14,
    B15,
    B16,
    B17,
    B18,
    B19,
    B20,
    B21,
    B22,
    B23,
    B24,
    B25,
    B26,
    B27,
    B28,
    B29,
    B30,
    B31,
    PC,
}

/// Index of the first `X`, `W`, `V`, `Q`, `D`, `S`, `H` and `B` register in the register file.
pub const X_BASE: u32 = 1;
pub const W_BASE: u32 = 34;
pub const V_BASE: u32 = 67;
pub const Q_BASE: u32 = 99;
pub const D_BASE: u32 = 131;
pub const S_BASE: u32 = 163;
pub const H_BASE: u32 = 195;
pub const B_BASE: u32 = 227;
pub const PC_INDEX: u32 = 259;

/// The register at a given position of the register file: `Absent`, then `X0`..`X30`,
/// `XZR`, `SP`, `W0`..`W30`, `WZR`, `WSP`, `V0`..`V31`, `Q0`..`Q31`, `D0`..`D31`,
/// `S0`..`S31`, `H0`..`H31`, `B0`..`B31` and `PC`.
pub open spec fn reg_at(i: u32) -> Register {
    match i {
        0 => Register::Absent,
        1 => Register::X0,
        2 => Register::X1,
        3 => Register::X2,
        4 => Register::X3,
        5 => Register::X4,
        6 => Register::X5,
        7 => Register::X6,
        8 => Register::X7,
        9 => Register::X8,
        10 => Register::X9,
        11 => Register::X10,
        12 => Register::X11,
        13 => Register::X12,
        14 => Register::X13,
        15 => Register::X14,
        16 => Register::X15,
        17 => Register::X16,
        18 => Register::X17,
        19 => Register::X18,
        20 => Register::X19,
        21 => Register::X20,
        22 => Register::X21,
        23 => Register::X22,
        24 => Register::X23,
        25 => Register::X24,
        26 => Register::X25,
        27 => Register::X26,
        28 => Register::X27,
        29 => Register::X28,
        30 => Register::X29,
        31 => Register::X30,
        32 => Register::XZR,
        33 => Register::SP,
        34 => Register::W0,
        35 => Register::W1,
        36 => Register::W2,
        37 => Register::W3,
        38 => Register::W4,
        39 => Register::W5,
        40 => Register::W6,
        41 => Register::W7,
        42 => Register::W8,
        43 => Register::W9,
        44 => Register::W10,
        45 => Register::W11,
        46 => Register::W12,
        47 => Register::W13,
        48 => Register::W14,
        49 => Register::W15,
        50 => Register::W16,
        51 => Register::W17,
        52 => Register::W18,
        53 => Register::W19,
        54 => Register::W20,
        55 => Register::W21,
        56 => Register::W22,
        57 => Register::W23,
        58 => Register::W24,
        59 => Register::W25,
        60 => Register::W26,
        61 => Register::W27,
        62 => Register::W28,
        63 => Register::W29,
        64 => Register::W30,
        65 => Register::WZR,
        66 => Register::WSP,
        67 => Register::V0,
        68 => Register::V1,
        69 => Register::V2,
        70 => Register::V3,
        71 => Register::V4,
        72 => Register::V5,
        73 => Register::V6,
        74 => Register::V7,
        75 => Register::V8,
        76 => Register::V9,
        77 => Register::V10,
        78 => Register::V11,
        79 => Register::V12,
        80 => Register::V13,
        81 => Register::V14,
        82 => Register::V15,
        83 => Register::V16,
        84 => Register::V17,
        85 => Register::V18,
        86 => Register::V19,
        87 => Register::V20,
        88 => Register::V21,
        89 => Register::V22,
        90 => Register::V23,
        91 => Register::V24,
        92 => Register::V25,
        93 => Register::V26,
        94 => Register::V27,
        95 => Register::V28,
        96 => Register::V29,
        97 => Register::V30,
        98 => Register::V31,
        99 => Register::Q0,
        100 => Register::Q1,
        101 => Register::Q2,
        102 => Register::Q3,
        103 => Register::Q4,
        104 => Register::Q5,
        105 => Register::Q6,
        106 => Register::Q7,
        107 => Register::Q8,
        108 => Register::Q9,
        109 => Register::Q10,
        110 => Register::Q11,
        111 => Register::Q12,
        112 => Register::Q13,
        113 => Register::Q14,
        114 => Register::Q15,
        115 => Register::Q16,
        116 => Register::Q17,
        117 => Register::Q18,
        118 => Register::Q19,
        119 => Register::Q20,
        120 => Register::Q21,
        121 => Register::Q22,
        122 => Register::Q23,
        123 => Register::Q24,
        124 => Register::Q25,
        125 => Register::Q26,
        126 => Register::Q27,
        127 => Register::Q28,
        128 => Register::Q29,
        129 => Register::Q30,
        130 => Register::Q31,
        131 => Register::D0,
        132 => Register::D1,
        133 => Register::D2,
        134 => Register::D3,
        135 => Register::D4,
        136 => Register::D5,
        137 => Register::D6,
        138 => Register::D7,
        139 => Register::D8,
        140 => Register::D9,
        141 => Register::D10,
        142 => Register::D11,
        143 => Register::D12,
        144 => Register::D13,
        145 => Register::D14,
        146 => Register::D15,
        147 => Register::D16,
        148 => Register::D17,
        149 => Register::D18,
        150 => Register::D19,
        151 => Register::D20,
        152 => Register::D21,
        153 => Register::D22,
        154 => Register::D23,
        155 => Register::D24,
        156 => Register::D25,
        157 => Register::D26,
        158 => Register::D27,
        159 => Register::D28,
        160 => Register::D29,
        161 => Register::D30,
        162 => Register::D31,
        163 => Register::S0,
        164 => Register::S1,
        165 => Register::S2,
        166 => Register::S3,
        167 => Register::S4,
        168 => Register::S5,
        169 => Register::S6,
        170 => Register::S7,
        171 => Register::S8,
        172 => Register::S9,
        173 => Register::S10,
        174 => Register::S11,
        175 => Register::S12,
        176 => Register::S13,
        177 => Register::S14,
        178 => Register::S15,
        179 => Register::S16,
        180 => Register::S17,
        181 => Register::S18,
        182 => Register::S19,
        183 => Register::S20,
        184 => Register::S21,
        185 => Register::S22,
        186 => Register::S23,
        187 => Register::S24,
        188 => Register::S25,
        189 => Register::S26,
        190 => Register::S27,
        191 => Register::S28,
        192 => Register::S29,
        193 => Register::S30,
        194 => Register::S31,
        195 => Register::H0,
        196 => Register::H1,
        197 => Register::H2,
        198 => Register::H3,
        199 => Register::H4,
        200 => Register::H5,
        201 => Register::H6,
        202 => Register::H7,
        203 => Register::H8,
        204 => Register::H9,
        205 => Register::H10,
        206 => Register::H11,
        207 => Register::H12,
        208 => Register::H13,
        209 => Register::H14,
        210 => Register::H15,
        211 => Register::H16,
        212 => Register::H17,
        213 => Register::H18,
        214 => Register::H19,
        215 => Register::H20,
        216 => Register::H21,
        217 => Register::H22,
        218 => Register::H23,
        219 => Register::H24,
        220 => Register::H25,
        221 => Register::H26,
        222 => Register::H27,
        223 => Register::H28,
        224 => Register::H29,
        225 => Register::H30,
        226 => Register::H31,
        227 => Register::B0,
        228 => Register::B1,
        229 => Register::B2,
        230 => Register::B3,
        231 => Register::B4,
        232 => Register::B5,
        233 => Register::B6,
        234 => Register::B7,
        235 => Register::B8,
        236 => Register::B9,
        237 => Register::B10,
        238 => Register::B11,
        239 => Register::B12,
        240 => Register::B13,
        241 => Register::B14,
        242 => Register::B15,
        243 => Register::B16,
        244 => Register::B17,
        245 => Register::B18,
        246 => Register::B19,
        247 => Register::B20,
        248 => Register::B21,
        249 => Register::B22,
        250 => Register::B23,
        251 => Register::B24,
        252 => Register::B25,
        253 => Register::B26,
        254 => Register::B27,
        255 => Register::B28,
        256 => Register::B29,
        257 => Register::B30,
        258 => Register::B31,
        _ => Register::PC,
    }
}

/// Size in bytes of a scalar SIMD/FP register view, to the first register of that view.
pub open spec fn fp_base(size_bytes: u32) -> u32 {
    if size_bytes == 1 {
        B_BASE
    } else if size_bytes == 2 {
        H_BASE
    } else if size_bytes == 4 {
        S_BASE
    } else if size_bytes == 8 {
        D_BASE
    } else {
        Q_BASE
    }
}

/// Name prefix of the scalar SIMD/FP view whose first register is `base`.
pub open spec fn fp_prefix(base: u32) -> char {
    if base == Q_BASE {
        'q'
    } else if base == D_BASE {
        'd'
    } else if base == S_BASE {
        's'
    } else if base == H_BASE {
        'h'
    } else {
        'b'
    }
}

proof fn lemma_index_of_reg_at_0(i: u32)
    requires
        0 <= i < 34,
    ensures
        reg_at(i).index() == i,
{
}

proof fn lemma_index_of_reg_at_34(i: u32)
    requires
        34 <= i < 67,
    ensures
        reg_at(i).index() == i,
{
}

proof fn lemma_index_of_reg_at_67(i: u32)
    requires
        67 <= i < 99,
    ensures
        reg_at(i).index() == i,
{
}

proof fn lemma_index_of_reg_at_99(i: u32)
    requires
        99 <= i < 131,
    ensures
        reg_at(i).index() == i,
{
}

proof fn lemma_index_of_reg_at_131(i: u32)
    requires
        131 <= i < 163,
    ensures
        reg_at(i).index() == i,
{
}

proof fn lemma_index_of_reg_at_163(i: u32)
    requires
        163 <= i < 195,
    ensures
        reg_at(i).index() == i,
{
}

proof fn lemma_index_of_reg_at_195(i: u32)
    requires
        195 <= i < 227,
    ensures
        reg_at(i).index() == i,
{
}

proof fn lemma_index_of_reg_at_227(i: u32)
    requires
        227 <= i < 260,
    ensures
        reg_at(i).index() == i,
{
}

/// Every register sits at a position of the register file, and is found there.
proof fn lemma_reg_at_of_index(r: Register)
    ensures
        r.index() <= PC_INDEX,
        reg_at(r.index()) == r,
{
}

/// Whether `c` is a decimal digit.
pub open spec fn is_digit(c: char) -> bool {
    c == '0' || c == '1' || c == '2' || c == '3' || c == '4' || c == '5' || c == '6' || c == '7' || c == '8'
        || c == '9'
}

/// Digits below ten are spelled by distinct digit characters.
proof fn lemma_digit(d: u32, e: u32)
    ensures
        is_digit(digit_char(d)),
        d < 10 && e < 10 && digit_char(d) == digit_char(e) ==> d == e,
{
}

/// The spelling of a number below 32 is one or two digits, and tells the number.
proof fn lemma_small_decimal(a: u32, b: u32)
    requires
        a < 32,
        b < 32,
    ensures
        1 <= small_decimal(a).len() <= 2,
        is_digit(small_decimal(a)[0]),
        small_decimal(a) == small_decimal(b) ==> a == b,
{
    lemma_digit(a % 10, b % 10);
    lemma_digit(a / 10, b / 10);
    lemma_digit(a, b);
    lemma_digit(a / 10, b);
    lemma_digit(a, b / 10);
    if small_decimal(a) == small_decimal(b) {
        assert(small_decimal(a).len() == small_decimal(b).len());
        assert(small_decimal(a)[0] == small_decimal(b)[0]);
        if a >= 10 {
            assert(small_decimal(a)[1] == small_decimal(b)[1]);
        }
    }
}

/// The first letter of the name of the register at position `i` (from 1 on).
pub open spec fn name_head(i: u32) -> char {
    if i <= 32 {
        'x'
    } else if i == 33 {
        's'
    } else if i < V_BASE {
        'w'
    } else if i < Q_BASE {
        'v'
    } else if i < D_BASE {
        'q'
    } else if i < S_BASE {
        'd'
    } else if i < H_BASE {
        's'
    } else if i < B_BASE {
        'h'
    } else if i < PC_INDEX {
        'b'
    } else {
        'p'
    }
}

/// The rest of the name of the register at position `i` (from 1 on).
pub open spec fn name_tail(i: u32) -> Seq<char> {
    if i < 32 {
        small_decimal((i - X_BASE) as u32)
    } else if i == 32 {
        seq!['z', 'r']
    } else if i == 33 {
        seq!['p']
    } else if i < 65 {
        small_decimal((i - W_BASE) as u32)
    } else if i == 65 {
        seq!['z', 'r']
    } else if i == 66 {
        seq!['s', 'p']
    } else if i < Q_BASE {
        small_decimal((i - V_BASE) as u32)
    } else if i < D_BASE {
        small_decimal((i - Q_BASE) as u32)
    } else if i < S_BASE {
        small_decimal((i - D_BASE) as u32)
    } else if i < H_BASE {
        small_decimal((i - S_BASE) as u32)
    } else if i < B_BASE {
        small_decimal((i - H_BASE) as u32)
    } else if i < PC_INDEX {
        small_decimal((i - B_BASE) as u32)
    } else {
        seq!['c']
    }
}

/// Whether the tail of the name at position `i` is a number, and which.
pub open spec fn tail_number(i: u32) -> Option<u32> {
    if i < 32 {
        Some((i - X_BASE) as u32)
    } else if 34 <= i < 65 {
        Some((i - W_BASE) as u32)
    } else if V_BASE <= i < Q_BASE {
        Some((i - V_BASE) as u32)
    } else if Q_BASE <= i < D_BASE {
        Some((i - Q_BASE) as u32)
    } else if D_BASE <= i < S_BASE {
        Some((i - D_BASE) as u32)
    } else if S_BASE <= i < H_BASE {
        Some((i - S_BASE) as u32)
    } else if H_BASE <= i < B_BASE {
        Some((i - H_BASE) as u32)
    } else if B_BASE <= i < PC_INDEX {
        Some((i - B_BASE) as u32)
    } else {
        None
    }
}

/// The name of a register other than `Absent` is its first letter and the rest.
proof fn lemma_name_split(r: Register)
    requires
        r != Register::Absent,
    ensures
        r.index() >= 1,
        r.name() == seq![name_head(r.index())] + name_tail(r.index()),
        name_tail(r.index()).len() >= 1,
        match tail_number(r.index()) {
            Some(n) => n < 32 && name_tail(r.index()) == small_decimal(n),
            None => !is_digit(name_tail(r.index())[0]),
        },
{
    lemma_reg_at_of_index(r);
    let i = r.index();
    if i == 0 {
        assert(reg_at(0) == Register::Absent);
    }
    assert(r.name() =~= seq![name_head(i)] + name_tail(i));
    if tail_number(i) is Some {
        lemma_small_decimal(tail_number(i)->0, 0);
    }
}

/// Registers have distinct names, and only `Absent` has the empty name.
pub(crate) proof fn lemma_names_distinct(r1: Register, r2: Register)
    ensures
        r1.name() == r2.name() ==> r1 == r2,
        r1.name().len() == 0 <==> r1 == Register::Absent,
{
    if r1 != Register::Absent {
        lemma_name_split(r1);
    }
    if r2 != Register::Absent {
        lemma_name_split(r2);
    }
    if r1.name() == r2.name() && r1 != Register::Absent && r2 != Register::Absent {
        let i1 = r1.index();
        let i2 = r2.index();
        assert(r1.name()[0] == r2.name()[0]);
        assert(name_tail(i1) =~= r1.name().subrange(1, r1.name().len() as int));
        assert(name_tail(i2) =~= r2.name().subrange(1, r2.name().len() as int));
        if tail_number(i1) is Some && tail_number(i2) is Some {
            lemma_small_decimal(tail_number(i1)->0, tail_number(i2)->0);
        }
        lemma_reg_at_of_index(r1);
        lemma_reg_at_of_index(r2);
        assert(i1 == i2);
    }
    if r1 == Register::Absent {
        assert(r1.index() == 0);
    }
}

/// Positions and registers correspond one to one: the register found at position `i`
/// sits at position `i`.
pub(crate) proof fn lemma_index_of_reg_at(i: u32)
    requires
        i <= PC_INDEX,
    ensures
        reg_at(i).index() == i,
{
    if i < 34 {
        lemma_index_of_reg_at_0(i);
    } else if i < 67 {
        lemma_index_of_reg_at_34(i);
    } else if i < 99 {
        lemma_index_of_reg_at_67(i);
    } else if i < 131 {
        lemma_index_of_reg_at_99(i);
    } else if i < 163 {
        lemma_index_of_reg_at_131(i);
    } else if i < 195 {
        lemma_index_of_reg_at_163(i);
    } else if i < 227 {
        lemma_index_of_reg_at_195(i);
    } else if i < 260 {
        lemma_index_of_reg_at_227(i);
    }
}

impl Register {
    /// Position of the register in the register file (see `reg_at`).
    pub open spec fn index(self) -> u32 {
        match self {
            Register::Absent => 0,
            Register::X0 => 1,
            Register::X1 => 2,
            Register::X2 => 3,
            Register::X3 => 4,
            Register::X4 => 5,
            Register::X5 => 6,
            Register::X6 => 7,
            Register::X7 => 8,
            Register::X8 => 9,
            Register::X9 => 10,
            Register::X10 => 11,
            Register::X11 => 12,
            Register::X12 => 13,
            Register::X13 => 14,
            Register::X14 => 15,
            Register::X15 => 16,
            Register::X16 => 17,
            Register::X17 => 18,
            Register::X18 => 19,
            Register::X19 => 20,
            Register::X20 => 21,
            Register::X21 => 22,
            Register::X22 => 23,
            Register::X23 => 24,
            Register::X24 => 25,
            Register::X25 => 26,
            Register::X26 => 27,
            Register::X27 => 28,
            Register::X28 => 29,
            Register::X29 => 30,
            Register::X30 => 31,
            Register::XZR => 32,
            Register::SP => 33,
            Register::W0 => 34,
            Register::W1 => 35,
            Register::W2 => 36,
            Register::W3 => 37,
            Register::W4 => 38,
            Register::W5 => 39,
            Register::W6 => 40,
            Register::W7 => 41,
            Register::W8 => 42,
            Register::W9 => 43,
            Register::W10 => 44,
            Register::W11 => 45,
            Register::W12 => 46,
            Register::W13 => 47,
            Register::W14 => 48,
            Register::W15 => 49,
            Register::W16 => 50,
            Register::W17 => 51,
            Register::W18 => 52,
            Register::W19 => 53,
            Register::W20 => 54,
            Register::W21 => 55,
            Register::W22 => 56,
            Register::W23 => 57,
            Register::W24 => 58,
            Register::W25 => 59,
            Register::W26 => 60,
            Register::W27 => 61,
            Register::W28 => 62,
            Register::W29 => 63,
            Register::W30 => 64,
            Register::WZR => 65,
            Register::WSP => 66,
            Register::V0 => 67,
            Register::V1 => 68,
            Register::V2 => 69,
            Register::V3 => 70,
            Register::V4 => 71,
            Register::V5 => 72,
            Register::V6 => 73,
            Register::V7 => 74,
            Register::V8 => 75,
            Register::V9 => 76,
            Register::V10 => 77,
            Register::V11 => 78,
            Register::V12 => 79,
            Register::V13 => 80,
            Register::V14 => 81,
            Register::V15 => 82,
            Register::V16 => 83,
            Register::V17 => 84,
            Register::V18 => 85,
            Register::V19 => 86,
            Register::V20 => 87,
            Register::V21 => 88,
            Register::V22 => 89,
            Register::V23 => 90,
            Register::V24 => 91,
            Register::V25 => 92,
            Register::V26 => 93,
            Register::V27 => 94,
            Register::V28 => 95,
            Register::V29 => 96,
            Register::V30 => 97,
            Register::V31 => 98,
            Register::Q0 => 99,
            Register::Q1 => 100,
            Register::Q2 => 101,
            Register::Q3 => 102,
            Register::Q4 => 103,
            Register::Q5 => 104,
            Register::Q6 => 105,
            Register::Q7 => 106,
            Register::Q8 => 107,
            Register::Q9 => 108,
            Register::Q10 => 109,
            Register::Q11 => 110,
            Register::Q12 => 111,
            Register::Q13 => 112,
            Register::Q14 => 113,
            Register::Q15 => 114,
            Register::Q16 => 115,
            Register::Q17 => 116,
            Register::Q18 => 117,
            Register::Q19 => 118,
            Register::Q20 => 119,
            Register::Q21 => 120,
            Register::Q22 => 121,
            Register::Q23 => 122,
            Register::Q24 => 123,
            Register::Q25 => 124,
            Register::Q26 => 125,
            Register::Q27 => 126,
            Register::Q28 => 127,
            Register::Q29 => 128,
            Register::Q30 => 129,
            Register::Q31 => 130,
            Register::D0 => 131,
            Register::D1 => 132,
            Register::D2 => 133,
            Register::D3 => 134,
            Register::D4 => 135,
            Register::D5 => 136,
            Register::D6 => 137,
            Register::D7 => 138,
            Register::D8 => 139,
            Register::D9 => 140,
            Register::D10 => 141,
            Register::D11 => 142,
            Register::D12 => 143,
            Register::D13 => 144,
            Register::D14 => 145,
            Register::D15 => 146,
            Register::D16 => 147,
            Register::D17 => 148,
            Register::D18 => 149,
            Register::D19 => 150,
            Register::D20 => 151,
            Register::D21 => 152,
            Register::D22 => 153,
            Register::D23 => 154,
            Register::D24 => 155,
            Register::D25 => 156,
            Register::D26 => 157,
            Register::D27 => 158,
            Register::D28 => 159,
            Register::D29 => 160,
            Register::D30 => 161,
            Register::D31 => 162,
            Register::S0 => 163,
            Register::S1 => 164,
            Register::S2 => 165,
            Register::S3 => 166,
            Register::S4 => 167,
            Register::S5 => 168,
            Register::S6 => 169,
            Register::S7 => 170,
            Register::S8 => 171,
            Register::S9 => 172,
            Register::S10 => 173,
            Register::S11 => 174,
            Register::S12 => 175,
            Register::S13 => 176,
            Register::S14 => 177,
            Register::S15 => 178,
            Register::S16 => 179,
            Register::S17 => 180,
            Register::S18 => 181,
            Register::S19 => 182,
            Register::S20 => 183,
            Register::S21 => 184,
            Register::S22 => 185,
            Register::S23 => 186,
            Register::S24 => 187,
            Register::S25 => 188,
            Register::S26 => 189,
            Register::S27 => 190,
            Register::S28 => 191,
            Register::S29 => 192,
            Register::S30 => 193,
            Register::S31 => 194,
            Register::H0 => 195,
            Register::H1 => 196,
            Register::H2 => 197,
            Register::H3 => 198,
            Register::H4 => 199,
            Register::H5 => 200,
            Register::H6 => 201,
            Register::H7 => 202,
            Register::H8 => 203,
            Register::H9 => 204,
            Register::H10 => 205,
            Register::H11 => 206,
            Register::H12 => 207,
            Register::H13 => 208,
            Register::H14 => 209,
            Register::H15 => 210,
            Register::H16 => 211,
            Register::H17 => 212,
            Register::H18 => 213,
            Register::H19 => 214,
            Register::H20 => 215,
            Register::H21 => 216,
            Register::H22 => 217,
            Register::H23 => 218,
            Register::H24 => 219,
            Register::H25 => 220,
            Register::H26 => 221,
            Register::H27 => 222,
            Register::H28 => 223,
            Register::H29 => 224,
            Register::H30 => 225,
            Register::H31 => 226,
            Register::B0 => 227,
            Register::B1 => 228,
            Register::B2 => 229,
            Register::B3 => 230,
            Register::B4 => 231,
            Register::B5 => 232,
            Register::B6 => 233,
            Register::B7 => 234,
            Register::B8 => 235,
            Register::B9 => 236,
            Register::B10 => 237,
            Register::B11 => 238,
            Register::B12 => 239,
            Register::B13 => 240,
            Register::B14 => 241,
            Register::B15 => 242,
            Register::B16 => 243,
            Register::B17 => 244,
            Register::B18 => 245,
            Register::B19 => 246,
            Register::B20 => 247,
            Register::B21 => 248,
            Register::B22 => 249,
            Register::B23 => 250,
            Register::B24 => 251,
            Register::B25 => 252,
            Register::B26 => 253,
            Register::B27 => 254,
            Register::B28 => 255,
            Register::B29 => 256,
            Register::B30 => 257,
            Register::B31 => 258,
            Register::PC => 259,
        }
    }

    /// Assembler name of the register, derived from its position.
    pub open spec fn name(self) -> Seq<char> {
        let i = self.index();
        if i == 0 {
            seq![]
        } else if i < 32 {
            seq!['x'] + small_decimal((i - X_BASE) as u32)
        } else if i == 32 {
            seq!['x', 'z', 'r']
        } else if i == 33 {
            seq!['s', 'p']
        } else if i < 65 {
            seq!['w'] + small_decimal((i - W_BASE) as u32)
        } else if i == 65 {
            seq!['w', 'z', 'r']
        } else if i == 66 {
            seq!['w', 's', 'p']
        } else if i < Q_BASE {
            seq!['v'] + small_decimal((i - V_BASE) as u32)
        } else if i < D_BASE {
            seq!['q'] + small_decimal((i - Q_BASE) as u32)
        } else if i < S_BASE {
            seq!['d'] + small_decimal((i - D_BASE) as u32)
        } else if i < H_BASE {
            seq!['s'] + small_decimal((i - S_BASE) as u32)
        } else if i < B_BASE {
            seq!['h'] + small_decimal((i - H_BASE) as u32)
        } else if i < PC_INDEX {
            seq!['b'] + small_decimal((i - B_BASE) as u32)
        } else {
            seq!['p', 'c']
        }
    }

    /// Whether the register can serve as the base of an address: `X0` to `X30`, or `SP`.
    pub open spec fn is_address_register(self) -> bool {
        self == Register::SP || exists|n: u32| n < 31 && self == #[trigger] Register::x_at(n)
    }

    /// `Xn` for `n mod 32`; number 31 is `XZR`.
    pub open spec fn x_at(n: u32) -> Register {
        reg_at((X_BASE + (n & 31)) as u32)
    }

    /// `Wn` for `n mod 32`; number 31 is `WZR`.
    pub open spec fn w_at(n: u32) -> Register {
        reg_at((W_BASE + (n & 31)) as u32)
    }

    /// `Vn` for `n mod 32`.
    pub open spec fn v_at(n: u32) -> Register {
        reg_at((V_BASE + (n & 31)) as u32)
    }

    /// General-purpose register `n` of width 64 (`sf`) or 32; number 31 names the stack
    /// pointer when `sp_if_31` holds and the zero register otherwise.
    pub open spec fn gpr_at(sf: bool, n: u32, sp_if_31: bool) -> Register {
        if n == 31 {
            if sp_if_31 {
                if sf { Register::SP } else { Register::WSP }
            } else {
                if sf { Register::XZR } else { Register::WZR }
            }
        } else if sf {
            Register::x_at(n)
        } else {
            Register::w_at(n)
        }
    }

    /// Scalar SIMD/FP register `n mod 32` of the given size in bytes (1 `B`, 2 `H`,
    /// 4 `S`, 8 `D`, any other size `Q`).
    pub open spec fn fp_at(size_bytes: u32, n: u32) -> Register {
        reg_at((fp_base(size_bytes) + (n & 31)) as u32)
    }

    /// The X register with number `n mod 32`.
    #[verifier::when_used_as_spec(x_at)]
    pub fn x(n: u32) -> (r: Self)
        ensures
            r == Register::x_at(n),
    {
        proof {
            lemma_masked_below(n);
        }
        match n & 31 {
            0 => Register::X0,
            1 => Register::X1,
            2 => Register::X2,
            3 => Register::X3,
            4 => Register::X4,
            5 => Register::X5,
            6 => Register::X6,
            7 => Register::X7,
            8 => Register::X8,
            9 => Register::X9,
            10 => Register::X10,
            11 => Register::X11,
            12 => Register::X12,
            13 => Register::X13,
            14 => Register::X14,
            15 => Register::X15,
            16 => Register::X16,
            17 => Register::X17,
            18 => Register::X18,
            19 => Register::X19,
            20 => Register::X20,
            21 => Register::X21,
            22 => Register::X22,
            23 => Register::X23,
            24 => Register::X24,
            25 => Register::X25,
            26 => Register::X26,
            27 => Register::X27,
            28 => Register::X28,
            29 => Register::X29,
            30 => Register::X30,
            _ => Register::XZR,
        }
    }

    /// The W register with number `n mod 32`.
    #[verifier::when_used_as_spec(w_at)]
    pub fn w(n: u32) -> (r: Self)
        ensures
            r == Register::w_at(n),
    {
        proof {
            lemma_masked_below(n);
        }
        match n & 31 {
            0 => Register::W0,
            1 => Register::W1,
            2 => Register::W2,
            3 => Register::W3,
            4 => Register::W4,
            5 => Register::W5,
            6 => Register::W6,
            7 => Register::W7,
            8 => Register::W8,
            9 => Register::W9,
            10 => Register::W10,
            11 => Register::W11,
            12 => Register::W12,
            13 => Register::W13,
            14 => Register::W14,
            15 => Register::W15,
            16 => Register::W16,
            17 => Register::W17,
            18 => Register::W18,
            19 => Register::W19,
            20 => Register::W20,
            21 => Register::W21,
            22 => Register::W22,
            23 => Register::W23,
            24 => Register::W24,
            25 => Register::W25,
            26 => Register::W26,
            27 => Register::W27,
            28 => Register::W28,
            29 => Register::W29,
            30 => Register::W30,
            _ => Register::WZR,
        }
    }

    /// The V register with number `n mod 32`.
    #[verifier::when_used_as_spec(v_at)]
    pub fn v(n: u32) -> (r: Self)
        ensures
            r == Register::v_at(n),
    {
        proof {
            lemma_masked_below(n);
        }
        match n & 31 {
            0 => Register::V0,
            1 => Register::V1,
            2 => Register::V2,
            3 => Register::V3,
            4 => Register::V4,
            5 => Register::V5,
            6 => Register::V6,
            7 => Register::V7,
            8 => Register::V8,
            9 => Register::V9,
            10 => Register::V10,
            11 => Register::V11,
            12 => Register::V12,
            13 => Register::V13,
            14 => Register::V14,
            15 => Register::V15,
            16 => Register::V16,
            17 => Register::V17,
            18 => Register::V18,
            19 => Register::V19,
            20 => Register::V20,
            21 => Register::V21,
            22 => Register::V22,
            23 => Register::V23,
            24 => Register::V24,
            25 => Register::V25,
            26 => Register::V26,
            27 => Register::V27,
            28 => Register::V28,
            29 => Register::V29,
            30 => Register::V30,
            _ => Register::V31,
        }
    }

    /// General-purpose register `n` of width 64 (`sf`) or 32; number 31 names the stack
    /// pointer when `sp_if_31` holds and the zero register otherwise.
    #[verifier::when_used_as_spec(gpr_at)]
    pub fn gpr(sf: bool, n: u32, sp_if_31: bool) -> (r: Self)
        ensures
            r == Register::gpr_at(sf, n, sp_if_31),
    {
        if n == 31 {
            if sp_if_31 {
                return if sf { Self::SP } else { Self::WSP };
            }
            return if sf { Self::XZR } else { Self::WZR };
        }
        if sf { Self::x(n) } else { Self::w(n) }
    }

    /// Scalar SIMD/FP register `n mod 32` of the given size in bytes (1 `B`, 2 `H`,
    /// 4 `S`, 8 `D`, any other size `Q`).
    #[verifier::when_used_as_spec(fp_at)]
    pub fn fp_sized(size_bytes: u32, n: u32) -> (r: Self)
        ensures
            r == Register::fp_at(size_bytes, n),
    {
        proof {
            lemma_masked_below(n);
        }
        let n = n & 31;
        match size_bytes {
            1 => match n {
                0 => Self::B0,
                1 => Self::B1,
                2 => Self::B2,
                3 => Self::B3,
                4 => Self::B4,
                5 => Self::B5,
                6 => Self::B6,
                7 => Self::B7,
                8 => Self::B8,
                9 => Self::B9,
                10 => Self::B10,
                11 => Self::B11,
                12 => Self::B12,
                13 => Self::B13,
                14 => Self::B14,
                15 => Self::B15,
                16 => Self::B16,
                17 => Self::B17,
                18 => Self::B18,
                19 => Self::B19,
                20 => Self::B20,
                21 => Self::B21,
                22 => Self::B22,
                23 => Self::B23,
                24 => Self::B24,
                25 => Self::B25,
                26 => Self::B26,
                27 => Self::B27,
                28 => Self::B28,
                29 => Self::B29,
                30 => Self::B30,
                _ => Self::B31,
            },
            2 => match n {
                0 => Self::H0,
                1 => Self::H1,
                2 => Self::H2,
                3 => Self::H3,
                4 => Self::H4,
                5 => Self::H5,
                6 => Self::H6,
                7 => Self::H7,
                8 => Self::H8,
                9 => Self::H9,
                10 => Self::H10,
                11 => Self::H11,
                12 => Self::H12,
                13 => Self::H13,
                14 => Self::H14,
                15 => Self::H15,
                16 => Self::H16,
                17 => Self::H17,
                18 => Self::H18,
                19 => Self::H19,
                20 => Self::H20,
                21 => Self::H21,
                22 => Self::H22,
                23 => Self::H23,
                24 => Self::H24,
                25 => Self::H25,
                26 => Self::H26,
                27 => Self::H27,
                28 => Self::H28,
                29 => Self::H29,
                30 => Self::H30,
                _ => Self::H31,
            },
            4 => match n {
                0 => Self::S0,
                1 => Self::S1,
                2 => Self::S2,
                3 => Self::S3,
                4 => Self::S4,
                5 => Self::S5,
                6 => Self::S6,
                7 => Self::S7,
                8 => Self::S8,
                9 => Self::S9,
                10 => Self::S10,
                11 => Self::S11,
                12 => Self::S12,
                13 => Self::S13,
                14 => Self::S14,
                15 => Self::S15,
                16 => Self::S16,
                17 => Self::S17,
                18 => Self::S18,
                19 => Self::S19,
                20 => Self::S20,
                21 => Self::S21,
                22 => Self::S22,
                23 => Self::S23,
                24 => Self::S24,
                25 => Self::S25,
                26 => Self::S26,
                27 => Self::S27,
                28 => Self::S28,
                29 => Self::S29,
                30 => Self::S30,
                _ => Self::S31,
            },
            8 => match n {
                0 => Self::D0,
                1 => Self::D1,
                2 => Self::D2,
                3 => Self::D3,
                4 => Self::D4,
                5 => Self::D5,
                6 => Self::D6,
                7 => Self::D7,
                8 => Self::D8,
                9 => Self::D9,
                10 => Self::D10,
                11 => Self::D11,
                12 => Self::D12,
                13 => Self::D13,
                14 => Self::D14,
                15 => Self::D15,
                16 => Self::D16,
                17 => Self::D17,
                18 => Self::D18,
                19 => Self::D19,
                20 => Self::D20,
                21 => Self::D21,
                22 => Self::D22,
                23 => Self::D23,
                24 => Self::D24,
                25 => Self::D25,
                26 => Self::D26,
                27 => Self::D27,
                28 => Self::D28,
                29 => Self::D29,
                30 => Self::D30,
                _ => Self::D31,
            },
            _ => match n {
                0 => Self::Q0,
                1 => Self::Q1,
                2 => Self::Q2,
                3 => Self::Q3,
                4 => Self::Q4,
                5 => Self::Q5,
                6 => Self::Q6,
                7 => Self::Q7,
                8 => Self::Q8,
                9 => Self::Q9,
                10 => Self::Q10,
                11 => Self::Q11,
                12 => Self::Q12,
                13 => Self::Q13,
                14 => Self::Q14,
                15 => Self::Q15,
                16 => Self::Q16,
                17 => Self::Q17,
                18 => Self::Q18,
                19 => Self::Q19,
                20 => Self::Q20,
                21 => Self::Q21,
                22 => Self::Q22,
                23 => Self::Q23,
                24 => Self::Q24,
                25 => Self::Q25,
                26 => Self::Q26,
                27 => Self::Q27,
                28 => Self::Q28,
                29 => Self::Q29,
                30 => Self::Q30,
                _ => Self::Q31,
            },
        }
    }

    /// The assembler name of the register (empty for `Absent`).
    pub fn as_str(self) -> (r: &'static str)
        ensures
            r@ == self.name(),
    {
        match self {
            Register::Absent => {
                proof {
                    reveal_strlit("");
                }
                ""
            }
            Register::X0 => {
                proof {
                    reveal_strlit("x0");
                }
                "x0"
            }
            Register::X1 => {
                proof {
                    reveal_strlit("x1");
                }
                "x1"
            }
            Register::X2 => {
                proof {
                    reveal_strlit("x2");
                }
                "x2"
            }
            Register::X3 => {
                proof {
                    reveal_strlit("x3");
                }
                "x3"
            }
            Register::X4 => {
                proof {
                    reveal_strlit("x4");
                }
                "x4"
            }
            Register::X5 => {
                proof {
                    reveal_strlit("x5");
                }
                "x5"
            }
            Register::X6 => {
                proof {
                    reveal_strlit("x6");
                }
                "x6"
            }
            Register::X7 => {
                proof {
                    reveal_strlit("x7");
                }
                "x7"
            }
            Register::X8 => {
                proof {
                    reveal_strlit("x8");
                }
                "x8"
            }
            Register::X9 => {
                proof {
                    reveal_strlit("x9");
                }
                "x9"
            }
            Register::X10 => {
                proof {
                    reveal_strlit("x10");
                }
                "x10"
            }
            Register::X11 => {
                proof {
                    reveal_strlit("x11");
                }
                "x11"
            }
            Register::X12 => {
                proof {
                    reveal_strlit("x12");
                }
                "x12"
            }
            Register::X13 => {
                proof {
                    reveal_strlit("x13");
                }
                "x13"
            }
            Register::X14 => {
                proof {
                    reveal_strlit("x14");
                }
                "x14"
            }
            Register::X15 => {
                proof {
                    reveal_strlit("x15");
                }
                "x15"
            }
            Register::X16 => {
                proof {
                    reveal_strlit("x16");
                }
                "x16"
            }
            Register::X17 => {
                proof {
                    reveal_strlit("x17");
                }
                "x17"
            }
            Register::X18 => {
                proof {
                    reveal_strlit("x18");
                }
                "x18"
            }
            Register::X19 => {
                proof {
                    reveal_strlit("x19");
                }
                "x19"
            }
            Register::X20 => {
                proof {
                    reveal_strlit("x20");
                }
                "x20"
            }
            Register::X21 => {
                proof {
                    reveal_strlit("x21");
                }
                "x21"
            }
            Register::X22 => {
                proof {
                    reveal_strlit("x22");
                }
                "x22"
            }
            Register::X23 => {
                proof {
                    reveal_strlit("x23");
                }
                "x23"
            }
            Register::X24 => {
                proof {
                    reveal_strlit("x24");
                }
                "x24"
            }
            Register::X25 => {
                proof {
                    reveal_strlit("x25");
                }
                "x25"
            }
            Register::X26 => {
                proof {
                    reveal_strlit("x26");
                }
                "x26"
            }
            Register::X27 => {
                proof {
                    reveal_strlit("x27");
                }
                "x27"
            }
            Register::X28 => {
                proof {
                    reveal_strlit("x28");
                }
                "x28"
            }
            Register::X29 => {
                proof {
                    reveal_strlit("x29");
                }
                "x29"
            }
            Register::X30 => {
                proof {
                    reveal_strlit("x30");
                }
                "x30"
            }
            Register::XZR => {
                proof {
                    reveal_strlit("xzr");
                }
                "xzr"
            }
            Register::SP => {
                proof {
                    reveal_strlit("sp");
                }
                "sp"
            }
            Register::W0 => {
                proof {
                    reveal_strlit("w0");
                }
                "w0"
            }
            Register::W1 => {
                proof {
                    reveal_strlit("w1");
                }
                "w1"
            }
            Register::W2 => {
                proof {
                    reveal_strlit("w2");
                }
                "w2"
            }
            Register::W3 => {
                proof {
                    reveal_strlit("w3");
                }
                "w3"
            }
            Register::W4 => {
                proof {
                    reveal_strlit("w4");
                }
                "w4"
            }
            Register::W5 => {
                proof {
                    reveal_strlit("w5");
                }
                "w5"
            }
            Register::W6 => {
                proof {
                    reveal_strlit("w6");
                }
                "w6"
            }
            Register::W7 => {
                proof {
                    reveal_strlit("w7");
                }
                "w7"
            }
            Register::W8 => {
                proof {
                    reveal_strlit("w8");
                }
                "w8"
            }
            Register::W9 => {
                proof {
                    reveal_strlit("w9");
                }
                "w9"
            }
            Register::W10 => {
                proof {
                    reveal_strlit("w10");
                }
                "w10"
            }
            Register::W11 => {
                proof {
                    reveal_strlit("w11");
                }
                "w11"
            }
            Register::W12 => {
                proof {
                    reveal_strlit("w12");
                }
                "w12"
            }
            Register::W13 => {
                proof {
                    reveal_strlit("w13");
                }
                "w13"
            }
            Register::W14 => {
                proof {
                    reveal_strlit("w14");
                }
                "w14"
            }
            Register::W15 => {
                proof {
                    reveal_strlit("w15");
                }
                "w15"
            }
            Register::W16 => {
                proof {
                    reveal_strlit("w16");
                }
                "w16"
            }
            Register::W17 => {
                proof {
                    reveal_strlit("w17");
                }
                "w17"
            }
            Register::W18 => {
                proof {
                    reveal_strlit("w18");
                }
                "w18"
            }
            Register::W19 => {
                proof {
                    reveal_strlit("w19");
                }
                "w19"
            }
            Register::W20 => {
                proof {
                    reveal_strlit("w20");
                }
                "w20"
            }
            Register::W21 => {
                proof {
                    reveal_strlit("w21");
                }
                "w21"
            }
            Register::W22 => {
                proof {
                    reveal_strlit("w22");
                }
                "w22"
            }
            Register::W23 => {
                proof {
                    reveal_strlit("w23");
                }
                "w23"
            }
            Register::W24 => {
                proof {
                    reveal_strlit("w24");
                }
                "w24"
            }
            Register::W25 => {
                proof {
                    reveal_strlit("w25");
                }
                "w25"
            }
            Register::W26 => {
                proof {
                    reveal_strlit("w26");
                }
                "w26"
            }
            Register::W27 => {
                proof {
                    reveal_strlit("w27");
                }
                "w27"
            }
            Register::W28 => {
                proof {
                    reveal_strlit("w28");
                }
                "w28"
            }
            Register::W29 => {
                proof {
                    reveal_strlit("w29");
                }
                "w29"
            }
            Register::W30 => {
                proof {
                    reveal_strlit("w30");
                }
                "w30"
            }
            Register::WZR => {
                proof {
                    reveal_strlit("wzr");
                }
                "wzr"
            }
            Register::WSP => {
                proof {
                    reveal_strlit("wsp");
                }
                "wsp"
            }
            Register::V0 => {
                proof {
                    reveal_strlit("v0");
                }
                "v0"
            }
            Register::V1 => {
                proof {
                    reveal_strlit("v1");
                }
                "v1"
            }
            Register::V2 => {
                proof {
                    reveal_strlit("v2");
                }
                "v2"
            }
            Register::V3 => {
                proof {
                    reveal_strlit("v3");
                }
                "v3"
            }
            Register::V4 => {
                proof {
                    reveal_strlit("v4");
                }
                "v4"
            }
            Register::V5 => {
                proof {
                    reveal_strlit("v5");
                }
                "v5"
            }
            Register::V6 => {
                proof {
                    reveal_strlit("v6");
                }
                "v6"
            }
            Register::V7 => {
                proof {
                    reveal_strlit("v7");
                }
                "v7"
            }
            Register::V8 => {
                proof {
                    reveal_strlit("v8");
                }
                "v8"
            }
            Register::V9 => {
                proof {
                    reveal_strlit("v9");
                }
                "v9"
            }
            Register::V10 => {
                proof {
                    reveal_strlit("v10");
                }
                "v10"
            }
            Register::V11 => {
                proof {
                    reveal_strlit("v11");
                }
                "v11"
            }
            Register::V12 => {
                proof {
                    reveal_strlit("v12");
                }
                "v12"
            }
            Register::V13 => {
                proof {
                    reveal_strlit("v13");
                }
                "v13"
            }
            Register::V14 => {
                proof {
                    reveal_strlit("v14");
                }
                "v14"
            }
            Register::V15 => {
                proof {
                    reveal_strlit("v15");
                }
                "v15"
            }
            Register::V16 => {
                proof {
                    reveal_strlit("v16");
                }
                "v16"
            }
            Register::V17 => {
                proof {
                    reveal_strlit("v17");
                }
                "v17"
            }
            Register::V18 => {
                proof {
                    reveal_strlit("v18");
                }
                "v18"
            }
            Register::V19 => {
                proof {
                    reveal_strlit("v19");
                }
                "v19"
            }
            Register::V20 => {
                proof {
                    reveal_strlit("v20");
                }
                "v20"
            }
            Register::V21 => {
                proof {
                    reveal_strlit("v21");
                }
                "v21"
            }
            Register::V22 => {
                proof {
                    reveal_strlit("v22");
                }
                "v22"
            }
            Register::V23 => {
                proof {
                    reveal_strlit("v23");
                }
                "v23"
            }
            Register::V24 => {
                proof {
                    reveal_strlit("v24");
                }
                "v24"
            }
            Register::V25 => {
                proof {
                    reveal_strlit("v25");
                }
                "v25"
            }
            Register::V26 => {
                proof {
                    reveal_strlit("v26");
                }
                "v26"
            }
            Register::V27 => {
                proof {
                    reveal_strlit("v27");
                }
                "v27"
            }
            Register::V28 => {
                proof {
                    reveal_strlit("v28");
                }
                "v28"
            }
            Register::V29 => {
                proof {
                    reveal_strlit("v29");
                }
                "v29"
            }
            Register::V30 => {
                proof {
                    reveal_strlit("v30");
                }
                "v30"
            }
            Register::V31 => {
                proof {
                    reveal_strlit("v31");
                }
                "v31"
            }
            Register::Q0 => {
                proof {
                    reveal_strlit("q0");
                }
                "q0"
            }
            Register::Q1 => {
                proof {
                    reveal_strlit("q1");
                }
                "q1"
            }
            Register::Q2 => {
                proof {
                    reveal_strlit("q2");
                }
                "q2"
            }
            Register::Q3 => {
                proof {
                    reveal_strlit("q3");
                }
                "q3"
            }
            Register::Q4 => {
                proof {
                    reveal_strlit("q4");
                }
                "q4"
            }
            Register::Q5 => {
                proof {
                    reveal_strlit("q5");
                }
                "q5"
            }
            Register::Q6 => {
                proof {
                    reveal_strlit("q6");
                }
                "q6"
            }
            Register::Q7 => {
                proof {
                    reveal_strlit("q7");
                }
                "q7"
            }
            Register::Q8 => {
                proof {
                    reveal_strlit("q8");
                }
                "q8"
            }
            Register::Q9 => {
                proof {
                    reveal_strlit("q9");
                }
                "q9"
            }
            Register::Q10 => {
                proof {
                    reveal_strlit("q10");
                }
                "q10"
            }
            Register::Q11 => {
                proof {
                    reveal_strlit("q11");
                }
                "q11"
            }
            Register::Q12 => {
                proof {
                    reveal_strlit("q12");
                }
                "q12"
            }
            Register::Q13 => {
                proof {
                    reveal_strlit("q13");
                }
                "q13"
            }
            Register::Q14 => {
                proof {
                    reveal_strlit("q14");
                }
                "q14"
            }
            Register::Q15 => {
                proof {
                    reveal_strlit("q15");
                }
                "q15"
            }
            Register::Q16 => {
                proof {
                    reveal_strlit("q16");
                }
                "q16"
            }
            Register::Q17 => {
                proof {
                    reveal_strlit("q17");
                }
                "q17"
            }
            Register::Q18 => {
                proof {
                    reveal_strlit("q18");
                }
                "q18"
            }
            Register::Q19 => {
                proof {
                    reveal_strlit("q19");
                }
                "q19"
            }
            Register::Q20 => {
                proof {
                    reveal_strlit("q20");
                }
                "q20"
            }
            Register::Q21 => {
                proof {
                    reveal_strlit("q21");
                }
                "q21"
            }
            Register::Q22 => {
                proof {
                    reveal_strlit("q22");
                }
                "q22"
            }
            Register::Q23 => {
                proof {
                    reveal_strlit("q23");
                }
                "q23"
            }
            Register::Q24 => {
                proof {
                    reveal_strlit("q24");
                }
                "q24"
            }
            Register::Q25 => {
                proof {
                    reveal_strlit("q25");
                }
                "q25"
            }
            Register::Q26 => {
                proof {
                    reveal_strlit("q26");
                }
                "q26"
            }
            Register::Q27 => {
                proof {
                    reveal_strlit("q27");
                }
                "q27"
            }
            Register::Q28 => {
                proof {
                    reveal_strlit("q28");
                }
                "q28"
            }
            Register::Q29 => {
                proof {
                    reveal_strlit("q29");
                }
                "q29"
            }
            Register::Q30 => {
                proof {
                    reveal_strlit("q30");
                }
                "q30"
            }
            Register::Q31 => {
                proof {
                    reveal_strlit("q31");
                }
                "q31"
            }
            Register::D0 => {
                proof {
                    reveal_strlit("d0");
                }
                "d0"
            }
            Register::D1 => {
                proof {
                    reveal_strlit("d1");
                }
                "d1"
            }
            Register::D2 => {
                proof {
                    reveal_strlit("d2");
                }
                "d2"
            }
            Register::D3 => {
                proof {
                    reveal_strlit("d3");
                }
                "d3"
            }
            Register::D4 => {
                proof {
                    reveal_strlit("d4");
                }
                "d4"
            }
            Register::D5 => {
                proof {
                    reveal_strlit("d5");
                }
                "d5"
            }
            Register::D6 => {
                proof {
                    reveal_strlit("d6");
                }
                "d6"
            }
            Register::D7 => {
                proof {
                    reveal_strlit("d7");
                }
                "d7"
            }
            Register::D8 => {
                proof {
                    reveal_strlit("d8");
                }
                "d8"
            }
            Register::D9 => {
                proof {
                    reveal_strlit("d9");
                }
                "d9"
            }
            Register::D10 => {
                proof {
                    reveal_strlit("d10");
                }
                "d10"
            }
            Register::D11 => {
                proof {
                    reveal_strlit("d11");
                }
                "d11"
            }
            Register::D12 => {
                proof {
                    reveal_strlit("d12");
                }
                "d12"
            }
            Register::D13 => {
                proof {
                    reveal_strlit("d13");
                }
                "d13"
            }
            Register::D14 => {
                proof {
                    reveal_strlit("d14");
                }
                "d14"
            }
            Register::D15 => {
                proof {
                    reveal_strlit("d15");
                }
                "d15"
            }
            Register::D16 => {
                proof {
                    reveal_strlit("d16");
                }
                "d16"
            }
            Register::D17 => {
                proof {
                    reveal_strlit("d17");
                }
                "d17"
            }
            Register::D18 => {
                proof {
                    reveal_strlit("d18");
                }
                "d18"
            }
            Register::D19 => {
                proof {
                    reveal_strlit("d19");
                }
                "d19"
            }
            Register::D20 => {
                proof {
                    reveal_strlit("d20");
                }
                "d20"
            }
            Register::D21 => {
                proof {
                    reveal_strlit("d21");
                }
                "d21"
            }
            Register::D22 => {
                proof {
                    reveal_strlit("d22");
                }
                "d22"
            }
            Register::D23 => {
                proof {
                    reveal_strlit("d23");
                }
                "d23"
            }
            Register::D24 => {
                proof {
                    reveal_strlit("d24");
                }
                "d24"
            }
            Register::D25 => {
                proof {
                    reveal_strlit("d25");
                }
                "d25"
            }
            Register::D26 => {
                proof {
                    reveal_strlit("d26");
                }
                "d26"
            }
            Register::D27 => {
                proof {
                    reveal_strlit("d27");
                }
                "d27"
            }
            Register::D28 => {
                proof {
                    reveal_strlit("d28");
                }
                "d28"
            }
            Register::D29 => {
                proof {
                    reveal_strlit("d29");
                }
                "d29"
            }
            Register::D30 => {
                proof {
                    reveal_strlit("d30");
                }
                "d30"
            }
            Register::D31 => {
                proof {
                    reveal_strlit("d31");
                }
                "d31"
            }
            Register::S0 => {
                proof {
                    reveal_strlit("s0");
                }
                "s0"
            }
            Register::S1 => {
                proof {
                    reveal_strlit("s1");
                }
                "s1"
            }
            Register::S2 => {
                proof {
                    reveal_strlit("s2");
                }
                "s2"
            }
            Register::S3 => {
                proof {
                    reveal_strlit("s3");
                }
                "s3"
            }
            Register::S4 => {
                proof {
                    reveal_strlit("s4");
                }
                "s4"
            }
            Register::S5 => {
                proof {
                    reveal_strlit("s5");
                }
                "s5"
            }
            Register::S6 => {
                proof {
                    reveal_strlit("s6");
                }
                "s6"
            }
            Register::S7 => {
                proof {
                    reveal_strlit("s7");
                }
                "s7"
            }
            Register::S8 => {
                proof {
                    reveal_strlit("s8");
                }
                "s8"
            }
            Register::S9 => {
                proof {
                    reveal_strlit("s9");
                }
                "s9"
            }
            Register::S10 => {
                proof {
                    reveal_strlit("s10");
                }
                "s10"
            }
            Register::S11 => {
                proof {
                    reveal_strlit("s11");
                }
                "s11"
            }
            Register::S12 => {
                proof {
                    reveal_strlit("s12");
                }
                "s12"
            }
            Register::S13 => {
                proof {
                    reveal_strlit("s13");
                }
                "s13"
            }
            Register::S14 => {
                proof {
                    reveal_strlit("s14");
                }
                "s14"
            }
            Register::S15 => {
                proof {
                    reveal_strlit("s15");
                }
                "s15"
            }
            Register::S16 => {
                proof {
                    reveal_strlit("s16");
                }
                "s16"
            }
            Register::S17 => {
                proof {
                    reveal_strlit("s17");
                }
                "s17"
            }
            Register::S18 => {
                proof {
                    reveal_strlit("s18");
                }
                "s18"
            }
            Register::S19 => {
                proof {
                    reveal_strlit("s19");
                }
                "s19"
            }
            Register::S20 => {
                proof {
                    reveal_strlit("s20");
                }
                "s20"
            }
            Register::S21 => {
                proof {
                    reveal_strlit("s21");
                }
                "s21"
            }
            Register::S22 => {
                proof {
                    reveal_strlit("s22");
                }
                "s22"
            }
            Register::S23 => {
                proof {
                    reveal_strlit("s23");
                }
                "s23"
            }
            Register::S24 => {
                proof {
                    reveal_strlit("s24");
                }
                "s24"
            }
            Register::S25 => {
                proof {
                    reveal_strlit("s25");
                }
                "s25"
            }
            Register::S26 => {
                proof {
                    reveal_strlit("s26");
                }
                "s26"
            }
            Register::S27 => {
                proof {
                    reveal_strlit("s27");
                }
                "s27"
            }
            Register::S28 => {
                proof {
                    reveal_strlit("s28");
                }
                "s28"
            }
            Register::S29 => {
                proof {
                    reveal_strlit("s29");
                }
                "s29"
            }
            Register::S30 => {
                proof {
                    reveal_strlit("s30");
                }
                "s30"
            }
            Register::S31 => {
                proof {
                    reveal_strlit("s31");
                }
                "s31"
            }
            Register::H0 => {
                proof {
                    reveal_strlit("h0");
                }
                "h0"
            }
            Register::H1 => {
                proof {
                    reveal_strlit("h1");
                }
                "h1"
            }
            Register::H2 => {
                proof {
                    reveal_strlit("h2");
                }
                "h2"
            }
            Register::H3 => {
                proof {
                    reveal_strlit("h3");
                }
                "h3"
            }
            Register::H4 => {
                proof {
                    reveal_strlit("h4");
                }
                "h4"
            }
            Register::H5 => {
                proof {
                    reveal_strlit("h5");
                }
                "h5"
            }
            Register::H6 => {
                proof {
                    reveal_strlit("h6");
                }
                "h6"
            }
            Register::H7 => {
                proof {
                    reveal_strlit("h7");
                }
                "h7"
            }
            Register::H8 => {
                proof {
                    reveal_strlit("h8");
                }
                "h8"
            }
            Register::H9 => {
                proof {
                    reveal_strlit("h9");
                }
                "h9"
            }
            Register::H10 => {
                proof {
                    reveal_strlit("h10");
                }
                "h10"
            }
            Register::H11 => {
                proof {
                    reveal_strlit("h11");
                }
                "h11"
            }
            Register::H12 => {
                proof {
                    reveal_strlit("h12");
                }
                "h12"
            }
            Register::H13 => {
                proof {
                    reveal_strlit("h13");
                }
                "h13"
            }
            Register::H14 => {
                proof {
                    reveal_strlit("h14");
                }
                "h14"
            }
            Register::H15 => {
                proof {
                    reveal_strlit("h15");
                }
                "h15"
            }
            Register::H16 => {
                proof {
                    reveal_strlit("h16");
                }
                "h16"
            }
            Register::H17 => {
                proof {
                    reveal_strlit("h17");
                }
                "h17"
            }
            Register::H18 => {
                proof {
                    reveal_strlit("h18");
                }
                "h18"
            }
            Register::H19 => {
                proof {
                    reveal_strlit("h19");
                }
                "h19"
            }
            Register::H20 => {
                proof {
                    reveal_strlit("h20");
                }
                "h20"
            }
            Register::H21 => {
                proof {
                    reveal_strlit("h21");
                }
                "h21"
            }
            Register::H22 => {
                proof {
                    reveal_strlit("h22");
                }
                "h22"
            }
            Register::H23 => {
                proof {
                    reveal_strlit("h23");
                }
                "h23"
            }
            Register::H24 => {
                proof {
                    reveal_strlit("h24");
                }
                "h24"
            }
            Register::H25 => {
                proof {
                    reveal_strlit("h25");
                }
                "h25"
            }
            Register::H26 => {
                proof {
                    reveal_strlit("h26");
                }
                "h26"
            }
            Register::H27 => {
                proof {
                    reveal_strlit("h27");
                }
                "h27"
            }
            Register::H28 => {
                proof {
                    reveal_strlit("h28");
                }
                "h28"
            }
            Register::H29 => {
                proof {
                    reveal_strlit("h29");
                }
                "h29"
            }
            Register::H30 => {
                proof {
                    reveal_strlit("h30");
                }
                "h30"
            }
            Register::H31 => {
                proof {
                    reveal_strlit("h31");
                }
                "h31"
            }
            Register::B0 => {
                proof {
                    reveal_strlit("b0");
                }
                "b0"
            }
            Register::B1 => {
                proof {
                    reveal_strlit("b1");
                }
                "b1"
            }
            Register::B2 => {
                proof {
                    reveal_strlit("b2");
                }
                "b2"
            }
            Register::B3 => {
                proof {
                    reveal_strlit("b3");
                }
                "b3"
            }
            Register::B4 => {
                proof {
                    reveal_strlit("b4");
                }
                "b4"
            }
            Register::B5 => {
                proof {
                    reveal_strlit("b5");
                }
                "b5"
            }
            Register::B6 => {
                proof {
                    reveal_strlit("b6");
                }
                "b6"
            }
            Register::B7 => {
                proof {
                    reveal_strlit("b7");
                }
                "b7"
            }
            Register::B8 => {
                proof {
                    reveal_strlit("b8");
                }
                "b8"
            }
            Register::B9 => {
                proof {
                    reveal_strlit("b9");
                }
                "b9"
            }
            Register::B10 => {
                proof {
                    reveal_strlit("b10");
                }
                "b10"
            }
            Register::B11 => {
                proof {
                    reveal_strlit("b11");
                }
                "b11"
            }
            Register::B12 => {
                proof {
                    reveal_strlit("b12");
                }
                "b12"
            }
            Register::B13 => {
                proof {
                    reveal_strlit("b13");
                }
                "b13"
            }
            Register::B14 => {
                proof {
                    reveal_strlit("b14");
                }
                "b14"
            }
            Register::B15 => {
                proof {
                    reveal_strlit("b15");
                }
                "b15"
            }
            Register::B16 => {
                proof {
                    reveal_strlit("b16");
                }
                "b16"
            }
            Register::B17 => {
                proof {
                    reveal_strlit("b17");
                }
                "b17"
            }
            Register::B18 => {
                proof {
                    reveal_strlit("b18");
                }
                "b18"
            }
            Register::B19 => {
                proof {
                    reveal_strlit("b19");
                }
                "b19"
            }
            Register::B20 => {
                proof {
                    reveal_strlit("b20");
                }
                "b20"
            }
            Register::B21 => {
                proof {
                    reveal_strlit("b21");
                }
                "b21"
            }
            Register::B22 => {
                proof {
                    reveal_strlit("b22");
                }
                "b22"
            }
            Register::B23 => {
                proof {
                    reveal_strlit("b23");
                }
                "b23"
            }
            Register::B24 => {
                proof {
                    reveal_strlit("b24");
                }
                "b24"
            }
            Register::B25 => {
                proof {
                    reveal_strlit("b25");
                }
                "b25"
            }
            Register::B26 => {
                proof {
                    reveal_strlit("b26");
                }
                "b26"
            }
            Register::B27 => {
                proof {
                    reveal_strlit("b27");
                }
                "b27"
            }
            Register::B28 => {
                proof {
                    reveal_strlit("b28");
                }
                "b28"
            }
            Register::B29 => {
                proof {
                    reveal_strlit("b29");
                }
                "b29"
            }
            Register::B30 => {
                proof {
                    reveal_strlit("b30");
                }
                "b30"
            }
            Register::B31 => {
                proof {
                    reveal_strlit("b31");
                }
                "b31"
            }
            Register::PC => {
                proof {
                    reveal_strlit("pc");
                }
                "pc"
            }
        }
    }
}

/// Exact encoding variant of a decoded instruction; instruction families decoded as a
/// group share one variant (`Simd_three_same`, `Fp_conversion`, ...).
#[allow(non_camel_case_types)]
#[derive(Debug, Copy, Clone, PartialEq, Eq, Hash, Default, Structural)]
pub enum Code {
    #[default]
    INVALID,
    // Data processing, immediate
    Adr, Adrp,
    Add_imm, Adds_imm, Sub_imm, Subs_imm,
    And_imm, Orr_imm, Eor_imm, Ands_imm,
    Movn, Movz, Movk,
    Sbfm, Bfm, Ubfm, Extr,
    // Data processing, register
    And_shift, Bic_shift, Orr_shift, Orn_shift,
    Eor_shift, Eon_shift, Ands_shift, Bics_shift,
    Add_shift, Adds_shift, Sub_shift, Subs_shift,
    Add_ext, Adds_ext, Sub_ext, Subs_ext,
    Adc, Adcs, Sbc, Sbcs,
    Ccmp_reg, Ccmp_imm, Ccmn_reg, Ccmn_imm,
    Csel, Csinc, Csinv, Csneg,
    Rbit, Rev16, Rev, Rev32, Clz, Cls,
    Udiv, Sdiv, Lslv, Lsrv, Asrv, Rorv,
    Madd, Msub, Smaddl, Smsubl, Umaddl, Umsubl, Smulh, Umulh,
    // Branches, exceptions, system
    B, Bl, Br, Blr, Ret,
    B_cond, Cbz, Cbnz, Tbz, Tbnz,
    Svc, Hvc, Smc, Brk, Hlt, Dcps,
    Nop, Yield, Wfe, Wfi, Sev, Sevl,
    Hint, Mrs, Msr, Sys, Sysl,
    Paciasp, Pacibsp, Autia1716, Autib1716, Retab,
    Xpaclri, Pacia1716, Pacib1716, Paciaz, Pacibz, Autiaz, Autiasp, Autibz, Autibsp,
    // Loads and stores
    Ldr_lit, Ldrsw_lit, Ldr_fp_lit,
    Ldr_uimm, Ldrb_uimm, Ldrh_uimm, Ldrsb_uimm, Ldrsh_uimm, Ldrsw_uimm,
    Str_uimm, Strb_uimm, Strh_uimm,
    Ldr_imm, Str_imm,
    Ldr_reg, Str_reg,
    Ldp, Stp, Ldpsw,
    Ldxr, Stxr, Ldxrb, Stxrb, Ldxrh, Stxrh, Ldxrp, Stxrp,
    Ldar, Stlr, Ldarb, Stlrb, Ldarh, Stlrh,
    Ldr_fp_uimm, Str_fp_uimm, Ldp_fp, Stp_fp,
    // SIMD and floating point
    Simd_three_same, Simd_modified_imm, Simd_copy, Simd_two_misc,
    Simd_across, Simd_shift_imm, Simd_tbl, Simd_permute, Simd_ext,
    Simd_ldst_multi, Simd_ldst_single, Simd_three_diff, Simd_by_element,
    Fp_data_2src, Fp_conversion, Fp_compare, Fp_imm, Fp_1src,
    Undefined,
}

/// What an operand slot holds.
#[derive(Debug, Copy, Clone, PartialEq, Eq, Hash, Default, Structural)]
pub enum OpKind {
    #[default]
    Absent,
    Register,
    Immediate,
    Memory,
    NearBranch,
    SystemRegister,
}

/// Condition code, in the order of its 4-bit encoding.
#[derive(Debug, Copy, Clone, PartialEq, Eq, Hash, Default, Structural)]
pub enum Condition {
    #[default]
    Eq, Ne, Cs, Cc, Mi, Pl, Vs, Vc,
    Hi, Ls, Ge, Lt, Gt, Le, Al, Nv,
}

impl Condition {
    /// The 4-bit encoding of the condition.
    pub open spec fn encoding(self) -> u32 {
        match self {
            Condition::Eq => 0, Condition::Ne => 1, Condition::Cs => 2, Condition::Cc => 3,
            Condition::Mi => 4, Condition::Pl => 5, Condition::Vs => 6, Condition::Vc => 7,
            Condition::Hi => 8, Condition::Ls => 9, Condition::Ge => 10, Condition::Lt => 11,
            Condition::Gt => 12, Condition::Le => 13, Condition::Al => 14, Condition::Nv => 15,
        }
    }

    /// The condition encoded by the low four bits of `v`.
    pub open spec fn decode_spec(v: u32) -> Condition {
        let c = v & 0xF;
        if c == 0 { Condition::Eq } else if c == 1 { Condition::Ne }
        else if c == 2 { Condition::Cs } else if c == 3 { Condition::Cc }
        else if c == 4 { Condition::Mi } else if c == 5 { Condition::Pl }
        else if c == 6 { Condition::Vs } else if c == 7 { Condition::Vc }
        else if c == 8 { Condition::Hi } else if c == 9 { Condition::Ls }
        else if c == 10 { Condition::Ge } else if c == 11 { Condition::Lt }
        else if c == 12 { Condition::Gt } else if c == 13 { Condition::Le }
        else if c == 14 { Condition::Al } else { Condition::Nv }
    }

    /// The condition encoded by the low four bits of `v`.
    #[verifier::when_used_as_spec(decode_spec)]
    pub fn from_u32(v: u32) -> (r: Self)
        ensures
            r == Condition::decode_spec(v),
            r.encoding() == v & 0xF,
    {
        proof {
            lemma_masked_below(v);
        }
        match v & 0xF {
            0x0 => Self::Eq, 0x1 => Self::Ne, 0x2 => Self::Cs, 0x3 => Self::Cc,
            0x4 => Self::Mi, 0x5 => Self::Pl, 0x6 => Self::Vs, 0x7 => Self::Vc,
            0x8 => Self::Hi, 0x9 => Self::Ls, 0xA => Self::Ge, 0xB => Self::Lt,
            0xC => Self::Gt, 0xD => Self::Le, 0xE => Self::Al, _ => Self::Nv,
        }
    }

    /// Assembler spelling of the condition (`cs` is written `hs`, `cc` is `lo`).
    pub open spec fn text(self) -> Seq<char> {
        match self {
            Condition::Eq => seq!['e', 'q'], Condition::Ne => seq!['n', 'e'],
            Condition::Cs => seq!['h', 's'], Condition::Cc => seq!['l', 'o'],
            Condition::Mi => seq!['m', 'i'], Condition::Pl => seq!['p', 'l'],
            Condition::Vs => seq!['v', 's'], Condition::Vc => seq!['v', 'c'],
            Condition::Hi => seq!['h', 'i'], Condition::Ls => seq!['l', 's'],
            Condition::Ge => seq!['g', 'e'], Condition::Lt => seq!['l', 't'],
            Condition::Gt => seq!['g', 't'], Condition::Le => seq!['l', 'e'],
            Condition::Al => seq!['a', 'l'], Condition::Nv => seq!['n', 'v'],
        }
    }

    /// Assembler spelling of the condition.
    pub fn as_str(self) -> (r: &'static str)
        ensures
            r@ == self.text(),
    {
        match self {
            Self::Eq => { proof { reveal_strlit("eq"); } "eq" }
            Self::Ne => { proof { reveal_strlit("ne"); } "ne" }
            Self::Cs => { proof { reveal_strlit("hs"); } "hs" }
            Self::Cc => { proof { reveal_strlit("lo"); } "lo" }
            Self::Mi => { proof { reveal_strlit("mi"); } "mi" }
            Self::Pl => { proof { reveal_strlit("pl"); } "pl" }
            Self::Vs => { proof { reveal_strlit("vs"); } "vs" }
            Self::Vc => { proof { reveal_strlit("vc"); } "vc" }
            Self::Hi => { proof { reveal_strlit("hi"); } "hi" }
            Self::Ls => { proof { reveal_strlit("ls"); } "ls" }
            Self::Ge => { proof { reveal_strlit("ge"); } "ge" }
            Self::Lt => { proof { reveal_strlit("lt"); } "lt" }
            Self::Gt => { proof { reveal_strlit("gt"); } "gt" }
            Self::Le => { proof { reveal_strlit("le"); } "le" }
            Self::Al => { proof { reveal_strlit("al"); } "al" }
            Self::Nv => { proof { reveal_strlit("nv"); } "nv" }
        }
    }
}

/// Shift applied to the last register operand (`Absent` when no shift is printed).
#[derive(Debug, Copy, Clone, PartialEq, Eq, Hash, Default, Structural)]
pub enum ShiftKind {
    #[default]
    Absent, Lsl, Lsr, Asr, Ror,
}

impl ShiftKind {
    /// The shift encoded by the low two bits of `v`.
    pub open spec fn decode_spec(v: u32) -> ShiftKind {
        let s = v & 3;
        if s == 0 { ShiftKind::Lsl } else if s == 1 { ShiftKind::Lsr }
        else if s == 2 { ShiftKind::Asr } else { ShiftKind::Ror }
    }

    /// The shift encoded by the low two bits of `v`.
    #[verifier::when_used_as_spec(decode_spec)]
    pub fn from_u32(v: u32) -> (r: Self)
        ensures
            r == ShiftKind::decode_spec(v),
    {
        proof {
            lemma_masked_below(v);
        }
        match v & 3 {
            0 => Self::Lsl, 1 => Self::Lsr, 2 => Self::Asr, _ => Self::Ror,
        }
    }

    /// Assembler spelling of the shift (empty for `Absent`).
    pub open spec fn text(self) -> Seq<char> {
        match self {
            ShiftKind::Absent => seq![],
            ShiftKind::Lsl => seq!['l', 's', 'l'],
            ShiftKind::Lsr => seq!['l', 's', 'r'],
            ShiftKind::Asr => seq!['a', 's', 'r'],
            ShiftKind::Ror => seq!['r', 'o', 'r'],
        }
    }

    /// Assembler spelling of the shift (empty for `Absent`).
    pub fn as_str(self) -> (r: &'static str)
        ensures
            r@ == self.text(),
    {
        match self {
            Self::Absent => { proof { reveal_strlit(""); } "" }
            Self::Lsl => { proof { reveal_strlit("lsl"); } "lsl" }
            Self::Lsr => { proof { reveal_strlit("lsr"); } "lsr" }
            Self::Asr => { proof { reveal_strlit("asr"); } "asr" }
            Self::Ror => { proof { reveal_strlit("ror"); } "ror" }
        }
    }
}

/// Register extension applied to an index or last register operand.
#[derive(Debug, Copy, Clone, PartialEq, Eq, Hash, Default, Structural)]
pub enum ExtendKind {
    #[default]
    Absent, Uxtb, Uxth, Uxtw, Uxtx, Sxtb, Sxth, Sxtw, Sxtx,
}

impl ExtendKind {
    /// The extension encoded by the low three bits of `v` (the `option` field).
    pub open spec fn decode_spec(v: u32) -> ExtendKind {
        let e = v & 7;
        if e == 0 { ExtendKind::Uxtb } else if e == 1 { ExtendKind::Uxth }
        else if e == 2 { ExtendKind::Uxtw } else if e == 3 { ExtendKind::Uxtx }
        else if e == 4 { ExtendKind::Sxtb } else if e == 5 { ExtendKind::Sxth }
        else if e == 6 { ExtendKind::Sxtw } else { ExtendKind::Sxtx }
    }

    /// The extension encoded by the low three bits of `v`.
    #[verifier::when_used_as_spec(decode_spec)]
    pub fn from_u32(v: u32) -> (r: Self)
        ensures
            r == ExtendKind::decode_spec(v),
    {
        proof {
            lemma_masked_below(v);
        }
        match v & 7 {
            0 => Self::Uxtb, 1 => Self::Uxth, 2 => Self::Uxtw, 3 => Self::Uxtx,
            4 => Self::Sxtb, 5 => Self::Sxth, 6 => Self::Sxtw, _ => Self::Sxtx,
        }
    }

    /// Assembler spelling of the extension (empty for `Absent`).
    pub open spec fn text(self) -> Seq<char> {
        match self {
            ExtendKind::Absent => seq![],
            ExtendKind::Uxtb => seq!['u', 'x', 't', 'b'],
            ExtendKind::Uxth => seq!['u', 'x', 't', 'h'],
            ExtendKind::Uxtw => seq!['u', 'x', 't', 'w'],
            ExtendKind::Uxtx => seq!['u', 'x', 't', 'x'],
            ExtendKind::Sxtb => seq!['s', 'x', 't', 'b'],
            ExtendKind::Sxth => seq!['s', 'x', 't', 'h'],
            ExtendKind::Sxtw => seq!['s', 'x', 't', 'w'],
            ExtendKind::Sxtx => seq!['s', 'x', 't', 'x'],
        }
    }

    /// Assembler spelling of the extension (empty for `Absent`).
    pub fn as_str(self) -> (r: &'static str)
        ensures
            r@ == self.text(),
    {
        match self {
            Self::Absent => { proof { reveal_strlit(""); } "" }
            Self::Uxtb => { proof { reveal_strlit("uxtb"); } "uxtb" }
            Self::Uxth => { proof { reveal_strlit("uxth"); } "uxth" }
            Self::Uxtw => { proof { reveal_strlit("uxtw"); } "uxtw" }
            Self::Uxtx => { proof { reveal_strlit("uxtx"); } "uxtx" }
            Self::Sxtb => { proof { reveal_strlit("sxtb"); } "sxtb" }
            Self::Sxth => { proof { reveal_strlit("sxth"); } "sxth" }
            Self::Sxtw => { proof { reveal_strlit("sxtw"); } "sxtw" }
            Self::Sxtx => { proof { reveal_strlit("sxtx"); } "sxtx" }
        }
    }
}

/// Addressing mode of a memory operand.
#[derive(Debug, Copy, Clone, PartialEq, Eq, Hash, Default, Structural)]
pub enum MemMode {
    #[default]
    Absent,
    /// `[base{, #imm}]`
    Offset,
    /// `[base, #imm]!`
    PreIndex,
    /// `[base], #imm`
    PostIndex,
    /// `[base, Xm{, extend}]`
    Register,
    /// PC-relative literal
    Literal,
}

/// Vector arrangement of SIMD operands.
#[derive(Debug, Copy, Clone, PartialEq, Eq, Hash, Default, Structural)]
pub enum Arrangement {
    #[default]
    Absent,
    B8, B16, H4, H8, S2, S4, D1, D2,
}

} // verus!
