use arm_disassembler::{
    bit, bits, decode_bitmask, decode_raw, sign_extend, Code, Condition, Decoder, ExtendKind, Instruction, MemMode,
    Mnemonic, OpKind, Register, ShiftKind,
};

/// A fixed pseudo-random sequence of words (a linear congruential generator).
fn sample_words(n: usize) -> Vec<u32> {
    let mut x: u64 = 0x2545_F491_4F6C_DD1D;
    let mut v = Vec::new();
    for _ in 0..n {
        x = x.wrapping_mul(6364136223846793005).wrapping_add(1442695040888963407);
        v.push((x >> 32) as u32);
    }
    v
}

#[test]
fn every_word_decodes_to_a_record_of_itself() {
    for (k, raw) in sample_words(20000).into_iter().enumerate() {
        let vaddr = 0x4000_0000u64 + 4 * k as u64;
        let i = decode_raw(vaddr, raw);
        assert_eq!(i.vaddr, vaddr);
        assert_eq!(i.raw, raw);
        assert_eq!(i.len, 4);
        assert!(i.op_count <= 4, "{raw:#010x} has {} operands", i.op_count);
    }
}

#[test]
fn form_does_not_depend_on_address() {
    for raw in sample_words(20000) {
        let a = decode_raw(0x1000, raw);
        let b = decode_raw(0xFFFF_FFFF_FFFF_0000, raw);
        assert_eq!(a.code, b.code, "{raw:#010x}");
        assert_eq!(a.mnemonic, b.mnemonic, "{raw:#010x}");
        assert_eq!(a.op_count, b.op_count);
        assert_eq!((a.op0_kind, a.op1_kind, a.op2_kind, a.op3_kind), (b.op0_kind, b.op1_kind, b.op2_kind, b.op3_kind));
        assert_eq!((a.op0_reg, a.op1_reg, a.op2_reg, a.op3_reg), (b.op0_reg, b.op1_reg, b.op2_reg, b.op3_reg));
    }
    let near = decode_raw(0x1000, 0x94000010);
    let far = decode_raw(0x2000, 0x94000010);
    assert_eq!(near.near_branch_target, 0x1040);
    assert_eq!(far.near_branch_target, 0x2040);
}

#[test]
fn unallocated_words_are_undefined() {
    for raw in [0x0000_0000u32, 0x0200_0000, 0x0400_0000, 0x85AB_CDEF & !(0xF << 25), 0xFFFF_FFFF & !(0xF << 25)] {
        let i = decode_raw(0x10, raw);
        assert_eq!(i.mnemonic, Mnemonic::Undefined);
        assert_eq!(i.code, Code::Undefined);
        assert!(i.is_invalid());
        assert_eq!(i.op_count, 1);
        assert_eq!(i.op0_kind, OpKind::Immediate);
        assert_eq!(i.op0_imm, raw as u64);
    }
}

#[test]
fn exhausted_decoder_yields_invalid() {
    let code = [0x1Fu8, 0x20, 0x03];
    let mut d = Decoder::new(&code, 0x8000);
    assert!(!d.can_decode());
    let i = d.decode();
    assert!(i.is_invalid());
    assert_eq!(i.code, Code::INVALID);
    assert_eq!(i.mnemonic, Mnemonic::Invalid);
    assert_eq!(i.op_count, 0);
    assert_eq!(d.position(), 0);
    assert_eq!(d.ip(), 0x8000);
    let default = Instruction::default();
    assert_eq!(default.code, Code::INVALID);
    assert_eq!(default.len, 4);
    assert_eq!(default.condition, Condition::Al);
}

#[test]
fn decoder_reads_consecutive_little_endian_words() {
    // ret; nop; bl .; then two stray bytes
    let code = [0xC0u8, 0x03, 0x5F, 0xD6, 0x1F, 0x20, 0x03, 0xD5, 0x00, 0x00, 0x00, 0x94, 0xAA, 0xBB];
    let mut d = Decoder::new(&code, 0x2000);
    let mut seen = Vec::new();
    while d.can_decode() {
        let at = d.ip();
        let pos = d.position();
        let i = d.decode();
        assert_eq!(i.vaddr, at);
        let word = u32::from_le_bytes([code[pos], code[pos + 1], code[pos + 2], code[pos + 3]]);
        assert_eq!(i.raw, word);
        assert_eq!(d.position(), pos + 4);
        assert_eq!(d.ip(), at + 4);
        seen.push(i.mnemonic);
    }
    assert_eq!(seen, vec![Mnemonic::Ret, Mnemonic::Nop, Mnemonic::Bl]);
    assert_eq!(d.position(), 12);
    let bl = decode_raw(0x2008, 0x9400_0000);
    assert_eq!(bl.near_branch_target, 0x2008);
}

#[test]
fn decoder_address_wraps_and_can_be_moved() {
    let code = [0x1Fu8, 0x20, 0x03, 0xD5, 0x1F, 0x20, 0x03, 0xD5];
    let mut d = Decoder::new(&code, u64::MAX - 3);
    let first = d.decode();
    assert_eq!(first.vaddr, u64::MAX - 3);
    assert_eq!(d.ip(), 0);
    d.set_ip(0x7000);
    assert_eq!(d.position(), 4);
    let mut second = Instruction::default();
    d.decode_out(&mut second);
    assert_eq!(second.vaddr, 0x7000);
    assert_eq!(second.mnemonic, Mnemonic::Nop);
    assert!(!d.can_decode());
}

#[test]
fn condition_field_round_trips() {
    let names = ["eq", "ne", "hs", "lo", "mi", "pl", "vs", "vc", "hi", "ls", "ge", "lt", "gt", "le", "al", "nv"];
    for v in 0u32..64 {
        let c = Condition::from_u32(v);
        assert_eq!(c, Condition::from_u32(v & 0xF));
        assert_eq!(c.as_str(), names[(v & 0xF) as usize]);
    }
    assert_eq!(ShiftKind::from_u32(6).as_str(), "asr");
    assert_eq!(ShiftKind::from_u32(3), ShiftKind::Ror);
    assert_eq!(ExtendKind::from_u32(0b1110).as_str(), "sxtw");
    assert_eq!(ExtendKind::from_u32(3), ExtendKind::Uxtx);
}

#[test]
fn register_names_follow_numbers() {
    for n in 0u32..31 {
        assert_eq!(Register::x(n).as_str(), format!("x{n}"));
        assert_eq!(Register::w(n + 32).as_str(), format!("w{n}"));
        assert_eq!(Register::v(n).as_str(), format!("v{n}"));
    }
    assert_eq!(Register::x(31), Register::XZR);
    assert_eq!(Register::w(31).as_str(), "wzr");
    assert_eq!(Register::v(31).as_str(), "v31");
    assert_eq!(Register::gpr(true, 31, true), Register::SP);
    assert_eq!(Register::gpr(false, 31, true).as_str(), "wsp");
    assert_eq!(Register::gpr(false, 31, false).as_str(), "wzr");
    assert_eq!(Register::gpr(true, 7, true).as_str(), "x7");
    assert_eq!(Register::fp_sized(1, 2).as_str(), "b2");
    assert_eq!(Register::fp_sized(2, 3).as_str(), "h3");
    assert_eq!(Register::fp_sized(4, 4).as_str(), "s4");
    assert_eq!(Register::fp_sized(8, 37).as_str(), "d5");
    assert_eq!(Register::fp_sized(16, 6).as_str(), "q6");
    assert_eq!(Register::PC.as_str(), "pc");
}

#[test]
fn sign_extension_range() {
    assert_eq!(sign_extend(0x1F_FFFF, 21), -1);
    assert_eq!(sign_extend(0x0F_FFFF, 21), 0xF_FFFF);
    assert_eq!(sign_extend(0x10_0000, 21), -0x10_0000);
    assert_eq!(sign_extend(0x80, 8), -128);
    assert_eq!(sign_extend(0x17F, 8), 127);
    assert_eq!(sign_extend(1, 1), -1);
    assert_eq!(sign_extend(u64::MAX, 64), -1);
    assert_eq!(sign_extend(0x7FFF_FFFF_FFFF_FFFF, 64), i64::MAX);
    for w in 1u32..=64 {
        for val in [0u64, 1, 0x55, 0xDEAD_BEEF, u64::MAX, 1u64 << (w - 1)] {
            let r = sign_extend(val, w) as i128;
            let half = 1i128 << (w - 1);
            assert!(-half <= r && r < half);
            if (val as i128) < half {
                assert_eq!(r, val as i128);
            }
        }
    }
}

#[test]
fn bit_fields() {
    assert_eq!(bits(0xD65F03C0, 31, 25), 0b1101011);
    assert_eq!(bits(0x91000420, 21, 10), 1);
    assert_eq!(bits(0xFFFF_FFFF, 30, 0), 0x7FFF_FFFF);
    assert_eq!(bit(0x8000_0000, 31), 1);
    assert_eq!(bit(0x8000_0000, 30), 0);
}

#[test]
fn logical_immediates() {
    // element of 64 bits, one bit set
    assert_eq!(decode_bitmask(true, 1, 0b000000, 0), Some(1));
    // 32-bit element of eight ones, replicated across 64 bits
    assert_eq!(decode_bitmask(true, 0, 0b000111, 0), Some(0x0000_00FF_0000_00FF));
    // 32-bit operation: 0xff
    assert_eq!(decode_bitmask(false, 0, 0b000111, 0), Some(0xFF));
    // 2-bit elements `01` rotated by one: `10` repeated
    assert_eq!(decode_bitmask(true, 0, 0b111100, 1), Some(0xAAAA_AAAA_AAAA_AAAA));
    // 16-bit element of four ones rotated right by 4
    assert_eq!(decode_bitmask(false, 0, 0b100011, 4), Some(0xF000_F000));
    // reserved: all-ones element, and no element size at all
    assert_eq!(decode_bitmask(true, 1, 0b111111, 0), None);
    assert_eq!(decode_bitmask(true, 0, 0b111110, 0), None);
    assert_eq!(decode_bitmask(true, 0, 0b111111, 0), None);
    let and = decode_raw(0, 0x12001C20);
    assert_eq!(and.mnemonic, Mnemonic::And);
    assert_eq!(and.op2_imm, 0xFF);
}

#[test]
fn logical_immediates_are_proper() {
    for sf in [true, false] {
        for n in 0u32..2 {
            if !sf && n == 1 {
                continue;
            }
            for imms in 0u32..64 {
                for immr in 0u32..64 {
                    if let Some(v) = decode_bitmask(sf, n, imms, immr) {
                        assert_ne!(v, 0, "{sf} {n} {imms:#x} {immr:#x}");
                        assert_ne!(v, if sf { u64::MAX } else { 0xFFFF_FFFF }, "{sf} {n} {imms:#x} {immr:#x}");
                        if !sf {
                            assert!(v <= 0xFFFF_FFFF);
                        }
                    }
                }
            }
        }
    }
    // the 32-bit form with N = 1 is not covered: its element can lie above bit 31
    assert_eq!(decode_bitmask(false, 1, 7, 32), Some(0));
}

#[test]
fn decoded_operands_are_well_formed() {
    for raw in sample_words(200000) {
        let r = decode_raw(0x1000, raw);
        let kinds = [r.op0_kind, r.op1_kind, r.op2_kind, r.op3_kind];
        let imms = [r.op0_imm, r.op1_imm, r.op2_imm, r.op3_imm];
        assert!(r.op_count <= 4);
        for k in 0..r.op_count as usize {
            assert_ne!(kinds[k], OpKind::Absent, "{raw:#010x}");
            if kinds[k] == OpKind::Memory {
                assert_ne!(r.mem_mode, MemMode::Absent, "{raw:#010x}");
                let b = r.memory_base;
                assert!(b == Register::SP || (0..31).any(|n| Register::x(n) == b), "{raw:#010x}");
            }
            if kinds[k] == OpKind::NearBranch {
                assert_eq!(imms[k], r.near_branch_target, "{raw:#010x}");
            }
        }
    }
}

#[test]
fn decoded_invalid_iff_undefined() {
    for raw in sample_words(200000) {
        let r = decode_raw(0x1000, raw);
        assert_eq!(r.is_invalid(), r.code == Code::Undefined);
        assert_eq!(r.code == Code::Undefined, r.mnemonic == Mnemonic::Undefined);
        assert_ne!(r.code, Code::INVALID);
        assert_ne!(r.mnemonic, Mnemonic::Invalid);
    }
    assert!(Instruction::default().is_invalid());
}

#[test]
fn registers_have_distinct_names() {
    let mut all = vec![Register::PC];
    for n in 0u32..32 {
        all.push(Register::gpr(true, n, false));
        all.push(Register::gpr(false, n, false));
        all.push(Register::v(n));
        for size in [1u32, 2, 4, 8, 16] {
            all.push(Register::fp_sized(size, n));
        }
    }
    all.push(Register::SP);
    all.push(Register::WSP);
    for (i, a) in all.iter().enumerate() {
        assert!(!a.as_str().is_empty());
        for b in all.iter().skip(i + 1) {
            assert!(a == b || a.as_str() != b.as_str(), "{:?} {:?}", a, b);
        }
    }
    assert_eq!(Register::Absent.as_str(), "");
    assert_eq!(Register::Q31.as_str(), "q31");
}

#[test]
fn decode_loop_reads_every_word() {
    for len in 0usize..13 {
        let code: Vec<u8> = (0..len).map(|k| [0x1F, 0x20, 0x03, 0xD5][k % 4]).collect();
        let mut d = Decoder::new(&code, 0x4000);
        let mut calls = 0usize;
        while d.can_decode() {
            let i = d.decode();
            assert_eq!(i.mnemonic, Mnemonic::Nop);
            calls += 1;
            assert_eq!(d.position() % 4, 0);
            assert!(d.position() <= code.len());
        }
        assert_eq!(calls, len / 4);
        assert_eq!(d.position(), 4 * (len / 4));
        assert_eq!(d.ip(), 0x4000 + 4 * (len / 4) as u64);
    }
}

#[test]
fn decoder_position_stays_aligned() {
    let code = [0x1Fu8, 0x20, 0x03, 0xD5, 0x1F, 0x20, 0x03, 0xD5, 0x1F, 0x20];
    let mut d = Decoder::new(&code, 0);
    let _ = d.decode();
    d.set_ip(0x9000);
    assert_eq!(d.position(), 4);
    let _ = d.decode();
    assert_eq!(d.ip(), 0x9004);
    let _ = d.decode();
    assert_eq!(d.position(), 8);
    assert_eq!(d.ip(), 0x9004);
    assert_eq!(Register::Q31.as_str(), "q31");
    assert_eq!(Register::x(0), Register::X0);
}
