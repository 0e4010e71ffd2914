use arm_disassembler::{decode_raw, Code, Formatter, Mnemonic};

fn text(raw: u32) -> String {
    Formatter::new().format_simple(&decode_raw(0x1000, raw))
}

#[test]
fn system_and_exception_forms() {
    assert_eq!(decode_raw(0, 0xD4200000).mnemonic, Mnemonic::Brk);
    assert_eq!(text(0xD4200000), "brk #0x0");
    assert_eq!(decode_raw(0, 0xD53B4200).mnemonic, Mnemonic::Mrs);
    assert_eq!(text(0xD53B4200), "mrs x0, #0xda10");
    assert_eq!(text(0xD51B4200), "msr #0xda10, x0");
    assert_eq!(decode_raw(0, 0xD5033F9F).mnemonic, Mnemonic::Dsb);
}

#[test]
fn atomics_and_exclusives() {
    assert_eq!(text(0xF8200020), "ldadd x0, x0, [x1]");
    assert_eq!(text(0xF8208020), "swp x0, x0, [x1]");
    assert_eq!(text(0xC8A07C41), "cas x0, x1, [x2]");
    assert_eq!(decode_raw(0, 0xC8A07C41).code, Code::Ldxr);
    assert_eq!(text(0xC89FFC20), "stlr x0, [x1]");
    assert_eq!(decode_raw(0, 0xC85FFC20).mnemonic, Mnemonic::Ldxr);
}

#[test]
fn bitfield_and_shift_aliases() {
    assert_eq!(text(0xD37CEC20), "lsl x0, x1, #0x4");
    assert_eq!(text(0xD344FC20), "lsr x0, x1, #0x4");
    assert_eq!(text(0x9344FC20), "asr x0, x1, #0x4");
    assert_eq!(text(0xD3441C20), "ubfm x0, x1, #0x4, #0x7");
    assert_eq!(text(0x93C21020), "extr x0, x1, x2, #0x4");
    assert_eq!(text(0x93C11020), "ror x0, x1, #0x4");
    assert_eq!(text(0x36080040), "tbz x0, #0x1, #0x1008");
}

#[test]
fn arithmetic_aliases() {
    assert_eq!(text(0x9B020C20), "madd x0, x1, x2, x3");
    assert_eq!(text(0x9B027C20), "mul x0, x1, x2");
    assert_eq!(text(0x9B02FC20), "mneg x0, x1, x2");
    assert_eq!(text(0xEB02003F), "cmp x1, x2");
    assert_eq!(text(0xEA02003F), "tst x1, x2");
    assert_eq!(text(0xCB0203E0), "neg x0, x2");
    assert_eq!(text(0xAA2203E0), "mvn x0, x2");
    assert_eq!(text(0xAA0203E0), "mov x0, x2");
    assert_eq!(text(0x910003E0), "mov x0, sp");
    assert_eq!(text(0xF100043F), "cmp x1, #0x1");
    assert_eq!(text(0x7100043F), "cmp w1, #0x1");
}

#[test]
fn loads_and_floating_point() {
    assert_eq!(text(0x79400420), "ldrh w0, [x1, #2]");
    assert_eq!(text(0xB9800420), "ldrsw x0, [x1, #4]");
    assert_eq!(text(0x3D400420), "ldr b0, [x1, #1]");
    assert_eq!(text(0xFD400420), "ldr d0, [x1, #8]");
    assert_eq!(decode_raw(0, 0x4C407020).mnemonic, Mnemonic::Ld1);
    assert_eq!(text(0x1E202020), "fcmp s1, s0");
    assert_eq!(text(0x1E204020), "fmov s0, s1");
    assert_eq!(text(0x9E220020), "scvtf s0, x1");
    assert_eq!(text(0x1E380020), "fcvtzs w0, s1");
    assert_eq!(text(0x4EA11C20), "mov v0, v1");
}
