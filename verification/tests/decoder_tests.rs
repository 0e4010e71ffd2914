use arm_disassembler::{decode_raw, Code, Decoder, Formatter, Instruction, Mnemonic, Register};

fn dec(raw: u32) -> Instruction {
    decode_raw(0x1000, raw)
}

#[test]
fn ret_nop_bl() {
    let ret = dec(0xD65F03C0);
    assert_eq!(ret.mnemonic, Mnemonic::Ret);
    assert_eq!(ret.code, Code::Ret);

    let nop = dec(0xD503201F);
    assert_eq!(nop.mnemonic, Mnemonic::Nop);

    let bl = dec(0x94000000);
    assert_eq!(bl.mnemonic, Mnemonic::Bl);
    assert_eq!(bl.near_branch_target, 0x1000);
}

#[test]
fn add_imm() {
    let i = dec(0x91000420);
    assert_eq!(i.mnemonic, Mnemonic::Add);
    assert_eq!(i.code, Code::Add_imm);
    assert_eq!(i.op0_reg, Register::X0);
    assert_eq!(i.op1_reg, Register::X1);
    assert_eq!(i.op2_imm, 1);
}

#[test]
fn movz_and_format() {
    let i = dec(0xD2824680);
    assert!(matches!(i.mnemonic, Mnemonic::Mov | Mnemonic::Movz));
    let s = Formatter::new().format_simple(&i);
    assert!(s.contains("x0"));
    assert!(s.contains("1234"));
}

#[test]
fn zero_alloc_decode_loop() {
    let code = [0xC0u8, 0x03, 0x5F, 0xD6, 0x1F, 0x20, 0x03, 0xD5];
    let mut d = Decoder::new(&code, 0);
    let mut tmp = Instruction::default();
    while d.can_decode() {
        d.decode_out(&mut tmp);
    }
    assert_eq!(tmp.mnemonic, Mnemonic::Nop);
}

#[test]
fn ldr_str_udiv_csel() {
    // ldr x0, [x1, #8]
    let ldr = dec(0xF9400420);
    assert_eq!(ldr.mnemonic, Mnemonic::Ldr);
    // udiv x0, x1, x2
    let udiv = dec(0x9AC20820);
    assert_eq!(udiv.mnemonic, Mnemonic::Udiv);
}

#[test]
fn ldp_and_simd_and() {
    // LDP x0, x1, [sp, #16]
    let ldp = dec(0xA94007E0);
    assert_eq!(ldp.mnemonic, Mnemonic::Ldp);
    // AND V0.16B, V1.16B, V2.16B
    let aand = dec(0x4E221C20);
    assert_eq!(aand.mnemonic, Mnemonic::And);
}

#[test]
fn pac_hint_aliases_not_nop() {
    // PAC instructions live in the HINT space and must not decode as `hint` or `nop`.
    let cases = [
        (0xD50320BF, Mnemonic::Sevl),
        (0xD50320FF, Mnemonic::Xpaclri),
        (0xD503211F, Mnemonic::Pacia1716),
        (0xD503215F, Mnemonic::Pacib1716),
        (0xD503219F, Mnemonic::Autia1716),
        (0xD50321DF, Mnemonic::Autib1716),
        (0xD503231F, Mnemonic::Paciaz),
        (0xD503233F, Mnemonic::Paciasp),
        (0xD503235F, Mnemonic::Pacibz),
        (0xD503237F, Mnemonic::Pacibsp),
        (0xD503239F, Mnemonic::Autiaz),
        (0xD50323BF, Mnemonic::Autiasp),
        (0xD50323DF, Mnemonic::Autibz),
        (0xD50323FF, Mnemonic::Autibsp),
    ];
    for (raw, expect) in cases {
        let i = dec(raw);
        assert_eq!(i.mnemonic, expect, "{raw:#010x} -> {}", i.mnemonic.as_str());
        assert_ne!(i.mnemonic, Mnemonic::Hint);
        assert_ne!(i.mnemonic, Mnemonic::Nop);
    }
}
