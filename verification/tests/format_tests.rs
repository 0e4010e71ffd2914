use arm_disassembler::{decode_raw, FmtWrite, Formatter, Instruction, SymbolResolver};

fn text(raw: u32) -> String {
    Formatter::new().format_simple(&decode_raw(0x1000, raw))
}

struct Named;

impl SymbolResolver for Named {
    fn resolve(&self, vaddr: u64) -> Option<&str> {
        if vaddr == 0x1000 {
            Some("start")
        } else if vaddr == 0x1008 {
            Some("next")
        } else {
            None
        }
    }
}

struct Looper;

impl SymbolResolver for Looper {
    fn resolve(&self, vaddr: u64) -> Option<&str> {
        if vaddr == 0x1008 {
            Some("loop")
        } else {
            None
        }
    }
}

struct Pieces(Vec<String>);

/// A sink that refuses one given piece.
struct Flaky {
    fail_at: usize,
    calls: usize,
    kept: String,
}

impl FmtWrite for Flaky {
    fn write_str(&mut self, s: &str) -> core::fmt::Result {
        self.calls += 1;
        if self.calls == self.fail_at {
            return Err(core::fmt::Error);
        }
        self.kept.push_str(s);
        Ok(())
    }
}

impl FmtWrite for Pieces {
    fn write_str(&mut self, s: &str) -> core::fmt::Result {
        self.0.push(s.to_string());
        Ok(())
    }
}

#[test]
fn memory_operand_modes() {
    assert_eq!(text(0xF9400420), "ldr x0, [x1, #8]");
    assert_eq!(text(0xF8408C20), "ldr x0, [x1, #8]!");
    assert_eq!(text(0xF8408420), "ldr x0, [x1], #8");
    assert_eq!(text(0xF8626820), "ldr x0, [x1, x2, uxtx]");
    assert_eq!(text(0xF8627820), "ldr x0, [x1, x2, uxtx #3]");
    assert_eq!(text(0xA94007E0), "ldp x0, x1, [sp]");
    assert_eq!(text(0xA9C107E0), "ldp x0, x1, [sp, #16]!");
}

#[test]
fn shifts_extends_and_conditions() {
    assert_eq!(text(0x8B020C20), "add x0, x1, x2, lsl #3");
    assert_eq!(text(0x8B22C020), "add x0, x1, x2, sxtw");
    assert_eq!(text(0x9A821020), "csel x0, x1, x2, ne");
    assert_eq!(text(0x1A9F17E0), "cset w0, ne");
    assert_eq!(text(0xF2A24680), "movk x0, #0x1234, lsl #16");
    assert_eq!(text(0x54000040), "b.eq #0x1008");
}

#[test]
fn text_starts_with_mnemonic() {
    for raw in [0x91000420u32, 0x54000040, 0x1E231841, 0x4E221C20, 0xB4000040] {
        let i = decode_raw(0x1000, raw);
        let s = Formatter::new().format_simple(&i);
        let m = if raw == 0x54000040 { "b.eq".to_string() } else { i.mnemonic.as_str().to_string() };
        assert!(s.starts_with(&m), "{s}");
    }
    assert_eq!(text(0xD503201F), "nop");
    assert_eq!(text(0xD65F03C0), "ret");
}

#[test]
fn immediate_radix_and_case() {
    let i = decode_raw(0x1000, 0xD2824680);
    assert_eq!(Formatter::new().format_simple(&i), "mov x0, #0x1234");
    let dec = Formatter { hex_prefix: false, uppercase_hex: false };
    assert_eq!(dec.format_simple(&i), "mov x0, #4660");
    let upper = Formatter { hex_prefix: true, uppercase_hex: true };
    assert_eq!(upper.format_simple(&decode_raw(0, 0x92400C20)), "and x0, x1, #0xF");
    assert_eq!(Formatter::new().format_simple(&decode_raw(0, 0x92400C20)), "and x0, x1, #0xf");
    let d = Formatter::default();
    assert!(d.hex_prefix && !d.uppercase_hex);
}

#[test]
fn names_only_affect_branch_targets() {
    let f = Formatter::new();
    let bl = decode_raw(0x1000, 0x94000000);
    assert_eq!(f.format(&bl, &Named), "bl start");
    assert_eq!(f.format_simple(&bl), "bl #0x1000");
    assert_eq!(f.format(&bl, &()), "bl #0x1000");
    let cbz = decode_raw(0x1000, 0xB4000040);
    assert_eq!(f.format(&cbz, &Named), "cbz x0, next");
    for raw in [0x91000420u32, 0xF9400420, 0x9A821020, 0x10000020] {
        let i = decode_raw(0x1000, raw);
        assert_eq!(f.format(&i, &Named), f.format_simple(&i));
    }
    let resolved = f.format_resolved(&bl, &[Some("label")]);
    assert_eq!(resolved, "bl label");
    assert_eq!(f.format_resolved(&bl, &[]), "bl #0x1000");
}

#[test]
fn format_to_writes_the_same_text() {
    let f = Formatter::new();
    let i = decode_raw(0x1000, 0x8B020C20);
    let mut s = String::from("> ");
    f.format_to(&i, &mut s, &());
    assert_eq!(s, "> add x0, x1, x2, lsl #3");
    let mut p = Pieces(Vec::new());
    f.format_to(&i, &mut p, &());
    assert_eq!(p.0.concat(), "add x0, x1, x2, lsl #3");
    let empty = Instruction::default();
    assert_eq!(f.format_simple(&empty), "invalid");
}

#[test]
fn resolver_names_branch_targets() {
    let f = Formatter::new();
    let beq = decode_raw(0x1000, 0x54000040);
    assert_eq!(f.format(&beq, &Looper), "b.eq loop");
    assert_eq!(f.format(&beq, &()), "b.eq #0x1008");
    assert_eq!(f.format(&decode_raw(0, 0x9A820020), &()), "csel x0, x1, x2, eq");
    assert_eq!(f.format_simple(&decode_raw(0x1000, 0x94000000)), "bl #0x1000");
}

#[test]
fn format_to_writes_piece_by_piece() {
    let f = Formatter::new();
    let i = decode_raw(0x1000, 0xF9400420);
    let mut p = Pieces(Vec::new());
    f.format_to(&i, &mut p, &());
    assert!(p.0.len() > 1);
    assert_eq!(p.0.concat(), "ldr x0, [x1, #8]");
    assert_eq!(p.0, vec!["ldr", " ", "x0", ", ", "[", "x1", ", #", "8", "]"]);
    // a failed piece ends its group only: `[` fails, so `x1` is skipped
    let mut k = Flaky { fail_at: 5, calls: 0, kept: String::new() };
    f.format_to(&i, &mut k, &());
    assert_eq!(k.calls, 8);
    assert_eq!(k.kept, "ldr x0, , #8]");
    // the immediate group `#`, `0x`, digits stops after a failed `#`
    let mut m = Flaky { fail_at: 5, calls: 0, kept: String::new() };
    f.format_to(&decode_raw(0x1000, 0xD2824680), &mut m, &());
    assert_eq!(m.kept, "mov x0, ");
    let mut pieces = Pieces(Vec::new());
    f.format_to(&decode_raw(0x1000, 0xD2824680), &mut pieces, &());
    assert_eq!(pieces.0, vec!["mov", " ", "x0", ", ", "#", "0x", "1234"]);
}
