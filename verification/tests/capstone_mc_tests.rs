use arm_disassembler::{decode_raw, Formatter, Mnemonic};

/// Parses a corpus line `0xaa,0xbb,0xcc,0xdd = text` (little-endian bytes).
fn parse_cs_line(line: &str) -> Option<(u32, String)> {
    let line = line.trim();
    if line.is_empty() || line.starts_with('#') {
        return None;
    }
    let (bytes_part, text_part) = if let Some(i) = line.find("==") {
        (&line[..i], &line[i + 2..])
    } else if let Some(i) = line.find('=') {
        (&line[..i], &line[i + 1..])
    } else {
        return None;
    };
    let mut bytes = Vec::new();
    for tok in bytes_part.split(',') {
        let tok = tok.trim();
        if tok.is_empty() {
            continue;
        }
        let v = u8::from_str_radix(tok.trim_start_matches("0x").trim_start_matches("0X"), 16).ok()?;
        bytes.push(v);
    }
    if bytes.len() < 4 {
        return None;
    }
    let raw = u32::from_le_bytes([bytes[0], bytes[1], bytes[2], bytes[3]]);
    let text = text_part.trim().to_string();
    if text.is_empty() {
        return None;
    }
    Some((raw, text))
}

fn expected_mnemonic(text: &str) -> String {
    text.split_whitespace().next().unwrap_or("").to_ascii_lowercase()
}

fn our_mnemonic_str(m: Mnemonic) -> String {
    m.as_str().to_ascii_lowercase()
}

fn normalize_asm(s: &str) -> String {
    let mut out = String::new();
    let mut prev_space = false;
    for ch in s.chars() {
        if ch == '\t' || ch == ' ' {
            if !prev_space {
                out.push(' ');
                prev_space = true;
            }
        } else {
            out.push(ch.to_ascii_lowercase());
            prev_space = false;
        }
    }
    out.trim().to_string()
}

fn mnemonics_match(got: &str, exp: &str) -> bool {
    if got == exp {
        return true;
    }
    // `b.eq` in the corpus against `bcond` here
    if exp.starts_with("b.") && (got == "b" || got == "bcond") {
        return true;
    }
    false
}

#[test]
fn capstone_mc_sample_asm_format() {
    let fmt = Formatter::new();
    let ins = decode_raw(0, 0x1a030041);
    assert_eq!(ins.mnemonic, Mnemonic::Adc);
    let s = normalize_asm(&fmt.format_simple(&ins));
    assert!(s.starts_with("adc "), "{s}");
    assert!(s.contains("w1") && s.contains("w2") && s.contains("w3"), "{s}");

    let fdiv = decode_raw(0, 0x1e231841);
    assert_eq!(fdiv.mnemonic, Mnemonic::Fdiv, "got {}", fdiv.mnemonic.as_str());

    let line = "0x41,0x18,0x23,0x1e = fdiv\ts1, s2, s3";
    let (raw, text) = parse_cs_line(line).expect("parse");
    assert_eq!(raw, 0x1e231841);
    let ins = decode_raw(0, raw);
    assert!(mnemonics_match(&our_mnemonic_str(ins.mnemonic), &expected_mnemonic(&text)));
}
