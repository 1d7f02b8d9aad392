use hear_one_device::text::{is_whitespace, push_decimal, trimmed};

#[test]
fn whitespace_matches_std() {
    for v in 0u32..0x3100 {
        if let Some(c) = char::from_u32(v) {
            assert_eq!(is_whitespace(c), c.is_whitespace(), "char {:x}", v);
        }
    }
    for c in ['\u{feff}', '\u{180e}', '\u{200b}', '\u{10ffff}'] {
        assert_eq!(is_whitespace(c), c.is_whitespace());
    }
}

#[test]
fn trimmed_matches_std_trim() {
    let cases = [
        "",
        "   ",
        "abc",
        "  abc  ",
        "\n\tabc def\r\n",
        "\u{2003}가나\u{2028}",
        "a\u{85}",
        "\u{feff}x\u{feff}",
    ];
    for s in cases {
        assert_eq!(trimmed(s), s.trim(), "case {:?}", s);
    }
}

#[test]
fn decimal_matches_to_string() {
    for n in [0u16, 7, 10, 99, 100, 6767, 65535] {
        let mut out = "x".to_string();
        push_decimal(&mut out, n);
        assert_eq!(out, format!("x{}", n));
    }
    for n in 0..=u16::MAX {
        let mut out = String::new();
        push_decimal(&mut out, n);
        assert_eq!(out, n.to_string());
    }
}
