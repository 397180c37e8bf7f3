use zero2prod::text::{append_decimal, trim, white_space};

#[test]
fn white_space_is_the_unicode_property() {
    let mut code: u32 = 0;
    while code <= 0x10FFFF {
        if let Some(c) = char::from_u32(code) {
            assert_eq!(white_space(c), c.is_whitespace(), "U+{:04X}", code);
        }
        code += 1;
    }
}

#[test]
fn trim_drops_whitespace_at_both_ends_only() {
    assert_eq!(trim("  le guin \t\n"), "le guin");
    assert_eq!(trim("le guin"), "le guin");
    assert_eq!(trim("\u{3000}a\u{2003}b\u{a0}"), "a\u{2003}b");
    assert_eq!(trim("   "), "");
    assert_eq!(trim(""), "");
    assert_eq!(trim(" x"), "x");
    assert_eq!(trim("x "), "x");
    assert_eq!(trim(" é ü "), "é ü");
}

#[test]
fn trim_agrees_with_the_standard_library() {
    let samples = [
        "",
        " ",
        "a",
        " a",
        "a ",
        " a b ",
        "\r\n\ttext\u{85}",
        "\u{1680}\u{2028}\u{2029}\u{202f}\u{205f}x\u{200a}",
        "\u{200b}zero width space is no whitespace\u{200b}",
        "日本語 ",
    ];
    for sample in samples {
        assert_eq!(trim(sample), sample.trim(), "{:?}", sample);
    }
}

#[test]
fn decimal_numerals() {
    for n in [0u64, 1, 9, 10, 11, 99, 100, 5432, 65535, 1_000_000, u64::MAX] {
        let mut out = String::from("port ");
        append_decimal(&mut out, n);
        assert_eq!(out, format!("port {}", n));
    }
}
