use lc3_vm::text::{is_whitespace, parse_u16, to_decimal};

#[test]
fn to_decimal_has_no_leading_zeros() {
    assert_eq!(to_decimal(0), b"0".to_vec());
    assert_eq!(to_decimal(7), b"7".to_vec());
    assert_eq!(to_decimal(9), b"9".to_vec());
    assert_eq!(to_decimal(10), b"10".to_vec());
    assert_eq!(to_decimal(42), b"42".to_vec());
    assert_eq!(to_decimal(100), b"100".to_vec());
    assert_eq!(to_decimal(1000), b"1000".to_vec());
    assert_eq!(to_decimal(10000), b"10000".to_vec());
    assert_eq!(to_decimal(65535), b"65535".to_vec());
}

#[test]
fn to_decimal_agrees_with_formatting_for_every_word() {
    for value in 0..=0xFFFFu16 {
        assert_eq!(to_decimal(value), format!("{}", value).into_bytes());
    }
}

#[test]
fn parse_u16_accepts_digits_with_an_optional_plus() {
    assert_eq!(parse_u16("0"), Some(0));
    assert_eq!(parse_u16("42"), Some(42));
    assert_eq!(parse_u16("+42"), Some(42));
    assert_eq!(parse_u16("65535"), Some(65535));
    assert_eq!(parse_u16("00042"), Some(42));
    assert_eq!(parse_u16("000000000000000000000065535"), Some(65535));
    assert_eq!(parse_u16("+0"), Some(0));
}

#[test]
fn parse_u16_ignores_white_space_at_both_ends() {
    assert_eq!(parse_u16("42\n"), Some(42));
    assert_eq!(parse_u16("42\r\n"), Some(42));
    assert_eq!(parse_u16("  \t42  "), Some(42));
    assert_eq!(parse_u16("\u{00A0}42\u{3000}"), Some(42));
    assert_eq!(parse_u16("\u{2003}+7\u{2028}"), Some(7));
    assert_eq!(parse_u16("\u{0085}1\u{000B}\u{000C}"), Some(1));
}

#[test]
fn parse_u16_rejects_everything_else() {
    let lines: [&str; 18] = [
        "", " ", "\n", "+", "-", "-0", "-1", "++1", "+-1", "65536", "99999", "100000", "1 2",
        "12a", "a12", "1_000", "\u{0661}", "4\u{200B}",
    ];
    for line in lines {
        assert_eq!(parse_u16(line), None, "line {:?}", line);
    }
    assert_eq!(parse_u16("+ 1"), None);
    assert_eq!(parse_u16("18446744073709551616"), None);
    assert_eq!(parse_u16("000000000000000000000065536"), None);
}

#[test]
fn parse_u16_agrees_with_trim_and_parse() {
    let lines: [&str; 14] = [
        "0", "42\n", " +42 ", "+", "", "65535", "65536", "-5", "007", " 1 2 ", "\t9\t", "4e2",
        "\u{FEFF}1", "\u{1680}3\u{205F}",
    ];
    for line in lines {
        assert_eq!(parse_u16(line), line.trim().parse::<u16>().ok(), "line {:?}", line);
    }
    for value in 0..=0xFFFFu16 {
        let line: String = format!(" {}\n", value);
        assert_eq!(parse_u16(&line), Some(value));
    }
}

#[test]
fn is_whitespace_agrees_with_the_unicode_property() {
    for code in 0..=0x10FFFFu32 {
        if let Some(c) = char::from_u32(code) {
            assert_eq!(is_whitespace(c), c.is_whitespace(), "code {:#x}", code);
        }
    }
}
