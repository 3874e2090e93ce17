use mado::text::{is_white_space_char, parse_u8, trim};

#[test]
fn trim_matches_std_trim() {
    for s in ["", "  ", " a b ", "\u{3000}x\u{2029}", "\u{200b} y", "\t\r\n z\u{85}", "é"] {
        assert_eq!(trim(s), s.trim());
    }
}

#[test]
fn white_space_matches_std() {
    for code in 0u32..0x3100 {
        if let Some(c) = char::from_u32(code) {
            assert_eq!(is_white_space_char(c), c.is_whitespace(), "{code:#x}");
        }
    }
}

#[test]
fn parse_u8_reads_every_radix() {
    assert_eq!(parse_u8("+ff", 16), Some(255));
    assert_eq!(parse_u8("73", 36), Some(255));
    assert_eq!(parse_u8("74", 36), None);
    assert_eq!(parse_u8("z", 36), Some(35));
    assert_eq!(parse_u8("", 10), None);
    assert_eq!(parse_u8("+", 10), None);
    assert_eq!(parse_u8("256", 10), None);
}
