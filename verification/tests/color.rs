use mado::theme::color::{Color, alpha_component, parse_color, parse_trimmed_color};

fn rgba(r: u8, g: u8, b: u8, a: u8) -> Option<Color> {
    Some(Color { r, g, b, a })
}

#[test]
fn short_hex_doubles_digits() {
    assert_eq!(parse_color("#abc", None), rgba(0xaa, 0xbb, 0xcc, 255));
    assert_eq!(parse_color("#abc", None), parse_color("#aabbcc", None));
    assert_eq!(parse_color("#F0a", None), rgba(0xff, 0x00, 0xaa, 255));
}

#[test]
fn long_hex_with_and_without_alpha() {
    assert_eq!(parse_color("#a8334c", None), rgba(0xa8, 0x33, 0x4c, 255));
    assert_eq!(parse_color("#a8334c80", None), rgba(0xa8, 0x33, 0x4c, 0x80));
    assert_eq!(parse_color("#a8334c", None), parse_color("#a8334cff", None));
}

#[test]
fn hex_pairs_take_hex_digits_only() {
    assert_eq!(parse_color("#+f+f+f", None), None);
    assert_eq!(parse_color("#+1+2+3", None), None);
    assert_eq!(parse_color("#-f0000", None), None);
    assert_eq!(parse_color("#0f0f0f", None), rgba(15, 15, 15, 255));
}

#[test]
fn trim_removes_unicode_white_space() {
    assert_eq!(parse_color("\u{3000}\t#fff\u{a0}\n", None), rgba(255, 255, 255, 255));
    assert_eq!(parse_color("rgb( 1,\u{2003}2 ,3\u{85})", None), rgba(1, 2, 3, 255));
    assert_eq!(parse_color("\u{200b}#fff", None), None);
}

#[test]
fn invalid_hex_is_rejected() {
    assert_eq!(parse_color("#ab", None), None);
    assert_eq!(parse_color("#abcd", None), None);
    assert_eq!(parse_color("#abg", None), None);
    assert_eq!(parse_color("#12345z", None), None);
    assert_eq!(parse_color("#", None), None);
    assert_eq!(parse_color("#ééé", None), None);
    assert_eq!(parse_color("#€", None), None);
}

#[test]
fn transparent_in_any_case() {
    assert_eq!(parse_color("transparent", None), rgba(0, 0, 0, 0));
    assert_eq!(parse_color("TransPARENT", None), rgba(0, 0, 0, 0));
    assert_eq!(parse_color("  transparent\n", None), rgba(0, 0, 0, 0));
    assert_eq!(parse_color("transparen", None), None);
}

#[test]
fn surrounding_white_space_is_trimmed() {
    assert_eq!(parse_color("  #fff  ", None), rgba(255, 255, 255, 255));
    assert_eq!(parse_trimmed_color("  #fff  ", None), None);
}

#[test]
fn functional_forms() {
    assert_eq!(parse_color("rgb(1, 2, 3)", None), rgba(1, 2, 3, 255));
    assert_eq!(parse_color("rgba(1,2,3)", None), rgba(1, 2, 3, 255));
    assert_eq!(parse_color("rgba( 10 , +20 ,030 , 0.5)", Some(128)), rgba(10, 20, 30, 128));
    assert_eq!(parse_color("rgb(1,2,3,x)", None), None);
    assert_eq!(parse_color("rgb(1,2)", None), None);
    assert_eq!(parse_color("rgb(1,2,256)", None), None);
    assert_eq!(parse_color("rgb(1,2,-3)", None), None);
    assert_eq!(parse_color("rgb(1,2,3", None), None);
    assert_eq!(parse_color("rgba(", None), None);
    assert_eq!(parse_color("RGB(1,2,3)", None), None);
    assert_eq!(parse_color("rgb(1,2,3,0.25,junk)", Some(64)), rgba(1, 2, 3, 64));
}

#[test]
fn alpha_component_is_the_fourth_trimmed_part() {
    assert_eq!(alpha_component(" rgba(1, 2, 3,  0.5 ) "), Some("0.5".to_string()));
    assert_eq!(alpha_component("rgba(1,2,3)"), None);
    assert_eq!(alpha_component("#aabbcc80"), None);
    assert_eq!(alpha_component("transparent"), None);
    assert_eq!(alpha_component("rgb(a,b,c,d,e)"), Some("d".to_string()));
}

#[test]
fn other_text_is_not_a_color() {
    assert_eq!(parse_color("", None), None);
    assert_eq!(parse_color("red", None), None);
    assert_eq!(parse_color("accent", None), None);
}
