use entropy::text::{decimal_string, hex_digit_str, str_eq, trim};

#[test]
fn trim_drops_unicode_whitespace_at_both_ends_only() {
    assert_eq!(trim("  Мой пресет\t\n"), "Мой пресет");
    assert_eq!(trim("\u{3000}wide\u{00A0}"), "wide");
    assert_eq!(trim("a  b"), "a  b");
    assert_eq!(trim(" \t "), "");
    assert_eq!(trim(""), "");
}

#[test]
fn decimal_and_hex_digits() {
    assert_eq!(decimal_string(0), "0");
    assert_eq!(decimal_string(40213), "40213");
    assert_eq!(hex_digit_str(0), "0");
    assert_eq!(hex_digit_str(11), "B");
    assert!(str_eq("layer", "layer"));
    assert!(!str_eq("layer", "Layer"));
    assert!(!str_eq("layer", "layers"));
}

#[test]
fn trim_drops_whitespace_beyond_ascii_as_std_does() {
    let text = "\u{3000}\u{a0}\u{2003}name\u{85}\u{2029}\u{202f}";
    assert_eq!(trim(text), text.trim());
    assert_eq!(trim(text), "name");
    assert_eq!(trim("\u{200b}name"), "\u{200b}name");
}
