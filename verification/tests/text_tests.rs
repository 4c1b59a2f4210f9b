use buffer_pie::text::{
    chars_of, format_decimal, format_lower_hex, parse_u32_radix, split_whitespace, starts_with,
    string_from_chars, strip_prefix, trim_chars, trim_start_matches,
};

fn cs(s: &str) -> Vec<char> {
    s.chars().collect()
}

#[test]
fn decimal_formatting() {
    assert_eq!(format_decimal(0), "0");
    assert_eq!(format_decimal(7), "7");
    assert_eq!(format_decimal(10), "10");
    assert_eq!(format_decimal(4096), "4096");
    assert_eq!(format_decimal(u64::MAX), u64::MAX.to_string());
}

#[test]
fn hex_formatting() {
    assert_eq!(format_lower_hex(0), "0");
    assert_eq!(format_lower_hex(255), "ff");
    assert_eq!(format_lower_hex(0x1e1e2e), "1e1e2e");
    assert_eq!(format_lower_hex(u64::MAX), "ffffffffffffffff");
}

#[test]
fn chars_round_trip() {
    let v = chars_of("héllo");
    assert_eq!(v, vec!['h', 'é', 'l', 'l', 'o']);
    assert_eq!(string_from_chars(&v), "héllo");
}

#[test]
fn trimming() {
    assert_eq!(trim_chars(&cs("  42 \t")), cs("42"));
    assert_eq!(trim_chars(&cs("   ")), cs(""));
    assert_eq!(trim_chars(&cs("")), cs(""));
    assert_eq!(trim_chars(&cs("a b")), cs("a b"));
    assert_eq!(trim_chars(&cs("\u{a0}x\u{a0}")), cs("x"));
}

#[test]
fn splitting_on_whitespace() {
    assert_eq!(split_whitespace(&cs("code .")), vec!["code", "."]);
    assert_eq!(split_whitespace(&cs("  ls   -la\t/tmp \n")), vec!["ls", "-la", "/tmp"]);
    assert!(split_whitespace(&cs("   ")).is_empty());
    assert!(split_whitespace(&cs("")).is_empty());
}

#[test]
fn parsing_unsigned_numbers() {
    assert_eq!(parse_u32_radix(&cs("50"), 10), Some(50));
    assert_eq!(parse_u32_radix(&cs("+7"), 10), Some(7));
    assert_eq!(parse_u32_radix(&cs("+"), 10), None);
    assert_eq!(parse_u32_radix(&cs(""), 10), None);
    assert_eq!(parse_u32_radix(&cs("-1"), 10), None);
    assert_eq!(parse_u32_radix(&cs("12a"), 10), None);
    assert_eq!(parse_u32_radix(&cs("4294967295"), 10), Some(u32::MAX));
    assert_eq!(parse_u32_radix(&cs("4294967296"), 10), None);
    assert_eq!(parse_u32_radix(&cs("99999999999x"), 10), None);
    assert_eq!(parse_u32_radix(&cs("1E1e2E"), 16), Some(0x1e1e2e));
    assert_eq!(parse_u32_radix(&cs("g"), 16), None);
}

#[test]
fn format_then_parse_round_trips() {
    for n in [0u32, 1, 9, 10, 255, 65535, u32::MAX] {
        let d = format_decimal(n as u64);
        assert_eq!(parse_u32_radix(&cs(&d), 10), Some(n));
        let h = format_lower_hex(n as u64);
        assert_eq!(parse_u32_radix(&cs(&h), 16), Some(n));
    }
}

#[test]
fn prefixes() {
    assert!(starts_with(&cs("app-icons/x.png"), &cs("app-icons/")));
    assert!(!starts_with(&cs("app"), &cs("app-icons/")));
    assert_eq!(strip_prefix(&cs("KeyA"), &cs("Key")), Some(cs("A")));
    assert_eq!(strip_prefix(&cs("Num"), &cs("Num")), Some(cs("")));
    assert_eq!(strip_prefix(&cs("Escape"), &cs("Key")), None);
    assert_eq!(trim_start_matches(&cs("##ff"), '#'), cs("ff"));
    assert_eq!(trim_start_matches(&cs("ff#"), '#'), cs("ff#"));
}
