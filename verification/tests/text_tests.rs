use splat_studio::text::{i32_to_decimal, strip_prefix, trim, u64_to_decimal};

#[test]
fn decimal_numerals() {
    assert_eq!(u64_to_decimal(0), "0");
    assert_eq!(u64_to_decimal(7), "7");
    assert_eq!(u64_to_decimal(10), "10");
    assert_eq!(u64_to_decimal(1_725_029_869), "1725029869");
    assert_eq!(u64_to_decimal(u64::MAX), u64::MAX.to_string());
    assert_eq!(i32_to_decimal(-1), "-1");
    assert_eq!(i32_to_decimal(0), "0");
    assert_eq!(i32_to_decimal(137), "137");
    assert_eq!(i32_to_decimal(i32::MIN), i32::MIN.to_string());
}

#[test]
fn trimming_follows_unicode_white_space() {
    assert_eq!(trim("  hello \n"), "hello");
    assert_eq!(trim("\u{3000}\u{a0}mid dle\u{2029}"), "mid dle");
    assert_eq!(trim(" \t\r\n"), "");
    assert_eq!(trim(""), "");
    assert_eq!(trim("x"), "x");
    let odd = "\u{85}\u{1680}a\u{200b}";
    assert_eq!(trim(odd), odd.trim());
}

#[test]
fn prefixes() {
    assert_eq!(strip_prefix("GSS_EVENT {}", "GSS_EVENT "), Some("{}"));
    assert_eq!(strip_prefix("GSS_EVENT", "GSS_EVENT "), None);
    assert_eq!(strip_prefix("gss_event {}", "GSS_EVENT "), None);
    assert_eq!(strip_prefix("äbc", "ä"), Some("bc"));
    assert_eq!(strip_prefix("abc", ""), Some("abc"));
}
