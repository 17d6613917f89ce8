use wraut::text::{i64_to_string, str_contains, str_eq, u64_to_string};

#[test]
fn unsigned_decimal_rendering() {
    assert_eq!(u64_to_string(0), "0");
    assert_eq!(u64_to_string(7), "7");
    assert_eq!(u64_to_string(10), "10");
    assert_eq!(u64_to_string(42), "42");
    assert_eq!(u64_to_string(1009), "1009");
    assert_eq!(u64_to_string(u64::MAX), "18446744073709551615");
}

#[test]
fn signed_decimal_rendering() {
    assert_eq!(i64_to_string(0), "0");
    assert_eq!(i64_to_string(12), "12");
    assert_eq!(i64_to_string(-1), "-1");
    assert_eq!(i64_to_string(-305), "-305");
    assert_eq!(i64_to_string(i64::MAX), "9223372036854775807");
    assert_eq!(i64_to_string(i64::MIN), "-9223372036854775808");
}

#[test]
fn substring_search() {
    assert!(str_contains("hello world", "lo wo"));
    assert!(str_contains("hello", "hello"));
    assert!(str_contains("hello", ""));
    assert!(str_contains("", ""));
    assert!(!str_contains("", "a"));
    assert!(!str_contains("hello", "world"));
    assert!(!str_contains("he", "hello"));
    assert!(str_contains("aaab", "aab"));
    assert!(str_contains("label=|||svc|||,other", "|||svc|||"));
    assert!(!str_contains("label=|||svcx|||", "|||svc|||"));
}

#[test]
fn text_equality() {
    assert!(str_eq("", ""));
    assert!(str_eq("Y\n", "Y\n"));
    assert!(!str_eq("Y\n", "Y"));
    assert!(!str_eq("abc", "abd"));
}
