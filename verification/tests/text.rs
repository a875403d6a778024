use bindeps_simple::text::{
    chars_of, contains, decimal, eq_ignore_ascii_case, signed_decimal, starts_with,
};

#[test]
fn chars_of_keeps_every_character() {
    assert_eq!(chars_of(""), Vec::<char>::new());
    assert_eq!(chars_of("a/é"), vec!['a', '/', 'é']);
}

#[test]
fn comparison_ignores_ascii_case_only() {
    assert!(eq_ignore_ascii_case("Pie-Boot", "pie-boot"));
    assert!(eq_ignore_ascii_case("", ""));
    assert!(eq_ignore_ascii_case("AZaz", "azAZ"));
    assert!(!eq_ignore_ascii_case("pie-boot", "pie_boot"));
    assert!(!eq_ignore_ascii_case("pie", "pie-boot"));
    assert!(!eq_ignore_ascii_case("É", "é"));
    assert!(!eq_ignore_ascii_case("@", "`"));
    assert!(!eq_ignore_ascii_case("[", "{"));
}

#[test]
fn comparison_agrees_with_std() {
    let names = ["Demo", "demo", "DEMO", "dem0", "", "démo", "DÉMO", "a[", "A{"];
    for a in names {
        for b in names {
            assert_eq!(eq_ignore_ascii_case(a, b), a.eq_ignore_ascii_case(b));
        }
    }
}

#[test]
fn contains_finds_a_pattern_anywhere() {
    assert!(contains("/home/u/.cargo/registry/src/x", ".cargo/registry"));
    assert!(contains("abc", ""));
    assert!(contains("", ""));
    assert!(contains("abc", "abc"));
    assert!(contains("abc", "c"));
    assert!(!contains("abc", "abcd"));
    assert!(!contains("", "a"));
    assert!(!contains("aab", "aba"));
}

#[test]
fn starts_with_tests_the_beginning() {
    assert!(starts_with("CARGO_ENCODED_RUSTFLAGS", "CARGO_"));
    assert!(starts_with("abc", ""));
    assert!(starts_with("abc", "abc"));
    assert!(!starts_with("abc", "abcd"));
    assert!(!starts_with("abc", "bc"));
}

#[test]
fn decimal_writes_numbers() {
    assert_eq!(decimal(0), "0");
    assert_eq!(decimal(7), "7");
    assert_eq!(decimal(10), "10");
    assert_eq!(decimal(404), "404");
    assert_eq!(decimal(u64::MAX), "18446744073709551615");
}

#[test]
fn signed_decimal_writes_the_sign() {
    assert_eq!(signed_decimal(0), "0");
    assert_eq!(signed_decimal(101), "101");
    assert_eq!(signed_decimal(-1), "-1");
    assert_eq!(signed_decimal(i32::MAX), "2147483647");
    assert_eq!(signed_decimal(i32::MIN), "-2147483648");
}
