use solver_core::text::{chars_of, join_str, push_decimal, str_contains, str_eq};

#[test]
fn substring_search() {
    assert!(str_contains("hello world", "lo w"));
    assert!(str_contains("abc", ""));
    assert!(str_contains("abc", "abc"));
    assert!(!str_contains("abc", "abcd"));
    assert!(!str_contains("aab", "abb"));
    assert!(str_contains("ééx", "éx"));
}

#[test]
fn equality_concat_and_chars() {
    assert!(str_eq("low", "low"));
    assert!(!str_eq("low", "lo"));
    assert_eq!(join_str("ab", "cd"), "abcd");
    assert_eq!(chars_of("hé!"), vec!['h', 'é', '!']);
}

#[test]
fn decimal_rendering() {
    let mut s = String::from("n=");
    push_decimal(&mut s, 0);
    assert_eq!(s, "n=0");
    let mut t = String::new();
    push_decimal(&mut t, u64::MAX);
    assert_eq!(t, u64::MAX.to_string());
    let mut u = String::new();
    push_decimal(&mut u, 1000);
    assert_eq!(u, "1000");
}
