use bugreport::helper::{i32_to_string, sort_strings, str_le, u64_to_string, StringExt};

#[test]
fn test_trim_end_inplace() {
    let mut s = String::from("test string \n\n");
    s.trim_end_inplace();

    assert_eq!(s, "test string");
}

#[test]
fn trim_end_keeps_leading_and_inner_whitespace() {
    let mut s = String::from("  a b\tc\u{a0}\n \t");
    s.trim_end_inplace();
    assert_eq!(s, "  a b\tc");
}

#[test]
fn trim_end_of_all_whitespace_is_empty() {
    let mut s = String::from(" \n\r\t");
    s.trim_end_inplace();
    assert_eq!(s, "");
}

#[test]
fn u64_rendering() {
    assert_eq!(u64_to_string(0), "0");
    assert_eq!(u64_to_string(7), "7");
    assert_eq!(u64_to_string(10), "10");
    assert_eq!(u64_to_string(123456789), "123456789");
    assert_eq!(u64_to_string(u64::MAX), "18446744073709551615");
}

#[test]
fn i32_rendering() {
    assert_eq!(i32_to_string(0), "0");
    assert_eq!(i32_to_string(42), "42");
    assert_eq!(i32_to_string(-1), "-1");
    assert_eq!(i32_to_string(i32::MIN), "-2147483648");
}

#[test]
fn str_le_orders_lexicographically() {
    assert!(str_le("", ""));
    assert!(str_le("", "a"));
    assert!(!str_le("a", ""));
    assert!(str_le("abc", "abd"));
    assert!(!str_le("abd", "abc"));
    assert!(str_le("ab", "abc"));
    assert!(str_le("A", "a"));
}

#[test]
fn sort_strings_sorts_and_keeps_elements() {
    let v = vec![
        String::from("pear"),
        String::from("apple"),
        String::from("apple"),
        String::from("Banana"),
    ];
    let sorted = sort_strings(v);
    assert_eq!(sorted, vec!["Banana", "apple", "apple", "pear"]);
}
