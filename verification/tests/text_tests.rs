use benchbot::text::contains_string;
use benchbot::text::str_contains;
use benchbot::text::u64_to_string;

#[test]
fn decimal_spelling() {
    assert_eq!(u64_to_string(0), "0");
    assert_eq!(u64_to_string(7), "7");
    assert_eq!(u64_to_string(10), "10");
    assert_eq!(u64_to_string(858_840), "858840");
    assert_eq!(u64_to_string(u64::MAX), "18446744073709551615");
}

#[test]
fn substring_search() {
    assert!(str_contains("hello world", "o w"));
    assert!(str_contains("hello", ""));
    assert!(str_contains("hello", "hello"));
    assert!(!str_contains("hello", "hello!"));
    assert!(!str_contains("", "x"));
    assert!(str_contains("老虎老", "虎老"));
}

#[test]
fn string_list_membership() {
    let labels = vec!["bug".to_string(), "benchmark".to_string()];
    assert!(contains_string(&labels, &"benchmark".to_string()));
    assert!(!contains_string(&labels, &"docs".to_string()));
    assert!(!contains_string(&Vec::new(), &"benchmark".to_string()));
}
