use wishget::text::{contains, decimal_string, ends_with_exec, find, remove_last, replace_first_exec};

#[test]
fn decimal_of_zero_and_larger_numbers() {
    assert_eq!(decimal_string(0), "0");
    assert_eq!(decimal_string(7), "7");
    assert_eq!(decimal_string(10), "10");
    assert_eq!(decimal_string(1234567890), "1234567890");
    assert_eq!(decimal_string(u64::MAX), "18446744073709551615");
}

#[test]
fn find_gives_the_first_occurrence() {
    assert_eq!(find("abcabc", "bc"), Some(1));
    assert_eq!(find("abcabc", "x"), None);
    assert_eq!(find("abc", ""), Some(0));
    assert_eq!(find("ab", "abc"), None);
    assert_eq!(find("ééa", "a"), Some(2));
}

#[test]
fn contains_and_ends_with() {
    assert!(contains("uid-1", "-1"));
    assert!(!contains("800123456", "-1"));
    assert!(ends_with_exec("https://x/#/", "#/"));
    assert!(!ends_with_exec("https://x/#", "#/"));
    assert!(!ends_with_exec("/", "#/"));
}

#[test]
fn remove_last_drops_one_character() {
    assert_eq!(remove_last("abc"), "ab");
    assert_eq!(remove_last("a"), "");
    assert_eq!(remove_last(""), "");
    assert_eq!(remove_last("aé"), "a");
}

#[test]
fn replace_first_replaces_only_the_first() {
    assert_eq!(replace_first_exec("x1/0/y1/0/z", "1/0/", ""), "xy1/0/z");
    assert_eq!(replace_first_exec("no match", "1/0/", ""), "no match");
    assert_eq!(replace_first_exec("aaa", "a", "bb"), "bbaa");
}
