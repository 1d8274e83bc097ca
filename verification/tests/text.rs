use boxwine::text::{
    append_texts, decimal, file_name, find_last_separator, has_prefix, has_suffix, integer,
    join_path, parent_dir, parse_decimal,
};

#[test]
fn join_puts_one_separator_between() {
    assert_eq!(join_path("a", "b"), "a/b");
    assert_eq!(join_path("My App.app", "Contents/MacOS"), "My App.app/Contents/MacOS");
}

#[test]
fn join_adds_no_second_separator() {
    assert_eq!(join_path("a/", "b"), "a/b");
    assert_eq!(join_path("/", "b"), "/b");
}

#[test]
fn join_lets_an_absolute_path_replace_the_base() {
    assert_eq!(join_path("a", "/b"), "/b");
    assert_eq!(join_path("", "/b"), "/b");
}

#[test]
fn join_with_an_empty_side() {
    assert_eq!(join_path("", "b"), "b");
    assert_eq!(join_path("a", ""), "a/");
    assert_eq!(join_path("", ""), "");
}

#[test]
fn join_counts_characters_not_bytes() {
    assert_eq!(join_path("übung", "é"), "übung/é");
    assert_eq!(join_path("ü/", "é"), "ü/é");
}

#[test]
fn prefix_is_found_at_the_start_only() {
    assert!(has_prefix("c:/x", "c:"));
    assert!(has_prefix("c:", "c:"));
    assert!(has_prefix("anything", ""));
    assert!(!has_prefix("c", "c:"));
    assert!(!has_prefix("xc:", "c:"));
    assert!(!has_prefix("C:/x", "c:"));
    assert!(!has_prefix("", "c:"));
}

#[test]
fn suffix_is_found_at_the_end_only() {
    assert!(has_suffix("My App.app", ".app"));
    assert!(has_suffix(".app", ".app"));
    assert!(has_suffix("anything", ""));
    assert!(!has_suffix("My App.app/", ".app"));
    assert!(!has_suffix("app", ".app"));
    assert!(!has_suffix("My App.APP", ".app"));
    assert!(!has_suffix("", ".app"));
    assert!(has_suffix("é.app", ".app"));
}

#[test]
fn last_separator_is_found() {
    assert_eq!(find_last_separator("a/b/c"), Some(3));
    assert_eq!(find_last_separator("/"), Some(0));
    assert_eq!(find_last_separator("abc"), None);
    assert_eq!(find_last_separator(""), None);
    assert_eq!(find_last_separator("é/b"), Some(1));
}

#[test]
fn parent_is_what_stands_before_the_last_separator() {
    assert_eq!(parent_dir("a/b/c.txt"), "a/b");
    assert_eq!(parent_dir("a/b/"), "a/b");
    assert_eq!(parent_dir("/file"), "/");
    assert_eq!(parent_dir("file"), "");
    assert_eq!(parent_dir(""), "");
}

#[test]
fn file_name_is_the_last_segment() {
    assert_eq!(
        file_name("https://dl.winehq.org/pool/portable-winehq-stable-5.0-osx64.tar.gz"),
        "portable-winehq-stable-5.0-osx64.tar.gz"
    );
    assert_eq!(file_name("archive.tar.gz"), "archive.tar.gz");
    assert_eq!(file_name("a/b/"), "");
    assert_eq!(file_name(""), "");
    assert_eq!(file_name("ü/é"), "é");
}

#[test]
fn decimal_numbers_are_read() {
    assert_eq!(parse_decimal("0"), Some(0));
    assert_eq!(parse_decimal("7"), Some(7));
    assert_eq!(parse_decimal("1024"), Some(1024));
    assert_eq!(parse_decimal("007"), Some(7));
    assert_eq!(parse_decimal(&usize::MAX.to_string()), Some(usize::MAX));
}

#[test]
fn what_is_no_decimal_number_is_not_read() {
    assert_eq!(parse_decimal(""), None);
    assert_eq!(parse_decimal("12a"), None);
    assert_eq!(parse_decimal("a12"), None);
    assert_eq!(parse_decimal("+12"), None);
    assert_eq!(parse_decimal("-12"), None);
    assert_eq!(parse_decimal(" 12"), None);
    assert_eq!(parse_decimal("1 2"), None);
    assert_eq!(parse_decimal("١٢"), None);
}

#[test]
fn too_large_a_number_is_not_read() {
    let mut text = usize::MAX.to_string();
    text.push('0');
    assert_eq!(parse_decimal(&text), None);
    let beyond = (usize::MAX as u128 + 1).to_string();
    assert_eq!(parse_decimal(&beyond), None);
}

#[test]
fn numbers_are_written_in_decimal() {
    assert_eq!(decimal(0), "0");
    assert_eq!(decimal(9), "9");
    assert_eq!(decimal(10), "10");
    assert_eq!(decimal(1234567890), "1234567890");
    assert_eq!(decimal(u64::MAX), "18446744073709551615");
}

#[test]
fn integers_are_written_with_their_sign() {
    assert_eq!(integer(0), "0");
    assert_eq!(integer(1), "1");
    assert_eq!(integer(-1), "-1");
    assert_eq!(integer(127), "127");
    assert_eq!(integer(i32::MAX), "2147483647");
    assert_eq!(integer(i32::MIN), "-2147483648");
}

#[test]
fn written_numbers_are_read_back() {
    for n in [0usize, 1, 9, 10, 99, 100, 65535, 4294967295] {
        assert_eq!(parse_decimal(&decimal(n as u64)), Some(n));
    }
}

#[test]
fn texts_are_appended_in_order() {
    let mut texts = vec!["a".to_string()];
    append_texts(&mut texts, &vec!["b".to_string(), "c".to_string()]);
    assert_eq!(texts, vec!["a".to_string(), "b".to_string(), "c".to_string()]);
    append_texts(&mut texts, &vec![]);
    assert_eq!(texts.len(), 3);
}
