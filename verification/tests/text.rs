use tella::text::{
    chars_of, first_position, is_blank, join, last_position, parse_decimal, same_text, trim,
};

#[test]
fn chars_are_characters_not_bytes() {
    assert_eq!(chars_of("a→b"), vec!['a', '→', 'b']);
    assert_eq!(chars_of(""), Vec::<char>::new());
}

#[test]
fn same_text_compares_contents() {
    assert!(same_text("ERROR", "ERROR"));
    assert!(!same_text("ERROR", "error"));
    assert!(same_text("", ""));
}

#[test]
fn positions_are_first_and_last() {
    let v = chars_of("a{b{c}d}e");
    assert_eq!(first_position(&v, '{'), Some(1));
    assert_eq!(last_position(&v, '}'), Some(7));
    assert_eq!(first_position(&v, 'z'), None);
    assert_eq!(last_position(&v, 'z'), None);
}

#[test]
fn trim_takes_unicode_white_space_off_both_ends() {
    assert_eq!(trim("  1 \n"), "1");
    assert_eq!(trim("\u{a0}\tllama 3\u{2003}"), "llama 3");
    assert_eq!(trim(" \n\t"), "");
    assert_eq!(trim(""), "");
    assert_eq!(trim("x"), "x");
}

#[test]
fn blank_means_only_white_space() {
    assert!(is_blank(""));
    assert!(is_blank(" \n\t\r"));
    assert!(!is_blank(" . "));
}

#[test]
fn join_puts_the_separator_between() {
    assert_eq!(join(&vec!["a", "b", "c"], ", "), "a, b, c");
    assert_eq!(join(&vec!["a"], ", "), "a");
    assert_eq!(join(&Vec::<&str>::new(), ", "), "");
}

#[test]
fn decimal_numbers_are_digits_with_an_optional_plus() {
    let parse = |s: &str, limit: u64| {
        let v = chars_of(s);
        parse_decimal(&v, 0, v.len(), limit)
    };
    assert_eq!(parse("42", 100), Some(42));
    assert_eq!(parse("+7", 100), Some(7));
    assert_eq!(parse("007", 100), Some(7));
    assert_eq!(parse("100", 100), Some(100));
    assert_eq!(parse("101", 100), None);
    assert_eq!(parse("", 100), None);
    assert_eq!(parse("+", 100), None);
    assert_eq!(parse("-1", 100), None);
    assert_eq!(parse("1a", 100), None);
    assert_eq!(parse("18446744073709551615", u64::MAX), Some(u64::MAX));
    assert_eq!(parse("18446744073709551616", u64::MAX), None);
}
