use mkb::text::{
    chars_of, push_decimal, push_integer, read_i64, same_text, skip_chars, starts_with,
    string_of,
};

fn decimal(i: i64) -> String {
    let mut out = String::from("n=");
    push_integer(&mut out, i);
    out
}

fn chars(s: &str) -> Vec<char> {
    s.chars().collect()
}

#[test]
fn integers_are_written_in_decimal() {
    assert_eq!(decimal(0), "n=0");
    assert_eq!(decimal(7), "n=7");
    assert_eq!(decimal(10), "n=10");
    assert_eq!(decimal(-1), "n=-1");
    assert_eq!(decimal(1234567890), "n=1234567890");
    assert_eq!(decimal(i64::MAX), "n=9223372036854775807");
    assert_eq!(decimal(i64::MIN), "n=-9223372036854775808");
    let mut out = String::new();
    push_decimal(&mut out, u64::MAX);
    push_decimal(&mut out, 0);
    push_decimal(&mut out, 109);
    assert_eq!(out, "184467440737095516150109");
}

#[test]
fn integers_are_read_as_std_reads_them() {
    for text in [
        "0", "-0", "+0", "7", "042", "-42", "+42", "9223372036854775807", "9223372036854775808",
        "-9223372036854775808", "-9223372036854775809", "", "-", "+", "--1", "+-1", "1+", "1 ",
        " 1", "1_000", "0x10", "1e3", "१२", "18446744073709551616",
        "000000000000000000000000000000000000000000012",
        "100000000000000000000000000000000000000000000",
    ] {
        assert_eq!(read_i64(&chars(text)), text.parse::<i64>().ok(), "{:?}", text);
    }
}

#[test]
fn written_integers_read_back() {
    for i in [0, 1, -1, 9, 10, 99, 100, -100, 95465499, i64::MAX, i64::MIN, i64::MIN + 1] {
        let mut out = String::new();
        push_integer(&mut out, i);
        assert_eq!(read_i64(&chars(&out)), Some(i));
    }
}

#[test]
fn prefixes_are_told_as_std_tells_them() {
    for (text, prefix) in [
        ("CHARACTER:EVE:12", "CHARACTER:EVE:"),
        ("CHARACTER:EVE", "CHARACTER:EVE:"),
        ("xCHARACTER:EVE:12", "CHARACTER:EVE:"),
        ("abc", ""),
        ("", ""),
        ("", "a"),
        ("abc", "abc"),
        ("abc", "abd"),
        ("ab", "abc"),
        ("äöü", "äö"),
    ] {
        assert_eq!(
            starts_with(&chars(text), &chars(prefix)),
            text.starts_with(prefix),
            "{:?} with {:?}",
            text,
            prefix
        );
    }
}

#[test]
fn characters_are_skipped_from_the_front() {
    assert_eq!(skip_chars(&chars("abcdef"), 0), chars("abcdef"));
    assert_eq!(skip_chars(&chars("abcdef"), 2), chars("cdef"));
    assert_eq!(skip_chars(&chars("abcdef"), 6), chars(""));
    assert_eq!(string_of(&skip_chars(&chars("äöü"), 1)), "öü");
}

#[test]
fn texts_and_characters_convert_both_ways() {
    assert_eq!(chars_of("héllo"), vec!['h', 'é', 'l', 'l', 'o']);
    assert_eq!(chars_of(""), Vec::<char>::new());
    assert_eq!(string_of(&vec!['a', 'ß', 'c']), "aßc");
    assert!(same_text("abc", "abc"));
    assert!(!same_text("abc", "abd"));
    assert!(!same_text("abc", "ab"));
    assert!(same_text("", ""));
}
