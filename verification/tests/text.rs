use mcpacker::text::{
    chars_of, contains, decimal_of, ends_with, lines_of, lowercase, split_on, starts_with,
    string_of, stripped, stripped_end, without_prefix_all, without_suffix_all, Strip,
};

fn c(s: &str) -> Vec<char> {
    s.chars().collect()
}

fn strings(v: Vec<Vec<char>>) -> Vec<String> {
    v.iter().map(|p| p.iter().collect()).collect()
}

#[test]
fn strings_and_characters_convert_both_ways() {
    assert_eq!(chars_of("a\u{e9}\u{1f600}"), vec!['a', '\u{e9}', '\u{1f600}']);
    assert_eq!(string_of(&vec!['a', '\u{e9}', '\u{1f600}']), "a\u{e9}\u{1f600}");
    assert_eq!(chars_of(""), Vec::<char>::new());
}

#[test]
fn splitting_keeps_empty_pieces() {
    assert_eq!(strings(split_on(&c("a;b;;c"), ';')), vec!["a", "b", "", "c"]);
    assert_eq!(strings(split_on(&c(""), ';')), vec![""]);
    assert_eq!(strings(split_on(&c(";"), ';')), vec!["", ""]);
    assert_eq!(strings(split_on(&c("abc"), ';')), vec!["abc"]);
}

#[test]
fn lines_follow_line_feeds() {
    assert_eq!(strings(lines_of(&c("a\nb\r\nc"))), vec!["a", "b", "c"]);
    assert_eq!(strings(lines_of(&c("a\n"))), vec!["a"]);
    assert_eq!(strings(lines_of(&c("a\n\n"))), vec!["a", ""]);
    assert_eq!(strings(lines_of(&c(""))), Vec::<String>::new());
    assert_eq!(strings(lines_of(&c("\n"))), vec![""]);
    assert_eq!(strings(lines_of(&c("a\r"))), vec!["a\r"]);
    assert_eq!(strings(lines_of(&c("a\r\r\nb"))), vec!["a\r", "b"]);
    assert_eq!(strings(lines_of(&c("\r\n"))), vec![""]);
}

#[test]
fn lines_agree_with_the_standard_library() {
    for text in ["", "a", "a\n", "\n\n", "a\r\nb\r", "x\ry\n\rz", "\r", "\r\n\r\n", "a\n\r\n"] {
        let expected: Vec<String> = text.lines().map(|l| l.to_string()).collect();
        assert_eq!(strings(lines_of(&c(text))), expected, "for {:?}", text);
    }
}

#[test]
fn stripping_agrees_with_the_standard_library() {
    for text in ["", "  a b  ", "\t\n x\u{a0}", "\u{2003}y\u{3000}", "...a..", " . ", "\u{85}z\u{1680}"] {
        let v = c(text);
        assert_eq!(string_of(&stripped(&v, Strip::Whitespace)), text.trim());
        assert_eq!(string_of(&stripped(&v, Strip::Char('.'))), text.trim_matches('.'));
        assert_eq!(string_of(&stripped_end(&v, Strip::Char('.'))), text.trim_end_matches('.'));
    }
}

#[test]
fn whitespace_is_what_the_standard_library_says() {
    for n in 0u32..0x3100 {
        if let Some(ch) = char::from_u32(n) {
            assert_eq!(mcpacker::text::char_is_whitespace(ch), ch.is_whitespace(), "U+{:04X}", n);
            assert_eq!(mcpacker::text::char_is_control(ch), ch.is_control(), "U+{:04X}", n);
        }
    }
}

#[test]
fn repeated_affixes_are_removed() {
    assert_eq!(string_of(&without_prefix_all(&c("ababc"), &c("ab"))), "c");
    assert_eq!(string_of(&without_prefix_all(&c("abc"), &c("bc"))), "abc");
    assert_eq!(string_of(&without_prefix_all(&c("abc"), &c(""))), "abc");
    assert_eq!(string_of(&without_suffix_all(&c("cabab"), &c("ab"))), "c");
    assert_eq!(string_of(&without_suffix_all(&c("aaa"), &c("aa"))), "a");
    assert_eq!("aaa".trim_end_matches("aa"), "a");
}

#[test]
fn prefixes_suffixes_and_occurrences() {
    assert!(starts_with(&c("abc"), &c("ab")));
    assert!(starts_with(&c("abc"), &c("")));
    assert!(!starts_with(&c("ab"), &c("abc")));
    assert!(ends_with(&c("abc"), &c("bc")));
    assert!(!ends_with(&c("abc"), &c("ab")));
    assert!(contains(&c("hello"), &c("ell")));
    assert!(contains(&c("hello"), &c("")));
    assert!(contains(&c("hello"), &c("hello")));
    assert!(contains(&c("hello"), &c("lo")));
    assert!(!contains(&c("hello"), &c("helloo")));
    assert!(!contains(&c("hello"), &c("ol")));
}

#[test]
fn lowercase_is_unicode_lowercase() {
    assert_eq!(string_of(&lowercase(&c("SoDium \u{c9}"))), "sodium \u{e9}");
    assert_eq!(string_of(&lowercase(&c("\u{130}"))), "i\u{307}");
}

#[test]
fn decimal_numerals() {
    assert_eq!(string_of(&decimal_of(0)), "0");
    assert_eq!(string_of(&decimal_of(7)), "7");
    assert_eq!(string_of(&decimal_of(10)), "10");
    assert_eq!(string_of(&decimal_of(1203)), "1203");
    assert_eq!(string_of(&decimal_of(4294967295)), "4294967295");
    assert_eq!(string_of(&decimal_of(u64::MAX)), "18446744073709551615");
}
