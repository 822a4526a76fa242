use rustpack::number::{decimal, parse_u64, signed_decimal};
use rustpack::text::{
    chars_of, contains, contains_text, find_char, is_text, join, replace, same_chars, split_lines,
    split_words, starts_with_text, to_ascii_lowercase, trim,
};

fn chars(s: &str) -> Vec<char> {
    s.chars().collect()
}

fn text(v: &Vec<char>) -> String {
    v.iter().collect()
}

fn strings(items: &[&str]) -> Vec<String> {
    items.iter().map(|s| s.to_string()).collect()
}

#[test]
fn characters_of_a_text() {
    assert_eq!(chars_of("héllo"), vec!['h', 'é', 'l', 'l', 'o']);
    assert!(chars_of("").is_empty());
    assert!(same_chars(&chars("abc"), &chars("abc")));
    assert!(!same_chars(&chars("abc"), &chars("abd")));
    assert!(!same_chars(&chars("abc"), &chars("ab")));
    assert!(is_text(&chars("--"), "--"));
    assert!(!is_text(&chars("--"), "-"));
}

#[test]
fn prefixes_and_infixes() {
    assert!(starts_with_text(&chars("--root=/"), "--"));
    assert!(starts_with_text(&chars("x"), ""));
    assert!(!starts_with_text(&chars("-"), "--"));
    assert!(contains_text(&chars("id=arch"), "arch"));
    assert!(contains_text(&chars("abc"), ""));
    assert!(contains_text(&chars(""), ""));
    assert!(!contains_text(&chars("abc"), "abcd"));
    assert!(contains(&chars("aab"), &chars("ab")));
    assert!(!contains(&chars("aab"), &chars("ba")));
    assert_eq!(find_char(&chars("a=b=c"), '=', 0), 1);
    assert_eq!(find_char(&chars("a=b=c"), '=', 2), 3);
    assert_eq!(find_char(&chars("abc"), '=', 0), 3);
    assert_eq!(find_char(&chars("abc"), 'a', 7), 3);
}

#[test]
fn replacing() {
    assert_eq!(text(&replace(&chars("a$rb$r"), &chars("$r"), &chars("XY"))), "aXYbXY");
    assert_eq!(text(&replace(&chars("aaa"), &chars("aa"), &chars("b"))), "ba");
    assert_eq!(text(&replace(&chars("abc"), &chars("x"), &chars("y"))), "abc");
    assert_eq!(text(&replace(&chars("abc"), &chars("b"), &chars(""))), "ac");
    assert_eq!(text(&replace(&chars(""), &chars("b"), &chars("c"))), "");
    for (s, p, t) in [("banana", "an", "AN"), ("xxxx", "xx", "x"), ("a.b.c", ".", "::")] {
        assert_eq!(text(&replace(&chars(s), &chars(p), &chars(t))), s.replace(p, t));
    }
}

#[test]
fn joining() {
    assert_eq!(text(&join(&strings(&["a", "b", "c"]), ", ")), "a, b, c");
    assert_eq!(text(&join(&strings(&["a"]), ", ")), "a");
    assert_eq!(text(&join(&Vec::new(), ", ")), "");
    assert_eq!(text(&join(&strings(&["", ""]), "-")), "-");
}

#[test]
fn lower_case_and_trimming() {
    assert_eq!(text(&to_ascii_lowercase(&chars("ID=Arch ÄÖ"))), "id=arch ÄÖ");
    assert_eq!(text(&trim(&chars("  x y \t\r\n"))), "x y");
    assert_eq!(text(&trim(&chars("\u{a0}\u{2003}x\u{3000}"))), "x");
    assert_eq!(text(&trim(&chars("   "))), "");
    assert_eq!(text(&trim(&chars(""))), "");
    for s in ["  a ", "\u{85}b\u{1680}", "\u{200b}c", "d\u{feff}", " \u{2028}e\u{2029} "] {
        assert_eq!(text(&trim(&chars(s))), s.trim());
    }
}

#[test]
fn lines_and_words() {
    let lines: Vec<String> = split_lines(&chars("a\nb\r\n\nc\r")).iter().map(text).collect();
    assert_eq!(lines, strings(&["a", "b", "", "c\r"]));
    for s in ["", "\n", "a", "a\n", "a\n\n", "\r\n", "a\rb\n", "x\r\r\ny", "\n\nz"] {
        let mine: Vec<String> = split_lines(&chars(s)).iter().map(text).collect();
        let std: Vec<String> = s.lines().map(|l| l.to_string()).collect();
        assert_eq!(mine, std);
    }
    for s in ["", "  ", "a", " a  b\tc\n", "Required DatabaseOptional", "\u{a0}x\u{2003}y"] {
        let mine: Vec<String> = split_words(&chars(s)).iter().map(text).collect();
        let std: Vec<String> = s.split_whitespace().map(|l| l.to_string()).collect();
        assert_eq!(mine, std);
    }
}

#[test]
fn numerals() {
    assert_eq!(text(&decimal(0)), "0");
    assert_eq!(text(&decimal(7)), "7");
    assert_eq!(text(&decimal(10)), "10");
    assert_eq!(text(&decimal(1700000000)), "1700000000");
    assert_eq!(text(&decimal(u64::MAX)), "18446744073709551615");
    assert_eq!(text(&signed_decimal(0)), "0");
    assert_eq!(text(&signed_decimal(-1)), "-1");
    assert_eq!(text(&signed_decimal(i64::MIN)), "-9223372036854775808");
    assert_eq!(text(&signed_decimal(i64::MAX)), "9223372036854775807");
}

#[test]
fn reading_numerals() {
    assert_eq!(parse_u64(&chars("0")), Some(0));
    assert_eq!(parse_u64(&chars("007")), Some(7));
    assert_eq!(parse_u64(&chars("+42")), Some(42));
    assert_eq!(parse_u64(&chars("18446744073709551615")), Some(u64::MAX));
    assert_eq!(parse_u64(&chars("18446744073709551616")), None);
    assert_eq!(parse_u64(&chars("99999999999999999999999")), None);
    assert_eq!(parse_u64(&chars("")), None);
    assert_eq!(parse_u64(&chars("+")), None);
    assert_eq!(parse_u64(&chars("-1")), None);
    assert_eq!(parse_u64(&chars("1 ")), None);
    assert_eq!(parse_u64(&chars("++1")), None);
    assert_eq!(parse_u64(&chars("1e3")), None);
    assert_eq!(parse_u64(&chars("٣")), None);
    for n in [0u64, 1, 9, 10, 99, 100, 12345, u64::MAX - 1, u64::MAX] {
        assert_eq!(parse_u64(&decimal(n)), Some(n));
    }
}
