use rust_mcp_server::encoding::{byte_len, chars_eq_ignore_case, parse_number, push_decimal};
use rust_mcp_server::lines::{join_rows, join_strings, split_chars, split_lines};
use rust_mcp_server::text::{
    char_is_whitespace, contains_chars, from_chars, starts_with_chars, str_matches_at, to_chars,
    trim_chars,
};

fn chars(s: &str) -> Vec<char> {
    s.chars().collect()
}

fn text(v: &Vec<char>) -> String {
    v.iter().collect()
}

fn lines_of(s: &str) -> Vec<String> {
    split_lines(&chars(s)).iter().map(text).collect()
}

#[test]
fn chars_round_trip() {
    for s in ["", "abc", "héllo wörld", "日本語\n\u{1F600}"] {
        assert_eq!(to_chars(s), chars(s));
        assert_eq!(from_chars(&chars(s)), s);
    }
}

#[test]
fn whitespace_is_what_std_calls_whitespace() {
    let mut code: u32 = 0;
    while code <= 0x10FFFF {
        if let Some(c) = char::from_u32(code) {
            assert_eq!(char_is_whitespace(c), c.is_whitespace(), "U+{:04X}", code);
        }
        code += 1;
    }
}

#[test]
fn trim_is_std_trim() {
    for s in ["", "   ", "abc", "  abc", "abc  ", " \t a b \r\n", "\u{a0}x\u{3000}", "\u{2028}"] {
        assert_eq!(text(&trim_chars(&chars(s))), s.trim());
    }
}

#[test]
fn lines_are_std_lines() {
    for s in [
        "",
        "\n",
        "a",
        "a\n",
        "a\nb",
        "a\r\nb\r\n",
        "a\r",
        "a\r\r\n",
        "\r\n",
        "\n\n",
        "a\n\nb\n",
        "x\ry\nz",
    ] {
        let expected: Vec<String> = s.lines().map(|l| l.to_string()).collect();
        assert_eq!(lines_of(s), expected, "{:?}", s);
    }
}

#[test]
fn split_is_std_split() {
    for s in ["", "/", "a", "a/b", "/a/b/", "a//b", "//"] {
        let expected: Vec<String> = s.split('/').map(|l| l.to_string()).collect();
        let got: Vec<String> = split_chars(&chars(s), '/').iter().map(text).collect();
        assert_eq!(got, expected, "{:?}", s);
    }
}

#[test]
fn contains_is_std_contains() {
    let cases = [
        ("", "", true),
        ("abc", "", true),
        ("", "a", false),
        ("abc", "abc", true),
        ("abc", "bc", true),
        ("abc", "abcd", false),
        ("aab", "ab", true),
        ("demo::utils::do_thing", "do_thing", true),
        ("demo::utils::do_thing", "do_things", false),
    ];
    for (hay, needle, expected) in cases {
        assert_eq!(contains_chars(&chars(hay), &chars(needle)), expected);
        assert_eq!(hay.contains(needle), expected);
    }
}

#[test]
fn starts_and_ends() {
    assert!(starts_with_chars(&chars("define void"), &chars("define")));
    assert!(!starts_with_chars(&chars("def"), &chars("define")));
    assert!(starts_with_chars(&chars(""), &chars("")));
    assert!(str_matches_at(&chars("  fn main"), "fn ", 2));
    assert!(!str_matches_at(&chars("  fn main"), "fn ", 3));
    assert!(!str_matches_at(&chars("fn"), "fn ", 0));
    assert!(!str_matches_at(&chars("fn "), "fn ", 7));
}

#[test]
fn join_puts_the_separator_between() {
    let rows = vec![chars("a"), chars("b"), chars("c")];
    assert_eq!(text(&join_rows(&rows, 0, 3, &chars("\n"))), "a\nb\nc");
    assert_eq!(text(&join_rows(&rows, 1, 2, &chars("\n"))), "b");
    assert_eq!(text(&join_rows(&rows, 1, 1, &chars("\n"))), "");
    let strings = vec!["x".to_string(), "".to_string(), "z".to_string()];
    assert_eq!(join_strings(&strings, "::"), "x::::z");
    assert_eq!(join_strings(&Vec::new(), "::"), "");
    assert_eq!(join_strings(&vec!["only".to_string()], ", "), "only");
}

#[test]
fn decimal_is_std_display() {
    for n in [0u64, 1, 9, 10, 11, 99, 100, 12345, 2097152, u64::MAX] {
        let mut out = Vec::new();
        push_decimal(&mut out, n);
        assert_eq!(text(&out), n.to_string());
    }
    let mut out = chars("n=");
    push_decimal(&mut out, 42);
    assert_eq!(text(&out), "n=42");
}

#[test]
fn byte_len_is_std_len() {
    for s in ["", "abc", "é", "日本語", "\u{1F600}", "a\u{7ff}\u{800}\u{ffff}\u{10000}"] {
        assert_eq!(byte_len(&chars(s)), Some(s.len()));
    }
}

#[test]
fn parse_number_is_std_parse() {
    let max = usize::MAX.to_string();
    let over = format!("{}0", max);
    let cases = [
        "0", "7", "42", "007", "+5", "+", "", "-1", " 1", "1 ", "12a", "a", "++1", &max, &over,
        "18446744073709551616", "99999999999999999999999999",
    ];
    for s in cases {
        assert_eq!(parse_number(&chars(s)), s.parse::<usize>().ok(), "{:?}", s);
    }
}

#[test]
fn case_is_ignored_for_ascii_letters_only() {
    assert!(chars_eq_ignore_case(&chars("MIR"), &chars("mir")));
    assert!(chars_eq_ignore_case(&chars("LlVm-Ir"), &chars("llvm-ir")));
    assert!(!chars_eq_ignore_case(&chars("mir"), &chars("mirs")));
    assert!(!chars_eq_ignore_case(&chars("É"), &chars("é")));
    assert!(!chars_eq_ignore_case(&chars("@"), &chars("`")));
    assert!(!chars_eq_ignore_case(&chars("["), &chars("{")));
    for (a, b) in [("Asm", "aSM"), ("x", "y"), ("", ""), ("a", "")] {
        assert_eq!(chars_eq_ignore_case(&chars(a), &chars(b)), a.eq_ignore_ascii_case(b));
    }
}
