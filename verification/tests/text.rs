use vcsq_lib::cmd::tty_strings;
use vcsq_lib::text::{
    chars_of, contains, debug_strings, decimal, find_from, matches_at, skip_chars,
    skip_chars_each, split_lines, split_pieces, string_of,
};

fn strings(items: &[&str]) -> Vec<String> {
    items.iter().map(|s| s.to_string()).collect()
}

fn chars(s: &str) -> Vec<char> {
    s.chars().collect()
}

#[test]
fn tty_strings_of_nothing_is_no_line() {
    assert_eq!(tty_strings(""), Vec::<String>::new());
}

#[test]
fn tty_strings_takes_a_final_line_feed_as_optional() {
    assert_eq!(tty_strings("one"), strings(&["one"]));
    assert_eq!(tty_strings("one\n"), strings(&["one"]));
    assert_eq!(tty_strings("one\ntwo"), strings(&["one", "two"]));
    assert_eq!(tty_strings("one\ntwo\n"), strings(&["one", "two"]));
}

#[test]
fn tty_strings_keeps_empty_lines() {
    assert_eq!(tty_strings("\n"), strings(&[""]));
    assert_eq!(tty_strings("\n\n"), strings(&["", ""]));
    assert_eq!(tty_strings("a\n\nb\n"), strings(&["a", "", "b"]));
    assert_eq!(tty_strings("\na"), strings(&["", "a"]));
}

#[test]
fn tty_strings_never_trims_blanks() {
    assert_eq!(tty_strings("  a \n\tb\t\n"), strings(&["  a ", "\tb\t"]));
    assert_eq!(tty_strings(" "), strings(&[" "]));
}

#[test]
fn tty_strings_ends_a_line_at_carriage_return_and_line_feed() {
    assert_eq!(tty_strings("a\r\nb\r\n"), strings(&["a", "b"]));
    assert_eq!(tty_strings("a\r\n"), strings(&["a"]));
    assert_eq!(tty_strings("\r\n"), strings(&[""]));
}

#[test]
fn tty_strings_keeps_a_carriage_return_that_no_line_feed_follows() {
    assert_eq!(tty_strings("a\rb\n"), strings(&["a\rb"]));
    assert_eq!(tty_strings("a\r"), strings(&["a\r"]));
    assert_eq!(tty_strings("a\r\r\n"), strings(&["a\r"]));
}

#[test]
fn tty_strings_agrees_with_the_standard_library() {
    let samples = [
        "",
        "\n",
        "\r",
        "\r\n",
        "\n\r",
        "a",
        "a\n",
        "a\r\n",
        "a\nb",
        "a\n\nb\n\n",
        "?? git-docs.md\n",
        "C one\nM two\r\n? three",
        "\r\r\n\r\n\n",
        "tab\there\n  spaces  \n",
        "ünïcödé\nλ\n\u{1F600}\r\n",
        "trailing cr\r",
    ];
    for sample in samples {
        let expected: Vec<String> = sample.lines().map(|l| l.to_string()).collect();
        assert_eq!(tty_strings(sample), expected, "sample {:?}", sample);
    }
}

#[test]
fn split_lines_works_on_characters() {
    assert_eq!(split_lines(&chars("é\nö")), strings(&["é", "ö"]));
}

#[test]
fn chars_of_and_string_of_are_inverse() {
    let text = "héllo wörld";
    let cs = chars_of(text);
    assert_eq!(cs, chars(text));
    assert_eq!(string_of(&cs, 0, cs.len()), text);
    assert_eq!(string_of(&cs, 1, 5), "éllo");
    assert_eq!(string_of(&cs, 3, 3), "");
}

#[test]
fn decimal_writes_base_ten() {
    assert_eq!(decimal(0), "0");
    assert_eq!(decimal(3), "3");
    assert_eq!(decimal(9), "9");
    assert_eq!(decimal(10), "10");
    assert_eq!(decimal(42), "42");
    assert_eq!(decimal(100), "100");
    assert_eq!(decimal(1234567890), "1234567890");
    assert_eq!(decimal(usize::MAX), usize::MAX.to_string());
}

#[test]
fn contains_finds_a_substring_anywhere() {
    assert!(contains("abc", ""));
    assert!(contains("", ""));
    assert!(!contains("", "a"));
    assert!(contains("abc", "a"));
    assert!(contains("abc", "bc"));
    assert!(contains("abc", "abc"));
    assert!(!contains("abc", "abcd"));
    assert!(!contains("abc", "ac"));
    assert!(contains("aab", "ab"));
    assert!(contains("fatal: ambiguous argument 'HEAD': unknown revision or path", "unknown revision"));
}

#[test]
fn matches_at_needs_room_for_the_whole_pattern() {
    let s = chars("hello");
    assert!(matches_at(&s, &chars("he"), 0));
    assert!(matches_at(&s, &chars("lo"), 3));
    assert!(!matches_at(&s, &chars("lo"), 4));
    assert!(!matches_at(&s, &chars("lo"), 9));
    assert!(matches_at(&s, &chars(""), 5));
    assert!(!matches_at(&s, &chars(""), 6));
    assert!(!matches_at(&s, &chars("hello!"), 0));
}

#[test]
fn find_from_gives_the_first_place() {
    let s = chars("abcabc");
    assert_eq!(find_from(&s, &chars("bc"), 0), Some(1));
    assert_eq!(find_from(&s, &chars("bc"), 1), Some(1));
    assert_eq!(find_from(&s, &chars("bc"), 2), Some(4));
    assert_eq!(find_from(&s, &chars("bc"), 5), None);
    assert_eq!(find_from(&s, &chars("x"), 0), None);
    assert_eq!(find_from(&s, &chars("abcabcabc"), 0), None);
    assert_eq!(find_from(&s, &chars("a"), 7), None);
}

#[test]
fn skip_chars_counts_characters_not_bytes() {
    assert_eq!(skip_chars("?? file", 3), "file");
    assert_eq!(skip_chars("éé x", 3), "x");
    assert_eq!(skip_chars("ab", 2), "");
    assert_eq!(skip_chars("ab", 3), "");
    assert_eq!(skip_chars("", 3), "");
    assert_eq!(skip_chars("abc", 0), "abc");
}

#[test]
fn skip_chars_each_keeps_the_order() {
    assert_eq!(skip_chars_each(&strings(&["M  a", "?? b", "x"]), 3), strings(&["a", "b", ""]));
    assert_eq!(skip_chars_each(&strings(&[]), 3), strings(&[]));
}

#[test]
fn split_pieces_agrees_with_the_standard_library() {
    let samples = [
        ("", "--"),
        ("a", "--"),
        ("a--b", "--"),
        ("a--b--c", "--"),
        ("--a", "--"),
        ("a--", "--"),
        ("----", "--"),
        ("---", "--"),
        ("a-b", "--"),
        ("aXbXc", "X"),
        ("XX", "X"),
        ("abcabc", "abcabc"),
        ("ab", "abc"),
    ];
    for (text, sep) in samples {
        let expected: Vec<String> = text.split(sep).map(|p| p.to_string()).collect();
        assert_eq!(split_pieces(&chars(text), &chars(sep)), expected, "{:?} on {:?}", text, sep);
    }
}

#[test]
fn split_pieces_on_nothing_gives_the_text_as_one_piece() {
    assert_eq!(split_pieces(&chars("abc"), &chars("")), strings(&["abc"]));
    assert_eq!(split_pieces(&chars(""), &chars("")), strings(&[""]));
}

#[test]
fn debug_strings_agrees_with_the_standard_library() {
    let samples: [&[&str]; 5] = [
        &[],
        &["one"],
        &["one", "two"],
        &["with \"quotes\"", "back\\slash", "new\nline", "tab\t"],
        &["", "ünï", "\u{7f}"],
    ];
    for sample in samples {
        let items = strings(sample);
        assert_eq!(debug_strings(&items), format!("{:?}", items));
    }
}
