use waifudex::codex::session_reader::{take_complete_lines, SessionReader};
use waifudex::lines::{after_last_char, parse_lines, shell_quote, split_lines, split_once_char, split_three_fields};
use waifudex::numbers::{parse_seconds_nanos, parse_u64};
use waifudex::order::str_less;
use waifudex::text::{ascii_lowercase, join_with_space, str_contains, trim_str, u64_to_decimal};

#[test]
fn lines_split_like_str_lines() {
    assert_eq!(split_lines("a\r\nb\n\nc"), vec!["a", "b", "", "c"]);
    assert_eq!(split_lines("a\n"), vec!["a"]);
    assert_eq!(split_lines("x\r"), vec!["x\r"]);
    assert!(split_lines("").is_empty());
    assert_eq!(parse_lines("  Ubuntu \n\n Debian\n  \n"), vec!["Ubuntu", "Debian"]);
}

#[test]
fn complete_lines_are_given_and_the_rest_waits() {
    let (lines, rest) = take_complete_lines("par".to_string(), "tial\nnext\nhal");
    assert_eq!(lines, vec!["partial", "next"]);
    assert_eq!(rest, "hal");
    let (lines, rest) = take_complete_lines(rest, "f\n");
    assert_eq!(lines, vec!["half"]);
    assert_eq!(rest, "");
}

#[test]
fn reading_in_two_pieces_gives_the_same_lines_as_at_once() {
    let text = "one\r\ntwo\nthr";
    for cut in 0..=text.len() {
        let (first, rest) = take_complete_lines(String::new(), &text[..cut]);
        let (second, rest2) = take_complete_lines(rest, &text[cut..]);
        let (all, rest_all) = take_complete_lines(String::new(), text);
        let joined: Vec<String> = first.into_iter().chain(second).collect();
        assert_eq!(joined, all);
        assert_eq!(rest2, rest_all);
    }
}

#[test]
fn the_reader_starts_over_for_a_new_file_or_a_shorter_one() {
    let mut reader = SessionReader::new();
    assert_eq!(reader.prepare_read("/a", 10), 0);
    assert_eq!(reader.finish_read(10, "x\ny"), vec!["x"]);
    assert_eq!(reader.prepare_read("/a", 12), 10);
    assert_eq!(reader.finish_read(12, "z\n"), vec!["yz"]);
    assert_eq!(reader.prepare_read("/a", 3), 0);
    assert_eq!(reader.prepare_read("/b", 50), 0);
    assert!(reader.finish_read(50, "").is_empty());
}

#[test]
fn shell_quoting_escapes_single_quotes() {
    assert_eq!(shell_quote("plain"), "'plain'");
    assert_eq!(shell_quote("it's"), "'it'\\''s'");
    assert_eq!(shell_quote(""), "''");
}

#[test]
fn splitting_helpers() {
    assert_eq!(split_once_char("a:b:c", ':'), Some(("a".to_string(), "b:c".to_string())));
    assert_eq!(split_once_char("abc", ':'), None);
    assert_eq!(
        split_three_fields("1|2|a|b"),
        (Some("1".to_string()), Some("2".to_string()), Some("a|b".to_string()))
    );
    assert_eq!(split_three_fields("1"), (Some("1".to_string()), None, None));
    assert_eq!(after_last_char("/home/tester", '/'), "tester");
    assert_eq!(after_last_char("tester", '/'), "tester");
}

#[test]
fn numbers_parse_like_rust() {
    assert_eq!(parse_u64("42"), Some(42));
    assert_eq!(parse_u64("+7"), Some(7));
    assert_eq!(parse_u64("18446744073709551615"), Some(u64::MAX));
    assert_eq!(parse_u64("18446744073709551616"), None);
    assert_eq!(parse_u64("-1"), None);
    assert_eq!(parse_u64(""), None);
    assert_eq!(parse_seconds_nanos("1.25"), Some(1_250_000_000));
    assert_eq!(parse_seconds_nanos("3"), Some(3_000_000_000));
    assert_eq!(parse_seconds_nanos("-3"), Some(0));
    assert_eq!(parse_seconds_nanos("x"), None);
    assert_eq!(u64_to_decimal(0), "0");
    assert_eq!(u64_to_decimal(1_234_567), "1234567");
}

#[test]
fn text_helpers() {
    assert_eq!(ascii_lowercase("ÄbC"), "Äbc");
    assert_eq!(trim_str("  a b \t\n"), "a b");
    assert!(str_contains("hello world", "o w"));
    assert!(!str_contains("hello", "world"));
    assert_eq!(join_with_space(&vec!["a".to_string(), "b".to_string()]), "a b");
    assert!(str_less("Debian", "Ubuntu"));
    assert!(!str_less("b", "a"));
}
