use psmux::color::{before_cell, color_to_ansi, Color};
use psmux::dict::Dict;
use psmux::text::{
    byte_len, comes_before, contains, ends_with, has_char, is_signed_number, join, lower_ascii, number_text,
    parse_number, push_number, push_signed, replace, replace_text, same, skip, sort_texts, split_lines,
    split_once, split_words, starts_with, trim, trim_end, trim_start, upper_ascii,
};
use psmux::utf16::{decode_lossy, encode, first_unit_of};

fn strings(v: &[&str]) -> Vec<String> {
    v.iter().map(|s| s.to_string()).collect()
}

#[test]
fn texts_are_compared_and_parted() {
    assert!(same("abc", "abc"));
    assert!(!same("abc", "abd"));
    assert!(starts_with("copy-pipe ls", "copy-pipe"));
    assert!(!starts_with("cop", "copy"));
    assert!(ends_with("95%", "%"));
    assert!(contains("window-status-format", "status"));
    assert!(!contains("status", "window"));
    assert!(contains("anything", ""));
    assert!(has_char("a*b", '*'));
    assert_eq!(skip("-NAME", 1), "NAME");
    assert_eq!(split_once("a=b=c", '='), ("a".to_string(), Some("b=c".to_string())));
    assert_eq!(split_once("abc", '='), ("abc".to_string(), None));
}

#[test]
fn white_space_is_trimmed() {
    assert_eq!(trim_start(" \t x "), "x ");
    assert_eq!(trim_end(" x \r\n"), " x");
    assert_eq!(trim("\u{a0}\u{2003}psmux\u{3000}"), "psmux");
    assert_eq!(trim(" \n "), "");
}

#[test]
fn words_are_those_of_std() {
    for s in ["", "  ", "one", " Up  Down\tEnter\n", "a\u{2003}b\u{85}c"] {
        let expected: Vec<String> = s.split_whitespace().map(|w| w.to_string()).collect();
        assert_eq!(split_words(s), expected);
    }
}

#[test]
fn lines_are_those_of_std() {
    for s in ["", "\n", "a", "a\n", "a\r\nb\n\nc", "a\r", "a\r\r\n", "x\ny\r"] {
        let expected: Vec<String> = s.lines().map(|l| l.to_string()).collect();
        assert_eq!(split_lines(s), expected);
    }
}

#[test]
fn texts_are_replaced_from_the_left() {
    assert_eq!(replace("it's", '\'', "''"), "it''s");
    assert_eq!(replace_text("aaa", "aa", "b"), "ba");
    assert_eq!(replace_text("x#{t}y#{t}", "#{t}", "1"), "x1y1");
    assert_eq!(replace_text("none", "#{t}", "1"), "none");
}

#[test]
fn decimal_notation_reads_back() {
    for n in [0u64, 7, 10, 65535, 1_000_000, u64::MAX] {
        assert_eq!(number_text(n), n.to_string());
        assert_eq!(parse_number(&number_text(n), u64::MAX), Some(n));
    }
    let mut s = "x".to_string();
    push_number(&mut s, 120);
    push_signed(&mut s, -45);
    push_signed(&mut s, i64::MIN);
    assert_eq!(s, "x120-45-9223372036854775808");
}

#[test]
fn numbers_are_read_as_std_reads_them() {
    assert_eq!(parse_number("+80", 65535), Some(80));
    assert_eq!(parse_number("65536", 65535), None);
    assert_eq!(parse_number("", 65535), None);
    assert_eq!(parse_number("+", 65535), None);
    assert_eq!(parse_number("-1", 65535), None);
    assert_eq!(parse_number("8 0", 65535), None);
    assert_eq!(parse_number("0000000000000000000000001", 65535), Some(1));
    assert!(is_signed_number("-32768", 32767, 32768));
    assert!(!is_signed_number("-32769", 32767, 32768));
    assert!(!is_signed_number("-+1", 32767, 32768));
}

#[test]
fn sorting_orders_as_std_does() {
    let v = strings(&["beta", "alpha", "Beta", "", "alp", "é", "alpha"]);
    let mut expected = v.clone();
    expected.sort();
    assert_eq!(sort_texts(&v), expected);
    assert!(comes_before("alp", "alpha"));
    assert!(!comes_before("alpha", "alpha"));
    assert!(comes_before("Z", "a"));
}

#[test]
fn parts_are_joined() {
    assert_eq!(join(&strings(&["a", "b", "c"]), ", "), "a, b, c");
    assert_eq!(join(&strings(&[]), ", "), "");
    assert_eq!(byte_len("é€"), 5);
    assert_eq!(lower_ascii('Q'), 'q');
    assert_eq!(lower_ascii('É'), 'É');
    assert_eq!(upper_ascii('q'), 'Q');
}

#[test]
fn utf16_is_that_of_std() {
    for s in ["", "psmux", "é€", "a😀b"] {
        let expected: Vec<u16> = s.encode_utf16().collect();
        assert_eq!(encode(s), expected);
        assert_eq!(decode_lossy(&expected), s);
    }
    assert_eq!(decode_lossy(&vec![0x61, 0xD800, 0x62]), "a\u{FFFD}b");
    assert_eq!(decode_lossy(&vec![0xDC00]), "\u{FFFD}");
    assert_eq!(first_unit_of('😀'), 0xD83D);
}

#[test]
fn dictionary_reads_back_what_was_written() {
    let mut d: Dict<u64> = Dict::new();
    d.insert("a".to_string(), 1);
    d.insert("b".to_string(), 2);
    d.insert("a".to_string(), 3);
    assert_eq!(d.get("a"), Some(&3));
    assert_eq!(d.get("b"), Some(&2));
    assert_eq!(d.get("c"), None);
    assert_eq!(d.entries.len(), 2);
    assert_eq!(d.position("b"), Some(1));
    assert_eq!(d.remove("a"), Some(3));
    assert_eq!(d.remove("a"), None);
    assert!(!d.has("a") && d.has("b"));
}

#[test]
fn colours_are_escape_sequences() {
    assert_eq!(color_to_ansi(Color::Reset, true), "\x1b[39m");
    assert_eq!(color_to_ansi(Color::Reset, false), "\x1b[49m");
    assert_eq!(color_to_ansi(Color::Red, true), "\x1b[31m");
    assert_eq!(color_to_ansi(Color::LightBlue, false), "\x1b[104m");
    assert_eq!(color_to_ansi(Color::Rgb(1, 20, 255), true), "\x1b[38;2;1;20;255m");
    assert_eq!(color_to_ansi(Color::Indexed(208), false), "\x1b[48;5;208m");
    let none = (None, None);
    let red = (Some(Color::Red), None);
    assert_eq!(before_cell(red, red), "");
    assert!(before_cell(none, red).contains("\x1b[31m"));
}
