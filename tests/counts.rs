use rwc::counts::is_white_space_char;
use rwc::report::decimal_string;
use rwc::{get_byte_count, get_char_count, get_line_count, get_word_count};

/// A buffer with 43 newlines, 177 whitespace-delimited words and 1038
/// characters, some of them outside ASCII.
fn get_test_buffer() -> String {
    let mut buf = String::new();
    let mut word: usize = 0;
    for line in 0..43 {
        let words_here = if line < 42 { 4 } else { 9 };
        for k in 0..words_here {
            if k > 0 {
                buf.push(' ');
            }
            if word == 176 {
                buf.push_str(&"x".repeat(685));
            } else {
                buf.push('\u{e9}');
            }
            word += 1;
        }
        buf.push('\n');
    }
    buf
}

#[test]
fn test_get_test_buffer() {
    assert!(!get_test_buffer().is_empty());
}

#[test]
fn lib_test_get_line_count() {
    let buf = get_test_buffer();

    assert_eq!(get_line_count(&buf), 43);
    assert_eq!(get_line_count(&"asdf".to_string()), 0);
}

#[test]
fn lib_test_get_char_count() {
    let buf = get_test_buffer();

    assert_eq!(get_char_count(&buf), 1038);
    assert_eq!(get_char_count(&"asdf".to_string()), 4);
}

#[test]
fn lib_test_get_word_count() {
    let buf = get_test_buffer();

    assert_eq!(get_word_count(&buf), 177);
    assert_eq!(get_word_count(&"asdf".to_string()), 1);
}

#[test]
fn line_count_of_empty_and_unterminated() {
    assert_eq!(get_line_count(&String::new()), 0);
    assert_eq!(get_line_count(&"a\nb\nc".to_string()), 2);
    assert_eq!(get_line_count(&"\n\n".to_string()), 2);
}

#[test]
fn word_count_collapses_white_space() {
    assert_eq!(get_word_count(&String::new()), 0);
    assert_eq!(get_word_count(&"  a   b ".to_string()), 2);
    assert_eq!(get_word_count(&" \t\n ".to_string()), 0);
    assert_eq!(get_word_count(&"one\u{3000}two\u{a0}three\u{2028}four".to_string()), 4);
    assert_eq!(get_word_count(&"a\u{200b}b".to_string()), 1);
}

#[test]
fn word_count_matches_split_whitespace() {
    let samples = ["", "x", " lead", "trail ", "a\r\nb\tc\u{85}d", "\u{1680}\u{205f}z y"];
    for s in samples.iter() {
        let s = s.to_string();
        assert_eq!(get_word_count(&s), s.split_whitespace().count());
    }
}

#[test]
fn white_space_table_matches_std() {
    for u in 0u32..=0x10ffff {
        if let Some(c) = char::from_u32(u) {
            assert_eq!(is_white_space_char(c), c.is_whitespace(), "code point {:x}", u);
        }
    }
}

#[test]
fn char_count_counts_scalars_not_bytes() {
    let one = "\u{e9}".to_string();
    assert_eq!(get_char_count(&one), 1);
    assert_eq!(get_byte_count(&one), 2);
    let emoji = "\u{1f600}".to_string();
    assert_eq!(get_char_count(&emoji), 1);
    assert_eq!(get_byte_count(&emoji), 4);
    let ascii = "plain text\n".to_string();
    assert_eq!(get_char_count(&ascii), get_byte_count(&ascii));
}

#[test]
fn byte_count_of_mixed_text() {
    assert_eq!(get_byte_count(&String::new()), 0);
    assert_eq!(get_byte_count(&"a\u{e9}\u{20ac}\u{1f600}".to_string()), 10);
    assert_eq!(get_char_count(&"a\u{e9}\u{20ac}\u{1f600}".to_string()), 4);
}

#[test]
fn decimal_string_values() {
    assert_eq!(decimal_string(0), "0");
    assert_eq!(decimal_string(7), "7");
    assert_eq!(decimal_string(10), "10");
    assert_eq!(decimal_string(1038), "1038");
    assert_eq!(decimal_string(usize::MAX), usize::MAX.to_string());
}
