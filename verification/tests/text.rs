use weather_report::text::{integer_to_text, is_space_char, join_words, read_line, trim};

#[test]
fn trim_removes_surrounding_white_space_only() {
    assert_eq!(trim("  a b  "), "a b");
    assert_eq!(trim(""), "");
    assert_eq!(trim(" \t\r\n"), "");
    assert_eq!(trim("x"), "x");
    assert_eq!(trim("\u{3000}é \u{a0}ü\u{2003}\u{85}"), "é \u{a0}ü");
}

#[test]
fn trim_agrees_with_std() {
    let samples = ["", " ", "a", " a", "a ", "\n a \n b \n", "\u{1680}x\u{205f}", "\u{200b}x\u{200b}", "\u{feff}y"];
    for s in samples {
        assert_eq!(trim(s), s.trim());
    }
}

#[test]
fn white_space_is_what_std_calls_white_space() {
    let mut n: u32 = 0;
    while n <= 0x3100 {
        if let Some(c) = char::from_u32(n) {
            assert_eq!(is_space_char(c), c.is_whitespace());
        }
        n += 1;
    }
}

#[test]
fn read_line_gives_line_and_next_start() {
    assert_eq!(read_line("ab\ncd", 0), ("ab", 3));
    assert_eq!(read_line("ab\ncd", 3), ("cd", 5));
    assert_eq!(read_line("ab\ncd", 5), ("", 5));
    assert_eq!(read_line("ab\r\ncd", 0), ("ab", 4));
    assert_eq!(read_line("\r\n", 0), ("", 2));
    assert_eq!(read_line("é\r", 0), ("é\r", 2));
    assert_eq!(read_line("", 0), ("", 0));
}

#[test]
fn join_words_puts_single_spaces_between() {
    assert_eq!(join_words(&vec![]), "");
    assert_eq!(join_words(&vec!["Oslo".to_string()]), "Oslo");
    assert_eq!(join_words(&vec!["Rio".to_string(), "de".to_string(), "Janeiro".to_string()]), "Rio de Janeiro");
    assert_eq!(join_words(&vec!["".to_string(), " a ".to_string(), "".to_string()]), "  a  ");
}

#[test]
fn integers_are_written_in_decimal() {
    assert_eq!(integer_to_text(0), "0");
    assert_eq!(integer_to_text(7), "7");
    assert_eq!(integer_to_text(10), "10");
    assert_eq!(integer_to_text(1012), "1012");
    assert_eq!(integer_to_text(-1), "-1");
    assert_eq!(integer_to_text(-905), "-905");
    assert_eq!(integer_to_text(i32::MAX), "2147483647");
    assert_eq!(integer_to_text(i32::MIN), "-2147483648");
}

#[test]
fn integer_text_agrees_with_std() {
    let samples = [0, 1, 9, 10, 11, 99, 100, 101, 60, 1012, -1, -10, -99, 123456789, i32::MAX, i32::MIN];
    for n in samples {
        assert_eq!(integer_to_text(n), n.to_string());
    }
}
