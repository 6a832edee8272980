use ccwc::{count_bytes, count_lines, count_locale_chars, count_words};

#[test]
fn test_count_bytes() {
    let want: usize = 2;
    let input = vec![0x11, 0x1E];

    let got = count_bytes(input);
    assert_eq!(want, got);
}

#[test]
fn test_count_lines() {
    let want: usize = 3;
    let input = "hello \n, how are you\nfine";

    let got = count_lines(input);
    assert_eq!(want, got);
}

#[test]
fn test_count_locale_chars() {
    let want: usize = 9;
    let input = "hello\n123";

    let got = count_locale_chars(input);
    assert_eq!(want, got);
}

#[test]
fn test_count_words() {
    let want: usize = 4;
    let input = "hello world\n this\n that";

    let got = count_words(input);
    assert_eq!(want, got);
}

#[test]
fn bytes_of_empty_input() {
    assert_eq!(count_bytes(Vec::new()), 0);
}

#[test]
fn lines_of_empty_text() {
    assert_eq!(count_lines(""), 0);
}

#[test]
fn lines_with_trailing_newline() {
    assert_eq!(count_lines("a\nb\n"), 2);
    assert_eq!(count_lines("\n"), 1);
    assert_eq!(count_lines("\n\n"), 2);
    assert_eq!(count_lines("a\n\nb"), 3);
}

#[test]
fn lines_without_newline() {
    assert_eq!(count_lines("abc"), 1);
}

#[test]
fn words_of_empty_and_blank_text() {
    assert_eq!(count_words(""), 0);
    assert_eq!(count_words(" \t\n  \r\n"), 0);
}

#[test]
fn words_around_leading_and_trailing_whitespace() {
    assert_eq!(count_words("  one\ttwo  three \n"), 3);
    assert_eq!(count_words("x"), 1);
}

#[test]
fn words_split_on_unicode_whitespace() {
    assert_eq!(count_words("a\u{3000}b\u{a0}c"), 3);
    assert_eq!(count_words("\u{2028}"), 0);
}

#[test]
fn chars_differ_from_bytes_on_multibyte_text() {
    let text = "h\u{e9}llo \u{1f600}";
    assert_eq!(count_locale_chars(text), 7);
    assert_eq!(count_bytes(text.as_bytes().to_vec()), 11);
}

#[test]
fn chars_equal_bytes_on_ascii_text() {
    let text = "plain ascii\n";
    assert_eq!(count_locale_chars(text), count_bytes(text.as_bytes().to_vec()));
}

#[test]
fn chars_of_empty_text() {
    assert_eq!(count_locale_chars(""), 0);
}
