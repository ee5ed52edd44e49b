use trein::error::Error;
use trein::ocr::{recognized_text, selection_geometry, tidy_ocr};

#[test]
fn round_trip_normalization() {
    assert_eq!(tidy_ocr("Hel-\nlo\u{00AD} world\r\n"), "Hello world");
}

#[test]
fn normalization_is_idempotent_on_its_own_output() {
    let raws = [
        "Hel-\nlo\u{00AD} world\r\n",
        "  a\t\tb \n c ",
        "--\n-",
        "one\r\ntwo\rthree\n",
        "",
        " \u{00AD} ",
        "\u{2003}wide\u{2003}spaces\u{2003}",
    ];
    for raw in raws {
        let once = tidy_ocr(raw);
        let twice = tidy_ocr(&once);
        assert_eq!(twice, once);
    }
}

#[test]
fn soft_hyphens_are_removed_first() {
    // The soft hyphen goes away before hyphenated breaks are joined, so a
    // soft hyphen before a line break does not join the words.
    assert_eq!(tidy_ocr("fu\u{00AD}-\nture"), "future");
    assert_eq!(tidy_ocr("fu\u{00AD}\nture"), "fu ture");
}

#[test]
fn hyphen_breaks_join_without_rescanning() {
    assert_eq!(tidy_ocr("a-\nb"), "ab");
    // Matches are consumed left to right: the text "--\n\n" keeps its first
    // hyphen, loses the pair, and the leftover break becomes a space.
    assert_eq!(tidy_ocr("x--\n\ny"), "x- y");
    // A hyphen before a carriage return is not a hyphenated break.
    assert_eq!(tidy_ocr("a-\r\nb"), "a- b");
}

#[test]
fn whitespace_collapses_and_trims() {
    assert_eq!(tidy_ocr("  a\t b  c "), "a b c");
    assert_eq!(tidy_ocr("\n\n\n"), "");
    assert_eq!(tidy_ocr(""), "");
}

#[test]
fn empty_recognition_is_a_terminal_error() {
    assert!(matches!(
        recognized_text("   \r\n \u{00AD} ").unwrap_err(),
        Error::NoTextRecognized
    ));
    assert_eq!(recognized_text("Hel-\nlo\u{00AD} world\r\n").unwrap(), "Hello world");
}

#[test]
fn geometry_is_trimmed_and_must_be_nonempty() {
    assert_eq!(selection_geometry(" 10,20 300x200 \n").unwrap(), "10,20 300x200");
    assert!(matches!(selection_geometry("").unwrap_err(), Error::EmptySelection));
    assert!(matches!(selection_geometry(" \n\t").unwrap_err(), Error::EmptySelection));
}
