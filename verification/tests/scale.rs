use ecolav_core::scale::{line_weight, reading_weight, READ_PAUSE_MILLIS, REOPEN_DELAY_SECS};

#[test]
fn the_reader_rests_between_rounds_and_longer_without_a_port() {
    assert_eq!(REOPEN_DELAY_SECS, 2);
    assert_eq!(READ_PAUSE_MILLIS, 100);
}

#[test]
fn a_reading_is_a_letter_and_a_weight() {
    assert_eq!(reading_weight("H0000.15"), Some("0000.15"));
    assert_eq!(reading_weight("L0000.10"), Some("0000.10"));
    assert_eq!(reading_weight("h12"), Some("12"));
    assert_eq!(reading_weight("l7"), Some("7"));
}

#[test]
fn a_letter_alone_is_no_reading() {
    assert_eq!(reading_weight("H"), None);
    assert_eq!(reading_weight("l"), None);
    assert_eq!(reading_weight(""), None);
}

#[test]
fn other_letters_begin_no_reading() {
    assert_eq!(reading_weight("X0000.15"), None);
    assert_eq!(reading_weight("0000.15"), None);
    assert_eq!(reading_weight(" H0000.15"), None);
    assert_eq!(reading_weight("é1"), None);
}

#[test]
fn what_follows_the_letter_is_taken_as_it_is() {
    assert_eq!(reading_weight("Hé"), Some("é"));
    assert_eq!(reading_weight("H 1.5"), Some(" 1.5"));
    assert_eq!(reading_weight("HH1"), Some("H1"));
}

#[test]
fn a_line_is_freed_of_the_whitespace_around_it() {
    assert_eq!(line_weight("  H0000.15\r\n"), Some("0000.15"));
    assert_eq!(line_weight("\tL3.2 "), Some("3.2"));
    assert_eq!(line_weight("H0000.15"), Some("0000.15"));
    assert_eq!(line_weight(" H "), None);
    assert_eq!(line_weight("   "), None);
    assert_eq!(line_weight("\u{a0}h1\u{2003}"), Some("1"));
}
