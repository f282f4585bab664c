use dolos::{CharScanner, ScanError};

#[test]
fn test_read() {
    let mut mut_string_io_rust = CharScanner::default();
    mut_string_io_rust.initialize("Hello, ąčę!");

    let (read_str, len) = mut_string_io_rust.read(8).unwrap();
    assert_eq!(read_str, "Hello, ą");
    assert_eq!(len, 8);

    let (read_again, len) = mut_string_io_rust.read(1).unwrap();

    assert_eq!(read_again, "č");
    assert_eq!(len, 1);
}

#[test]
fn test_advance() {
    let mut mut_string_io_rust = CharScanner::default();
    mut_string_io_rust.initialize("š!ę");

    mut_string_io_rust.advance(1);
    let (peeked_str, _) = mut_string_io_rust.read(2).unwrap();
    assert_eq!(peeked_str, "!ę");
}

#[test]
fn test_take() {
    let mut mut_string_io_rust = CharScanner::default();
    mut_string_io_rust.initialize("š!ę");

    let take_str = mut_string_io_rust.take(0, 2).unwrap();
    assert_eq!(take_str, "š!");
}

#[test]
fn read_past_end_is_out_of_range_and_keeps_cursor() {
    let mut s = CharScanner::new();
    s.initialize("abc");
    s.advance(1);
    assert_eq!(s.read(3), Err(ScanError::OutOfRange));
    assert_eq!(s.offset(), 1);
    assert_eq!(s.read(2), Ok(("bc".to_string(), 2)));
    assert_eq!(s.offset(), 3);
}

#[test]
fn zero_steps_keep_cursor() {
    let mut s = CharScanner::new();
    s.initialize("ąb");
    s.advance(1);
    s.advance(0);
    assert_eq!(s.offset(), 1);
    assert_eq!(s.read(0), Ok((String::new(), 0)));
    assert_eq!(s.offset(), 1);
    s.advance(1);
    assert_eq!(s.read(0), Ok((String::new(), 0)));
    assert_eq!(s.offset(), 2);
}

#[test]
fn advance_clamps_to_end() {
    let mut s = CharScanner::new();
    s.initialize("ąčę");
    s.advance(10);
    assert_eq!(s.offset(), 3);
    s.advance(usize::MAX);
    assert_eq!(s.offset(), 3);
}

#[test]
fn mark_advance_rollback_restores_cursor() {
    let mut s = CharScanner::new();
    s.initialize("Hello, ąčę!");
    s.advance(2);
    s.mark_offset();
    s.advance(5);
    assert_eq!(s.offset(), 7);
    s.rollback();
    assert_eq!(s.offset(), 2);
    s.advance(100);
    s.rollback();
    assert_eq!(s.offset(), 2);
}

#[test]
fn rollback_twice_equals_once() {
    let mut s = CharScanner::new();
    s.initialize("abcdef");
    s.advance(1);
    s.mark_offset();
    s.advance(3);
    s.rollback();
    let once = s.offset();
    s.rollback();
    assert_eq!(s.offset(), once);
    assert_eq!(once, 1);
}

#[test]
fn rollback_without_mark_is_a_no_op() {
    let mut s = CharScanner::new();
    s.initialize("abcdef");
    s.advance(4);
    s.rollback();
    assert_eq!(s.offset(), 4);
}

#[test]
fn mark_overwrites_earlier_checkpoint() {
    let mut s = CharScanner::new();
    s.initialize("abcdef");
    s.mark_offset();
    s.advance(3);
    s.mark_offset();
    s.advance(2);
    s.rollback();
    assert_eq!(s.offset(), 3);
    assert_eq!(s.backup(), 3);
}

#[test]
fn backup_on_fresh_scanner_is_zero() {
    let mut s = CharScanner::new();
    s.initialize("abc");
    assert_eq!(s.backup(), 0);
    s.advance(2);
    assert_eq!(s.backup(), 0);
}

#[test]
fn take_equals_joined_single_takes() {
    let mut s = CharScanner::new();
    s.initialize("Hello, ąčę!");
    let whole = s.take(5, 10).unwrap();
    let mut joined = String::new();
    for i in 5..10 {
        joined.push_str(&s.take(i, i + 1).unwrap());
    }
    assert_eq!(whole, joined);
    assert_eq!(whole, ", ąčę");
}

#[test]
fn take_bounds() {
    let mut s = CharScanner::new();
    s.initialize("š!ę");
    assert_eq!(s.take(2, 1), Err(ScanError::OutOfRange));
    assert_eq!(s.take(0, 4), Err(ScanError::OutOfRange));
    assert_eq!(s.take(4, 4), Err(ScanError::OutOfRange));
    assert_eq!(s.take(3, 3), Ok(String::new()));
    assert_eq!(s.take(0, 3), Ok("š!ę".to_string()));
}

#[test]
fn matches_literal_at_cursor() {
    let mut s = CharScanner::new();
    s.initialize("š!ę");
    assert!(s.matches("š!"));
    assert!(!s.matches("!"));
    s.advance(1);
    assert!(s.matches("!ę"));
    assert!(s.matches(""));
    assert_eq!(s.offset(), 1);
}

#[test]
fn matches_is_false_past_end() {
    let mut s = CharScanner::new();
    s.initialize("š!ę");
    s.advance(2);
    assert!(s.matches("ę"));
    assert!(!s.matches("ęx"));
    s.advance(1);
    assert!(!s.matches("a"));
}

#[test]
fn matches_regex_finds_first_match_in_rest() {
    let mut s = CharScanner::new();
    s.initialize("ab12cd34");
    assert_eq!(s.matches_regex("[0-9]+"), Ok("12".to_string()));
    s.advance(4);
    assert_eq!(s.matches_regex("[0-9]+"), Ok("34".to_string()));
    assert_eq!(s.matches_regex("x"), Ok(String::new()));
    assert_eq!(s.offset(), 4);
}

#[test]
fn matches_regex_at_end_is_empty() {
    let mut s = CharScanner::new();
    s.initialize("ab");
    s.advance(2);
    assert_eq!(s.matches_regex("a*"), Ok(String::new()));
}

#[test]
fn matches_regex_bad_pattern() {
    let mut s = CharScanner::new();
    s.initialize("ab");
    assert_eq!(s.matches_regex("a("), Err(ScanError::PatternError));
}

#[test]
fn initialize_utf8_decodes_or_refuses() {
    let mut s = CharScanner::new();
    assert_eq!(s.initialize_utf8("ąb".as_bytes()), Ok(()));
    assert_eq!(s.read(1), Ok(("ą".to_string(), 1)));
    assert_eq!(s.initialize_utf8(&[0x61, 0xC4]), Err(ScanError::DecodeError));
    assert_eq!(s.offset(), 1);
    assert_eq!(s.read(1), Ok(("b".to_string(), 1)));
}

#[test]
fn initialize_resets_state() {
    let mut s = CharScanner::new();
    s.initialize("abc");
    s.advance(2);
    s.mark_offset();
    s.initialize("xyz");
    assert_eq!(s.offset(), 0);
    assert_eq!(s.backup(), 0);
    assert_eq!(s.read(3), Ok(("xyz".to_string(), 3)));
}
