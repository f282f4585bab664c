use dolos::pattern::match_text;
use dolos::ByteScanner;

#[test]
fn peek_widens_to_whole_character() {
    let mut s = ByteScanner::new();
    s.initialize("šab");
    assert_eq!(s.peek(1), ("š".to_string(), 2));
    assert_eq!(s.peek(3), ("ša".to_string(), 3));
}

#[test]
fn peek_does_not_move_cursor() {
    let mut s = ByteScanner::new();
    s.initialize("ab");
    assert_eq!(s.peek(1), ("a".to_string(), 1));
    assert_eq!(s.peek(1), ("a".to_string(), 1));
    s.advance(1);
    assert_eq!(s.peek(1), ("b".to_string(), 1));
}

#[test]
fn peek_zero_and_past_end() {
    let mut s = ByteScanner::new();
    s.initialize("ab");
    assert_eq!(s.peek(0), (String::new(), 0));
    assert_eq!(s.peek(3), (String::new(), 0));
    s.advance(0);
    assert_eq!(s.peek(2), ("ab".to_string(), 2));
    s.advance(2);
    assert_eq!(s.peek(0), (String::new(), 0));
    assert_eq!(s.peek(1), (String::new(), 0));
}

#[test]
fn peek_four_byte_character() {
    let mut s = ByteScanner::new();
    s.initialize("😀x");
    assert_eq!(s.peek(1), ("😀".to_string(), 4));
}

#[test]
fn peek_from_inside_a_character_is_lossy() {
    let mut s = ByteScanner::new();
    s.initialize("šab");
    s.advance(1);
    let (text, n) = s.peek(1);
    assert_eq!(n, 3);
    assert_eq!(text, "\u{FFFD}ab");
}

#[test]
fn peek_widening_stops_at_buffer_end() {
    let mut s = ByteScanner::new();
    s.initialize("aš");
    s.advance(2);
    let (text, n) = s.peek(1);
    assert_eq!(n, 1);
    assert_eq!(text, "\u{FFFD}");
}

#[test]
fn byte_mark_advance_rollback() {
    let mut s = ByteScanner::new();
    s.initialize("šab");
    s.mark_offset();
    s.advance(3);
    assert_eq!(s.peek(1), ("b".to_string(), 1));
    s.rollback();
    assert_eq!(s.peek(2), ("š".to_string(), 2));
    s.rollback();
    assert_eq!(s.peek(2), ("š".to_string(), 2));
}

#[test]
fn byte_rollback_without_mark() {
    let mut s = ByteScanner::default();
    s.initialize("abc");
    s.advance(2);
    s.rollback();
    assert_eq!(s.peek(1), ("c".to_string(), 1));
}

#[test]
fn byte_matches() {
    let mut s = ByteScanner::new();
    s.initialize("šab");
    assert!(s.matches("š"));
    assert!(s.matches("ša"));
    assert!(!s.matches("a"));
    s.advance(2);
    assert!(s.matches("ab"));
    assert!(!s.matches("abc"));
    assert!(!s.matches("abš"));
}

#[test]
fn match_text_of_result() {
    assert_eq!(match_text(Some("ab".to_string())), "ab");
    assert_eq!(match_text(None), "");
}
