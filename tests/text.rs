use hecto::frame::{banner_line, truncate};
use hecto::Buffer;

fn lines(buffer: &Buffer) -> Vec<String> {
    (0..buffer.len()).map(|i| buffer.slice(i, 0, buffer.line_len(i))).collect()
}

#[test]
fn truncate_cuts_by_characters() {
    assert_eq!(truncate("héllo".to_string(), 2), "hé");
    assert_eq!(truncate("héllo".to_string(), 5), "héllo");
    assert_eq!(truncate("héllo".to_string(), 9), "héllo");
    assert_eq!(truncate("abc".to_string(), 0), "");
}

#[test]
fn banner_is_centered_on_wide_screens() {
    let line = banner_line(80);
    assert_eq!(line.len(), 29 + 21);
    assert!(line.starts_with('~'));
    assert_eq!(line.find("hecto editor -- 0.1.0"), Some(29));
}

#[test]
fn banner_without_room_starts_right_after_the_tilde() {
    assert_eq!(banner_line(21), "~hecto editor -- 0.1.");
    assert_eq!(banner_line(22), "~hecto editor -- 0.1.0");
    assert_eq!(banner_line(23), "~hecto editor -- 0.1.0");
    assert_eq!(banner_line(25), "~ hecto editor -- 0.1.0");
    assert_eq!(banner_line(1), "~");
    assert_eq!(banner_line(0), "");
}

#[test]
fn buffer_slices_and_lengths() {
    let mut buffer = Buffer::new();
    assert!(buffer.is_empty());
    buffer.load("añb\n\ncd\r\n");
    assert!(!buffer.is_empty());
    assert_eq!(lines(&buffer), vec!["añb".to_string(), String::new(), "cd".to_string()]);
    assert_eq!(buffer.line_len(0), 3);
    assert_eq!(buffer.slice(0, 1, 3), "ñb");
}

#[test]
fn lone_carriage_returns_end_lines() {
    let mut buffer = Buffer::new();
    buffer.load("a\r\rb\r");
    assert_eq!(lines(&buffer), vec!["a".to_string(), String::new(), "b".to_string()]);
}
