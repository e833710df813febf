use memefs::window::{read_end, read_window};

#[test]
fn read_end_stops_at_the_end_of_the_content() {
    assert_eq!(read_end(1000, 900, 200), 1000);
    assert_eq!(read_end(1000, 999, 1), 1000);
    assert_eq!(read_end(1000, 999, u32::MAX), 1000);
}

#[test]
fn read_end_stops_after_the_bytes_asked_for() {
    assert_eq!(read_end(1000, 0, 200), 200);
    assert_eq!(read_end(1000, 100, 200), 300);
    assert_eq!(read_end(1000, 800, 200), 1000);
    assert_eq!(read_end(1000, 10, 0), 10);
}

#[test]
fn read_end_of_a_read_behind_the_end_is_its_start() {
    assert_eq!(read_end(1000, 1000, 200), 1000);
    assert_eq!(read_end(1000, 2000, 200), 2000);
    assert_eq!(read_end(0, 0, 200), 0);
    assert_eq!(read_end(0, 5, 200), 5);
}

#[test]
fn read_window_of_a_read_over_the_end_holds_what_is_left() {
    let content = vec![7u8; 1000];
    assert_eq!(read_window(&content, 900, 200).len(), 100);
    assert_eq!(read_window(&content, 0, 2000).len(), 1000);
    assert_eq!(read_window(&content, 999, 2).len(), 1);
}

#[test]
fn read_window_at_or_behind_the_end_is_empty() {
    let content = vec![7u8; 1000];
    assert!(read_window(&content, 1000, 200).is_empty());
    assert!(read_window(&content, 1001, 200).is_empty());
    assert!(read_window(&content, i64::MAX, u32::MAX).is_empty());
    assert!(read_window(&[], 0, 10).is_empty());
}

#[test]
fn read_window_before_the_start_is_empty() {
    let content = vec![7u8; 10];
    assert!(read_window(&content, -1, 5).is_empty());
    assert!(read_window(&content, i64::MIN, 5).is_empty());
}

#[test]
fn read_window_inside_the_content_holds_the_bytes_asked_for() {
    let content: Vec<u8> = (0u8..=255).collect();
    assert_eq!(read_window(&content, 10, 4), &[10u8, 11, 12, 13][..]);
    assert_eq!(read_window(&content, 0, 1), &[0u8][..]);
    assert_eq!(read_window(&content, 252, 4), &[252u8, 253, 254, 255][..]);
    assert_eq!(read_window(&content, 254, 4), &[254u8, 255][..]);
    assert!(read_window(&content, 17, 0).is_empty());
}
