use libterm::renderer::cursor::{Cursor, CursorStyle};

#[test]
fn test_cursor_default() {
    let c = Cursor::new();
    assert_eq!(c.style, CursorStyle::Block);
    assert!(c.visible);
    assert!(c.blink);
}

#[test]
fn test_cursor_visible_initially() {
    let c = Cursor::new();
    assert!(c.is_visible_now());
}

#[test]
fn test_cursor_hidden() {
    let mut c = Cursor::new();
    c.visible = false;
    assert!(!c.is_visible_now());
}

#[test]
fn test_cursor_no_blink_always_visible() {
    let mut c = Cursor::new();
    c.blink = false;
    assert!(c.is_visible_now());
}

#[test]
fn test_reset_blink() {
    let mut c = Cursor::new();
    c.reset_blink();
    assert!(c.is_visible_now()); // just reset, should be visible
}
