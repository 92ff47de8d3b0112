use libterm::search::{search_all, search_grid, SearchMatch};
use libterm::term_core::{Terminal, VtParser};

#[test]
fn test_search_literal() {
    let mut t = Terminal::new(20, 5);
    let mut p = VtParser::new();
    t.feed_bytes(&mut p, b"hello world\r\nfoo bar\r\nhello again");
    let matches = search_grid(&t.grid, "hello", false);
    assert_eq!(matches.len(), 2);
    assert_eq!(matches[0], SearchMatch { row: 0, col_start: 0, col_end: 5 });
    assert_eq!(matches[1], SearchMatch { row: 2, col_start: 0, col_end: 5 });
}

#[test]
fn test_search_regex() {
    let mut t = Terminal::new(40, 5);
    let mut p = VtParser::new();
    t.feed_bytes(&mut p, b"error: file not found\r\nwarning: deprecated\r\nerror: timeout");
    let matches = search_grid(&t.grid, r"error: \w+", true);
    assert_eq!(matches.len(), 2);
    assert_eq!(matches[0].row, 0);
    assert_eq!(matches[1].row, 2);
}

#[test]
fn test_search_no_match() {
    let mut t = Terminal::new(20, 5);
    let mut p = VtParser::new();
    t.feed_bytes(&mut p, b"hello world");
    let matches = search_grid(&t.grid, "xyz", false);
    assert!(matches.is_empty());
}

#[test]
fn test_search_invalid_regex() {
    let mut t = Terminal::new(20, 5);
    let mut p = VtParser::new();
    t.feed_bytes(&mut p, b"hello");
    let matches = search_grid(&t.grid, "[invalid", true);
    assert!(matches.is_empty());
}

#[test]
fn test_search_case_sensitive() {
    let mut t = Terminal::new(20, 5);
    let mut p = VtParser::new();
    t.feed_bytes(&mut p, b"Hello HELLO hello");
    let matches = search_grid(&t.grid, "hello", false);
    assert_eq!(matches.len(), 1); // only lowercase
}

#[test]
fn test_search_case_insensitive_regex() {
    let mut t = Terminal::new(20, 5);
    let mut p = VtParser::new();
    t.feed_bytes(&mut p, b"Hello HELLO hello");
    let matches = search_grid(&t.grid, "(?i)hello", true);
    assert_eq!(matches.len(), 3);
}

#[test]
fn test_search_all_includes_scrollback() {
    let mut t = Terminal::new(10, 3);
    let mut p = VtParser::new();
    // Fill enough lines to push into scrollback
    t.feed_bytes(&mut p, b"line1 abc\r\nline2 abc\r\nline3 abc\r\nline4 abc\r\nline5 abc");
    let matches = search_all(&t.grid, "abc", false);
    // Should find in both scrollback and visible
    assert!(matches.len() >= 3);
    // Scrollback matches have negative row
    assert!(matches.iter().any(|m| m.row < 0));
}
