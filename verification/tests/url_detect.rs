use libterm::term_core::{Terminal, VtParser};
use libterm::url_detect::{detect_urls, url_at};

#[test]
fn test_detect_url() {
    let mut t = Terminal::new(60, 5);
    let mut p = VtParser::new();
    t.feed_bytes(&mut p, b"visit https://example.com for info");
    let urls = detect_urls(&t.grid);
    assert_eq!(urls.len(), 1);
    assert_eq!(urls[0].url, "https://example.com");
    assert_eq!(urls[0].col_start, 6);
}

#[test]
fn test_detect_multiple_urls() {
    let mut t = Terminal::new(80, 5);
    let mut p = VtParser::new();
    t.feed_bytes(&mut p, b"see https://a.com and http://b.org/path?q=1");
    let urls = detect_urls(&t.grid);
    assert_eq!(urls.len(), 2);
    assert_eq!(urls[0].url, "https://a.com");
    assert_eq!(urls[1].url, "http://b.org/path?q=1");
}

#[test]
fn test_url_strips_trailing_punct() {
    let mut t = Terminal::new(60, 5);
    let mut p = VtParser::new();
    t.feed_bytes(&mut p, b"(see https://example.com).");
    let urls = detect_urls(&t.grid);
    assert_eq!(urls.len(), 1);
    assert_eq!(urls[0].url, "https://example.com");
}

#[test]
fn test_no_urls() {
    let mut t = Terminal::new(40, 5);
    let mut p = VtParser::new();
    t.feed_bytes(&mut p, b"no urls here just text");
    assert!(detect_urls(&t.grid).is_empty());
}

#[test]
fn test_url_at_position() {
    let mut t = Terminal::new(60, 5);
    let mut p = VtParser::new();
    t.feed_bytes(&mut p, b"click https://example.com here");
    assert_eq!(url_at(&t.grid, 0, 10), Some("https://example.com".into()));
    assert_eq!(url_at(&t.grid, 0, 0), None);
}
