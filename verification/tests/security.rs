use libterm::security::{is_safe_url, sanitize_osc, sanitize_paste};

#[test]
fn test_sanitize_osc_strips_control() {
    let data = b"Hello\x07World\x1bBad";
    let result = sanitize_osc(data);
    assert_eq!(result, "HelloWorldBad");
}

#[test]
fn test_sanitize_osc_length_limit() {
    let data = vec![b'A'; 10_000];
    let result = sanitize_osc(&data);
    assert_eq!(result.len(), 4096);
}

#[test]
fn test_sanitize_paste() {
    let input = "hello\nworld\x1b[31mred";
    let result = sanitize_paste(input);
    assert_eq!(result, "hello\nworld[31mred");
}

#[test]
fn test_safe_url() {
    assert!(is_safe_url("https://example.com"));
    assert!(is_safe_url("http://example.com"));
    assert!(is_safe_url("HTTPS://EXAMPLE.COM"));
    assert!(!is_safe_url("javascript:alert(1)"));
    assert!(!is_safe_url("data:text/html,<h1>hi</h1>"));
    assert!(!is_safe_url("file:///etc/passwd"));
}
