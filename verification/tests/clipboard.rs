use libterm::clipboard::{base64_decode, bracketed_paste_wrap, decode_osc52_set};

#[test]
fn test_bracketed_paste_wrap() {
    let wrapped = bracketed_paste_wrap("hello");
    assert_eq!(wrapped, b"\x1b[200~hello\x1b[201~");
}

#[test]
fn test_bracketed_paste_empty() {
    let wrapped = bracketed_paste_wrap("");
    assert_eq!(wrapped, b"\x1b[200~\x1b[201~");
}

#[test]
fn test_base64_decode() {
    assert_eq!(base64_decode("aGVsbG8="), Some("hello".into()));
    assert_eq!(base64_decode("d29ybGQ="), Some("world".into()));
    assert_eq!(base64_decode("YQ=="), Some("a".into()));
}

#[test]
fn test_osc52_decode() {
    // "52;c;aGVsbG8=" → "hello"
    assert_eq!(decode_osc52_set("52;c;aGVsbG8="), Some("hello".into()));
    assert_eq!(decode_osc52_set("52;;d29ybGQ="), Some("world".into()));
}

#[test]
fn test_osc52_query() {
    assert_eq!(decode_osc52_set("52;c;?"), None);
}

#[test]
fn test_osc52_invalid() {
    assert_eq!(decode_osc52_set("not_osc52"), None);
}
