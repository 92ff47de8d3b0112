use libterm::term_core::{char_width, Utf8Decoder};

#[test]
fn test_ascii() {
    let mut d = Utf8Decoder::new();
    assert_eq!(d.feed(b'A'), Some('A'));
    assert_eq!(d.feed(b'z'), Some('z'));
}

#[test]
fn test_two_byte() {
    let mut d = Utf8Decoder::new();
    // é = 0xC3 0xA9
    assert_eq!(d.feed(0xC3), None);
    assert_eq!(d.feed(0xA9), Some('é'));
}

#[test]
fn test_three_byte_cjk() {
    let mut d = Utf8Decoder::new();
    // 中 = 0xE4 0xB8 0xAD
    assert_eq!(d.feed(0xE4), None);
    assert_eq!(d.feed(0xB8), None);
    assert_eq!(d.feed(0xAD), Some('中'));
}

#[test]
fn test_four_byte_emoji() {
    let mut d = Utf8Decoder::new();
    // 😀 = 0xF0 0x9F 0x98 0x80
    assert_eq!(d.feed(0xF0), None);
    assert_eq!(d.feed(0x9F), None);
    assert_eq!(d.feed(0x98), None);
    assert_eq!(d.feed(0x80), Some('😀'));
}

#[test]
fn test_invalid_continuation() {
    let mut d = Utf8Decoder::new();
    assert_eq!(d.feed(0xC3), None);
    // Feed a non-continuation byte
    assert_eq!(d.feed(b'A'), Some(char::REPLACEMENT_CHARACTER));
}

#[test]
fn test_char_width() {
    assert_eq!(char_width('A'), 1);
    assert_eq!(char_width('中'), 2);
    assert_eq!(char_width('é'), 1);
    assert_eq!(char_width('😀'), 2);
    assert_eq!(char_width('\0'), 0);
}
