use libterm::term_core::Color;
use libterm::theme::{hex_to_color, Theme};

#[test]
fn test_hex_to_color() {
    assert_eq!(hex_to_color("#ff0000"), Some(Color { r: 255, g: 0, b: 0 }));
    assert_eq!(hex_to_color("00ff00"), Some(Color { r: 0, g: 255, b: 0 }));
    assert_eq!(hex_to_color("#zzzzzz"), None);
    assert_eq!(hex_to_color("#fff"), None); // too short
}

#[test]
fn test_default_theme() {
    let t = Theme::default_dark();
    assert_eq!(t.name, "default");
    assert_eq!(t.bg, Color { r: 0, g: 0, b: 0 });
}

#[test]
fn test_bundled_themes() {
    for name in Theme::bundled_names() {
        let t = Theme::by_name(name);
        assert!(t.is_some(), "missing theme: {}", name);
    }
    assert!(Theme::by_name("nonexistent").is_none());
}

#[test]
fn test_dracula_theme() {
    let t = Theme::dracula();
    assert_eq!(t.name, "dracula");
    assert_eq!(t.bg, Color { r: 40, g: 42, b: 54 });
    assert_eq!(t.fg, Color { r: 248, g: 248, b: 242 });
}
