use libterm::image::{parse_kitty_graphics, ImageManager, KittyCommand};

#[test]
fn test_image_place_and_remove() {
    let mut mgr = ImageManager::new();
    let id = mgr.place(100, 50, 5, 0, vec![0u8; 100 * 50 * 4]);
    assert_eq!(mgr.count(), 1);
    assert!(mgr.remove(id));
    assert_eq!(mgr.count(), 0);
}

#[test]
fn test_image_visible() {
    let mut mgr = ImageManager::new();
    mgr.place(10, 10, 2, 0, vec![]);
    mgr.place(10, 10, 50, 0, vec![]);
    let visible = mgr.visible(0, 24);
    assert_eq!(visible.len(), 1);
}

#[test]
fn test_image_clear() {
    let mut mgr = ImageManager::new();
    mgr.place(10, 10, 0, 0, vec![]);
    mgr.place(10, 10, 1, 0, vec![]);
    mgr.clear();
    assert_eq!(mgr.count(), 0);
}

#[test]
fn test_parse_kitty_transmit() {
    assert_eq!(parse_kitty_graphics("a=t,f=100"), Some(KittyCommand::Transmit));
}

#[test]
fn test_parse_kitty_delete() {
    assert_eq!(parse_kitty_graphics("a=d"), Some(KittyCommand::Delete));
}

#[test]
fn test_parse_kitty_query() {
    assert_eq!(parse_kitty_graphics("a=q,i=1"), Some(KittyCommand::Query));
}

#[test]
fn test_parse_kitty_default_transmit() {
    // No 'a' param defaults to transmit
    assert_eq!(parse_kitty_graphics("f=100,s=10"), Some(KittyCommand::Transmit));
}
