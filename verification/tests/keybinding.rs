use libterm::keybinding::{Action, KeyBinding, KeybindingManager, Modifier, Platform};

#[test]
fn test_default_bindings() {
    let mgr = KeybindingManager::new(Platform::MacOS);
    let binding = KeyBinding { modifiers: vec![Modifier::Super], key: "c".into() };
    assert_eq!(mgr.lookup(&binding), Some(&Action::Copy));
}

#[test]
fn test_custom_binding() {
    let mut mgr = KeybindingManager::new(Platform::Linux);
    let binding = KeyBinding { modifiers: vec![Modifier::Alt], key: "x".into() };
    mgr.bind(binding.clone(), Action::Custom("my_action".into()));
    assert_eq!(mgr.lookup(&binding), Some(&Action::Custom("my_action".into())));
}

#[test]
fn test_unbind() {
    let mut mgr = KeybindingManager::new(Platform::MacOS);
    let binding = KeyBinding { modifiers: vec![Modifier::Super], key: "c".into() };
    mgr.unbind(&binding);
    assert!(mgr.lookup(&binding).is_none());
}

#[test]
fn test_display_macos() {
    let mgr = KeybindingManager::new(Platform::MacOS);
    let binding = KeyBinding { modifiers: vec![Modifier::Super, Modifier::Shift], key: "t".into() };
    assert_eq!(mgr.display(&binding), "⌘+⇧+t");
}

#[test]
fn test_display_linux() {
    let mgr = KeybindingManager::new(Platform::Linux);
    let binding = KeyBinding { modifiers: vec![Modifier::Super], key: "c".into() };
    assert_eq!(mgr.display(&binding), "Ctrl+c");
}

#[test]
fn test_bindings_for_action() {
    let mgr = KeybindingManager::new(Platform::MacOS);
    let bindings = mgr.bindings_for(&Action::Copy);
    assert_eq!(bindings.len(), 1);
}
