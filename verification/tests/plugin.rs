use libterm::plugin::{PluginInfo, PluginManager};
use std::path::PathBuf;

fn test_plugin() -> PluginInfo {
    PluginInfo {
        name: "test-plugin".into(),
        version: "1.0.0".into(),
        description: "A test plugin".into(),
        path: PathBuf::from("/tmp/test.lua"),
        enabled: true,
    }
}

#[test]
fn test_register_and_list() {
    let mut mgr = PluginManager::new();
    mgr.register(test_plugin());
    assert_eq!(mgr.list().len(), 1);
    assert_eq!(mgr.list()[0].name, "test-plugin");
}

#[test]
fn test_subscribe_and_notify() {
    let mut mgr = PluginManager::new();
    let idx = mgr.register(test_plugin());
    mgr.subscribe(idx, "bell");
    let subs = mgr.subscribers("bell");
    assert_eq!(subs.len(), 1);
    assert_eq!(subs[0].name, "test-plugin");
}

#[test]
fn test_disabled_plugin_not_notified() {
    let mut mgr = PluginManager::new();
    let idx = mgr.register(test_plugin());
    mgr.subscribe(idx, "bell");
    mgr.set_enabled(idx, false);
    assert!(mgr.subscribers("bell").is_empty());
}

#[test]
fn test_no_subscribers() {
    let mgr = PluginManager::new();
    assert!(mgr.subscribers("nonexistent").is_empty());
}
