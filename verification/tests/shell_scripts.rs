use libterm::shell_scripts::{BASH_INTEGRATION, ZSH_INTEGRATION};

#[test]
fn test_zsh_integration_has_osc133() {
    assert!(ZSH_INTEGRATION.contains("133;A"));
    assert!(ZSH_INTEGRATION.contains("133;B"));
    assert!(ZSH_INTEGRATION.contains("133;C"));
    assert!(ZSH_INTEGRATION.contains("133;D"));
}

#[test]
fn test_bash_integration_has_osc133() {
    assert!(BASH_INTEGRATION.contains("133;A"));
    assert!(BASH_INTEGRATION.contains("133;D"));
}
