use libterm::shell_integration::ShellIntegration;

#[test]
fn test_prompt_command_cycle() {
    let mut si = ShellIntegration::new();
    si.handle_osc133("A", 0);  // prompt
    si.handle_osc133("B", 0);  // enter
    si.set_command_text("ls -la");
    si.handle_osc133("C", 1);  // output
    si.handle_osc133("D;0", 5); // done, exit 0

    assert_eq!(si.history().len(), 1);
    let cmd = &si.history()[0];
    assert_eq!(cmd.command_text, "ls -la");
    assert_eq!(cmd.exit_code, Some(0));
    assert!(cmd.duration.is_some());
}

#[test]
fn test_multiple_commands() {
    let mut si = ShellIntegration::new();
    for i in 0..3 {
        si.handle_osc133("A", i * 10);
        si.handle_osc133("B", i * 10);
        si.handle_osc133("C", i * 10 + 1);
        si.handle_osc133(&format!("D;{}", i), i * 10 + 5);
    }
    assert_eq!(si.history().len(), 3);
    assert_eq!(si.last_exit_code(), Some(2));
}

#[test]
fn shell_integration_test_osc7_working_dir() {
    let mut si = ShellIntegration::new();
    si.handle_osc7("file://hostname/home/user/projects");
    assert_eq!(si.working_dir, "/home/user/projects");
}

#[test]
fn test_prompt_navigation() {
    let mut si = ShellIntegration::new();
    for i in 0..3 {
        si.handle_osc133("A", i * 10);
        si.handle_osc133("B", i * 10);
        si.handle_osc133("C", i * 10 + 1);
        si.handle_osc133("D;0", i * 10 + 5);
    }
    assert_eq!(si.prev_prompt(25), Some(20));
    assert_eq!(si.prev_prompt(15), Some(10));
    assert_eq!(si.next_prompt(5), Some(10));
}

#[test]
fn test_recent_commands() {
    let mut si = ShellIntegration::new();
    for i in 0..10 {
        si.handle_osc133("A", i);
        si.handle_osc133("B", i);
        si.handle_osc133("C", i);
        si.handle_osc133("D;0", i);
    }
    assert_eq!(si.recent(3).len(), 3);
}

#[test]
fn test_failed_command() {
    let mut si = ShellIntegration::new();
    si.handle_osc133("A", 0);
    si.handle_osc133("B", 0);
    si.handle_osc133("C", 1);
    si.handle_osc133("D;127", 2); // command not found
    assert_eq!(si.last_exit_code(), Some(127));
}

#[test]
fn test_not_active_initially() {
    let si = ShellIntegration::new();
    assert!(!si.is_active());
}

#[test]
fn test_bash_init_not_empty() {
    assert!(ShellIntegration::bash_init().contains("133"));
}

#[test]
fn test_zsh_init_not_empty() {
    assert!(ShellIntegration::zsh_init().contains("133"));
}
