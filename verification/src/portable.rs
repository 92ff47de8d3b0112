//! The portable bundle: configuration, theme, key bindings and shell scripts
//! as one value, to carry a setup from one machine to another.
use vstd::prelude::*;

verus! {

#[derive(Debug, Clone)]
pub struct KeybindingEntry {
    pub modifiers: Vec<String>,
    pub key: String,
    pub action: String,
}

#[derive(Debug, Clone)]
pub struct ShellScripts {
    pub bash: Option<String>,
    pub zsh: Option<String>,
    pub fish: Option<String>,
}

impl Default for ShellScripts {
    fn default() -> (s: ShellScripts)
        ensures
            s.bash is None,
            s.zsh is None,
            s.fish is None,
    {
        ShellScripts { bash: None, zsh: None, fish: None }
    }
}

#[derive(Debug, Clone)]
pub struct ConfigBundle {
    pub version: u32,
    pub config_toml: String,
    pub theme_toml: Option<String>,
    pub keybindings: Vec<KeybindingEntry>,
    pub shell_scripts: ShellScripts,
}

impl ConfigBundle {
    /// A bundle of version 1 that holds the configuration and nothing else.
    pub fn new(config_toml: &str) -> (b: ConfigBundle)
        ensures
            b.version == 1,
            b.config_toml@ == config_toml@,
            b.theme_toml is None,
            b.keybindings@.len() == 0,
            b.shell_scripts.bash is None,
            b.shell_scripts.zsh is None,
            b.shell_scripts.fish is None,
    {
        ConfigBundle {
            version: 1,
            config_toml: config_toml.to_owned(),
            theme_toml: None,
            keybindings: Vec::new(),
            shell_scripts: ShellScripts::default(),
        }
    }
}

} // verus!
