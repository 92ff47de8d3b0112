pub mod clipboard;
pub mod clock;
pub mod dirty;
pub mod image;
pub mod input;
pub mod keybinding;
pub mod pane;
pub mod pattern;
pub mod plugin;
pub mod portable;
pub mod renderer;
pub mod search;
pub mod security;
pub mod session;
pub mod shell_integration;
pub mod shell_scripts;
pub mod term_core;
pub mod text;
pub mod theme;
pub mod url_detect;
