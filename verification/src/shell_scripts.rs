//! The scripts that make a shell emit the shell-integration markers: OSC 133
//! for the boundaries of commands and OSC 7 for the working directory.
use vstd::prelude::*;

verus! {

/// The integration script for zsh.
pub const ZSH_INTEGRATION: &'static str =
    "\n# Terminal shell integration (zsh)\n__term_precmd() {\n    local exit_code=$?\n    printf '\\e]133;D;%d\\a' \"$exit_code\"\n    printf '\\e]133;A\\a'\n    printf '\\e]7;file://%s%s\\a' \"$(hostname)\" \"$PWD\"\n}\n__term_preexec() {\n    printf '\\e]133;B\\a'\n    printf '\\e]133;C\\a'\n}\n[[ -z \"$__term_integrated\" ]] && {\n    export __term_integrated=1\n    precmd_functions+=(__term_precmd)\n    preexec_functions+=(__term_preexec)\n    # Emit initial prompt marker\n    printf '\\e]133;A\\a'\n    printf '\\e]7;file://%s%s\\a' \"$(hostname)\" \"$PWD\"\n}\n";

/// The integration script for bash.
pub const BASH_INTEGRATION: &'static str =
    "\n# Terminal shell integration (bash)\n__term_prompt_cmd() {\n    local exit_code=$?\n    printf '\\e]133;D;%d\\a' \"$exit_code\"\n    printf '\\e]133;A\\a'\n    printf '\\e]7;file://%s%s\\a' \"$(hostname)\" \"$PWD\"\n}\n__term_preexec() {\n    printf '\\e]133;B\\a'\n    printf '\\e]133;C\\a'\n}\nif [[ -z \"$__term_integrated\" ]]; then\n    export __term_integrated=1\n    PROMPT_COMMAND='__term_prompt_cmd'\n    trap '__term_preexec' DEBUG\n    printf '\\e]133;A\\a'\n    printf '\\e]7;file://%s%s\\a' \"$(hostname)\" \"$PWD\"\nfi\n";

} // verus!
