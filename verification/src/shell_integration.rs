//! Shell integration: command boundaries from OSC 133 markers, the working
//! directory from OSC 7, and navigation between prompts.
//!
//! The markers: `A` prompt start, `B` command start, `C` output start,
//! `D;exit_code` command finished.
use crate::clock::{clock_elapsed, clock_now};
use crate::text::{find_char, first_index, parse_i32, parse_i32_spec, skip_chars, strip_prefix};
use vstd::prelude::*;

verus! {

/// One completed command.
#[derive(Debug, Clone)]
pub struct CommandRegion {
    pub prompt_row: usize,
    pub command_row: usize,
    pub output_start_row: usize,
    pub output_end_row: Option<usize>,
    pub command_text: String,
    pub exit_code: Option<i32>,
    pub duration: Option<core::time::Duration>,
    pub working_dir: String,
}

/// The mathematical value of a [`CommandRegion`]. Of the duration it keeps
/// only whether one was measured.
pub struct CommandRecord {
    pub prompt_row: usize,
    pub command_row: usize,
    pub output_start_row: usize,
    pub output_end_row: Option<usize>,
    pub command_text: Seq<char>,
    pub exit_code: Option<i32>,
    pub timed: bool,
    pub working_dir: Seq<char>,
}

impl View for CommandRegion {
    type V = CommandRecord;

    open spec fn view(&self) -> CommandRecord {
        CommandRecord {
            prompt_row: self.prompt_row,
            command_row: self.command_row,
            output_start_row: self.output_start_row,
            output_end_row: self.output_end_row,
            command_text: self.command_text@,
            exit_code: self.exit_code,
            timed: self.duration is Some,
            working_dir: self.working_dir@,
        }
    }
}

/// The values of a sequence of regions.
pub open spec fn records_of(regions: Seq<CommandRegion>) -> Seq<CommandRecord> {
    Seq::new(regions.len(), |i: int| regions[i]@)
}

#[derive(Debug, Clone, Copy, PartialEq, Eq, Structural)]
pub enum ShellState {
    Idle,
    Prompt,
    Command,
    Output,
}

/// The mathematical value of a [`ShellIntegration`]. Of the running
/// command's start time it keeps only whether there is one.
pub struct ShellModel {
    pub state: ShellState,
    pub commands: Seq<CommandRecord>,
    pub current_prompt_row: usize,
    pub current_command_row: usize,
    pub current_output_row: usize,
    pub current_command: Seq<char>,
    pub timing: bool,
    pub working_dir: Seq<char>,
    pub max_history: int,
}

/// The exit code that a `D` marker carries: the number after `D;`, if one
/// stands there.
pub open spec fn exit_code_of(param: Seq<char>) -> Option<i32> {
    if seq!['D', ';'].is_prefix_of(param) {
        parse_i32_spec(param.skip(2))
    } else {
        None
    }
}

/// The path of a `file://host/path` URI: what follows the host, from its
/// first `/` on.
pub open spec fn uri_path(data: Seq<char>) -> Option<Seq<char>> {
    if seq!['f', 'i', 'l', 'e', ':', '/', '/'].is_prefix_of(data) {
        let rest = data.skip(7);
        match first_index(rest, '/') {
            Some(i) => Some(rest.skip(i)),
            None => None,
        }
    } else {
        None
    }
}

impl ShellModel {
    pub open spec fn initial() -> ShellModel {
        ShellModel {
            state: ShellState::Idle,
            commands: Seq::empty(),
            current_prompt_row: 0,
            current_command_row: 0,
            current_output_row: 0,
            current_command: Seq::empty(),
            timing: false,
            working_dir: Seq::empty(),
            max_history: 1000,
        }
    }

    /// The history is within its bound.
    pub open spec fn wf(self) -> bool {
        self.commands.len() <= self.max_history
    }

    /// The record that a `D` marker at `end_row` closes.
    pub open spec fn closing(self, exit_code: Option<i32>, end_row: usize) -> CommandRecord {
        CommandRecord {
            prompt_row: self.current_prompt_row,
            command_row: self.current_command_row,
            output_start_row: self.current_output_row,
            output_end_row: Some(end_row),
            command_text: self.current_command,
            exit_code,
            timed: self.timing,
            working_dir: self.working_dir,
        }
    }

    /// The tracker after a `D` marker: the record is appended, the oldest one
    /// leaves when the bound is passed, and the tracker is idle again.
    pub open spec fn finish(self, exit_code: Option<i32>, end_row: usize) -> ShellModel {
        let pushed = self.commands.push(self.closing(exit_code, end_row));
        ShellModel {
            state: ShellState::Idle,
            commands: if pushed.len() > self.max_history {
                pushed.remove(0)
            } else {
                pushed
            },
            current_command: Seq::empty(),
            timing: false,
            ..self
        }
    }

    /// The tracker after the OSC 133 marker `param`, seen with the cursor on
    /// `cursor_row`. Only the marker's first character selects.
    pub open spec fn osc133(self, param: Seq<char>, cursor_row: usize) -> ShellModel {
        if param.len() == 0 {
            self
        } else if param[0] == 'A' {
            ShellModel { state: ShellState::Prompt, current_prompt_row: cursor_row, ..self }
        } else if param[0] == 'B' {
            ShellModel {
                state: ShellState::Command,
                current_command_row: cursor_row,
                timing: true,
                ..self
            }
        } else if param[0] == 'C' {
            ShellModel { state: ShellState::Output, current_output_row: cursor_row, ..self }
        } else if param[0] == 'D' {
            self.finish(exit_code_of(param), cursor_row)
        } else {
            self
        }
    }

    /// The tracker after an OSC 7 payload: the working directory is the
    /// URI's path, where the payload is a `file://` URI with one.
    pub open spec fn osc7(self, data: Seq<char>) -> ShellModel {
        match uri_path(data) {
            Some(path) => ShellModel { working_dir: path, ..self },
            None => self,
        }
    }

    pub open spec fn is_active(self) -> bool {
        self.state != ShellState::Idle || self.commands.len() > 0
    }

    /// Whether `row` is the prompt row nearest before `current_row`.
    pub open spec fn is_prev_prompt(self, current_row: usize, row: usize) -> bool {
        &&& row < current_row
        &&& exists|i: int| 0 <= i < self.commands.len() && self.commands[i].prompt_row == row
        &&& forall|i: int|
            0 <= i < self.commands.len() && (#[trigger] self.commands[i]).prompt_row < current_row
                ==> self.commands[i].prompt_row <= row
    }

    /// Whether `row` is the prompt row nearest after `current_row`.
    pub open spec fn is_next_prompt(self, current_row: usize, row: usize) -> bool {
        &&& row > current_row
        &&& exists|i: int| 0 <= i < self.commands.len() && self.commands[i].prompt_row == row
        &&& forall|i: int|
            0 <= i < self.commands.len() && (#[trigger] self.commands[i]).prompt_row > current_row
                ==> self.commands[i].prompt_row >= row
    }
}

/// Tracks prompts, commands and their output from the markers that the shell
/// emits.
pub struct ShellIntegration {
    pub state: ShellState,
    pub commands: Vec<CommandRegion>,
    pub current_prompt_row: usize,
    pub current_command_row: usize,
    pub current_output_row: usize,
    pub current_command: String,
    pub command_start: Option<std::time::Instant>,
    pub working_dir: String,
    pub max_history: usize,
}

impl View for ShellIntegration {
    type V = ShellModel;

    open spec fn view(&self) -> ShellModel {
        ShellModel {
            state: self.state,
            commands: records_of(self.commands@),
            current_prompt_row: self.current_prompt_row,
            current_command_row: self.current_command_row,
            current_output_row: self.current_output_row,
            current_command: self.current_command@,
            timing: self.command_start is Some,
            working_dir: self.working_dir@,
            max_history: self.max_history as int,
        }
    }
}

impl ShellIntegration {
    pub open spec fn wf(&self) -> bool {
        self@.wf()
    }

    pub fn new() -> (s: ShellIntegration)
        ensures
            s.wf(),
            s@ == ShellModel::initial(),
    {
        let s = ShellIntegration {
            state: ShellState::Idle,
            commands: Vec::new(),
            current_prompt_row: 0,
            current_command_row: 0,
            current_output_row: 0,
            current_command: String::new(),
            command_start: None,
            working_dir: String::new(),
            max_history: 1000,
        };
        assert(s@.commands =~= Seq::<CommandRecord>::empty());
        s
    }

    /// Handle OSC 133 sequences.
    pub fn handle_osc133(&mut self, param: &str, cursor_row: usize)
        requires
            old(self).wf(),
        ensures
            final(self).wf(),
            final(self)@ == old(self)@.osc133(param@, cursor_row),
    {
        if param.is_empty() {
            return ;
        }
        let first = param.get_char(0);
        if first == 'A' {
            self.state = ShellState::Prompt;
            self.current_prompt_row = cursor_row;
        } else if first == 'B' {
            self.state = ShellState::Command;
            self.current_command_row = cursor_row;
            self.command_start = Some(clock_now());
        } else if first == 'C' {
            self.state = ShellState::Output;
            self.current_output_row = cursor_row;
        } else if first == 'D' {
            proof {
                reveal_strlit("D;");
                assert("D;"@ =~= seq!['D', ';']);
            }
            let exit_code = match strip_prefix(param, "D;") {
                Some(rest) => parse_i32(rest),
                None => None,
            };
            let duration = match &self.command_start {
                Some(start) => Some(clock_elapsed(start)),
                None => None,
            };
            let region = CommandRegion {
                prompt_row: self.current_prompt_row,
                command_row: self.current_command_row,
                output_start_row: self.current_output_row,
                output_end_row: Some(cursor_row),
                command_text: self.current_command.clone(),
                exit_code,
                duration,
                working_dir: self.working_dir.clone(),
            };
            assert(region@ == old(self)@.closing(exit_code_of(param@), cursor_row));
            self.commands.push(region);
            if self.commands.len() > self.max_history {
                let _ = self.commands.remove(0);
            }
            self.state = ShellState::Idle;
            self.current_command = String::new();
            self.command_start = None;
            assert(self@.commands =~= old(self)@.finish(
                exit_code_of(param@),
                cursor_row,
            ).commands);
        }
    }

    /// Handle OSC 7, the working directory update, of the form
    /// `file://hostname/path`.
    pub fn handle_osc7(&mut self, data: &str)
        ensures
            final(self)@ == old(self)@.osc7(data@),
    {
        proof {
            reveal_strlit("file://");
            assert("file://"@ =~= seq!['f', 'i', 'l', 'e', ':', '/', '/']);
        }
        match strip_prefix(data, "file://") {
            Some(path) => {
                match find_char(path, '/') {
                    Some(idx) => {
                        self.working_dir = skip_chars(path, idx).to_owned();
                    },
                    None => {},
                }
            },
            None => {},
        }
    }

    /// Set the current command text (captured from input).
    pub fn set_command_text(&mut self, text: &str)
        ensures
            final(self)@ == (ShellModel { current_command: text@, ..old(self)@ }),
    {
        self.current_command = text.to_owned();
    }

    /// Get all completed commands.
    pub fn history(&self) -> (h: &[CommandRegion])
        ensures
            records_of(h@) == self@.commands,
    {
        self.commands.as_slice()
    }

    /// Get the last N commands.
    pub fn recent(&self, n: usize) -> (h: &[CommandRegion])
        ensures
            records_of(h@) == (if n < self@.commands.len() {
                self@.commands.skip(self@.commands.len() - n)
            } else {
                self@.commands
            }),
    {
        let len = self.commands.len();
        let start = if n < len {
            len - n
        } else {
            0
        };
        let h = vstd::slice::slice_subrange(self.commands.as_slice(), start, len);
        assert(records_of(h@) =~= self@.commands.skip(start as int));
        assert(self@.commands.skip(0) =~= self@.commands);
        h
    }

    /// The prompt row nearest before `current_row`, if a recorded prompt
    /// stands before it.
    pub fn prev_prompt(&self, current_row: usize) -> (r: Option<usize>)
        ensures
            r matches Some(row) ==> self@.is_prev_prompt(current_row, row),
            r is None ==> forall|i: int|
                0 <= i < self@.commands.len() ==> (#[trigger] self@.commands[i]).prompt_row
                    >= current_row,
    {
        let mut best: Option<usize> = None;
        let mut i: usize = 0;
        while i < self.commands.len()
            invariant
                i <= self.commands.len(),
                best matches Some(row) ==> row < current_row && (exists|k: int|
                    0 <= k < i && self@.commands[k].prompt_row == row) && (forall|k: int|
                    0 <= k < i && (#[trigger] self@.commands[k]).prompt_row < current_row
                        ==> self@.commands[k].prompt_row <= row),
                best is None ==> forall|k: int|
                    0 <= k < i ==> (#[trigger] self@.commands[k]).prompt_row >= current_row,
            decreases self.commands.len() - i,
        {
            let row = self.commands[i].prompt_row;
            assert(self@.commands[i as int].prompt_row == row);
            if row < current_row {
                match best {
                    Some(b) => {
                        if row > b {
                            best = Some(row);
                        }
                    },
                    None => {
                        best = Some(row);
                    },
                }
            }
            i += 1;
        }
        best
    }

    /// The prompt row nearest after `current_row`, if a recorded prompt
    /// stands after it.
    pub fn next_prompt(&self, current_row: usize) -> (r: Option<usize>)
        ensures
            r matches Some(row) ==> self@.is_next_prompt(current_row, row),
            r is None ==> forall|i: int|
                0 <= i < self@.commands.len() ==> (#[trigger] self@.commands[i]).prompt_row
                    <= current_row,
    {
        let mut best: Option<usize> = None;
        let mut i: usize = 0;
        while i < self.commands.len()
            invariant
                i <= self.commands.len(),
                best matches Some(row) ==> row > current_row && (exists|k: int|
                    0 <= k < i && self@.commands[k].prompt_row == row) && (forall|k: int|
                    0 <= k < i && (#[trigger] self@.commands[k]).prompt_row > current_row
                        ==> self@.commands[k].prompt_row >= row),
                best is None ==> forall|k: int|
                    0 <= k < i ==> (#[trigger] self@.commands[k]).prompt_row <= current_row,
            decreases self.commands.len() - i,
        {
            let row = self.commands[i].prompt_row;
            assert(self@.commands[i as int].prompt_row == row);
            if row > current_row {
                match best {
                    Some(b) => {
                        if row < b {
                            best = Some(row);
                        }
                    },
                    None => {
                        best = Some(row);
                    },
                }
            }
            i += 1;
        }
        best
    }

    /// Get the last command's exit code.
    pub fn last_exit_code(&self) -> (r: Option<i32>)
        ensures
            r == (if self@.commands.len() > 0 {
                self@.commands.last().exit_code
            } else {
                None
            }),
    {
        let len = self.commands.len();
        if len == 0 {
            None
        } else {
            assert(self@.commands.last() == self.commands@[len - 1]@);
            self.commands[len - 1].exit_code
        }
    }

    /// Check if shell integration is active (received at least one marker).
    pub fn is_active(&self) -> (b: bool)
        ensures
            b == self@.is_active(),
    {
        !matches!(self.state, ShellState::Idle) || self.commands.len() > 0
    }

    /// The script that makes bash emit the markers.
    pub fn bash_init() -> (script: &'static str)
        ensures
            script@ == bash_script(),
    {
        "\n__term_prompt_start() { printf '\\e]133;A\\a'; }\n__term_command_start() { printf '\\e]133;B\\a'; }\n__term_output_start() { printf '\\e]133;C\\a'; }\n__term_command_end() { printf '\\e]133;D;%s\\a' \"$?\"; }\n__term_osc7() { printf '\\e]7;file://%s%s\\a' \"$(hostname)\" \"$PWD\"; }\nPROMPT_COMMAND='__term_command_end; __term_prompt_start; __term_osc7'\ntrap '__term_command_start; __term_output_start' DEBUG\n"
    }

    /// The script that makes zsh emit the markers.
    pub fn zsh_init() -> (script: &'static str)
        ensures
            script@ == zsh_script(),
    {
        "\n__term_osc7() { printf '\\e]7;file://%s%s\\a' \"$(hostname)\" \"$PWD\" }\n__term_prompt_start() { printf '\\e]133;A\\a' }\n__term_command_end() { printf '\\e]133;D;%s\\a' \"$?\" }\nprecmd() { __term_command_end; __term_prompt_start; __term_osc7 }\npreexec() { printf '\\e]133;B\\a'; printf '\\e]133;C\\a' }\n"
    }
}

/// The text of the bash script.
pub open spec fn bash_script() -> Seq<char> {
    "\n__term_prompt_start() { printf '\\e]133;A\\a'; }\n__term_command_start() { printf '\\e]133;B\\a'; }\n__term_output_start() { printf '\\e]133;C\\a'; }\n__term_command_end() { printf '\\e]133;D;%s\\a' \"$?\"; }\n__term_osc7() { printf '\\e]7;file://%s%s\\a' \"$(hostname)\" \"$PWD\"; }\nPROMPT_COMMAND='__term_command_end; __term_prompt_start; __term_osc7'\ntrap '__term_command_start; __term_output_start' DEBUG\n"@
}

/// The text of the zsh script.
pub open spec fn zsh_script() -> Seq<char> {
    "\n__term_osc7() { printf '\\e]7;file://%s%s\\a' \"$(hostname)\" \"$PWD\" }\n__term_prompt_start() { printf '\\e]133;A\\a' }\n__term_command_end() { printf '\\e]133;D;%s\\a' \"$?\" }\nprecmd() { __term_command_end; __term_prompt_start; __term_osc7 }\npreexec() { printf '\\e]133;B\\a'; printf '\\e]133;C\\a' }\n"@
}

} // verus!
