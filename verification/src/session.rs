//! What is kept of a terminal session from one run to the next.
use vstd::prelude::*;

verus! {

#[derive(Debug, Clone)]
pub struct SessionState {
    pub working_dir: String,
    pub shell: String,
    pub cols: usize,
    pub rows: usize,
    pub title: String,
    pub scrollback_lines: Vec<String>,
}

impl SessionState {
    /// A session with no title and no scrollback.
    pub fn new(working_dir: &str, shell: &str, cols: usize, rows: usize) -> (s: SessionState)
        ensures
            s.working_dir@ == working_dir@,
            s.shell@ == shell@,
            s.cols == cols,
            s.rows == rows,
            s.title@.len() == 0,
            s.scrollback_lines@.len() == 0,
    {
        SessionState {
            working_dir: working_dir.to_owned(),
            shell: shell.to_owned(),
            cols,
            rows,
            title: String::new(),
            scrollback_lines: Vec::new(),
        }
    }
}

} // verus!
