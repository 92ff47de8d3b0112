//! The terminal handler: it carries out the parser's actions on the grid and
//! keeps the modes, the pen, the tab stops and the replies.
use super::grid::{Cell, CellAttr, Color, Grid, GridState};
use super::parser::{Action, VtParser};
use super::state::{
    ansi_color, cursor_report, decimal, default_tabs, device_attributes, extended_color,
    next_tab, next_tab_n, palette_color, param_or, prev_tab, prev_tab_n, status_report,
    MouseEncoding, MouseMode, Pen, TermState,
};
use super::utf8::{char_width, Utf8Decoder};
use crate::clipboard::decode_osc52_set;
use crate::shell_integration::ShellIntegration;
use crate::text::{starts_with, utf8_lossy};
use vstd::prelude::*;

verus! {

/// A terminal: the grid that is shown and everything the handler keeps
/// beside it.
pub struct Terminal {
    pub grid: Grid,
    pub utf8: Utf8Decoder,
    pub attr: CellAttr,
    pub fg: Color,
    pub bg: Color,
    pub saved_cursor: (usize, usize),
    pub saved_attr: CellAttr,
    pub saved_fg: Color,
    pub saved_bg: Color,
    /// The main grid, while the alternate screen is shown.
    pub alt_grid: Option<Grid>,
    /// For each column, whether a tab stop stands there.
    pub tab_stops: Vec<bool>,
    /// Origin mode (DECOM)
    pub origin_mode: bool,
    /// Auto-wrap mode (DECAWM)
    pub auto_wrap: bool,
    /// The scroll region's first and last row.
    pub scroll_top: usize,
    pub scroll_bottom: usize,
    /// Title set via OSC
    pub title: String,
    /// The replies that wait to be sent to the program.
    pub write_back: Vec<u8>,
    /// Cursor key mode: true = application, false = normal
    pub cursor_keys_app: bool,
    pub cursor_visible: bool,
    pub bracketed_paste: bool,
    pub mouse_mode: MouseMode,
    pub mouse_encoding: MouseEncoding,
    /// Keypad application mode
    pub keypad_app: bool,
    /// The latest OSC 7 payload.
    pub osc7_cwd: Option<String>,
    /// The latest OSC 133 marker.
    pub osc133_data: Option<String>,
    /// The text of the latest OSC 52 clipboard set.
    pub osc52_data: Option<String>,
    pub shell: ShellIntegration,
}

/// The characters of an optional string.
pub open spec fn text_of(s: Option<String>) -> Option<Seq<char>> {
    match s {
        Some(s) => Some(s@),
        None => None,
    }
}

/// The value of an optional grid.
pub open spec fn grid_of(g: Option<Grid>) -> Option<GridState> {
    match g {
        Some(g) => Some(g@),
        None => None,
    }
}

impl View for Terminal {
    type V = TermState;

    open spec fn view(&self) -> TermState {
        TermState {
            grid: self.grid@,
            utf8: self.utf8@,
            pen: Pen { attr: self.attr, fg: self.fg, bg: self.bg },
            saved_cursor: (self.saved_cursor.0 as int, self.saved_cursor.1 as int),
            saved_pen: Pen { attr: self.saved_attr, fg: self.saved_fg, bg: self.saved_bg },
            alt_grid: grid_of(self.alt_grid),
            tab_stops: self.tab_stops@,
            origin_mode: self.origin_mode,
            auto_wrap: self.auto_wrap,
            scroll_top: self.scroll_top as int,
            scroll_bottom: self.scroll_bottom as int,
            title: self.title@,
            write_back: self.write_back@,
            cursor_keys_app: self.cursor_keys_app,
            cursor_visible: self.cursor_visible,
            bracketed_paste: self.bracketed_paste,
            mouse_mode: self.mouse_mode,
            mouse_encoding: self.mouse_encoding,
            keypad_app: self.keypad_app,
            osc7_cwd: text_of(self.osc7_cwd),
            osc133_data: text_of(self.osc133_data),
            osc52_data: text_of(self.osc52_data),
            shell: self.shell@,
        }
    }
}

fn make_tab_stops(cols: usize) -> (stops: Vec<bool>)
    ensures
        stops@ == default_tabs(cols as int),
{
    let mut stops: Vec<bool> = Vec::with_capacity(cols);
    let mut i: usize = 0;
    while i < cols
        invariant
            i <= cols,
            stops@.len() == i,
            forall|j: int| 0 <= j < i ==> stops@[j] == (j % 8 == 0),
        decreases cols - i,
    {
        stops.push(i % 8 == 0);
        i += 1;
    }
    assert(stops@ =~= default_tabs(cols as int));
    stops
}

impl Terminal {
    /// The terminal's invariant: see [`TermState::wf`].
    pub open spec fn wf(&self) -> bool {
        &&& self.grid.wf()
        &&& self.utf8.wf()
        &&& (self.alt_grid matches Some(g) ==> g.wf() && g.cols == self.grid.cols && g.rows
            == self.grid.rows)
        &&& self.tab_stops@.len() == self.grid.cols
        &&& self.scroll_top <= self.scroll_bottom < self.grid.rows
        &&& self.shell.wf()
    }

    /// A terminal is well formed exactly when its value is, its decoder's
    /// buffer apart.
    pub proof fn lemma_wf_view(&self)
        ensures
            self.wf() ==> self@.wf(),
    {
        self.grid.lemma_wf_view();
        if let Some(g) = self.alt_grid {
            g.lemma_wf_view();
        }
    }

    /// A terminal of `cols` by `rows` cells: blank, the cursor at the origin,
    /// auto-wrap on, the cursor visible, a tab stop at every eighth column.
    pub fn new(cols: usize, rows: usize) -> (t: Terminal)
        requires
            cols >= 1,
            rows >= 1,
        ensures
            t.wf(),
            t@ == TermState::fresh(cols as int, rows as int),
    {
        Terminal {
            grid: Grid::new(cols, rows),
            utf8: Utf8Decoder::new(),
            attr: CellAttr::empty(),
            fg: Color::default_fg(),
            bg: Color::default_bg(),
            saved_cursor: (0, 0),
            saved_attr: CellAttr::empty(),
            saved_fg: Color::default_fg(),
            saved_bg: Color::default_bg(),
            alt_grid: None,
            tab_stops: make_tab_stops(cols),
            origin_mode: false,
            auto_wrap: true,
            scroll_top: 0,
            scroll_bottom: rows - 1,
            title: String::new(),
            write_back: Vec::new(),
            cursor_keys_app: false,
            cursor_visible: true,
            bracketed_paste: false,
            mouse_mode: MouseMode::Off,
            mouse_encoding: MouseEncoding::X10,
            keypad_app: false,
            osc7_cwd: None,
            osc133_data: None,
            osc52_data: None,
            shell: ShellIntegration::new(),
        }
    }

    /// Prints a character at the cursor with the current rendition.
    pub fn print(&mut self, ch: char)
        requires
            old(self).wf(),
        ensures
            final(self).wf(),
            final(self)@ == old(self)@.print(ch),
    {
        proof {
            reveal(TermState::print);
        }
        let width = char_width(ch);
        if width == 0 {
            return ;
        }
        self.settle_wrap();
        if width == 2 {
            self.make_room();
            self.put(ch);
            self.put_trailer();
        } else {
            self.put(ch);
        }
        self.hold_margin();
    }

    fn put_trailer(&mut self)
        requires
            old(self).wf(),
        ensures
            final(self).wf(),
            final(self)@ == old(self)@.put_trailer(),
    {
        proof {
            reveal(TermState::put_trailer);
        }
        if self.grid.cursor_col < self.grid.cols() {
            self.put('\0');
        }
    }

    fn hold_margin(&mut self)
        requires
            old(self).wf(),
        ensures
            final(self).wf(),
            final(self)@ == old(self)@.hold_margin(),
    {
        proof {
            reveal(TermState::hold_margin);
        }
        if !self.auto_wrap && self.grid.cursor_col >= self.grid.cols() {
            self.grid.cursor_col = self.grid.cols() - 1;
        }
    }

    fn settle_wrap(&mut self)
        requires
            old(self).wf(),
        ensures
            final(self).wf(),
            final(self)@ == old(self)@.settle_wrap(),
            final(self).grid.cursor_col < final(self).grid.cols,
    {
        proof {
            reveal(TermState::settle_wrap);
        }
        if self.grid.cursor_col >= self.grid.cols() {
            if self.auto_wrap {
                self.grid.cursor_col = 0;
                self.index();
            } else {
                self.grid.cursor_col = self.grid.cols() - 1;
            }
        }
    }

    fn make_room(&mut self)
        requires
            old(self).wf(),
            old(self).grid.cursor_col < old(self).grid.cols,
        ensures
            final(self).wf(),
            final(self)@ == old(self)@.make_room(),
    {
        proof {
            reveal(TermState::make_room);
        }
        let cols = self.grid.cols();
        if self.grid.cursor_col >= cols - 1 {
            if self.auto_wrap {
                self.put(' ');
                self.grid.cursor_col = 0;
                self.index();
            } else {
                self.grid.cursor_col = if cols >= 2 {
                    cols - 2
                } else {
                    0
                };
            }
        }
    }

    fn put(&mut self, ch: char)
        requires
            old(self).wf(),
        ensures
            final(self).wf(),
            final(self)@ == old(self)@.put(ch),
    {
        proof {
            reveal(TermState::put);
        }
        let attr = self.attr;
        let fg = self.fg;
        let bg = self.bg;
        self.grid.put_char(ch, attr, fg, bg);
    }

    /// Carries out a C0 control.
    pub fn execute(&mut self, byte: u8)
        requires
            old(self).wf(),
        ensures
            final(self).wf(),
            final(self)@ == old(self)@.execute(byte),
    {
        proof {
            reveal(TermState::execute);
        }
        if byte == 0x08 {
            if self.grid.cursor_col > 0 {
                self.grid.cursor_col -= 1;
            }
        } else if byte == 0x09 {
            self.grid.cursor_col = self.next_tab_stop();
        } else if byte == 0x0a || byte == 0x0b || byte == 0x0c {
            self.index();
        } else if byte == 0x0d {
            self.grid.cursor_col = 0;
        }
    }

    fn next_tab_stop(&self) -> (col: usize)
        requires
            self.wf(),
        ensures
            col == next_tab(self.tab_stops@, self.grid.cursor_col as int),
            col < self.grid.cols,
    {
        let last = self.tab_stops.len() - 1;
        let mut i: usize = self.grid.cursor_col;
        while i < last
            invariant
                last == self.tab_stops@.len() - 1,
                self.tab_stops@.len() == self.grid.cols,
                next_tab(self.tab_stops@, i as int) == next_tab(
                    self.tab_stops@,
                    self.grid.cursor_col as int,
                ),
            decreases last - i,
        {
            if self.tab_stops[i + 1] {
                return i + 1;
            }
            i += 1;
        }
        last
    }

    fn prev_tab_stop(&self) -> (col: usize)
        requires
            self.wf(),
        ensures
            col == prev_tab(self.tab_stops@, self.grid.cursor_col as int),
            col < self.grid.cols,
    {
        let mut i: usize = self.grid.cursor_col;
        while i > 0
            invariant
                i <= self.tab_stops@.len(),
                self.tab_stops@.len() >= 1,
                self.tab_stops@.len() == self.grid.cols,
                prev_tab(self.tab_stops@, i as int) == prev_tab(
                    self.tab_stops@,
                    self.grid.cursor_col as int,
                ),
            decreases i,
        {
            if self.tab_stops[i - 1] {
                return i - 1;
            }
            i -= 1;
        }
        0
    }

    /// Move cursor down one line, scrolling if at bottom of scroll region.
    pub fn index(&mut self)
        requires
            old(self).wf(),
        ensures
            final(self).wf(),
            final(self)@ == old(self)@.index(),
            final(self).grid.cols == old(self).grid.cols,
            final(self).grid.rows == old(self).grid.rows,
            final(self).grid.cursor_col == old(self).grid.cursor_col,
    {
        proof {
            reveal(TermState::index);
        }
        if self.grid.cursor_row == self.scroll_bottom {
            let top = self.scroll_top;
            let bottom = self.scroll_bottom;
            self.grid.scroll_region_up(top, bottom);
        } else if self.grid.cursor_row < self.grid.rows() - 1 {
            self.grid.cursor_row += 1;
        }
    }

    /// Move cursor up one line, scrolling down if at top of scroll region.
    pub fn reverse_index(&mut self)
        requires
            old(self).wf(),
        ensures
            final(self).wf(),
            final(self)@ == old(self)@.reverse_index(),
            final(self).grid.cols == old(self).grid.cols,
            final(self).grid.rows == old(self).grid.rows,
            final(self).grid.cursor_col == old(self).grid.cursor_col,
    {
        proof {
            reveal(TermState::reverse_index);
        }
        if self.grid.cursor_row == self.scroll_top {
            let top = self.scroll_top;
            let bottom = self.scroll_bottom;
            self.grid.scroll_region_down(top, bottom);
        } else if self.grid.cursor_row > 0 {
            self.grid.cursor_row -= 1;
        }
    }

    fn set_row(&mut self, row: usize)
        requires
            old(self).wf(),
            row < old(self).grid.rows,
        ensures
            final(self).wf(),
            final(self)@ == old(self)@.with_row(row as int),
    {
        self.grid.cursor_row = row;
    }

    fn set_col(&mut self, col: usize)
        requires
            old(self).wf(),
            col <= old(self).grid.cols,
        ensures
            final(self).wf(),
            final(self)@ == old(self)@.with_col(col as int),
    {
        self.grid.cursor_col = col;
    }

    fn cursor_up(&mut self, n: usize)
        requires
            old(self).wf(),
        ensures
            final(self).wf(),
            final(self)@ == old(self)@.cursor_up(n as int),
    {
        proof {
            reveal(TermState::cursor_up);
        }
        let top = if self.origin_mode {
            self.scroll_top
        } else {
            0
        };
        let up = if self.grid.cursor_row > n {
            self.grid.cursor_row - n
        } else {
            0
        };
        self.set_row(if up > top {
            up
        } else {
            top
        });
    }

    fn cursor_down(&mut self, n: usize)
        requires
            old(self).wf(),
        ensures
            final(self).wf(),
            final(self)@ == old(self)@.cursor_down(n as int),
    {
        proof {
            reveal(TermState::cursor_down);
        }
        let bottom = if self.origin_mode {
            self.scroll_bottom
        } else {
            self.grid.rows() - 1
        };
        let row = self.grid.cursor_row;
        self.set_row(if row < bottom && n < bottom - row {
            row + n
        } else {
            bottom
        });
    }

    fn cursor_forward(&mut self, n: usize)
        requires
            old(self).wf(),
        ensures
            final(self).wf(),
            final(self)@ == old(self)@.cursor_forward(n as int),
    {
        proof {
            reveal(TermState::cursor_forward);
        }
        let last = self.grid.cols() - 1;
        let col = self.grid.cursor_col;
        self.set_col(if col < last && n < last - col {
            col + n
        } else {
            last
        });
    }

    fn cursor_back(&mut self, n: usize)
        requires
            old(self).wf(),
        ensures
            final(self).wf(),
            final(self)@ == old(self)@.cursor_back(n as int),
    {
        proof {
            reveal(TermState::cursor_back);
        }
        let col = self.grid.cursor_col;
        self.set_col(if col > n {
            col - n
        } else {
            0
        });
    }

    fn cursor_next_line(&mut self, n: usize)
        requires
            old(self).wf(),
        ensures
            final(self).wf(),
            final(self)@ == old(self)@.cursor_next_line(n as int),
    {
        proof {
            reveal(TermState::cursor_next_line);
        }
        let last = self.grid.rows() - 1;
        let row = self.grid.cursor_row;
        self.grid.cursor_row = if row < last && n < last - row {
            row + n
        } else {
            last
        };
        self.grid.cursor_col = 0;
    }

    fn cursor_prev_line(&mut self, n: usize)
        requires
            old(self).wf(),
        ensures
            final(self).wf(),
            final(self)@ == old(self)@.cursor_prev_line(n as int),
    {
        proof {
            reveal(TermState::cursor_prev_line);
        }
        let row = self.grid.cursor_row;
        self.grid.cursor_row = if row > n {
            row - n
        } else {
            0
        };
        self.grid.cursor_col = 0;
    }

    fn cursor_to_col(&mut self, col: usize)
        requires
            old(self).wf(),
            col >= 1,
        ensures
            final(self).wf(),
            final(self)@ == old(self)@.cursor_to_col(col as int),
    {
        proof {
            reveal(TermState::cursor_to_col);
        }
        let last = self.grid.cols() - 1;
        self.set_col(if col - 1 < last {
            col - 1
        } else {
            last
        });
    }

    fn cursor_to_row(&mut self, row: usize)
        requires
            old(self).wf(),
            row >= 1,
        ensures
            final(self).wf(),
            final(self)@ == old(self)@.cursor_to_row(row as int),
    {
        proof {
            reveal(TermState::cursor_to_row);
        }
        let last = self.grid.rows() - 1;
        self.set_row(if row - 1 < last {
            row - 1
        } else {
            last
        });
    }

    fn cursor_to(&mut self, row: usize, col: usize)
        requires
            old(self).wf(),
            row >= 1,
            col >= 1,
        ensures
            final(self).wf(),
            final(self)@ == old(self)@.cursor_to(row as int, col as int),
    {
        proof {
            reveal(TermState::cursor_to);
            reveal(TermState::cursor_to_col);
        }
        let last = if self.origin_mode {
            self.scroll_bottom
        } else {
            self.grid.rows() - 1
        };
        let offset = if self.origin_mode {
            self.scroll_top
        } else {
            0
        };
        self.cursor_to_col(col);
        self.set_row(if row - 1 < last - offset {
            offset + (row - 1)
        } else {
            last
        });
    }

    fn tab_forward(&mut self, n: usize)
        requires
            old(self).wf(),
        ensures
            final(self).wf(),
            final(self)@ == old(self)@.with_col(
                next_tab_n(old(self).tab_stops@, old(self).grid.cursor_col as int, n as int),
            ),
    {
        let mut i: usize = 0;
        while i < n
            invariant
                i <= n,
                self.wf(),
                self@ == old(self)@.with_col(self.grid.cursor_col as int),
                next_tab_n(self.tab_stops@, self.grid.cursor_col as int, n - i) == next_tab_n(
                    old(self).tab_stops@,
                    old(self).grid.cursor_col as int,
                    n as int,
                ),
            decreases n - i,
        {
            let col = self.next_tab_stop();
            self.grid.cursor_col = col;
            i += 1;
        }
    }

    fn tab_backward(&mut self, n: usize)
        requires
            old(self).wf(),
        ensures
            final(self).wf(),
            final(self)@ == old(self)@.with_col(
                prev_tab_n(old(self).tab_stops@, old(self).grid.cursor_col as int, n as int),
            ),
    {
        let mut i: usize = 0;
        while i < n
            invariant
                i <= n,
                self.wf(),
                self@ == old(self)@.with_col(self.grid.cursor_col as int),
                prev_tab_n(self.tab_stops@, self.grid.cursor_col as int, n - i) == prev_tab_n(
                    old(self).tab_stops@,
                    old(self).grid.cursor_col as int,
                    n as int,
                ),
            decreases n - i,
        {
            let col = self.prev_tab_stop();
            self.grid.cursor_col = col;
            i += 1;
        }
    }

    fn erase_chars(&mut self, n: usize)
        requires
            old(self).wf(),
        ensures
            final(self).wf(),
            final(self)@ == old(self)@.erase_chars(n as int),
    {
        proof {
            reveal(TermState::erase_chars);
        }
        let row = self.grid.cursor_row;
        let col = self.grid.cursor_col;
        let cols = self.grid.cols();
        let to = if n < cols - col {
            col + n
        } else {
            cols
        };
        self.grid.fill_blank(row, col, to);
    }

    fn repeat(&mut self, n: usize)
        requires
            old(self).wf(),
        ensures
            final(self).wf(),
            final(self)@ == old(self)@.repeat(n as int),
    {
        proof {
            reveal(TermState::repeat);
        }
        if self.grid.cursor_col > 0 {
            let ch = self.grid.cell(self.grid.cursor_row, self.grid.cursor_col - 1).ch;
            let mut i: usize = 0;
            while i < n
                invariant
                    i <= n,
                    self.wf(),
                    self@.print_n(ch, n - i) == old(self)@.print_n(ch, n as int),
                decreases n - i,
            {
                self.print(ch);
                i += 1;
            }
        }
    }

    fn scroll_up_n(&mut self, n: usize)
        requires
            old(self).wf(),
        ensures
            final(self).wf(),
            final(self)@ == old(self)@.scroll_up_n(n as int),
    {
        let mut i: usize = 0;
        while i < n
            invariant
                i <= n,
                self.wf(),
                self@.scroll_up_n(n - i) == old(self)@.scroll_up_n(n as int),
            decreases n - i,
        {
            let top = self.scroll_top;
            let bottom = self.scroll_bottom;
            self.grid.scroll_region_up(top, bottom);
            i += 1;
        }
    }

    fn scroll_down_n(&mut self, n: usize)
        requires
            old(self).wf(),
        ensures
            final(self).wf(),
            final(self)@ == old(self)@.scroll_down_n(n as int),
    {
        let mut i: usize = 0;
        while i < n
            invariant
                i <= n,
                self.wf(),
                self@.scroll_down_n(n - i) == old(self)@.scroll_down_n(n as int),
            decreases n - i,
        {
            let top = self.scroll_top;
            let bottom = self.scroll_bottom;
            self.grid.scroll_region_down(top, bottom);
            i += 1;
        }
    }

    fn save_cursor(&mut self)
        requires
            old(self).wf(),
        ensures
            final(self).wf(),
            final(self)@ == old(self)@.save_cursor(),
    {
        proof {
            reveal(TermState::save_cursor);
        }
        self.saved_cursor = (self.grid.cursor_row, self.grid.cursor_col);
        self.saved_attr = self.attr;
        self.saved_fg = self.fg;
        self.saved_bg = self.bg;
    }

    fn restore_cursor(&mut self)
        requires
            old(self).wf(),
        ensures
            final(self).wf(),
            final(self)@ == old(self)@.restore_cursor(),
    {
        proof {
            reveal(TermState::restore_cursor);
        }
        let (r, c) = self.saved_cursor;
        self.grid.cursor_row = if r < self.grid.rows() {
            r
        } else {
            self.grid.rows() - 1
        };
        self.grid.cursor_col = if c < self.grid.cols() {
            c
        } else {
            self.grid.cols() - 1
        };
        self.attr = self.saved_attr;
        self.fg = self.saved_fg;
        self.bg = self.saved_bg;
    }

    fn set_scroll_region(&mut self, top: usize, bottom: usize)
        requires
            old(self).wf(),
            top >= 1,
            bottom >= 1,
        ensures
            final(self).wf(),
            final(self)@ == old(self)@.set_scroll_region(top as int, bottom as int),
    {
        proof {
            reveal(TermState::set_scroll_region);
        }
        let last = self.grid.rows() - 1;
        let t = if top - 1 < last {
            top - 1
        } else {
            last
        };
        let b = if bottom - 1 < last {
            bottom - 1
        } else {
            last
        };
        if t <= b {
            self.scroll_top = t;
            self.scroll_bottom = b;
            self.grid.cursor_row = if self.origin_mode {
                t
            } else {
                0
            };
            self.grid.cursor_col = 0;
        }
    }

    fn clear_tabs(&mut self, what: u16)
        requires
            old(self).wf(),
        ensures
            final(self).wf(),
            final(self)@ == old(self)@.clear_tabs(what as int),
    {
        proof {
            reveal(TermState::clear_tabs);
        }
        if what == 0 {
            let col = self.grid.cursor_col;
            if col < self.tab_stops.len() {
                self.tab_stops[col] = false;
            }
        } else if what == 3 {
            let n = self.tab_stops.len();
            let mut i: usize = 0;
            while i < n
                invariant
                    i <= n,
                    n == self.tab_stops@.len(),
                    n == old(self).tab_stops@.len(),
                    self.wf(),
                    self@ == (TermState { tab_stops: self.tab_stops@, ..old(self)@ }),
                    forall|j: int| 0 <= j < i ==> !self.tab_stops@[j],
                decreases n - i,
            {
                self.tab_stops[i] = false;
                i += 1;
            }
            assert(self.tab_stops@ =~= Seq::new(old(self).tab_stops@.len(), |i: int| false));
        }
    }

    fn set_tab(&mut self)
        requires
            old(self).wf(),
        ensures
            final(self).wf(),
            final(self)@ == (if old(self).grid.cursor_col < old(self).tab_stops@.len() {
                TermState {
                    tab_stops: old(self).tab_stops@.update(old(self).grid.cursor_col as int, true),
                    ..old(self)@
                }
            } else {
                old(self)@
            }),
    {
        let col = self.grid.cursor_col;
        if col < self.tab_stops.len() {
            self.tab_stops[col] = true;
        }
    }

    fn reply(&mut self, bytes: &Vec<u8>)
        requires
            old(self).wf(),
        ensures
            final(self).wf(),
            final(self)@ == old(self)@.reply(bytes@),
    {
        let mut i: usize = 0;
        while i < bytes.len()
            invariant
                i <= bytes.len(),
                self.wf(),
                self@ == old(self)@.reply(bytes@.take(i as int)),
            decreases bytes.len() - i,
        {
            self.write_back.push(bytes[i]);
            assert(self.write_back@ =~= old(self).write_back@ + bytes@.take(i + 1));
            i += 1;
        }
        assert(bytes@.take(bytes.len() as int) =~= bytes@);
    }

    fn enter_alt(&mut self)
        requires
            old(self).wf(),
        ensures
            final(self).wf(),
            final(self)@ == old(self)@.enter_alt(),
    {
        proof {
            reveal(TermState::enter_alt);
        }
        let mut fresh = Grid::new(self.grid.cols(), self.grid.rows());
        core::mem::swap(&mut self.grid, &mut fresh);
        self.alt_grid = Some(fresh);
    }

    fn leave_alt(&mut self)
        requires
            old(self).wf(),
        ensures
            final(self).wf(),
            final(self)@ == old(self)@.leave_alt(),
    {
        proof {
            reveal(TermState::leave_alt);
        }
        match self.alt_grid.take() {
            Some(main) => {
                self.grid = main;
            },
            None => {},
        }
    }

    fn set_origin_mode(&mut self, enable: bool)
        requires
            old(self).wf(),
        ensures
            final(self).wf(),
            final(self)@ == old(self)@.dec_mode(6, enable),
    {
        proof {
            reveal(TermState::dec_mode);
        }
        self.origin_mode = enable;
        if enable {
            self.grid.cursor_row = self.scroll_top;
            self.grid.cursor_col = 0;
        }
    }

    fn set_mouse_mode(&mut self, mode: u16, enable: bool)
        requires
            old(self).wf(),
            mode == 9 || mode == 1000 || mode == 1002 || mode == 1003,
        ensures
            final(self).wf(),
            final(self)@ == old(self)@.dec_mode(mode, enable),
    {
        proof {
            reveal(TermState::dec_mode);
        }
        self.mouse_mode = if !enable {
            MouseMode::Off
        } else if mode == 9 {
            MouseMode::X10
        } else if mode == 1000 {
            MouseMode::Normal
        } else if mode == 1002 {
            MouseMode::Button
        } else {
            MouseMode::Any
        };
    }

    fn set_flag_mode(&mut self, mode: u16, enable: bool)
        requires
            old(self).wf(),
            mode == 1 || mode == 7 || mode == 25 || mode == 1006 || mode == 2004,
        ensures
            final(self).wf(),
            final(self)@ == old(self)@.dec_mode(mode, enable),
    {
        proof {
            reveal(TermState::dec_mode);
        }
        if mode == 1 {
            self.cursor_keys_app = enable;
        } else if mode == 7 {
            self.auto_wrap = enable;
        } else if mode == 25 {
            self.cursor_visible = enable;
        } else if mode == 1006 {
            self.mouse_encoding = if enable {
                MouseEncoding::Sgr
            } else {
                MouseEncoding::X10
            };
        } else {
            self.bracketed_paste = enable;
        }
    }

    fn set_screen_mode(&mut self, mode: u16, enable: bool)
        requires
            old(self).wf(),
            mode == 47 || mode == 1047 || mode == 1048 || mode == 1049,
        ensures
            final(self).wf(),
            final(self)@ == old(self)@.dec_mode(mode, enable),
    {
        proof {
            reveal(TermState::dec_mode);
        }
        if mode == 47 || mode == 1047 {
            if enable {
                self.enter_alt();
            } else {
                self.leave_alt();
            }
        } else if mode == 1048 {
            if enable {
                self.save_cursor();
            } else {
                self.restore_cursor();
            }
        } else if enable {
            self.save_cursor();
            self.enter_alt();
        } else if self.alt_grid.is_some() {
            self.leave_alt();
            self.restore_cursor();
        }
    }

    /// Sets or resets one DEC private mode.
    fn dec_mode(&mut self, mode: u16, enable: bool)
        requires
            old(self).wf(),
        ensures
            final(self).wf(),
            final(self)@ == old(self)@.dec_mode(mode, enable),
    {
        if mode == 1 || mode == 7 || mode == 25 || mode == 1006 || mode == 2004 {
            self.set_flag_mode(mode, enable);
        } else if mode == 6 {
            self.set_origin_mode(enable);
        } else if mode == 9 || mode == 1000 || mode == 1002 || mode == 1003 {
            self.set_mouse_mode(mode, enable);
        } else if mode == 47 || mode == 1047 || mode == 1048 || mode == 1049 {
            self.set_screen_mode(mode, enable);
        } else {
            proof {
                reveal(TermState::dec_mode);
            }
        }
    }

    /// Sets or resets the DEC private modes of a `CSI ? … h` or `CSI ? … l`.
    pub fn set_dec_mode(&mut self, params: &[u16], enable: bool)
        requires
            old(self).wf(),
        ensures
            final(self).wf(),
            final(self)@ == old(self)@.set_dec_mode(params@, enable),
    {
        let mut i: usize = 0;
        while i < params.len()
            invariant
                i <= params.len(),
                self.wf(),
                self@.dec_modes_from(params@, i as int, enable) == old(self)@.dec_modes_from(
                    params@,
                    0,
                    enable,
                ),
            decreases params.len() - i,
        {
            self.dec_mode(params[i], enable);
            i += 1;
        }
    }

    /// The ANSI modes (`CSI … h`, `CSI … l`): none is acted on.
    pub fn set_ansi_mode(&mut self, params: &[u16], enable: bool)
        ensures
            *final(self) == *old(self),
    {
    }

    /// Select Graphic Rendition: the pen after the codes of `params`.
    pub fn handle_sgr(&mut self, params: &[u16])
        requires
            old(self).wf(),
        ensures
            final(self).wf(),
            final(self)@ == (TermState { pen: old(self)@.pen.sgr(params@), ..old(self)@ }),
    {
        if params.len() == 0 {
            self.sgr_reset();
            return ;
        }
        let mut pen = Pen { attr: self.attr, fg: self.fg, bg: self.bg };
        let mut i: usize = 0;
        while i < params.len()
            invariant
                i <= params.len(),
                pen.sgr_from(params@, i as int) == old(self)@.pen.sgr_from(params@, 0),
            decreases params.len() - i,
        {
            let (next, used) = sgr_one(pen, params, i);
            pen = next;
            i += used;
        }
        self.attr = pen.attr;
        self.fg = pen.fg;
        self.bg = pen.bg;
    }

    /// The pen goes back to no attribute and the default colors.
    pub fn sgr_reset(&mut self)
        requires
            old(self).wf(),
        ensures
            final(self).wf(),
            final(self)@ == (TermState { pen: Pen::plain(), ..old(self)@ }),
    {
        self.attr = CellAttr::empty();
        self.fg = Color::default_fg();
        self.bg = Color::default_bg();
    }

    fn alignment_test(&mut self)
        requires
            old(self).wf(),
        ensures
            final(self).wf(),
            final(self)@ == old(self)@.alignment_test(),
    {
        proof {
            reveal(TermState::alignment_test);
        }
        self.grid.fill(
            Cell {
                ch: 'E',
                attr: CellAttr::empty(),
                fg: Color::default_fg(),
                bg: Color::default_bg(),
            },
        );
    }

    fn set_keypad(&mut self, enable: bool)
        ensures
            final(self).wf() == old(self).wf(),
            final(self)@ == (TermState { keypad_app: enable, ..old(self)@ }),
    {
        self.keypad_app = enable;
    }

    fn carriage_return_index(&mut self)
        requires
            old(self).wf(),
        ensures
            final(self).wf(),
            final(self)@ == old(self)@.with_col(0).index(),
    {
        self.grid.cursor_col = 0;
        self.index();
    }

    /// Carries out an escape sequence.
    pub fn esc_dispatch(&mut self, final_byte: u8, intermediates: &[u8])
        requires
            old(self).wf(),
        ensures
            final(self).wf(),
            final(self)@ == old(self)@.esc_dispatch(final_byte, intermediates@),
    {
        proof {
            reveal(TermState::esc_dispatch);
        }
        if intermediates.len() > 0 && intermediates[0] == 0x23 {
            if final_byte == 0x38 {
                self.alignment_test();
            }
        } else if final_byte == 0x37 {
            self.save_cursor();
        } else if final_byte == 0x38 {
            self.restore_cursor();
        } else if final_byte == 0x4d {
            self.reverse_index();
        } else if final_byte == 0x44 {
            self.index();
        } else if final_byte == 0x45 {
            self.carriage_return_index();
        } else if final_byte == 0x48 {
            self.set_tab();
        } else if final_byte == 0x3d {
            self.set_keypad(true);
        } else if final_byte == 0x3e {
            self.set_keypad(false);
        } else if final_byte == 0x63 {
            let cols = self.grid.cols();
            let rows = self.grid.rows();
            *self = Terminal::new(cols, rows);
        }
    }

    fn erase_display(&mut self, mode: u16)
        requires
            old(self).wf(),
        ensures
            final(self).wf(),
            final(self)@ == old(self)@.erase_display(mode as int),
    {
        proof {
            reveal(TermState::erase_display);
        }
        if mode == 0 {
            self.grid.erase_below();
        } else if mode == 1 {
            self.grid.erase_above();
        } else if mode == 2 || mode == 3 {
            self.grid.clear();
        }
    }

    fn erase_in_line(&mut self, mode: u16)
        requires
            old(self).wf(),
        ensures
            final(self).wf(),
            final(self)@ == old(self)@.erase_in_line(mode as int),
    {
        proof {
            reveal(TermState::erase_in_line);
        }
        if mode == 0 {
            self.grid.erase_line_right();
        } else if mode == 1 {
            self.grid.erase_line_left();
        } else if mode == 2 {
            self.grid.erase_line();
        }
    }

    fn insert_lines(&mut self, n: usize)
        requires
            old(self).wf(),
        ensures
            final(self).wf(),
            final(self)@ == old(self)@.with_grid(
                old(self)@.grid.insert_lines(
                    old(self)@.grid.cursor_row,
                    n as int,
                    old(self)@.scroll_bottom,
                ),
            ),
    {
        let at = self.grid.cursor_row;
        let bottom = self.scroll_bottom;
        self.grid.insert_lines(at, n, bottom);
    }

    fn delete_lines(&mut self, n: usize)
        requires
            old(self).wf(),
        ensures
            final(self).wf(),
            final(self)@ == old(self)@.with_grid(
                old(self)@.grid.delete_lines(
                    old(self)@.grid.cursor_row,
                    n as int,
                    old(self)@.scroll_bottom,
                ),
            ),
    {
        let at = self.grid.cursor_row;
        let bottom = self.scroll_bottom;
        self.grid.delete_lines(at, n, bottom);
    }

    fn delete_chars(&mut self, n: usize)
        requires
            old(self).wf(),
        ensures
            final(self).wf(),
            final(self)@ == old(self)@.with_grid(old(self)@.grid.delete_chars(n as int)),
    {
        self.grid.delete_chars(n);
    }

    fn insert_chars(&mut self, n: usize)
        requires
            old(self).wf(),
        ensures
            final(self).wf(),
            final(self)@ == old(self)@.with_grid(old(self)@.grid.insert_chars(n as int)),
    {
        self.grid.insert_chars(n);
    }

    fn report(&mut self, mode: u16, private: bool)
        requires
            old(self).wf(),
        ensures
            final(self).wf(),
            final(self)@ == old(self)@.report(mode as int, private),
    {
        proof {
            reveal(TermState::report);
        }
        if mode == 6 {
            let bytes = make_cursor_report(private, self.grid.cursor_row, self.grid.cursor_col);
            self.reply(&bytes);
        } else if mode == 5 && !private {
            let mut bytes: Vec<u8> = Vec::new();
            bytes.push(0x1b);
            bytes.push(0x5b);
            bytes.push(0x30);
            bytes.push(0x6e);
            assert(bytes@ =~= status_report());
            self.reply(&bytes);
        }
    }

    fn report_attributes(&mut self)
        requires
            old(self).wf(),
        ensures
            final(self).wf(),
            final(self)@ == old(self)@.reply(device_attributes()),
    {
        let mut bytes: Vec<u8> = Vec::new();
        bytes.push(0x1b);
        bytes.push(0x5b);
        bytes.push(0x3f);
        bytes.push(0x36);
        bytes.push(0x32);
        bytes.push(0x3b);
        bytes.push(0x32);
        bytes.push(0x32);
        bytes.push(0x63);
        assert(bytes@ =~= device_attributes());
        self.reply(&bytes);
    }

    fn csi_cursor(&mut self, final_byte: u8, n: usize, m: usize)
        requires
            old(self).wf(),
            n >= 1,
            m >= 1,
        ensures
            final(self).wf(),
            final(self)@ == old(self)@.csi_cursor(final_byte, n as int, m as int),
    {
        proof {
            reveal(TermState::csi_cursor);
        }
        if final_byte == 0x41 {
            self.cursor_up(n);
        } else if final_byte == 0x42 {
            self.cursor_down(n);
        } else if final_byte == 0x43 {
            self.cursor_forward(n);
        } else if final_byte == 0x44 {
            self.cursor_back(n);
        } else if final_byte == 0x45 {
            self.cursor_next_line(n);
        } else if final_byte == 0x46 {
            self.cursor_prev_line(n);
        } else if final_byte == 0x47 || final_byte == 0x60 {
            self.cursor_to_col(n);
        } else if final_byte == 0x48 || final_byte == 0x66 {
            self.cursor_to(n, m);
        } else if final_byte == 0x64 {
            self.cursor_to_row(n);
        } else if final_byte == 0x49 {
            self.tab_forward(n);
        } else if final_byte == 0x5a {
            self.tab_backward(n);
        }
    }

    fn csi_edit(&mut self, final_byte: u8, n: usize, mode: u16, private: bool)
        requires
            old(self).wf(),
        ensures
            final(self).wf(),
            final(self)@ == old(self)@.csi_edit(final_byte, n as int, mode as int, private),
    {
        proof {
            reveal(TermState::csi_edit);
        }
        if final_byte == 0x4a {
            self.erase_display(mode);
        } else if final_byte == 0x4b {
            self.erase_in_line(mode);
        } else if final_byte == 0x58 {
            self.erase_chars(n);
        } else if final_byte == 0x4c {
            self.insert_lines(n);
        } else if final_byte == 0x4d {
            self.delete_lines(n);
        } else if final_byte == 0x50 {
            self.delete_chars(n);
        } else if final_byte == 0x40 {
            self.insert_chars(n);
        } else if final_byte == 0x53 {
            if !private {
                self.scroll_up_n(n);
            }
        } else if final_byte == 0x54 {
            self.scroll_down_n(n);
        } else if final_byte == 0x62 {
            self.repeat(n);
        }
    }

    fn csi_control(&mut self, final_byte: u8, params: &[u16], private: bool)
        requires
            old(self).wf(),
        ensures
            final(self).wf(),
            final(self)@ == old(self)@.csi_control(final_byte, params@, private),
    {
        proof {
            reveal(TermState::csi_control);
        }
        let mode = param(params, 0, 0);
        if final_byte == 0x6d {
            self.handle_sgr(params);
        } else if final_byte == 0x72 && !private {
            let rows = self.grid.rows();
            let top = param(params, 0, 1) as usize;
            let bottom = if params.len() > 1 && params[1] != 0 {
                params[1] as usize
            } else {
                rows
            };
            self.set_scroll_region(top, bottom);
        } else if final_byte == 0x68 && private {
            self.set_dec_mode(params, true);
        } else if final_byte == 0x6c && private {
            self.set_dec_mode(params, false);
        } else if final_byte == 0x73 && !private {
            self.save_cursor();
        } else if final_byte == 0x75 {
            self.restore_cursor();
        } else if final_byte == 0x6e {
            self.report(mode, private);
        } else if final_byte == 0x63 && !private && mode == 0 {
            self.report_attributes();
        } else if final_byte == 0x67 {
            self.clear_tabs(mode);
        } else if (final_byte == 0x68 || final_byte == 0x6c) && !private {
            self.set_ansi_mode(params, final_byte == 0x68);
        }
    }

    /// Carries out a CSI sequence.
    pub fn csi_dispatch(&mut self, final_byte: u8, params: &[u16], intermediates: &[u8])
        requires
            old(self).wf(),
        ensures
            final(self).wf(),
            final(self)@ == old(self)@.csi_dispatch(final_byte, params@, intermediates@),
    {
        proof {
            reveal(TermState::csi_dispatch);
        }
        let private = intermediates.len() > 0 && intermediates[0] == 0x3f;
        if (final_byte >= 0x41 && final_byte <= 0x49) || final_byte == 0x5a || final_byte == 0x60
            || final_byte == 0x64 || final_byte == 0x66 {
            let n = param(params, 0, 1) as usize;
            let m = param(params, 1, 1) as usize;
            self.csi_cursor(final_byte, n, m);
        } else if final_byte == 0x40 || (final_byte >= 0x4a && final_byte <= 0x4d) || final_byte
            == 0x50 || final_byte == 0x53 || final_byte == 0x54 || final_byte == 0x58 || final_byte
            == 0x62 {
            let n = param(params, 0, 1) as usize;
            let mode = param(params, 0, 0);
            self.csi_edit(final_byte, n, mode, private);
        } else {
            self.csi_control(final_byte, params, private);
        }
    }

    fn set_title(&mut self, rest: &str)
        ensures
            final(self).wf() == old(self).wf(),
            final(self)@ == (TermState {
                title: if rest@.len() > super::state::title_cap() {
                    rest@.take(super::state::title_cap())
                } else {
                    rest@
                },
                ..old(self)@
            }),
    {
        let n = rest.unicode_len();
        if n > 4096 {
            self.title = rest.substring_char(0, 4096).to_owned();
            assert(rest@.subrange(0, 4096) =~= rest@.take(4096));
        } else {
            self.title = rest.to_owned();
        }
    }

    fn set_cwd(&mut self, url: &str)
        requires
            old(self).wf(),
        ensures
            final(self).wf(),
            final(self)@ == (TermState {
                osc7_cwd: Some(url@),
                shell: old(self)@.shell.osc7(url@),
                ..old(self)@
            }),
    {
        self.osc7_cwd = Some(url.to_owned());
        self.shell.handle_osc7(url);
    }

    fn shell_marker(&mut self, rest: &str)
        requires
            old(self).wf(),
        ensures
            final(self).wf(),
            final(self)@ == (TermState {
                osc133_data: Some(rest@),
                shell: old(self)@.shell.osc133(rest@, old(self).grid.cursor_row),
                ..old(self)@
            }),
    {
        self.osc133_data = Some(rest.to_owned());
        self.shell.handle_osc133(rest, self.grid.cursor_row);
    }

    fn set_clipboard(&mut self, text: &str)
        ensures
            final(self).wf() == old(self).wf(),
            final(self)@ == (match crate::clipboard::osc52_text(text@) {
                Some(data) => TermState { osc52_data: Some(data), ..old(self)@ },
                None => old(self)@,
            }),
    {
        match decode_osc52_set(text) {
            Some(data) => {
                self.osc52_data = Some(data);
            },
            None => {},
        }
    }

    /// Carries out an OSC string whose payload reads `text`.
    pub fn osc_text(&mut self, text: &str)
        requires
            old(self).wf(),
        ensures
            final(self).wf(),
            final(self)@ == old(self)@.osc_text(text@),
    {
        proof {
            reveal(TermState::osc_text);
        }
        if selects_title(text) {
            let rest = crate::text::skip_chars(text, 2);
            self.set_title(rest);
        } else if selects_cwd(text) {
            let url = crate::text::skip_chars(text, 2);
            self.set_cwd(url);
        } else if selects_shell(text) {
            let rest = crate::text::skip_chars(text, 4);
            self.shell_marker(rest);
        } else if selects_clipboard(text) {
            self.set_clipboard(text);
        }
    }

    /// Carries out an OSC string. The payload is read as UTF-8, with what is
    /// ill-formed replaced.
    pub fn osc_dispatch(&mut self, data: &[u8])
        requires
            old(self).wf(),
        ensures
            final(self).wf(),
            final(self)@ == old(self)@.osc_text(crate::text::lossy_text(data@)),
    {
        let text = utf8_lossy(data);
        self.osc_text(text.as_str());
    }

    /// Carries out an action of the parser.
    pub fn handle_action(&mut self, action: Action)
        requires
            old(self).wf(),
        ensures
            final(self).wf(),
            final(self)@ == old(self)@.handle_action(action@),
    {
        proof {
            reveal(TermState::handle_action);
        }
        match action {
            Action::Print(ch) => self.print(ch),
            Action::Execute(byte) => self.execute(byte),
            Action::CsiDispatch { final_byte, params, intermediates } => {
                self.csi_dispatch(final_byte, params.as_slice(), intermediates.as_slice());
            },
            Action::EscDispatch { final_byte, intermediates } => {
                self.esc_dispatch(final_byte, intermediates.as_slice());
            },
            Action::OscDispatch(data) => self.osc_dispatch(data.as_slice()),
            Action::Nothing => {},
        }
    }

    fn decode_and_print(&mut self, byte: u8)
        requires
            old(self).wf(),
        ensures
            final(self).wf(),
            final(self)@ == ({
                let (utf8, decoded) = old(self)@.utf8.feed(byte);
                let fed = TermState { utf8, ..old(self)@ };
                match decoded {
                    Some(ch) => fed.print(ch),
                    None => fed,
                }
            }),
    {
        match self.utf8.feed(byte) {
            Some(decoded) => self.print(decoded),
            None => {},
        }
    }

    fn feed_byte(&mut self, parser: &mut VtParser, byte: u8)
        requires
            old(self).wf(),
        ensures
            final(self).wf(),
            (final(self)@, final(parser)@) == old(self)@.feed_byte(old(parser)@, byte),
    {
        proof {
            reveal(TermState::feed_byte);
        }
        let action = parser.advance(byte);
        let undecoded = byte >= 0x80 && match action {
            Action::Print(ch) => ch == '\u{FFFD}',
            _ => false,
        };
        if undecoded {
            self.decode_and_print(byte);
        } else {
            self.handle_action(action);
        }
    }

    /// Feeds the bytes that the program wrote: each byte goes through the
    /// parser, and what it completes is carried out, in order.
    pub fn feed_bytes(&mut self, parser: &mut VtParser, data: &[u8])
        requires
            old(self).wf(),
        ensures
            final(self).wf(),
            (final(self)@, final(parser)@) == old(self)@.feed(old(parser)@, data@),
            final(self).grid.cursor_row < final(self).grid.rows,
            final(self).grid.cursor_col <= final(self).grid.cols,
            final(self).grid.scrollback@.len() <= final(self).grid.scrollback_max,
    {
        let mut i: usize = 0;
        assert(data@.take(0) =~= Seq::<u8>::empty());
        while i < data.len()
            invariant
                i <= data.len(),
                self.wf(),
                (self@, parser@) == old(self)@.feed(old(parser)@, data@.take(i as int)),
            decreases data.len() - i,
        {
            proof {
                assert(data@.take(i + 1).drop_last() =~= data@.take(i as int));
                assert(data@.take(i + 1).last() == data@[i as int]);
            }
            self.feed_byte(parser, data[i]);
            i += 1;
        }
        assert(data@.take(data.len() as int) =~= data@);
    }

    /// The pen's colors are replaced, as for a theme.
    pub fn set_default_colors(&mut self, fg: Color, bg: Color)
        ensures
            final(self).wf() == old(self).wf(),
            final(self)@ == old(self)@.set_default_colors(fg, bg),
    {
        self.fg = fg;
        self.bg = bg;
    }

    /// Resizes the terminal to `cols` by `rows`.
    pub fn resize(&mut self, cols: usize, rows: usize)
        requires
            old(self).wf(),
            cols >= 1,
            rows >= 1,
        ensures
            final(self).wf(),
            final(self)@ == old(self)@.resize(cols as int, rows as int),
    {
        proof {
            reveal(TermState::resize);
        }
        self.grid.resize(cols, rows);
        match self.alt_grid.take() {
            Some(mut held) => {
                held.resize(cols, rows);
                self.alt_grid = Some(held);
            },
            None => {},
        }
        self.scroll_top = 0;
        self.scroll_bottom = rows - 1;
        self.tab_stops = make_tab_stops(cols);
    }
}

fn selects_title(text: &str) -> (b: bool)
    ensures
        b == (seq!['0', ';'].is_prefix_of(text@) || seq!['2', ';'].is_prefix_of(text@)),
        b ==> text@.len() >= 2,
{
    proof {
        reveal_strlit("0;");
        reveal_strlit("2;");
        assert("0;"@ =~= seq!['0', ';']);
        assert("2;"@ =~= seq!['2', ';']);
    }
    starts_with(text, "0;") || starts_with(text, "2;")
}

fn selects_cwd(text: &str) -> (b: bool)
    ensures
        b == seq!['7', ';'].is_prefix_of(text@),
        b ==> text@.len() >= 2,
{
    proof {
        reveal_strlit("7;");
        assert("7;"@ =~= seq!['7', ';']);
    }
    starts_with(text, "7;")
}

fn selects_shell(text: &str) -> (b: bool)
    ensures
        b == seq!['1', '3', '3', ';'].is_prefix_of(text@),
        b ==> text@.len() >= 4,
{
    proof {
        reveal_strlit("133;");
        assert("133;"@ =~= seq!['1', '3', '3', ';']);
    }
    starts_with(text, "133;")
}

fn selects_clipboard(text: &str) -> (b: bool)
    ensures
        b == seq!['5', '2', ';'].is_prefix_of(text@),
{
    proof {
        reveal_strlit("52;");
        assert("52;"@ =~= seq!['5', '2', ';']);
    }
    starts_with(text, "52;")
}

/// Get param at index with default value.
pub fn param(params: &[u16], idx: usize, default: u16) -> (r: u16)
    ensures
        r == param_or(params@, idx as int, default as int),
        default >= 1 ==> r >= 1,
{
    if idx < params.len() && params[idx] != 0 {
        params[idx]
    } else {
        default
    }
}

/// The ANSI color of an index below 16.
fn ansi(idx: usize) -> (c: Color)
    requires
        idx < 16,
    ensures
        c == ansi_color(idx as int),
{
    if idx == 0 {
        Color { r: 0, g: 0, b: 0 }
    } else if idx == 1 {
        Color { r: 205, g: 49, b: 49 }
    } else if idx == 2 {
        Color { r: 13, g: 188, b: 121 }
    } else if idx == 3 {
        Color { r: 229, g: 229, b: 16 }
    } else if idx == 4 {
        Color { r: 36, g: 114, b: 200 }
    } else if idx == 5 {
        Color { r: 188, g: 63, b: 188 }
    } else if idx == 6 {
        Color { r: 17, g: 168, b: 205 }
    } else if idx == 7 {
        Color { r: 204, g: 204, b: 204 }
    } else if idx == 8 {
        Color { r: 102, g: 102, b: 102 }
    } else if idx == 9 {
        Color { r: 241, g: 76, b: 76 }
    } else if idx == 10 {
        Color { r: 35, g: 209, b: 139 }
    } else if idx == 11 {
        Color { r: 245, g: 245, b: 67 }
    } else if idx == 12 {
        Color { r: 59, g: 142, b: 234 }
    } else if idx == 13 {
        Color { r: 214, g: 112, b: 214 }
    } else if idx == 14 {
        Color { r: 41, g: 184, b: 219 }
    } else {
        Color { r: 242, g: 242, b: 242 }
    }
}

fn cube(level: usize) -> (v: u8)
    requires
        level < 6,
    ensures
        v == super::state::cube_level(level as int),
{
    if level == 0 {
        0
    } else {
        (55 + 40 * level) as u8
    }
}

/// Convert 256-color index to RGB.
pub fn color_from_256(idx: usize) -> (c: Color)
    ensures
        c == palette_color(idx as int),
{
    if idx <= 15 {
        ansi(idx)
    } else if idx <= 231 {
        let i = idx - 16;
        Color { r: cube((i / 36) % 6), g: cube((i / 6) % 6), b: cube(i % 6) }
    } else if idx <= 255 {
        let v = (8 + 10 * (idx - 232)) as u8;
        Color { r: v, g: v, b: v }
    } else {
        Color::default_fg()
    }
}

/// Parse 256-color (38;5;N) or truecolor (38;2;R;G;B) sequences.
/// Returns (Color, number of extra params consumed).
pub fn parse_extended_color(params: &[u16], start: usize) -> (r: Option<(Color, usize)>)
    ensures
        r is Some <==> extended_color(params@, start as int) is Some,
        r matches Some((color, used)) ==> extended_color(params@, start as int) == Some(
            (color, used as int),
        ) && start + used <= params@.len(),
{
    if start >= params.len() {
        None
    } else if params[start] == 5 {
        if params.len() - start > 1 {
            Some((color_from_256(params[start + 1] as usize), 2))
        } else {
            None
        }
    } else if params[start] == 2 {
        if params.len() - start > 3 {
            Some(
                (
                    Color {
                        r: (params[start + 1] % 256) as u8,
                        g: (params[start + 2] % 256) as u8,
                        b: (params[start + 3] % 256) as u8,
                    },
                    4,
                ),
            )
        } else {
            None
        }
    } else {
        None
    }
}

fn with_attr(pen: Pen, bit: u8) -> (r: Pen)
    ensures
        r == pen.set(bit),
{
    let mut attr = pen.attr;
    attr.insert(CellAttr { bits: bit });
    Pen { attr, fg: pen.fg, bg: pen.bg }
}

fn without_attr(pen: Pen, bit: u8) -> (r: Pen)
    ensures
        r == pen.unset(bit),
{
    let mut attr = pen.attr;
    attr.remove(CellAttr { bits: bit });
    Pen { attr, fg: pen.fg, bg: pen.bg }
}

/// The pen after the SGR code at `i`, and the number of parameters taken.
fn sgr_one(pen: Pen, params: &[u16], i: usize) -> (r: (Pen, usize))
    requires
        i < params@.len(),
    ensures
        (r.0, r.1 as int) == pen.sgr_one(params@, i as int),
        1 <= r.1,
        i + r.1 <= params@.len(),
{
    let code = params[i];
    if code == 0 {
        (Pen { attr: CellAttr::empty(), fg: Color::default_fg(), bg: Color::default_bg() }, 1)
    } else if code == 1 {
        (with_attr(pen, CellAttr::BOLD_BIT), 1)
    } else if code == 2 {
        (with_attr(pen, CellAttr::DIM_BIT), 1)
    } else if code == 3 {
        (with_attr(pen, CellAttr::ITALIC_BIT), 1)
    } else if code == 4 {
        (with_attr(pen, CellAttr::UNDERLINE_BIT), 1)
    } else if code == 7 {
        (with_attr(pen, CellAttr::INVERSE_BIT), 1)
    } else if code == 8 {
        (with_attr(pen, CellAttr::HIDDEN_BIT), 1)
    } else if code == 9 {
        (with_attr(pen, CellAttr::STRIKETHROUGH_BIT), 1)
    } else if code == 22 {
        (without_attr(without_attr(pen, CellAttr::BOLD_BIT), CellAttr::DIM_BIT), 1)
    } else if code == 23 {
        (without_attr(pen, CellAttr::ITALIC_BIT), 1)
    } else if code == 24 {
        (without_attr(pen, CellAttr::UNDERLINE_BIT), 1)
    } else if code == 27 {
        (without_attr(pen, CellAttr::INVERSE_BIT), 1)
    } else if code == 28 {
        (without_attr(pen, CellAttr::HIDDEN_BIT), 1)
    } else if code == 29 {
        (without_attr(pen, CellAttr::STRIKETHROUGH_BIT), 1)
    } else if code >= 30 && code <= 37 {
        (Pen { attr: pen.attr, fg: ansi((code - 30) as usize), bg: pen.bg }, 1)
    } else if code == 38 {
        match parse_extended_color(params, i + 1) {
            Some((color, used)) => (Pen { attr: pen.attr, fg: color, bg: pen.bg }, 1 + used),
            None => (pen, 1),
        }
    } else if code == 39 {
        (Pen { attr: pen.attr, fg: Color::default_fg(), bg: pen.bg }, 1)
    } else if code >= 90 && code <= 97 {
        (Pen { attr: pen.attr, fg: ansi((code - 90 + 8) as usize), bg: pen.bg }, 1)
    } else if code >= 40 && code <= 47 {
        (Pen { attr: pen.attr, fg: pen.fg, bg: ansi((code - 40) as usize) }, 1)
    } else if code == 48 {
        match parse_extended_color(params, i + 1) {
            Some((color, used)) => (Pen { attr: pen.attr, fg: pen.fg, bg: color }, 1 + used),
            None => (pen, 1),
        }
    } else if code == 49 {
        (Pen { attr: pen.attr, fg: pen.fg, bg: Color::default_bg() }, 1)
    } else if code >= 100 && code <= 107 {
        (Pen { attr: pen.attr, fg: pen.fg, bg: ansi((code - 100 + 8) as usize) }, 1)
    } else {
        (pen, 1)
    }
}

fn push_decimal(out: &mut Vec<u8>, n: u128)
    ensures
        final(out)@ == old(out)@ + decimal(n as nat),
    decreases n,
{
    if n >= 10 {
        push_decimal(out, n / 10);
    }
    out.push(0x30 + (n % 10) as u8);
    assert(out@ =~= old(out)@ + decimal(n as nat));
}

/// The bytes of a cursor position report.
fn make_cursor_report(private: bool, row: usize, col: usize) -> (out: Vec<u8>)
    ensures
        out@ == cursor_report(private, row as int, col as int),
{
    let mut out: Vec<u8> = Vec::new();
    out.push(0x1b);
    out.push(0x5b);
    if private {
        out.push(0x3f);
    }
    push_decimal(&mut out, row as u128 + 1);
    out.push(0x3b);
    push_decimal(&mut out, col as u128 + 1);
    out.push(0x52);
    assert(out@ =~= cursor_report(private, row as int, col as int));
    out
}

} // verus!
