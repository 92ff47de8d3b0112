//! The terminal's state as a mathematical value, and what each action makes
//! of it. The handler's functions are specified by the functions of the same
//! names here.
//!
//! Most of these functions are opaque, so that a proof about one step is not
//! burdened with the bodies of all the others: a proof that needs the body
//! of one reveals it, as in `reveal(TermState::print)`.
use super::grid::{Cell, CellAttr, Color, GridState};
use super::parser::{ActionView, ParserState};
use super::utf8::{replacement, width_of, Utf8State};
use crate::clipboard::osc52_text;
use crate::shell_integration::ShellModel;
use crate::text::lossy_text;
use vstd::prelude::*;

verus! {

#[derive(Debug, Clone, Copy, PartialEq, Eq, Structural)]
pub enum MouseMode {
    Off,
    /// Presses only.
    X10,
    /// Presses and releases.
    Normal,
    /// Presses, releases and drags.
    Button,
    /// All motion.
    Any,
}

#[derive(Debug, Clone, Copy, PartialEq, Eq, Structural)]
pub enum MouseEncoding {
    X10,
    Sgr,
}

/// The graphic rendition that the next printed cell gets.
#[derive(Debug, Clone, Copy, PartialEq, Eq, Structural)]
pub struct Pen {
    pub attr: CellAttr,
    pub fg: Color,
    pub bg: Color,
}

/// The sixteen ANSI colors: the eight standard ones, then their bright
/// variants.
pub open spec fn ansi_color(idx: int) -> Color {
    if idx == 0 {
        Color { r: 0, g: 0, b: 0 }
    } else if idx == 1 {
        Color { r: 205, g: 49, b: 49 }
    } else if idx == 2 {
        Color { r: 13, g: 188, b: 121 }
    } else if idx == 3 {
        Color { r: 229, g: 229, b: 16 }
    } else if idx == 4 {
        Color { r: 36, g: 114, b: 200 }
    } else if idx == 5 {
        Color { r: 188, g: 63, b: 188 }
    } else if idx == 6 {
        Color { r: 17, g: 168, b: 205 }
    } else if idx == 7 {
        Color { r: 204, g: 204, b: 204 }
    } else if idx == 8 {
        Color { r: 102, g: 102, b: 102 }
    } else if idx == 9 {
        Color { r: 241, g: 76, b: 76 }
    } else if idx == 10 {
        Color { r: 35, g: 209, b: 139 }
    } else if idx == 11 {
        Color { r: 245, g: 245, b: 67 }
    } else if idx == 12 {
        Color { r: 59, g: 142, b: 234 }
    } else if idx == 13 {
        Color { r: 214, g: 112, b: 214 }
    } else if idx == 14 {
        Color { r: 41, g: 184, b: 219 }
    } else {
        Color { r: 242, g: 242, b: 242 }
    }
}

/// One axis of the 6x6x6 color cube: 0 for level 0, else `55 + 40 * level`.
pub open spec fn cube_level(level: int) -> u8 {
    if level == 0 {
        0
    } else {
        (55 + 40 * level) as u8
    }
}

/// The color of an index of the 8-bit palette: the ANSI colors, then the
/// color cube, then the gray ramp. An index past 255 gives the default
/// foreground.
pub open spec fn palette_color(idx: int) -> Color {
    if 0 <= idx <= 15 {
        ansi_color(idx)
    } else if 16 <= idx <= 231 {
        let i = idx - 16;
        Color { r: cube_level((i / 36) % 6), g: cube_level((i / 6) % 6), b: cube_level(i % 6) }
    } else if 232 <= idx <= 255 {
        let v = (8 + 10 * (idx - 232)) as u8;
        Color { r: v, g: v, b: v }
    } else {
        Color::fg_default()
    }
}

/// The parameter at `idx`, or `default` where it is missing or 0.
pub open spec fn param_or(params: Seq<u16>, idx: int, default: int) -> int {
    if 0 <= idx < params.len() && params[idx] != 0 {
        params[idx] as int
    } else {
        default
    }
}

/// The color that follows a 38 or 48 at `start`, and the number of
/// parameters it takes: `5;N` selects from the palette, `2;R;G;B` gives the
/// components, each taken modulo 256.
pub open spec fn extended_color(params: Seq<u16>, start: int) -> Option<(Color, int)> {
    if start < 0 || start >= params.len() {
        None
    } else if params[start] == 5 {
        if start + 1 < params.len() {
            Some((palette_color(params[start + 1] as int), 2))
        } else {
            None
        }
    } else if params[start] == 2 {
        if start + 3 < params.len() {
            Some(
                (
                    Color {
                        r: (params[start + 1] % 256) as u8,
                        g: (params[start + 2] % 256) as u8,
                        b: (params[start + 3] % 256) as u8,
                    },
                    4,
                ),
            )
        } else {
            None
        }
    } else {
        None
    }
}

impl Pen {
    /// No attribute, default colors.
    pub open spec fn plain() -> Pen {
        Pen { attr: CellAttr::none(), fg: Color::fg_default(), bg: Color::bg_default() }
    }

    pub open spec fn set(self, bit: u8) -> Pen {
        Pen { attr: self.attr.with(CellAttr { bits: bit }), ..self }
    }

    pub open spec fn unset(self, bit: u8) -> Pen {
        Pen { attr: self.attr.without(CellAttr { bits: bit }), ..self }
    }

    /// The pen after the SGR code at `i`, and the number of parameters that
    /// the code took.
    pub open spec fn sgr_one(self, params: Seq<u16>, i: int) -> (Pen, int) {
        let code = params[i];
        if code == 0 {
            (Pen::plain(), 1)
        } else if code == 1 {
            (self.set(CellAttr::BOLD_BIT), 1)
        } else if code == 2 {
            (self.set(CellAttr::DIM_BIT), 1)
        } else if code == 3 {
            (self.set(CellAttr::ITALIC_BIT), 1)
        } else if code == 4 {
            (self.set(CellAttr::UNDERLINE_BIT), 1)
        } else if code == 7 {
            (self.set(CellAttr::INVERSE_BIT), 1)
        } else if code == 8 {
            (self.set(CellAttr::HIDDEN_BIT), 1)
        } else if code == 9 {
            (self.set(CellAttr::STRIKETHROUGH_BIT), 1)
        } else if code == 22 {
            (self.unset(CellAttr::BOLD_BIT).unset(CellAttr::DIM_BIT), 1)
        } else if code == 23 {
            (self.unset(CellAttr::ITALIC_BIT), 1)
        } else if code == 24 {
            (self.unset(CellAttr::UNDERLINE_BIT), 1)
        } else if code == 27 {
            (self.unset(CellAttr::INVERSE_BIT), 1)
        } else if code == 28 {
            (self.unset(CellAttr::HIDDEN_BIT), 1)
        } else if code == 29 {
            (self.unset(CellAttr::STRIKETHROUGH_BIT), 1)
        } else if 30 <= code <= 37 {
            (Pen { fg: ansi_color(code - 30), ..self }, 1)
        } else if code == 38 {
            match extended_color(params, i + 1) {
                Some((color, used)) => (Pen { fg: color, ..self }, 1 + used),
                None => (self, 1),
            }
        } else if code == 39 {
            (Pen { fg: Color::fg_default(), ..self }, 1)
        } else if 90 <= code <= 97 {
            (Pen { fg: ansi_color(code - 90 + 8), ..self }, 1)
        } else if 40 <= code <= 47 {
            (Pen { bg: ansi_color(code - 40), ..self }, 1)
        } else if code == 48 {
            match extended_color(params, i + 1) {
                Some((color, used)) => (Pen { bg: color, ..self }, 1 + used),
                None => (self, 1),
            }
        } else if code == 49 {
            (Pen { bg: Color::bg_default(), ..self }, 1)
        } else if 100 <= code <= 107 {
            (Pen { bg: ansi_color(code - 100 + 8), ..self }, 1)
        } else {
            (self, 1)
        }
    }

    /// The pen after the SGR codes from index `i` on, taken left to right.
    pub open spec fn sgr_from(self, params: Seq<u16>, i: int) -> Pen
        decreases params.len() - i,
    {
        if i < 0 || i >= params.len() {
            self
        } else {
            let (pen, used) = self.sgr_one(params, i);
            pen.sgr_from(params, i + used)
        }
    }

    /// The pen after an SGR sequence. No parameter at all is a reset.
    pub open spec fn sgr(self, params: Seq<u16>) -> Pen {
        if params.len() == 0 {
            Pen::plain()
        } else {
            self.sgr_from(params, 0)
        }
    }
}

/// Tab stops at every eighth column.
pub open spec fn default_tabs(cols: int) -> Seq<bool> {
    Seq::new(cols as nat, |i: int| i % 8 == 0)
}

/// The least column after `col` with a tab stop, or the last column where
/// there is none.
pub open spec fn next_tab(stops: Seq<bool>, col: int) -> int
    decreases stops.len() - col,
{
    if col < 0 || col + 1 >= stops.len() {
        stops.len() - 1
    } else if stops[col + 1] {
        col + 1
    } else {
        next_tab(stops, col + 1)
    }
}

/// The greatest column before `col` with a tab stop, or column 0 where there
/// is none.
pub open spec fn prev_tab(stops: Seq<bool>, col: int) -> int
    decreases col,
{
    if col <= 0 {
        0
    } else if stops[col - 1] {
        col - 1
    } else {
        prev_tab(stops, col - 1)
    }
}

/// The column reached from `col` by `n` forward tabulations.
pub open spec fn next_tab_n(stops: Seq<bool>, col: int, n: int) -> int
    decreases n,
{
    if n <= 0 {
        col
    } else {
        next_tab_n(stops, next_tab(stops, col), n - 1)
    }
}

/// The column reached from `col` by `n` backward tabulations.
pub open spec fn prev_tab_n(stops: Seq<bool>, col: int, n: int) -> int
    decreases n,
{
    if n <= 0 {
        col
    } else {
        prev_tab_n(stops, prev_tab(stops, col), n - 1)
    }
}

/// The decimal digits of `n` in ASCII.
pub open spec fn decimal(n: nat) -> Seq<u8>
    decreases n,
{
    if n < 10 {
        seq![(0x30 + n) as u8]
    } else {
        decimal(n / 10).push((0x30 + n % 10) as u8)
    }
}

/// The reply to a cursor position report: `ESC [ row ; col R`, with `?`
/// after the bracket for the DEC form. Both numbers count from 1.
pub open spec fn cursor_report(private: bool, row: int, col: int) -> Seq<u8> {
    seq![0x1bu8, 0x5bu8] + (if private {
        seq![0x3fu8]
    } else {
        Seq::<u8>::empty()
    }) + decimal((row + 1) as nat) + seq![0x3bu8] + decimal((col + 1) as nat) + seq![0x52u8]
}

/// The reply to a status report: `ESC [ 0 n`.
pub open spec fn status_report() -> Seq<u8> {
    seq![0x1bu8, 0x5bu8, 0x30u8, 0x6eu8]
}

/// The reply to a device attributes request: `ESC [ ? 6 2 ; 2 2 c`, a
/// terminal of the VT220 class.
pub open spec fn device_attributes() -> Seq<u8> {
    seq![0x1bu8, 0x5bu8, 0x3fu8, 0x36u8, 0x32u8, 0x3bu8, 0x32u8, 0x32u8, 0x63u8]
}

/// The longest title that is kept, in characters.
pub open spec fn title_cap() -> int {
    4096
}

/// The mathematical value of a terminal.
pub struct TermState {
    pub grid: GridState,
    pub utf8: Utf8State,
    pub pen: Pen,
    pub saved_cursor: (int, int),
    pub saved_pen: Pen,
    /// The main grid, while the alternate screen is shown.
    pub alt_grid: Option<GridState>,
    pub tab_stops: Seq<bool>,
    pub origin_mode: bool,
    pub auto_wrap: bool,
    pub scroll_top: int,
    pub scroll_bottom: int,
    pub title: Seq<char>,
    pub write_back: Seq<u8>,
    pub cursor_keys_app: bool,
    pub cursor_visible: bool,
    pub bracketed_paste: bool,
    pub mouse_mode: MouseMode,
    pub mouse_encoding: MouseEncoding,
    pub keypad_app: bool,
    pub osc7_cwd: Option<Seq<char>>,
    pub osc133_data: Option<Seq<char>>,
    pub osc52_data: Option<Seq<char>>,
    pub shell: ShellModel,
}

impl TermState {
    /// The grid and its cursor are well formed, the grid that is held back
    /// has the size of the one shown, there is a tab-stop flag for each
    /// column, the scroll region lies within the rows, and the saved cursor
    /// has no negative coordinate.
    pub open spec fn wf(self) -> bool {
        &&& self.grid.wf()
        &&& self.utf8.wf()
        &&& (self.alt_grid matches Some(g) ==> g.wf() && g.cols == self.grid.cols && g.rows
            == self.grid.rows)
        &&& self.tab_stops.len() == self.grid.cols
        &&& 0 <= self.scroll_top <= self.scroll_bottom < self.grid.rows
        &&& 0 <= self.saved_cursor.0
        &&& 0 <= self.saved_cursor.1
        &&& self.shell.wf()
    }

    /// The state of a new terminal of `cols` by `rows` cells.
    pub open spec fn fresh(cols: int, rows: int) -> TermState {
        TermState {
            grid: GridState::fresh(cols, rows),
            utf8: Utf8State::idle(),
            pen: Pen::plain(),
            saved_cursor: (0, 0),
            saved_pen: Pen::plain(),
            alt_grid: None,
            tab_stops: default_tabs(cols),
            origin_mode: false,
            auto_wrap: true,
            scroll_top: 0,
            scroll_bottom: rows - 1,
            title: Seq::empty(),
            write_back: Seq::empty(),
            cursor_keys_app: false,
            cursor_visible: true,
            bracketed_paste: false,
            mouse_mode: MouseMode::Off,
            mouse_encoding: MouseEncoding::X10,
            keypad_app: false,
            osc7_cwd: None,
            osc133_data: None,
            osc52_data: None,
            shell: ShellModel::initial(),
        }
    }

    pub open spec fn with_grid(self, grid: GridState) -> TermState {
        TermState { grid, ..self }
    }

    pub open spec fn with_row(self, row: int) -> TermState {
        self.with_grid(GridState { cursor_row: row, ..self.grid })
    }

    pub open spec fn with_col(self, col: int) -> TermState {
        self.with_grid(GridState { cursor_col: col, ..self.grid })
    }

    pub open spec fn with_cursor(self, row: int, col: int) -> TermState {
        self.with_grid(self.grid.with_cursor(row, col))
    }

    pub open spec fn reply(self, bytes: Seq<u8>) -> TermState {
        TermState { write_back: self.write_back + bytes, ..self }
    }

    /// The cursor moves down a line; on the last row of the scroll region
    /// the region scrolls up instead, and on the last row of the grid the
    /// cursor stays.
    #[verifier::opaque]
    pub open spec fn index(self) -> TermState {
        if self.grid.cursor_row == self.scroll_bottom {
            self.with_grid(self.grid.scroll_region_up(self.scroll_top, self.scroll_bottom))
        } else if self.grid.cursor_row < self.grid.rows - 1 {
            self.with_row(self.grid.cursor_row + 1)
        } else {
            self
        }
    }

    /// The cursor moves up a line; on the first row of the scroll region the
    /// region scrolls down instead, and on row 0 the cursor stays.
    #[verifier::opaque]
    pub open spec fn reverse_index(self) -> TermState {
        if self.grid.cursor_row == self.scroll_top {
            self.with_grid(self.grid.scroll_region_down(self.scroll_top, self.scroll_bottom))
        } else if self.grid.cursor_row > 0 {
            self.with_row(self.grid.cursor_row - 1)
        } else {
            self
        }
    }

    /// `ch` written at the cursor with the pen, the cursor one column on.
    #[verifier::opaque]
    pub open spec fn put(self, ch: char) -> TermState {
        self.with_grid(self.grid.put_char(ch, self.pen.attr, self.pen.fg, self.pen.bg))
    }

    /// A pending wrap is carried out (auto-wrap) or undone (no auto-wrap).
    #[verifier::opaque]
    pub open spec fn settle_wrap(self) -> TermState {
        if self.grid.cursor_col >= self.grid.cols {
            if self.auto_wrap {
                self.with_col(0).index()
            } else {
                self.with_col(self.grid.cols - 1)
            }
        } else {
            self
        }
    }

    /// Room is made for a glyph of two columns where only one is left: with
    /// auto-wrap the last cell gets a space and the cursor goes to the next
    /// line, without it the cursor backs up one column (in a grid of one
    /// column it stays).
    #[verifier::opaque]
    pub open spec fn make_room(self) -> TermState {
        if self.grid.cursor_col + 1 >= self.grid.cols {
            if self.auto_wrap {
                self.put(' ').with_col(0).index()
            } else {
                self.with_col(
                    if self.grid.cols >= 2 {
                        self.grid.cols - 2
                    } else {
                        0
                    },
                )
            }
        } else {
            self
        }
    }

    /// The second cell of a glyph of two columns: NUL with the pen's
    /// rendition at the cursor, which moves on, where the row has a cell left.
    #[verifier::opaque]
    pub open spec fn put_trailer(self) -> TermState {
        if self.grid.cursor_col < self.grid.cols {
            self.put('\0')
        } else {
            self
        }
    }

    /// Without auto-wrap the cursor does not rest past the last column.
    #[verifier::opaque]
    pub open spec fn hold_margin(self) -> TermState {
        if !self.auto_wrap && self.grid.cursor_col >= self.grid.cols {
            self.with_col(self.grid.cols - 1)
        } else {
            self
        }
    }

    /// The terminal after printing `ch`. A character of width 0 is dropped.
    /// Else a pending wrap is settled and the character is written at the
    /// cursor with the pen. A character of width 2 first gets room, and then
    /// takes a second cell.
    #[verifier::opaque]
    pub open spec fn print(self, ch: char) -> TermState {
        let width = width_of(ch);
        if width == 0 {
            self
        } else if width == 2 {
            self.settle_wrap().make_room().put(ch).put_trailer().hold_margin()
        } else {
            self.settle_wrap().put(ch).hold_margin()
        }
    }

    /// `ch` printed `n` times.
    pub open spec fn print_n(self, ch: char, n: int) -> TermState
        decreases n,
    {
        if n <= 0 {
            self
        } else {
            self.print(ch).print_n(ch, n - 1)
        }
    }

    /// The terminal after a C0 control: BS, HT, LF, VT, FF and CR act, the
    /// others do nothing.
    #[verifier::opaque]
    pub open spec fn execute(self, byte: u8) -> TermState {
        if byte == 0x08 {
            if self.grid.cursor_col > 0 {
                self.with_col(self.grid.cursor_col - 1)
            } else {
                self
            }
        } else if byte == 0x09 {
            self.with_col(next_tab(self.tab_stops, self.grid.cursor_col))
        } else if byte == 0x0a || byte == 0x0b || byte == 0x0c {
            self.index()
        } else if byte == 0x0d {
            self.with_col(0)
        } else {
            self
        }
    }

    #[verifier::opaque]
    pub open spec fn save_cursor(self) -> TermState {
        TermState {
            saved_cursor: (self.grid.cursor_row, self.grid.cursor_col),
            saved_pen: self.pen,
            ..self
        }
    }

    /// The saved cursor, held within the grid, and the saved pen come back.
    #[verifier::opaque]
    pub open spec fn restore_cursor(self) -> TermState {
        let row = if self.saved_cursor.0 < self.grid.rows {
            self.saved_cursor.0
        } else {
            self.grid.rows - 1
        };
        let col = if self.saved_cursor.1 < self.grid.cols {
            self.saved_cursor.1
        } else {
            self.grid.cols - 1
        };
        TermState { pen: self.saved_pen, ..self.with_cursor(row, col) }
    }

    /// The alternate screen comes up blank; the grid shown before is held.
    #[verifier::opaque]
    pub open spec fn enter_alt(self) -> TermState {
        TermState {
            grid: GridState::fresh(self.grid.cols, self.grid.rows),
            alt_grid: Some(self.grid),
            ..self
        }
    }

    /// The held grid comes back, and the alternate one is dropped. Nothing
    /// happens where no grid is held.
    #[verifier::opaque]
    pub open spec fn leave_alt(self) -> TermState {
        match self.alt_grid {
            Some(main) => TermState { grid: main, alt_grid: None, ..self },
            None => self,
        }
    }

    /// The terminal after setting (`enable`) or resetting one DEC private
    /// mode.
    #[verifier::opaque]
    pub open spec fn dec_mode(self, mode: u16, enable: bool) -> TermState {
        if mode == 1 {
            TermState { cursor_keys_app: enable, ..self }
        } else if mode == 6 {
            let moded = TermState { origin_mode: enable, ..self };
            if enable {
                moded.with_cursor(self.scroll_top, 0)
            } else {
                moded
            }
        } else if mode == 7 {
            TermState { auto_wrap: enable, ..self }
        } else if mode == 25 {
            TermState { cursor_visible: enable, ..self }
        } else if mode == 9 {
            TermState {
                mouse_mode: if enable {
                    MouseMode::X10
                } else {
                    MouseMode::Off
                },
                ..self
            }
        } else if mode == 1000 {
            TermState {
                mouse_mode: if enable {
                    MouseMode::Normal
                } else {
                    MouseMode::Off
                },
                ..self
            }
        } else if mode == 1002 {
            TermState {
                mouse_mode: if enable {
                    MouseMode::Button
                } else {
                    MouseMode::Off
                },
                ..self
            }
        } else if mode == 1003 {
            TermState {
                mouse_mode: if enable {
                    MouseMode::Any
                } else {
                    MouseMode::Off
                },
                ..self
            }
        } else if mode == 1006 {
            TermState {
                mouse_encoding: if enable {
                    MouseEncoding::Sgr
                } else {
                    MouseEncoding::X10
                },
                ..self
            }
        } else if mode == 47 || mode == 1047 {
            if enable {
                self.enter_alt()
            } else {
                self.leave_alt()
            }
        } else if mode == 1048 {
            if enable {
                self.save_cursor()
            } else {
                self.restore_cursor()
            }
        } else if mode == 1049 {
            if enable {
                self.save_cursor().enter_alt()
            } else if self.alt_grid is Some {
                self.leave_alt().restore_cursor()
            } else {
                self
            }
        } else if mode == 2004 {
            TermState { bracketed_paste: enable, ..self }
        } else {
            self
        }
    }

    /// The terminal after the DEC private modes from index `i` on, taken
    /// left to right.
    pub open spec fn dec_modes_from(self, params: Seq<u16>, i: int, enable: bool) -> TermState
        decreases params.len() - i,
    {
        if i < 0 || i >= params.len() {
            self
        } else {
            self.dec_mode(params[i], enable).dec_modes_from(params, i + 1, enable)
        }
    }

    pub open spec fn set_dec_mode(self, params: Seq<u16>, enable: bool) -> TermState {
        self.dec_modes_from(params, 0, enable)
    }

    /// The scroll region scrolled up `n` times.
    pub open spec fn scroll_up_n(self, n: int) -> TermState
        decreases n,
    {
        if n <= 0 {
            self
        } else {
            self.with_grid(
                self.grid.scroll_region_up(self.scroll_top, self.scroll_bottom),
            ).scroll_up_n(n - 1)
        }
    }

    /// The scroll region scrolled down `n` times.
    pub open spec fn scroll_down_n(self, n: int) -> TermState
        decreases n,
    {
        if n <= 0 {
            self
        } else {
            self.with_grid(
                self.grid.scroll_region_down(self.scroll_top, self.scroll_bottom),
            ).scroll_down_n(n - 1)
        }
    }

    /// CUU: up `n` rows, not above row 0 nor, in origin mode, above the
    /// scroll region's top.
    #[verifier::opaque]
    pub open spec fn cursor_up(self, n: int) -> TermState {
        let top = if self.origin_mode {
            self.scroll_top
        } else {
            0
        };
        let up = if self.grid.cursor_row - n > 0 {
            self.grid.cursor_row - n
        } else {
            0
        };
        self.with_row(
            if up > top {
                up
            } else {
                top
            },
        )
    }

    /// CUD: down `n` rows, not below the last row nor, in origin mode, below
    /// the scroll region's bottom.
    #[verifier::opaque]
    pub open spec fn cursor_down(self, n: int) -> TermState {
        let bottom = if self.origin_mode {
            self.scroll_bottom
        } else {
            self.grid.rows - 1
        };
        self.with_row(
            if self.grid.cursor_row + n < bottom {
                self.grid.cursor_row + n
            } else {
                bottom
            },
        )
    }

    /// CUF: right `n` columns, not past the last column.
    #[verifier::opaque]
    pub open spec fn cursor_forward(self, n: int) -> TermState {
        self.with_col(
            if self.grid.cursor_col + n < self.grid.cols - 1 {
                self.grid.cursor_col + n
            } else {
                self.grid.cols - 1
            },
        )
    }

    /// CUB: left `n` columns, not past column 0.
    #[verifier::opaque]
    pub open spec fn cursor_back(self, n: int) -> TermState {
        self.with_col(
            if self.grid.cursor_col - n > 0 {
                self.grid.cursor_col - n
            } else {
                0
            },
        )
    }

    /// CNL: to the start of the line `n` rows down.
    #[verifier::opaque]
    pub open spec fn cursor_next_line(self, n: int) -> TermState {
        self.with_cursor(
            if self.grid.cursor_row + n < self.grid.rows - 1 {
                self.grid.cursor_row + n
            } else {
                self.grid.rows - 1
            },
            0,
        )
    }

    /// CPL: to the start of the line `n` rows up.
    #[verifier::opaque]
    pub open spec fn cursor_prev_line(self, n: int) -> TermState {
        self.with_cursor(
            if self.grid.cursor_row - n > 0 {
                self.grid.cursor_row - n
            } else {
                0
            },
            0,
        )
    }

    /// CHA and HPA: to column `col`, counted from 1.
    #[verifier::opaque]
    pub open spec fn cursor_to_col(self, col: int) -> TermState {
        self.with_col(
            if col - 1 < self.grid.cols - 1 {
                col - 1
            } else {
                self.grid.cols - 1
            },
        )
    }

    /// VPA: to row `row`, counted from 1.
    #[verifier::opaque]
    pub open spec fn cursor_to_row(self, row: int) -> TermState {
        self.with_row(
            if row - 1 < self.grid.rows - 1 {
                row - 1
            } else {
                self.grid.rows - 1
            },
        )
    }

    /// CUP and HVP: to `(row, col)`, counted from 1. In origin mode rows
    /// count from the scroll region's top and end at its bottom.
    #[verifier::opaque]
    pub open spec fn cursor_to(self, row: int, col: int) -> TermState {
        let last = if self.origin_mode {
            self.scroll_bottom
        } else {
            self.grid.rows - 1
        };
        let offset = if self.origin_mode {
            self.scroll_top
        } else {
            0
        };
        self.cursor_to_col(col).with_row(
            if offset + row - 1 < last {
                offset + row - 1
            } else {
                last
            },
        )
    }

    /// ECH: `n` cells from the cursor on are blanked, within the row.
    #[verifier::opaque]
    pub open spec fn erase_chars(self, n: int) -> TermState {
        self.with_grid(
            self.grid.blank_range(
                self.grid.cursor_row,
                self.grid.cursor_col,
                if self.grid.cursor_col + n < self.grid.cols {
                    self.grid.cursor_col + n
                } else {
                    self.grid.cols
                },
            ),
        )
    }

    /// REP: the character to the left of the cursor printed `n` times; at
    /// column 0 nothing.
    #[verifier::opaque]
    pub open spec fn repeat(self, n: int) -> TermState {
        if self.grid.cursor_col > 0 {
            self.print_n(self.grid.cell(self.grid.cursor_row, self.grid.cursor_col - 1).ch, n)
        } else {
            self
        }
    }

    /// DECSTBM: the scroll region becomes rows `top ..= bottom`, counted
    /// from 1 and held within the grid, and the cursor goes home: to the
    /// region's top in origin mode, else to row 0. A region whose top would
    /// lie below its bottom is not set.
    #[verifier::opaque]
    pub open spec fn set_scroll_region(self, top: int, bottom: int) -> TermState {
        let last = self.grid.rows - 1;
        let t = if top - 1 < last {
            top - 1
        } else {
            last
        };
        let b = if bottom - 1 < last {
            bottom - 1
        } else {
            last
        };
        if t <= b {
            TermState { scroll_top: t, scroll_bottom: b, ..self }.with_cursor(
                if self.origin_mode {
                    t
                } else {
                    0
                },
                0,
            )
        } else {
            self
        }
    }

    /// TBC: 0 clears the stop at the cursor, 3 clears all.
    #[verifier::opaque]
    pub open spec fn clear_tabs(self, what: int) -> TermState {
        if what == 0 {
            if self.grid.cursor_col < self.tab_stops.len() {
                TermState {
                    tab_stops: self.tab_stops.update(self.grid.cursor_col, false),
                    ..self
                }
            } else {
                self
            }
        } else if what == 3 {
            TermState { tab_stops: Seq::new(self.tab_stops.len(), |i: int| false), ..self }
        } else {
            self
        }
    }

    /// ED: 0 erases from the cursor to the end of the screen, 1 from the
    /// start of the screen to the cursor, 2 and 3 the whole screen, which
    /// also homes the cursor.
    #[verifier::opaque]
    pub open spec fn erase_display(self, mode: int) -> TermState {
        if mode == 0 {
            self.with_grid(self.grid.erase_below())
        } else if mode == 1 {
            self.with_grid(self.grid.erase_above())
        } else if mode == 2 || mode == 3 {
            self.with_grid(self.grid.clear())
        } else {
            self
        }
    }

    /// EL: 0 erases from the cursor to the end of the line, 1 from the start
    /// of the line to the cursor, 2 the whole line.
    #[verifier::opaque]
    pub open spec fn erase_in_line(self, mode: int) -> TermState {
        if mode == 0 {
            self.with_grid(self.grid.erase_line_right())
        } else if mode == 1 {
            self.with_grid(self.grid.erase_line_left())
        } else if mode == 2 {
            self.with_grid(self.grid.erase_line())
        } else {
            self
        }
    }

    /// DSR: 6 is answered with the cursor's position, 5 (not private) with
    /// the status.
    #[verifier::opaque]
    pub open spec fn report(self, mode: int, private: bool) -> TermState {
        if mode == 6 {
            self.reply(cursor_report(private, self.grid.cursor_row, self.grid.cursor_col))
        } else if mode == 5 && !private {
            self.reply(status_report())
        } else {
            self
        }
    }

    /// Whether the final byte of a CSI sequence moves the cursor:
    /// `A B C D E F G H I Z`, `` ` ``, `d` and `f`.
    pub open spec fn moves_cursor(final_byte: u8) -> bool {
        0x41 <= final_byte <= 0x49 || final_byte == 0x5a || final_byte == 0x60 || final_byte
            == 0x64 || final_byte == 0x66
    }

    /// Whether the final byte of a CSI sequence edits the grid:
    /// `@ J K L M P S T X b`.
    pub open spec fn edits_grid(final_byte: u8) -> bool {
        final_byte == 0x40 || 0x4a <= final_byte <= 0x4d || final_byte == 0x50 || final_byte
            == 0x53 || final_byte == 0x54 || final_byte == 0x58 || final_byte == 0x62
    }

    /// The cursor movements of CSI. `n` is the first parameter, 1 where it
    /// is missing or 0, `m` the second.
    #[verifier::opaque]
    pub open spec fn csi_cursor(self, final_byte: u8, n: int, m: int) -> TermState {
        if final_byte == 0x41 {
            self.cursor_up(n)
        } else if final_byte == 0x42 {
            self.cursor_down(n)
        } else if final_byte == 0x43 {
            self.cursor_forward(n)
        } else if final_byte == 0x44 {
            self.cursor_back(n)
        } else if final_byte == 0x45 {
            self.cursor_next_line(n)
        } else if final_byte == 0x46 {
            self.cursor_prev_line(n)
        } else if final_byte == 0x47 || final_byte == 0x60 {
            self.cursor_to_col(n)
        } else if final_byte == 0x48 || final_byte == 0x66 {
            self.cursor_to(n, m)
        } else if final_byte == 0x64 {
            self.cursor_to_row(n)
        } else if final_byte == 0x49 {
            self.with_col(next_tab_n(self.tab_stops, self.grid.cursor_col, n))
        } else if final_byte == 0x5a {
            self.with_col(prev_tab_n(self.tab_stops, self.grid.cursor_col, n))
        } else {
            self
        }
    }

    /// The edits of CSI. `n` is the first parameter, 1 where it is missing
    /// or 0; `mode` is the first parameter, 0 where it is missing. A private
    /// `S` does nothing.
    #[verifier::opaque]
    pub open spec fn csi_edit(self, final_byte: u8, n: int, mode: int, private: bool) -> TermState {
        if final_byte == 0x4a {
            self.erase_display(mode)
        } else if final_byte == 0x4b {
            self.erase_in_line(mode)
        } else if final_byte == 0x58 {
            self.erase_chars(n)
        } else if final_byte == 0x4c {
            self.with_grid(self.grid.insert_lines(self.grid.cursor_row, n, self.scroll_bottom))
        } else if final_byte == 0x4d {
            self.with_grid(self.grid.delete_lines(self.grid.cursor_row, n, self.scroll_bottom))
        } else if final_byte == 0x50 {
            self.with_grid(self.grid.delete_chars(n))
        } else if final_byte == 0x40 {
            self.with_grid(self.grid.insert_chars(n))
        } else if final_byte == 0x53 {
            if private {
                self
            } else {
                self.scroll_up_n(n)
            }
        } else if final_byte == 0x54 {
            self.scroll_down_n(n)
        } else if final_byte == 0x62 {
            self.repeat(n)
        } else {
            self
        }
    }

    /// The rest of CSI: SGR, the scroll region, the modes, save and restore,
    /// the reports and the tab stops.
    #[verifier::opaque]
    pub open spec fn csi_control(
        self,
        final_byte: u8,
        params: Seq<u16>,
        private: bool,
    ) -> TermState {
        let mode = param_or(params, 0, 0);
        if final_byte == 0x6d {
            TermState { pen: self.pen.sgr(params), ..self }
        } else if final_byte == 0x72 && !private {
            self.set_scroll_region(param_or(params, 0, 1), param_or(params, 1, self.grid.rows))
        } else if final_byte == 0x68 && private {
            self.set_dec_mode(params, true)
        } else if final_byte == 0x6c && private {
            self.set_dec_mode(params, false)
        } else if final_byte == 0x73 && !private {
            self.save_cursor()
        } else if final_byte == 0x75 {
            self.restore_cursor()
        } else if final_byte == 0x6e {
            self.report(mode, private)
        } else if final_byte == 0x63 && !private && mode == 0 {
            self.reply(device_attributes())
        } else if final_byte == 0x67 {
            self.clear_tabs(mode)
        } else {
            self
        }
    }

    /// The terminal after a CSI sequence. A `?` as first intermediate makes
    /// the sequence private.
    #[verifier::opaque]
    pub open spec fn csi_dispatch(
        self,
        final_byte: u8,
        params: Seq<u16>,
        intermediates: Seq<u8>,
    ) -> TermState {
        let private = intermediates.len() > 0 && intermediates[0] == 0x3f;
        if TermState::moves_cursor(final_byte) {
            self.csi_cursor(final_byte, param_or(params, 0, 1), param_or(params, 1, 1))
        } else if TermState::edits_grid(final_byte) {
            self.csi_edit(final_byte, param_or(params, 0, 1), param_or(params, 0, 0), private)
        } else {
            self.csi_control(final_byte, params, private)
        }
    }

    /// DECALN: every cell holds `E` in the plain rendition.
    #[verifier::opaque]
    pub open spec fn alignment_test(self) -> TermState {
        self.with_grid(
            self.grid.fill(
                Cell {
                    ch: 'E',
                    attr: CellAttr::none(),
                    fg: Color::fg_default(),
                    bg: Color::bg_default(),
                },
            ),
        )
    }

    /// The terminal after an escape sequence. With `#` as the first
    /// intermediate only `8` acts. `c` makes the terminal new, at the size
    /// it has.
    #[verifier::opaque]
    pub open spec fn esc_dispatch(self, final_byte: u8, intermediates: Seq<u8>) -> TermState {
        if intermediates.len() > 0 && intermediates[0] == 0x23 {
            if final_byte == 0x38 {
                self.alignment_test()
            } else {
                self
            }
        } else if final_byte == 0x37 {
            self.save_cursor()
        } else if final_byte == 0x38 {
            self.restore_cursor()
        } else if final_byte == 0x4d {
            self.reverse_index()
        } else if final_byte == 0x44 {
            self.index()
        } else if final_byte == 0x45 {
            self.with_col(0).index()
        } else if final_byte == 0x48 {
            if self.grid.cursor_col < self.tab_stops.len() {
                TermState { tab_stops: self.tab_stops.update(self.grid.cursor_col, true), ..self }
            } else {
                self
            }
        } else if final_byte == 0x3d {
            TermState { keypad_app: true, ..self }
        } else if final_byte == 0x3e {
            TermState { keypad_app: false, ..self }
        } else if final_byte == 0x63 {
            TermState::fresh(self.grid.cols, self.grid.rows)
        } else {
            self
        }
    }

    /// The terminal after an OSC string whose text is `text`. `0;` and `2;`
    /// set the title, cut at [`title_cap`] characters. `7;` gives the working
    /// directory, `133;` a shell-integration marker, and `52;` a clipboard
    /// set, whose decoded text is kept; a clipboard query writes nothing.
    #[verifier::opaque]
    pub open spec fn osc_text(self, text: Seq<char>) -> TermState {
        if seq!['0', ';'].is_prefix_of(text) || seq!['2', ';'].is_prefix_of(text) {
            let rest = text.skip(2);
            TermState {
                title: if rest.len() > title_cap() {
                    rest.take(title_cap())
                } else {
                    rest
                },
                ..self
            }
        } else if seq!['7', ';'].is_prefix_of(text) {
            let url = text.skip(2);
            TermState { osc7_cwd: Some(url), shell: self.shell.osc7(url), ..self }
        } else if seq!['1', '3', '3', ';'].is_prefix_of(text) {
            let rest = text.skip(4);
            TermState {
                osc133_data: Some(rest),
                shell: self.shell.osc133(rest, self.grid.cursor_row as usize),
                ..self
            }
        } else if seq!['5', '2', ';'].is_prefix_of(text) {
            match osc52_text(text) {
                Some(data) => TermState { osc52_data: Some(data), ..self },
                None => self,
            }
        } else {
            self
        }
    }

    /// The terminal after an action of the parser. An OSC payload is taken
    /// as text first, ill-formed UTF-8 replaced.
    #[verifier::opaque]
    pub open spec fn handle_action(self, action: ActionView) -> TermState {
        match action {
            ActionView::Print(ch) => self.print(ch),
            ActionView::Execute(byte) => self.execute(byte),
            ActionView::CsiDispatch { final_byte, params, intermediates } => self.csi_dispatch(
                final_byte,
                params,
                intermediates,
            ),
            ActionView::EscDispatch { final_byte, intermediates } => self.esc_dispatch(
                final_byte,
                intermediates,
            ),
            ActionView::OscDispatch(data) => self.osc_text(lossy_text(data)),
            ActionView::Nothing => self,
        }
    }

    /// The terminal and the parser after one byte. The parser reports a byte
    /// from 0x80 on, met on the ground, as a replacement character; such a
    /// byte goes through the UTF-8 decoder, and what it completes is printed.
    #[verifier::opaque]
    pub open spec fn feed_byte(self, parser: ParserState, byte: u8) -> (TermState, ParserState) {
        let (after, action) = parser.advance(byte);
        if action == ActionView::Print(replacement()) && byte >= 0x80 {
            let (utf8, decoded) = self.utf8.feed(byte);
            let fed = TermState { utf8, ..self };
            match decoded {
                Some(ch) => (fed.print(ch), after),
                None => (fed, after),
            }
        } else {
            (self.handle_action(action), after)
        }
    }

    /// The terminal and the parser after the bytes of `data`, in order.
    pub open spec fn feed(self, parser: ParserState, data: Seq<u8>) -> (TermState, ParserState)
        decreases data.len(),
    {
        if data.len() == 0 {
            (self, parser)
        } else {
            let (term, before) = self.feed(parser, data.drop_last());
            term.feed_byte(before, data.last())
        }
    }

    /// The pen's colors replaced.
    pub open spec fn set_default_colors(self, fg: Color, bg: Color) -> TermState {
        TermState { pen: Pen { fg, bg, ..self.pen }, ..self }
    }

    /// The terminal resized: the grid shown and the one held back take the
    /// new size, the scroll region is the whole grid, and the tab stops are
    /// the default ones.
    #[verifier::opaque]
    pub open spec fn resize(self, cols: int, rows: int) -> TermState {
        TermState {
            grid: self.grid.resize(cols, rows),
            alt_grid: match self.alt_grid {
                Some(g) => Some(g.resize(cols, rows)),
                None => None,
            },
            scroll_top: 0,
            scroll_bottom: rows - 1,
            tab_stops: default_tabs(cols),
            ..self
        }
    }
}

} // verus!
