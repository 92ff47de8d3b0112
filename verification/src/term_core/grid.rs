//! The character grid: cells, cursor and scrollback, with the primitive edits
//! that the terminal handler builds on.
//!
//! Every operation is specified by a function of the same name on
//! [`GridState`], the mathematical value of a [`Grid`]. The functions that
//! move rows or cells are opaque: a proof that needs the body of one reveals
//! it, as in `reveal(GridState::scroll_region_up)`.
use vstd::prelude::*;

verus! {

/// A 24-bit RGB color.
#[derive(Debug, Clone, Copy, PartialEq, Eq, Structural)]
pub struct Color {
    pub r: u8,
    pub g: u8,
    pub b: u8,
}

impl Color {
    /// The foreground that a cell has until a color is selected.
    pub open spec fn fg_default() -> Color {
        Color { r: 204, g: 204, b: 204 }
    }

    /// The background that a cell has until a color is selected.
    pub open spec fn bg_default() -> Color {
        Color { r: 0, g: 0, b: 0 }
    }

    #[verifier::when_used_as_spec(fg_default)]
    pub fn default_fg() -> (c: Color)
        ensures
            c == Color::fg_default(),
    {
        Color { r: 204, g: 204, b: 204 }
    }

    #[verifier::when_used_as_spec(bg_default)]
    pub fn default_bg() -> (c: Color)
        ensures
            c == Color::bg_default(),
    {
        Color { r: 0, g: 0, b: 0 }
    }

    /// The color as one number, `0x00RRGGBB`.
    pub fn packed(&self) -> (n: u32)
        ensures
            n == self.r * 0x10000 + self.g * 0x100 + self.b,
    {
        self.r as u32 * 0x10000 + self.g as u32 * 0x100 + self.b as u32
    }
}

/// A set of text attributes, one bit for each.
#[derive(Debug, Clone, Copy, PartialEq, Eq, Structural)]
pub struct CellAttr {
    pub bits: u8,
}

impl CellAttr {
    pub const BOLD_BIT: u8 = 0b0000_0001;

    pub const ITALIC_BIT: u8 = 0b0000_0010;

    pub const UNDERLINE_BIT: u8 = 0b0000_0100;

    pub const INVERSE_BIT: u8 = 0b0000_1000;

    pub const STRIKETHROUGH_BIT: u8 = 0b0001_0000;

    pub const DIM_BIT: u8 = 0b0010_0000;

    pub const HIDDEN_BIT: u8 = 0b0100_0000;

    /// The set that holds no attribute.
    pub open spec fn none() -> CellAttr {
        CellAttr { bits: 0 }
    }

    /// Whether every attribute of `other` is in `self`.
    pub open spec fn has(&self, other: CellAttr) -> bool {
        self.bits & other.bits == other.bits
    }

    /// The union of the two sets.
    pub open spec fn with(self, other: CellAttr) -> CellAttr {
        CellAttr { bits: self.bits | other.bits }
    }

    /// `self` without the attributes of `other`.
    pub open spec fn without(self, other: CellAttr) -> CellAttr {
        CellAttr { bits: self.bits & !other.bits }
    }

    #[verifier::when_used_as_spec(none)]
    pub fn empty() -> (a: CellAttr)
        ensures
            a == CellAttr::none(),
    {
        CellAttr { bits: 0 }
    }

    pub fn bold() -> (a: CellAttr)
        ensures
            a.bits == CellAttr::BOLD_BIT,
    {
        CellAttr { bits: Self::BOLD_BIT }
    }

    pub fn italic() -> (a: CellAttr)
        ensures
            a.bits == CellAttr::ITALIC_BIT,
    {
        CellAttr { bits: Self::ITALIC_BIT }
    }

    pub fn underline() -> (a: CellAttr)
        ensures
            a.bits == CellAttr::UNDERLINE_BIT,
    {
        CellAttr { bits: Self::UNDERLINE_BIT }
    }

    pub fn inverse() -> (a: CellAttr)
        ensures
            a.bits == CellAttr::INVERSE_BIT,
    {
        CellAttr { bits: Self::INVERSE_BIT }
    }

    pub fn strikethrough() -> (a: CellAttr)
        ensures
            a.bits == CellAttr::STRIKETHROUGH_BIT,
    {
        CellAttr { bits: Self::STRIKETHROUGH_BIT }
    }

    pub fn dim() -> (a: CellAttr)
        ensures
            a.bits == CellAttr::DIM_BIT,
    {
        CellAttr { bits: Self::DIM_BIT }
    }

    pub fn hidden() -> (a: CellAttr)
        ensures
            a.bits == CellAttr::HIDDEN_BIT,
    {
        CellAttr { bits: Self::HIDDEN_BIT }
    }

    /// The attributes as a bit pattern.
    pub fn bits(&self) -> (b: u8)
        ensures
            b == self.bits,
    {
        self.bits
    }

    pub fn is_empty(&self) -> (b: bool)
        ensures
            b == (*self == CellAttr::none()),
    {
        self.bits == 0
    }

    #[verifier::when_used_as_spec(has)]
    pub fn contains(&self, other: CellAttr) -> (b: bool)
        ensures
            b == self.has(other),
    {
        self.bits & other.bits == other.bits
    }

    pub fn insert(&mut self, other: CellAttr)
        ensures
            *final(self) == old(self).with(other),
    {
        self.bits = self.bits | other.bits;
    }

    pub fn remove(&mut self, other: CellAttr)
        ensures
            *final(self) == old(self).without(other),
    {
        self.bits = self.bits & !other.bits;
    }
}

/// One grid position. A `ch` of NUL marks the second column of a wide glyph.
#[derive(Debug, Clone, Copy)]
pub struct Cell {
    pub ch: char,
    pub attr: CellAttr,
    pub fg: Color,
    pub bg: Color,
}

impl Cell {
    /// The cell of an empty position: a space in the default colors.
    pub open spec fn blank() -> Cell {
        Cell { ch: ' ', attr: CellAttr::none(), fg: Color::fg_default(), bg: Color::bg_default() }
    }
}

impl Default for Cell {
    fn default() -> (c: Cell)
        ensures
            c == Cell::blank(),
    {
        Cell { ch: ' ', attr: CellAttr::empty(), fg: Color::default_fg(), bg: Color::default_bg() }
    }
}

/// The mathematical value of a [`Grid`]: `cells[r][c]` is the cell in row `r`,
/// column `c`; `scrollback` holds the lines that left the top, oldest first.
pub struct GridState {
    pub cols: int,
    pub rows: int,
    pub cells: Seq<Seq<Cell>>,
    pub scrollback: Seq<Seq<Cell>>,
    pub scrollback_max: int,
    pub cursor_row: int,
    pub cursor_col: int,
}

/// A row of `cols` blank cells.
pub open spec fn blank_row(cols: int) -> Seq<Cell> {
    Seq::new(cols as nat, |c: int| Cell::blank())
}

impl GridState {
    /// The cells form a `rows` by `cols` rectangle, the cursor is on a row and
    /// at most one column past the last (the pending wrap), and the scrollback
    /// is within its bound.
    pub open spec fn wf(self) -> bool {
        &&& self.rows >= 1
        &&& self.cols >= 1
        &&& self.cells.len() == self.rows
        &&& forall|r: int| 0 <= r < self.rows ==> (#[trigger] self.cells[r]).len() == self.cols
        &&& 0 <= self.cursor_row < self.rows
        &&& 0 <= self.cursor_col <= self.cols
        &&& 0 <= self.scrollback_max
        &&& self.scrollback.len() <= self.scrollback_max
    }

    /// A blank grid with the cursor at the origin and no scrollback.
    pub open spec fn fresh(cols: int, rows: int) -> GridState {
        GridState {
            cols,
            rows,
            cells: Seq::new(rows as nat, |r: int| blank_row(cols)),
            scrollback: Seq::empty(),
            scrollback_max: 10_000,
            cursor_row: 0,
            cursor_col: 0,
        }
    }

    pub open spec fn cell(self, row: int, col: int) -> Cell {
        self.cells[row][col]
    }

    pub open spec fn with_cell(self, row: int, col: int, cell: Cell) -> GridState {
        GridState { cells: self.cells.update(row, self.cells[row].update(col, cell)), ..self }
    }

    pub open spec fn with_cursor(self, row: int, col: int) -> GridState {
        GridState { cursor_row: row, cursor_col: col, ..self }
    }

    /// Columns `from..to` of `row` blanked.
    #[verifier::opaque]
    pub open spec fn blank_range(self, row: int, from: int, to: int) -> GridState {
        GridState {
            cells: self.cells.update(
                row,
                Seq::new(
                    self.cols as nat,
                    |c: int|
                        if from <= c < to {
                            Cell::blank()
                        } else {
                            self.cells[row][c]
                        },
                ),
            ),
            ..self
        }
    }

    /// Rows `from..to` blanked.
    #[verifier::opaque]
    pub open spec fn blank_rows(self, from: int, to: int) -> GridState {
        GridState {
            cells: Seq::new(
                self.rows as nat,
                |r: int|
                    if from <= r < to {
                        blank_row(self.cols)
                    } else {
                        self.cells[r]
                    },
            ),
            ..self
        }
    }

    /// Every cell replaced by `cell`.
    #[verifier::opaque]
    pub open spec fn fill(self, cell: Cell) -> GridState {
        GridState {
            cells: Seq::new(
                self.rows as nat,
                |r: int| Seq::new(self.cols as nat, |c: int| cell),
            ),
            ..self
        }
    }

    /// The grid with the bound of its scrollback set to `max`: where more
    /// lines are held, the oldest ones leave.
    pub open spec fn with_scrollback_max(self, max: int) -> GridState {
        GridState {
            scrollback_max: max,
            scrollback: if self.scrollback.len() > max {
                self.scrollback.skip(self.scrollback.len() - max)
            } else {
                self.scrollback
            },
            ..self
        }
    }

    /// `line` appended to the scrollback, the oldest line dropped when the
    /// bound is passed.
    #[verifier::opaque]
    pub open spec fn push_scrollback(self, line: Seq<Cell>) -> GridState {
        let pushed = self.scrollback.push(line);
        GridState {
            scrollback: if pushed.len() > self.scrollback_max {
                pushed.remove(0)
            } else {
                pushed
            },
            ..self
        }
    }

    /// Rows `top + 1 ..= bottom` move up by one and row `bottom` is blanked.
    /// The row that leaves goes to the scrollback when `top` is 0.
    #[verifier::opaque]
    pub open spec fn scroll_region_up(self, top: int, bottom: int) -> GridState {
        let kept = if top == 0 {
            self.push_scrollback(self.cells[0])
        } else {
            self
        };
        GridState { cells: self.cells.remove(top).insert(bottom, blank_row(self.cols)), ..kept }
    }

    /// Rows `top .. bottom` move down by one and row `top` is blanked.
    #[verifier::opaque]
    pub open spec fn scroll_region_down(self, top: int, bottom: int) -> GridState {
        GridState { cells: self.cells.remove(bottom).insert(top, blank_row(self.cols)), ..self }
    }

    pub open spec fn newline(self) -> GridState {
        let moved = if self.cursor_row + 1 >= self.rows {
            self.scroll_region_up(0, self.rows - 1)
        } else {
            GridState { cursor_row: self.cursor_row + 1, ..self }
        };
        GridState { cursor_col: 0, ..moved }
    }

    pub open spec fn put_char(self, ch: char, attr: CellAttr, fg: Color, bg: Color) -> GridState {
        let g = if self.cursor_col >= self.cols {
            self.newline()
        } else {
            self
        };
        GridState {
            cursor_col: g.cursor_col + 1,
            ..g.with_cell(g.cursor_row, g.cursor_col, Cell { ch, attr, fg, bg })
        }
    }

    #[verifier::opaque]
    pub open spec fn resize(self, cols: int, rows: int) -> GridState {
        GridState {
            cols,
            rows,
            cells: Seq::new(
                rows as nat,
                |r: int|
                    Seq::new(
                        cols as nat,
                        |c: int|
                            if r < self.rows && c < self.cols {
                                self.cells[r][c]
                            } else {
                                Cell::blank()
                            },
                    ),
            ),
            cursor_row: if self.cursor_row < rows {
                self.cursor_row
            } else {
                rows - 1
            },
            cursor_col: if self.cursor_col < cols {
                self.cursor_col
            } else {
                cols - 1
            },
            ..self
        }
    }

    pub open spec fn clear(self) -> GridState {
        GridState { cursor_row: 0, cursor_col: 0, ..self.blank_rows(0, self.rows) }
    }

    pub open spec fn erase_line_right(self) -> GridState {
        self.blank_range(self.cursor_row, self.cursor_col, self.cols)
    }

    pub open spec fn erase_line_left(self) -> GridState {
        self.blank_range(self.cursor_row, 0, self.cursor_col + 1)
    }

    pub open spec fn erase_line(self) -> GridState {
        self.blank_range(self.cursor_row, 0, self.cols)
    }

    pub open spec fn erase_below(self) -> GridState {
        self.erase_line_right().blank_rows(self.cursor_row + 1, self.rows)
    }

    pub open spec fn erase_above(self) -> GridState {
        self.blank_rows(0, self.cursor_row).erase_line_left()
    }

    /// Within rows `at ..= bottom`, each row moves down by `n`; the first `n`
    /// rows of the range are blank, and what passes `bottom` is lost.
    #[verifier::opaque]
    pub open spec fn insert_lines(self, at: int, n: int, bottom: int) -> GridState {
        GridState {
            cells: Seq::new(
                self.rows as nat,
                |r: int|
                    if at <= r <= bottom {
                        if r - n >= at {
                            self.cells[r - n]
                        } else {
                            blank_row(self.cols)
                        }
                    } else {
                        self.cells[r]
                    },
            ),
            ..self
        }
    }

    /// Within rows `at ..= bottom`, each row moves up by `n`; the last `n`
    /// rows of the range are blank.
    #[verifier::opaque]
    pub open spec fn delete_lines(self, at: int, n: int, bottom: int) -> GridState {
        GridState {
            cells: Seq::new(
                self.rows as nat,
                |r: int|
                    if at <= r <= bottom {
                        if r + n <= bottom {
                            self.cells[r + n]
                        } else {
                            blank_row(self.cols)
                        }
                    } else {
                        self.cells[r]
                    },
            ),
            ..self
        }
    }

    /// In the cursor's row, the cells from the cursor on move left by `n`;
    /// blanks come in at the right.
    #[verifier::opaque]
    pub open spec fn delete_chars(self, n: int) -> GridState {
        let row = self.cells[self.cursor_row];
        GridState {
            cells: self.cells.update(
                self.cursor_row,
                Seq::new(
                    self.cols as nat,
                    |c: int|
                        if c < self.cursor_col {
                            row[c]
                        } else if c + n < self.cols {
                            row[c + n]
                        } else {
                            Cell::blank()
                        },
                ),
            ),
            ..self
        }
    }

    /// In the cursor's row, the cells from the cursor on move right by `n`;
    /// `n` blanks come in at the cursor.
    #[verifier::opaque]
    pub open spec fn insert_chars(self, n: int) -> GridState {
        let row = self.cells[self.cursor_row];
        GridState {
            cells: self.cells.update(
                self.cursor_row,
                Seq::new(
                    self.cols as nat,
                    |c: int|
                        if c < self.cursor_col {
                            row[c]
                        } else if c - n >= self.cursor_col {
                            row[c - n]
                        } else {
                            Cell::blank()
                        },
                ),
            ),
            ..self
        }
    }
}

/// A fixed rectangle of cells with a cursor and a bounded scrollback.
pub struct Grid {
    pub cols: usize,
    pub rows: usize,
    pub cells: Vec<Vec<Cell>>,
    pub scrollback: Vec<Vec<Cell>>,
    pub scrollback_max: usize,
    pub cursor_row: usize,
    pub cursor_col: usize,
}

/// The lines of a vector of rows.
pub open spec fn lines_of(rows: Seq<Vec<Cell>>) -> Seq<Seq<Cell>> {
    Seq::new(rows.len(), |r: int| rows[r]@)
}

impl View for Grid {
    type V = GridState;

    open spec fn view(&self) -> GridState {
        GridState {
            cols: self.cols as int,
            rows: self.rows as int,
            cells: lines_of(self.cells@),
            scrollback: lines_of(self.scrollback@),
            scrollback_max: self.scrollback_max as int,
            cursor_row: self.cursor_row as int,
            cursor_col: self.cursor_col as int,
        }
    }
}

fn make_blank_row(cols: usize) -> (row: Vec<Cell>)
    ensures
        row@ == blank_row(cols as int),
{
    let mut row: Vec<Cell> = Vec::with_capacity(cols);
    let mut c: usize = 0;
    while c < cols
        invariant
            c <= cols,
            row@.len() == c,
            forall|i: int| 0 <= i < c ==> row@[i] == Cell::blank(),
        decreases cols - c,
    {
        row.push(Cell::default());
        c += 1;
    }
    assert(row@ =~= blank_row(cols as int));
    row
}

impl Grid {
    /// The grid's invariant: [`GridState::wf`], stated of the stored rows.
    pub open spec fn wf(&self) -> bool {
        &&& self.rows >= 1
        &&& self.cols >= 1
        &&& self.cells@.len() == self.rows
        &&& forall|r: int| 0 <= r < self.rows ==> (#[trigger] self.cells@[r])@.len() == self.cols
        &&& self.cursor_row < self.rows
        &&& self.cursor_col <= self.cols
        &&& self.scrollback@.len() <= self.scrollback_max
    }

    /// Whether `self` and `other` agree on everything but the cells.
    pub open spec fn same_frame(&self, other: &Grid) -> bool {
        &&& self.cols == other.cols
        &&& self.rows == other.rows
        &&& self.scrollback == other.scrollback
        &&& self.scrollback_max == other.scrollback_max
        &&& self.cursor_row == other.cursor_row
        &&& self.cursor_col == other.cursor_col
    }

    /// Whether `self` and `other` agree on size, cursor and scrollback bound.
    pub open spec fn same_shape(&self, other: &Grid) -> bool {
        &&& self.cols == other.cols
        &&& self.rows == other.rows
        &&& self.scrollback_max == other.scrollback_max
        &&& self.cursor_row == other.cursor_row
        &&& self.cursor_col == other.cursor_col
    }

    /// A grid is well formed exactly when its value is.
    pub proof fn lemma_wf_view(&self)
        ensures
            self.wf() <==> self@.wf(),
    {
        if self@.wf() {
            assert forall|r: int| 0 <= r < self.rows implies (#[trigger] self.cells@[r])@.len()
                == self.cols by {
                assert(self@.cells[r].len() == self.cols);
            }
        }
        if self.wf() {
            assert forall|r: int| 0 <= r < self@.rows implies (#[trigger] self@.cells[r]).len()
                == self@.cols by {
                assert(self.cells@[r]@.len() == self.cols);
            }
        }
    }

    /// A blank grid of `cols` by `rows` cells.
    pub fn new(cols: usize, rows: usize) -> (g: Grid)
        requires
            cols >= 1,
            rows >= 1,
        ensures
            g.wf(),
            g@ == GridState::fresh(cols as int, rows as int),
    {
        let mut cells: Vec<Vec<Cell>> = Vec::with_capacity(rows);
        let mut r: usize = 0;
        while r < rows
            invariant
                r <= rows,
                cells@.len() == r,
                forall|i: int| 0 <= i < r ==> (#[trigger] cells@[i])@ == blank_row(cols as int),
            decreases rows - r,
        {
            cells.push(make_blank_row(cols));
            r += 1;
        }
        let g = Grid {
            cols,
            rows,
            cells,
            scrollback: Vec::new(),
            scrollback_max: 10_000,
            cursor_row: 0,
            cursor_col: 0,
        };
        assert(g@.cells =~= GridState::fresh(cols as int, rows as int).cells);
        assert(g@.scrollback =~= Seq::<Seq<Cell>>::empty());
        g
    }

    pub fn cols(&self) -> (n: usize)
        ensures
            n == self@.cols,
    {
        self.cols
    }

    pub fn rows(&self) -> (n: usize)
        ensures
            n == self@.rows,
    {
        self.rows
    }

    /// Sets the number of lines that the scrollback may hold.
    pub fn set_scrollback_max(&mut self, max: usize)
        requires
            old(self).wf(),
        ensures
            final(self).wf(),
            final(self)@ == old(self)@.with_scrollback_max(max as int),
            final(self).cells == old(self).cells,
            final(self).cols == old(self).cols,
            final(self).rows == old(self).rows,
            final(self).cursor_row == old(self).cursor_row,
            final(self).cursor_col == old(self).cursor_col,
    {
        let len = self.scrollback.len();
        if len > max {
            let kept = self.scrollback.split_off(len - max);
            self.scrollback = kept;
        }
        self.scrollback_max = max;
        assert(self@.scrollback =~= old(self)@.with_scrollback_max(max as int).scrollback);
    }

    /// The lines that scrolled off the top, oldest first.
    pub fn scrollback(&self) -> (lines: &Vec<Vec<Cell>>)
        ensures
            lines_of(lines@) == self@.scrollback,
    {
        &self.scrollback
    }

    pub fn cell(&self, row: usize, col: usize) -> (cell: &Cell)
        requires
            self.wf(),
            row < self.rows,
            col < self.cols,
        ensures
            *cell == self@.cell(row as int, col as int),
    {
        &self.cells[row][col]
    }

    pub fn cell_mut(&mut self, row: usize, col: usize) -> (cell: &mut Cell)
        requires
            old(self).wf(),
            row < old(self).rows,
            col < old(self).cols,
        ensures
            *cell == old(self)@.cell(row as int, col as int),
            final(self)@ == old(self)@.with_cell(row as int, col as int, *final(cell)),
            final(self).wf(),
    {
        proof {
            assert forall|g: Grid|
                g.same_frame(self) && g.cells@ == self.cells@.update(
                    row as int,
                    g.cells@[row as int],
                ) && g.cells@[row as int]@ == self.cells@[row as int]@.update(
                    col as int,
                    g.cells@[row as int]@[col as int],
                ) implies #[trigger] g@ == self@.with_cell(
                row as int,
                col as int,
                g.cells@[row as int]@[col as int],
            ) by {
                assert(g@.cells =~= self@.with_cell(
                    row as int,
                    col as int,
                    g.cells@[row as int]@[col as int],
                ).cells);
            }
        }
        &mut self.cells[row][col]
    }

    /// Stores `cell` at `(row, col)`.
    pub fn set_cell(&mut self, row: usize, col: usize, cell: Cell)
        requires
            old(self).wf(),
            row < old(self).rows,
            col < old(self).cols,
        ensures
            final(self).wf(),
            final(self)@ == old(self)@.with_cell(row as int, col as int, cell),
            final(self).same_frame(old(self)),
            final(self).cells@.len() == old(self).cells@.len(),
            forall|r: int|
                0 <= r < old(self).rows && r != row ==> #[trigger] final(self).cells@[r] == old(
                    self,
                ).cells@[r],
            final(self).cells@[row as int]@ == old(self).cells@[row as int]@.update(
                col as int,
                cell,
            ),
            final(self).same_shape(old(self)),
    {
        self.cells[row][col] = cell;
        assert(self@.cells =~= old(self)@.with_cell(row as int, col as int, cell).cells);
    }

    /// Blanks columns `from..to` of `row`.
    pub fn fill_blank(&mut self, row: usize, from: usize, to: usize)
        requires
            old(self).wf(),
            row < old(self).rows,
            to <= old(self).cols,
        ensures
            final(self).wf(),
            final(self)@ == old(self)@.blank_range(row as int, from as int, to as int),
            final(self).same_shape(old(self)),
    {
        proof {
            reveal(GridState::blank_range);
        }
        let mut c: usize = from;
        while c < to
            invariant
                self.wf(),
                row < self.rows,
                to <= self.cols,
                from <= c,
                c <= to || c == from,
                self.same_frame(old(self)),
                forall|r: int|
                    0 <= r < self.rows && r != row ==> #[trigger] self.cells@[r] == old(
                        self,
                    ).cells@[r],
                forall|j: int|
                    0 <= j < self.cols ==> #[trigger] self.cells@[row as int]@[j] == (if from <= j
                        < c {
                        Cell::blank()
                    } else {
                        old(self).cells@[row as int]@[j]
                    }),
            decreases to - c,
        {
            self.set_cell(row, c, Cell::default());
            c += 1;
        }
        assert(self@.cells =~~= old(self)@.blank_range(row as int, from as int, to as int).cells);
    }

    /// Blanks rows `from..to`.
    pub fn fill_blank_rows(&mut self, from: usize, to: usize)
        requires
            old(self).wf(),
            to <= old(self).rows,
        ensures
            final(self).wf(),
            final(self)@ == old(self)@.blank_rows(from as int, to as int),
            final(self).same_shape(old(self)),
    {
        proof {
            reveal(GridState::blank_rows);
        }
        let mut r: usize = from;
        while r < to
            invariant
                self.wf(),
                to <= self.rows,
                from <= r,
                r <= to || r == from,
                self.same_frame(old(self)),
                forall|i: int|
                    0 <= i < self.rows ==> #[trigger] self.cells@[i]@ == (if from <= i < r {
                        blank_row(self.cols as int)
                    } else {
                        old(self).cells@[i]@
                    }),
            decreases to - r,
        {
            let blank = make_blank_row(self.cols);
            self.cells[r] = blank;
            r += 1;
        }
        assert(self@.cells =~~= old(self)@.blank_rows(from as int, to as int).cells);
    }

    /// Stores `cell` at every position.
    pub fn fill(&mut self, cell: Cell)
        requires
            old(self).wf(),
        ensures
            final(self).wf(),
            final(self)@ == old(self)@.fill(cell),
            final(self).same_shape(old(self)),
    {
        proof {
            reveal(GridState::fill);
        }
        let mut r: usize = 0;
        while r < self.rows
            invariant
                self.wf(),
                r <= self.rows,
                self.same_frame(old(self)),
                forall|i: int|
                    0 <= i < r ==> #[trigger] self.cells@[i]@ == Seq::new(
                        self.cols as nat,
                        |c: int| cell,
                    ),
            decreases self.rows - r,
        {
            let mut line: Vec<Cell> = Vec::with_capacity(self.cols);
            let mut c: usize = 0;
            while c < self.cols
                invariant
                    c <= self.cols,
                    line@.len() == c,
                    forall|j: int| 0 <= j < c ==> line@[j] == cell,
                decreases self.cols - c,
            {
                line.push(cell);
                c += 1;
            }
            assert(line@ =~= Seq::new(self.cols as nat, |c: int| cell));
            self.cells[r] = line;
            r += 1;
        }
        assert(self@.cells =~= old(self)@.fill(cell).cells);
    }

    /// Writes a character at the cursor and advances the cursor by one column.
    /// A cursor in the pending-wrap column first moves to the next line.
    pub fn put_char(&mut self, ch: char, attr: CellAttr, fg: Color, bg: Color)
        requires
            old(self).wf(),
        ensures
            final(self).wf(),
            final(self)@ == old(self)@.put_char(ch, attr, fg, bg),
            final(self).cols == old(self).cols,
            final(self).rows == old(self).rows,
            final(self).scrollback_max == old(self).scrollback_max,
            final(self).cursor_col >= 1,
    {
        if self.cursor_col >= self.cols {
            self.newline();
        }
        let row = self.cursor_row;
        let col = self.cursor_col;
        self.set_cell(row, col, Cell { ch, attr, fg, bg });
        self.cursor_col += 1;
    }

    /// Moves the cursor to the start of the next line; at the last row the
    /// whole grid scrolls up instead.
    pub fn newline(&mut self)
        requires
            old(self).wf(),
        ensures
            final(self).wf(),
            final(self)@ == old(self)@.newline(),
            final(self).cols == old(self).cols,
            final(self).rows == old(self).rows,
            final(self).scrollback_max == old(self).scrollback_max,
    {
        if self.cursor_row + 1 >= self.rows {
            self.scroll_up();
        } else {
            self.cursor_row += 1;
        }
        self.cursor_col = 0;
    }

    fn scroll_up(&mut self)
        requires
            old(self).wf(),
        ensures
            final(self).wf(),
            final(self)@ == old(self)@.scroll_region_up(0, old(self)@.rows - 1),
            final(self).same_shape(old(self)),
    {
        let bottom = self.rows - 1;
        self.scroll_region_up(0, bottom);
    }

    /// Resizes to `cols` by `rows`, keeping what fits from the top left and
    /// clamping the cursor into the new rectangle. The scrollback is kept.
    pub fn resize(&mut self, cols: usize, rows: usize)
        requires
            old(self).wf(),
            cols >= 1,
            rows >= 1,
        ensures
            final(self).wf(),
            final(self)@ == old(self)@.resize(cols as int, rows as int),
            final(self).cols == cols,
            final(self).rows == rows,
    {
        proof {
            reveal(GridState::resize);
        }
        let mut cells: Vec<Vec<Cell>> = Vec::with_capacity(rows);
        let mut r: usize = 0;
        while r < rows
            invariant
                self.wf(),
                *self == *old(self),
                r <= rows,
                cells@.len() == r,
                forall|i: int|
                    0 <= i < r ==> (#[trigger] cells@[i])@ == old(self)@.resize(
                        cols as int,
                        rows as int,
                    ).cells[i],
            decreases rows - r,
        {
            let mut line: Vec<Cell> = Vec::with_capacity(cols);
            let mut c: usize = 0;
            while c < cols
                invariant
                    self.wf(),
                    r < rows,
                    c <= cols,
                    line@.len() == c,
                    forall|j: int|
                        0 <= j < c ==> #[trigger] line@[j] == (if r < self.rows && j < self.cols {
                            self.cells@[r as int]@[j]
                        } else {
                            Cell::blank()
                        }),
                decreases cols - c,
            {
                if r < self.rows && c < self.cols {
                    line.push(self.cells[r][c]);
                } else {
                    line.push(Cell::default());
                }
                c += 1;
            }
            assert(line@ =~= old(self)@.resize(cols as int, rows as int).cells[r as int]) by {
                reveal(GridState::resize);
            }
            cells.push(line);
            r += 1;
        }
        self.cells = cells;
        self.cols = cols;
        self.rows = rows;
        if self.cursor_row >= rows {
            self.cursor_row = rows - 1;
        }
        if self.cursor_col >= cols {
            self.cursor_col = cols - 1;
        }
        assert(self@.cells =~= old(self)@.resize(cols as int, rows as int).cells);
        assert forall|i: int| 0 <= i < self.rows implies (#[trigger] self.cells@[i])@.len()
            == self.cols by {
            assert(self.cells@[i]@ == old(self)@.resize(cols as int, rows as int).cells[i]);
        }
    }

    /// Blanks every cell and homes the cursor. The scrollback is kept.
    pub fn clear(&mut self)
        requires
            old(self).wf(),
        ensures
            final(self).wf(),
            final(self)@ == old(self)@.clear(),
            final(self).cols == old(self).cols,
            final(self).rows == old(self).rows,
            final(self).scrollback_max == old(self).scrollback_max,
    {
        let rows = self.rows;
        self.fill_blank_rows(0, rows);
        self.cursor_row = 0;
        self.cursor_col = 0;
    }

    /// Erases from the cursor to the end of the screen.
    pub fn erase_below(&mut self)
        requires
            old(self).wf(),
        ensures
            final(self).wf(),
            final(self)@ == old(self)@.erase_below(),
            final(self).same_shape(old(self)),
    {
        self.erase_line_right();
        let from = self.cursor_row + 1;
        let rows = self.rows;
        self.fill_blank_rows(from, rows);
    }

    /// Erases from the start of the screen to the cursor, inclusive.
    pub fn erase_above(&mut self)
        requires
            old(self).wf(),
        ensures
            final(self).wf(),
            final(self)@ == old(self)@.erase_above(),
            final(self).same_shape(old(self)),
    {
        let to = self.cursor_row;
        self.fill_blank_rows(0, to);
        self.erase_line_left();
    }

    /// Erases from the cursor to the end of its line.
    pub fn erase_line_right(&mut self)
        requires
            old(self).wf(),
        ensures
            final(self).wf(),
            final(self)@ == old(self)@.erase_line_right(),
            final(self).same_shape(old(self)),
    {
        let row = self.cursor_row;
        let from = self.cursor_col;
        let to = self.cols;
        self.fill_blank(row, from, to);
    }

    /// Erases from the start of the line to the cursor, inclusive.
    pub fn erase_line_left(&mut self)
        requires
            old(self).wf(),
        ensures
            final(self).wf(),
            final(self)@ == old(self)@.erase_line_left(),
            final(self).same_shape(old(self)),
    {
        proof {
            reveal(GridState::blank_range);
        }
        let row = self.cursor_row;
        let to = if self.cursor_col < self.cols {
            self.cursor_col + 1
        } else {
            self.cols
        };
        self.fill_blank(row, 0, to);
        assert(self@.cells =~~= old(self)@.erase_line_left().cells);
    }

    /// Erases the cursor's line.
    pub fn erase_line(&mut self)
        requires
            old(self).wf(),
        ensures
            final(self).wf(),
            final(self)@ == old(self)@.erase_line(),
            final(self).same_shape(old(self)),
    {
        let row = self.cursor_row;
        let to = self.cols;
        self.fill_blank(row, 0, to);
    }

    fn push_scrollback(&mut self, line: Vec<Cell>)
        requires
            old(self).wf(),
        ensures
            final(self).wf(),
            final(self)@ == old(self)@.push_scrollback(line@),
            final(self).same_shape(old(self)),
    {
        proof {
            reveal(GridState::push_scrollback);
        }
        self.scrollback.push(line);
        if self.scrollback.len() > self.scrollback_max {
            let _ = self.scrollback.remove(0);
        }
        assert(self@.scrollback =~= old(self)@.push_scrollback(line@).scrollback);
    }

    /// Scrolls rows `top ..= bottom` up by one line.
    pub fn scroll_region_up(&mut self, top: usize, bottom: usize)
        requires
            old(self).wf(),
            top <= bottom < old(self).rows,
        ensures
            final(self).wf(),
            final(self)@ == old(self)@.scroll_region_up(top as int, bottom as int),
            final(self).same_shape(old(self)),
    {
        proof {
            reveal(GridState::scroll_region_up);
            reveal(GridState::push_scrollback);
        }
        let line = self.cells.remove(top);
        let blank = make_blank_row(self.cols);
        self.cells.insert(bottom, blank);
        assert(self@.cells =~= old(self)@.cells.remove(top as int).insert(
            bottom as int,
            blank_row(self.cols as int),
        ));
        if top == 0 {
            self.push_scrollback(line);
        }
    }

    /// Scrolls rows `top ..= bottom` down by one line.
    pub fn scroll_region_down(&mut self, top: usize, bottom: usize)
        requires
            old(self).wf(),
            top <= bottom < old(self).rows,
        ensures
            final(self).wf(),
            final(self)@ == old(self)@.scroll_region_down(top as int, bottom as int),
            final(self).same_shape(old(self)),
    {
        proof {
            reveal(GridState::scroll_region_down);
        }
        let _ = self.cells.remove(bottom);
        let blank = make_blank_row(self.cols);
        self.cells.insert(top, blank);
        assert(self@.cells =~= old(self)@.cells.remove(bottom as int).insert(
            top as int,
            blank_row(self.cols as int),
        ));
    }

    /// Inserts `n` blank lines at row `at`, pushing the rows down to `bottom`.
    pub fn insert_lines(&mut self, at: usize, n: usize, bottom: usize)
        requires
            old(self).wf(),
            bottom < old(self).rows,
        ensures
            final(self).wf(),
            final(self)@ == old(self)@.insert_lines(at as int, n as int, bottom as int),
            final(self).same_shape(old(self)),
    {
        proof {
            reveal(GridState::insert_lines);
            reveal(GridState::scroll_region_down);
        }
        assert(old(self)@.cells =~= old(self)@.insert_lines(at as int, 0, bottom as int).cells);
        if at > bottom {
            assert(self@.cells =~= old(self)@.insert_lines(
                at as int,
                n as int,
                bottom as int,
            ).cells);
            return ;
        }
        let height = bottom - at + 1;
        let count = if n < height {
            n
        } else {
            height
        };
        let mut i: usize = 0;
        while i < count
            invariant
                self.wf(),
                old(self).wf(),
                at <= bottom < self.rows,
                i <= count <= bottom - at + 1,
                self@ == old(self)@.insert_lines(at as int, i as int, bottom as int),
            decreases count - i,
        {
            self.scroll_region_down(at, bottom);
            i += 1;
            proof {
                reveal(GridState::insert_lines);
                reveal(GridState::scroll_region_down);
            }
            assert(self@.cells =~= old(self)@.insert_lines(
                at as int,
                i as int,
                bottom as int,
            ).cells);
        }
        assert(self@.cells =~= old(self)@.insert_lines(at as int, n as int, bottom as int).cells);
    }

    /// Deletes `n` lines at row `at`, pulling up the rows down to `bottom`.
    pub fn delete_lines(&mut self, at: usize, n: usize, bottom: usize)
        requires
            old(self).wf(),
            bottom < old(self).rows,
        ensures
            final(self).wf(),
            final(self)@ == old(self)@.delete_lines(at as int, n as int, bottom as int),
            final(self).same_shape(old(self)),
    {
        proof {
            reveal(GridState::delete_lines);
        }
        assert(old(self)@.cells =~= old(self)@.delete_lines(at as int, 0, bottom as int).cells);
        if at > bottom {
            assert(self@.cells =~= old(self)@.delete_lines(
                at as int,
                n as int,
                bottom as int,
            ).cells);
            return ;
        }
        let height = bottom - at + 1;
        let count = if n < height {
            n
        } else {
            height
        };
        let mut i: usize = 0;
        while i < count
            invariant
                self.wf(),
                old(self).wf(),
                at <= bottom < self.rows,
                i <= count <= bottom - at + 1,
                self@ == old(self)@.delete_lines(at as int, i as int, bottom as int),
            decreases count - i,
        {
            let ghost before = self@;
            proof {
                reveal(GridState::delete_lines);
            }
            let _ = self.cells.remove(at);
            let blank = make_blank_row(self.cols);
            self.cells.insert(bottom, blank);
            i += 1;
            assert(self@.cells =~= before.cells.remove(at as int).insert(
                bottom as int,
                blank_row(self.cols as int),
            ));
            assert(self@.cells =~= old(self)@.delete_lines(
                at as int,
                i as int,
                bottom as int,
            ).cells);
        }
        assert(self@.cells =~= old(self)@.delete_lines(at as int, n as int, bottom as int).cells);
    }

    /// Deletes `n` characters at the cursor, shifting the rest of the line left.
    pub fn delete_chars(&mut self, n: usize)
        requires
            old(self).wf(),
        ensures
            final(self).wf(),
            final(self)@ == old(self)@.delete_chars(n as int),
            final(self).same_shape(old(self)),
    {
        proof {
            reveal(GridState::delete_chars);
        }
        let row = self.cursor_row;
        let col = self.cursor_col;
        let cols = self.cols;
        let mut c: usize = col;
        while c < cols
            invariant
                self.wf(),
                old(self).wf(),
                self.same_frame(old(self)),
                row == self.cursor_row,
                col == self.cursor_col,
                cols == self.cols,
                col <= c,
                forall|r: int|
                    0 <= r < self.rows && r != row ==> #[trigger] self.cells@[r] == old(
                        self,
                    ).cells@[r],
                forall|j: int|
                    0 <= j < cols ==> #[trigger] self.cells@[row as int]@[j] == (if col <= j < c {
                        if j + n < cols {
                            old(self).cells@[row as int]@[j + n]
                        } else {
                            Cell::blank()
                        }
                    } else {
                        old(self).cells@[row as int]@[j]
                    }),
            decreases cols - c,
        {
            let src = if n < cols - c {
                self.cells[row][c + n]
            } else {
                Cell::default()
            };
            self.set_cell(row, c, src);
            c += 1;
        }
        assert(self@.cells =~~= old(self)@.delete_chars(n as int).cells);
    }

    /// Inserts `n` blank characters at the cursor, shifting the rest of the
    /// line right.
    pub fn insert_chars(&mut self, n: usize)
        requires
            old(self).wf(),
        ensures
            final(self).wf(),
            final(self)@ == old(self)@.insert_chars(n as int),
            final(self).same_shape(old(self)),
    {
        proof {
            reveal(GridState::insert_chars);
        }
        let row = self.cursor_row;
        let col = self.cursor_col;
        let cols = self.cols;
        let mut c: usize = cols;
        while c > col
            invariant
                self.wf(),
                old(self).wf(),
                self.same_frame(old(self)),
                row == self.cursor_row,
                col == self.cursor_col,
                cols == self.cols,
                col <= c <= cols,
                forall|r: int|
                    0 <= r < self.rows && r != row ==> #[trigger] self.cells@[r] == old(
                        self,
                    ).cells@[r],
                forall|j: int|
                    0 <= j < cols ==> #[trigger] self.cells@[row as int]@[j] == (if c <= j {
                        if j - n >= col {
                            old(self).cells@[row as int]@[j - n]
                        } else {
                            Cell::blank()
                        }
                    } else {
                        old(self).cells@[row as int]@[j]
                    }),
            decreases c,
        {
            c -= 1;
            let src = if c - col >= n {
                self.cells[row][c - n]
            } else {
                Cell::default()
            };
            self.set_cell(row, c, src);
        }
        assert(self@.cells =~~= old(self)@.insert_chars(n as int).cells);
    }
}

} // verus!
