//! Text selection: the range that is selected, and the text in it.
use crate::term_core::{Cell, Grid, GridState};
use crate::text::{string_from_chars, trim_end, trimmed_end};
use vstd::prelude::*;

verus! {

#[derive(Debug, Clone, Copy, PartialEq, Eq, Structural)]
pub struct SelectionPoint {
    pub row: usize,
    pub col: usize,
}

#[derive(Debug, Clone, Copy, PartialEq, Eq, Structural)]
pub enum SelectionMode {
    Normal,
    Word,
    Line,
}

pub struct Selection {
    pub start: Option<SelectionPoint>,
    pub end: Option<SelectionPoint>,
    pub mode: SelectionMode,
    pub active: bool,
}

/// Whether `a` comes before `b` in reading order, or is `b`.
pub open spec fn precedes(a: SelectionPoint, b: SelectionPoint) -> bool {
    a.row < b.row || (a.row == b.row && a.col <= b.col)
}

/// The characters of the cells `from..until` of a line, without the NULs
/// that stand for the second column of a wide glyph.
pub open spec fn line_chars(line: Seq<Cell>, from: int, until: int) -> Seq<char>
    decreases until - from,
{
    if until <= from {
        Seq::empty()
    } else {
        let rest = line_chars(line, from, until - 1);
        if line[until - 1].ch == '\0' {
            rest
        } else {
            rest.push(line[until - 1].ch)
        }
    }
}

/// The text of the selection from `start` to `end` down to row `row`: each
/// row gives its selected cells, and each row before the last one ends with
/// the trailing white space of the text so far removed and a line feed.
pub open spec fn text_through(
    grid: GridState,
    start: SelectionPoint,
    end: SelectionPoint,
    row: int,
) -> Seq<char>
    decreases row - start.row + 1,
{
    if row < start.row {
        Seq::empty()
    } else {
        let from = if row == start.row {
            start.col as int
        } else {
            0
        };
        let to = if row == end.row && end.col < grid.cols - 1 {
            end.col as int
        } else {
            grid.cols - 1
        };
        let text = text_through(grid, start, end, row - 1) + line_chars(
            grid.cells[row],
            from,
            to + 1,
        );
        if row < end.row {
            trimmed_end(text).push('\n')
        } else {
            text
        }
    }
}

impl Selection {
    /// The two ends in reading order, where both are set.
    pub open spec fn ordered(&self) -> Option<(SelectionPoint, SelectionPoint)> {
        match (self.start, self.end) {
            (Some(s), Some(e)) => if precedes(s, e) {
                Some((s, e))
            } else {
                Some((e, s))
            },
            _ => None,
        }
    }

    /// Whether the cell at `(row, col)` is selected. In line mode whole rows
    /// are; else the first row counts from the start's column on and the
    /// last row up to the end's column.
    pub open spec fn covers(&self, row: usize, col: usize) -> bool {
        match self.ordered() {
            None => false,
            Some((start, end)) => if self.mode == SelectionMode::Line {
                start.row <= row <= end.row
            } else {
                &&& start.row <= row <= end.row
                &&& (row == start.row ==> col >= start.col)
                &&& (row == end.row ==> col <= end.col)
            },
        }
    }

    /// The selected text of `grid`.
    pub open spec fn text_in(&self, grid: GridState) -> Seq<char> {
        match self.ordered() {
            None => Seq::empty(),
            Some((start, end)) => text_through(
                grid,
                start,
                end,
                if end.row < grid.rows - 1 {
                    end.row as int
                } else {
                    grid.rows - 1
                },
            ),
        }
    }

    pub fn new() -> (s: Selection)
        ensures
            s.start is None,
            s.end is None,
            s.mode == SelectionMode::Normal,
            !s.active,
    {
        Selection { start: None, end: None, mode: SelectionMode::Normal, active: false }
    }

    /// Starts a selection at a cell.
    pub fn begin(&mut self, row: usize, col: usize, mode: SelectionMode)
        ensures
            final(self).start == Some(SelectionPoint { row, col }),
            final(self).end == Some(SelectionPoint { row, col }),
            final(self).mode == mode,
            final(self).active,
    {
        self.start = Some(SelectionPoint { row, col });
        self.end = Some(SelectionPoint { row, col });
        self.mode = mode;
        self.active = true;
    }

    /// Moves the end of an active selection.
    pub fn update(&mut self, row: usize, col: usize)
        ensures
            final(self).start == old(self).start,
            final(self).mode == old(self).mode,
            final(self).active == old(self).active,
            final(self).end == (if old(self).active {
                Some(SelectionPoint { row, col })
            } else {
                old(self).end
            }),
    {
        if self.active {
            self.end = Some(SelectionPoint { row, col });
        }
    }

    pub fn clear(&mut self)
        ensures
            final(self).start is None,
            final(self).end is None,
            !final(self).active,
            final(self).mode == old(self).mode,
    {
        self.start = None;
        self.end = None;
        self.active = false;
    }

    /// Returns (start, end) normalized so start <= end.
    pub fn normalized(&self) -> (r: Option<(SelectionPoint, SelectionPoint)>)
        ensures
            r == self.ordered(),
    {
        match (self.start, self.end) {
            (Some(s), Some(e)) => {
                if s.row < e.row || (s.row == e.row && s.col <= e.col) {
                    Some((s, e))
                } else {
                    Some((e, s))
                }
            },
            _ => None,
        }
    }

    /// Check if a cell is within the selection.
    pub fn contains(&self, row: usize, col: usize) -> (b: bool)
        ensures
            b == self.covers(row, col),
    {
        let (start, end) = match self.normalized() {
            Some(ends) => ends,
            None => {
                return false;
            },
        };
        match self.mode {
            SelectionMode::Line => row >= start.row && row <= end.row,
            _ => {
                if row < start.row || row > end.row {
                    false
                } else if start.row == end.row {
                    col >= start.col && col <= end.col
                } else if row == start.row {
                    col >= start.col
                } else if row == end.row {
                    col <= end.col
                } else {
                    true
                }
            },
        }
    }

    /// Extract selected text from grid.
    pub fn get_text(&self, grid: &Grid) -> (text: String)
        requires
            grid.wf(),
        ensures
            text@ == self.text_in(grid@),
    {
        let (start, end) = match self.normalized() {
            Some(ends) => ends,
            None => {
                return String::new();
            },
        };
        let mut text: Vec<char> = Vec::new();
        let last_row = if end.row < grid.rows() - 1 {
            end.row
        } else {
            grid.rows() - 1
        };
        if start.row > last_row {
            return string_from_chars(&text);
        }
        let mut row: usize = start.row;
        while row <= last_row
            invariant
                grid.wf(),
                start.row <= row <= last_row + 1,
                last_row < grid.rows,
                last_row <= end.row,
                text@ == text_through(grid@, start, end, row - 1),
            decreases last_row + 1 - row,
        {
            let from = if row == start.row {
                start.col
            } else {
                0
            };
            let to = if row == end.row && end.col < grid.cols() - 1 {
                end.col
            } else {
                grid.cols() - 1
            };
            let ghost before = text@;
            let mut col: usize = from;
            while col <= to
                invariant
                    grid.wf(),
                    row < grid.rows,
                    to < grid.cols,
                    from <= col,
                    col <= to + 1 || col == from,
                    text@ == before + line_chars(grid@.cells[row as int], from as int, col as int),
                decreases to + 1 - col,
            {
                let ch = grid.cell(row, col).ch;
                if ch != '\0' {
                    text.push(ch);
                }
                assert(text@ =~= before + line_chars(
                    grid@.cells[row as int],
                    from as int,
                    col + 1,
                ));
                col += 1;
            }
            if row < end.row {
                trim_end(&mut text);
                text.push('\n');
            }
            row += 1;
        }
        string_from_chars(&text)
    }
}

/// The text between two cells down to row `row`: each row gives its cells
/// from the start column (on the first row) up to but without the end column
/// (on the last row), and each row before the last one ends with the
/// trailing white space of the text so far removed and a line feed.
pub open spec fn span_through(
    grid: GridState,
    start: SelectionPoint,
    end: SelectionPoint,
    row: int,
) -> Seq<char>
    decreases row - start.row + 1,
{
    if row < start.row {
        Seq::empty()
    } else {
        let from = if row == start.row {
            start.col as int
        } else {
            0
        };
        let until = if row == end.row && end.col < grid.cols {
            end.col as int
        } else {
            grid.cols
        };
        let text = span_through(grid, start, end, row - 1) + line_chars(
            grid.cells[row],
            from,
            until,
        );
        if row != end.row {
            trimmed_end(text).push('\n')
        } else {
            text
        }
    }
}

/// The text of the grid from `start` up to but without `end`, without the
/// white space at its end.
pub open spec fn span_text(grid: GridState, start: SelectionPoint, end: SelectionPoint) -> Seq<
    char,
> {
    trimmed_end(
        span_through(
            grid,
            start,
            end,
            if end.row < grid.rows - 1 {
                end.row as int
            } else {
                grid.rows - 1
            },
        ),
    )
}

/// Extract text from grid between two positions.
pub fn extract_text(grid: &Grid, start: SelectionPoint, end: SelectionPoint) -> (text: String)
    requires
        grid.wf(),
    ensures
        text@ == span_text(grid@, start, end),
{
    let mut text: Vec<char> = Vec::new();
    let last_row = if end.row < grid.rows() - 1 {
        end.row
    } else {
        grid.rows() - 1
    };
    if start.row <= last_row {
        let mut row: usize = start.row;
        while row <= last_row
            invariant
                grid.wf(),
                start.row <= row <= last_row + 1,
                last_row < grid.rows,
                last_row <= end.row,
                text@ == span_through(grid@, start, end, row - 1),
            decreases last_row + 1 - row,
        {
            let from = if row == start.row {
                start.col
            } else {
                0
            };
            let until = if row == end.row && end.col < grid.cols() {
                end.col
            } else {
                grid.cols()
            };
            let ghost before = text@;
            let mut col: usize = from;
            while col < until
                invariant
                    grid.wf(),
                    row < grid.rows,
                    until <= grid.cols,
                    from <= col,
                    col <= until || col == from,
                    text@ == before + line_chars(grid@.cells[row as int], from as int, col as int),
                decreases until - col,
            {
                let ch = grid.cell(row, col).ch;
                if ch != '\0' {
                    text.push(ch);
                }
                assert(text@ =~= before + line_chars(
                    grid@.cells[row as int],
                    from as int,
                    col + 1,
                ));
                col += 1;
            }
            if row != end.row {
                trim_end(&mut text);
                text.push('\n');
            }
            row += 1;
        }
    }
    trim_end(&mut text);
    string_from_chars(&text)
}

impl Default for Selection {
    fn default() -> (s: Selection)
        ensures
            s.start is None,
            s.end is None,
            !s.active,
    {
        Selection::new()
    }
}

} // verus!
