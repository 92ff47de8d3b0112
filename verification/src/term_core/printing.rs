//! What printing leaves on the grid.
use super::grid::Cell;
use super::laws::lemma_index_shape;
use super::state::{Pen, TermState};
use super::utf8::width_of;
use super::wellformed::lemma_print_wf;
use vstd::prelude::*;

verus! {

/// A glyph of two columns is written as a pair: where the grid has two
/// columns or more, printing a character of width 2 leaves the character in
/// one cell and NUL in the cell to its right, both with the pen's rendition.
/// The pair stands where the cursor is once a pending wrap is settled and
/// room is made.
pub proof fn lemma_wide_glyph_pair(term: TermState, ch: char)
    requires
        term.wf(),
        width_of(ch) == 2,
        term.grid.cols >= 2,
    ensures
        ({
            let at = term.settle_wrap().make_room().grid;
            let after = term.print(ch).grid;
            &&& 0 <= at.cursor_row < after.rows
            &&& 0 <= at.cursor_col
            &&& at.cursor_col + 1 < after.cols
            &&& after.cell(at.cursor_row, at.cursor_col) == (Cell {
                ch,
                attr: term.pen.attr,
                fg: term.pen.fg,
                bg: term.pen.bg,
            })
            &&& after.cell(at.cursor_row, at.cursor_col + 1) == (Cell {
                ch: '\0',
                attr: term.pen.attr,
                fg: term.pen.fg,
                bg: term.pen.bg,
            })
        }),
{
    reveal(TermState::print);
    reveal(TermState::settle_wrap);
    let settled = term.settle_wrap();
    assert(settled.wf() && settled.grid.cursor_col < settled.grid.cols && settled.pen == term.pen
        && settled.grid.cols == term.grid.cols) by {
        if term.grid.cursor_col >= term.grid.cols && term.auto_wrap {
            lemma_index_shape(term.with_col(0));
        }
    }
    reveal(TermState::make_room);
    reveal(TermState::put);
    let roomy = settled.make_room();
    assert(roomy.wf() && roomy.grid.cursor_col + 1 < roomy.grid.cols && roomy.pen == term.pen
        && roomy.grid.cols == term.grid.cols) by {
        if settled.grid.cursor_col + 1 >= settled.grid.cols && settled.auto_wrap {
            let padded = settled.put(' ');
            assert(padded.with_col(0).wf());
            lemma_index_shape(padded.with_col(0));
        }
    }
    let placed = roomy.put(ch);
    reveal(TermState::put_trailer);
    reveal(TermState::hold_margin);
    let wide = placed.put_trailer();
    assert(wide == placed.put('\0'));
}

/// Whether the parser, on the ground, prints the character rather than
/// carrying it out as a control or dropping it as DEL.
pub open spec fn is_printed(c: char) -> bool {
    c as u32 >= 0x20 && c as u32 != 0x7f
}

/// The terminal after printing the characters of `chars`, in order.
pub open spec fn print_all(term: TermState, chars: Seq<char>) -> TermState
    decreases chars.len(),
{
    if chars.len() == 0 {
        term
    } else {
        print_all(term.print(chars[0]), chars.drop_first())
    }
}

/// What printing a character of one column does when no wrap is pending:
/// the character stands at the cursor with the pen's rendition, nothing else
/// on the grid changes, and the cursor is one column on; without auto-wrap
/// it does not leave the last column.
pub proof fn lemma_print_narrow(term: TermState, ch: char)
    requires
        term.wf(),
        width_of(ch) == 1,
        term.grid.cursor_col < term.grid.cols,
    ensures
        term.print(ch) == term.with_grid(
            term.grid.with_cell(
                term.grid.cursor_row,
                term.grid.cursor_col,
                Cell { ch, attr: term.pen.attr, fg: term.pen.fg, bg: term.pen.bg },
            ).with_cursor(
                term.grid.cursor_row,
                if !term.auto_wrap && term.grid.cursor_col + 1 >= term.grid.cols {
                    term.grid.cols - 1
                } else {
                    term.grid.cursor_col + 1
                },
            ),
        ),
{
    reveal(TermState::print);
    reveal(TermState::settle_wrap);
    reveal(TermState::put);
    reveal(TermState::hold_margin);
}

/// What printing a character of two columns does when two columns are
/// left: the character stands at the cursor and NUL in the cell to its
/// right, both with the pen's rendition; nothing else on the grid changes,
/// and the cursor is two columns on; without auto-wrap it does not leave the
/// last column.
pub proof fn lemma_print_wide(term: TermState, ch: char)
    requires
        term.wf(),
        width_of(ch) == 2,
        term.grid.cursor_col + 2 <= term.grid.cols,
    ensures
        term.print(ch) == term.with_grid(
            term.grid.with_cell(
                term.grid.cursor_row,
                term.grid.cursor_col,
                Cell { ch, attr: term.pen.attr, fg: term.pen.fg, bg: term.pen.bg },
            ).with_cell(
                term.grid.cursor_row,
                term.grid.cursor_col + 1,
                Cell { ch: '\0', attr: term.pen.attr, fg: term.pen.fg, bg: term.pen.bg },
            ).with_cursor(
                term.grid.cursor_row,
                if !term.auto_wrap && term.grid.cursor_col + 2 >= term.grid.cols {
                    term.grid.cols - 1
                } else {
                    term.grid.cursor_col + 2
                },
            ),
        ),
{
    reveal(TermState::print);
    reveal(TermState::settle_wrap);
    reveal(TermState::make_room);
    reveal(TermState::put);
    reveal(TermState::put_trailer);
    reveal(TermState::hold_margin);
}

/// The cells that a character takes when printed with a pen: the character,
/// and NUL after it where it is two columns wide.
pub open spec fn glyph_cells(ch: char, pen: Pen) -> Seq<Cell> {
    let cell = Cell { ch, attr: pen.attr, fg: pen.fg, bg: pen.bg };
    if width_of(ch) == 2 {
        seq![cell, Cell { ch: '\0', attr: pen.attr, fg: pen.fg, bg: pen.bg }]
    } else {
        seq![cell]
    }
}

/// A glyph takes as many cells as it is wide.
proof fn lemma_glyph_cells(ch: char, pen: Pen)
    requires
        width_of(ch) != 0,
    ensures
        glyph_cells(ch, pen).len() == width_of(ch),
        glyph_cells(ch, pen)[0] == (Cell { ch, attr: pen.attr, fg: pen.fg, bg: pen.bg }),
        width_of(ch) == 2 ==> glyph_cells(ch, pen)[1] == (Cell {
            ch: '\0',
            attr: pen.attr,
            fg: pen.fg,
            bg: pen.bg,
        }),
{
}

/// The cells that a text takes when printed with a pen.
pub open spec fn text_cells(chars: Seq<char>, pen: Pen) -> Seq<Cell>
    decreases chars.len(),
{
    if chars.len() == 0 {
        Seq::empty()
    } else {
        glyph_cells(chars[0], pen) + text_cells(chars.drop_first(), pen)
    }
}

/// Text that fits on the cursor's row is printed in cell order: where no
/// character is of width 0 and the cells of the text fit between the cursor
/// and the end of its row, the row holds these cells from the cursor on,
/// every other cell of the grid is as it was, and the cursor stays on the
/// row, with auto-wrap right after the text.
pub proof fn lemma_print_all_on_row(term: TermState, chars: Seq<char>)
    requires
        term.wf(),
        forall|i: int| 0 <= i < chars.len() ==> width_of(#[trigger] chars[i]) != 0,
        term.grid.cursor_col + text_cells(chars, term.pen).len() <= term.grid.cols,
    ensures
        ({
            let after = print_all(term, chars);
            let image = text_cells(chars, term.pen);
            let row = term.grid.cursor_row;
            let col = term.grid.cursor_col;
            &&& after.wf()
            &&& after.grid.cols == term.grid.cols
            &&& after.grid.rows == term.grid.rows
            &&& after.grid.cursor_row == row
            &&& (term.auto_wrap ==> after.grid.cursor_col == col + image.len())
            &&& forall|r: int, c: int|
                0 <= r < term.grid.rows && 0 <= c < term.grid.cols ==> #[trigger] after.grid.cell(
                    r,
                    c,
                ) == (if r == row && col <= c < col + image.len() {
                    image[c - col]
                } else {
                    term.grid.cell(r, c)
                })
        }),
    decreases chars.len(),
{
    if chars.len() > 0 {
        let ch = chars[0];
        let rest = chars.drop_first();
        let head = glyph_cells(ch, term.pen);
        let tail = text_cells(rest, term.pen);
        let image = text_cells(chars, term.pen);
        let row = term.grid.cursor_row;
        let col = term.grid.cursor_col;
        assert(image == head + tail);
        assert(width_of(ch) != 0);
        lemma_glyph_cells(ch, term.pen);
        lemma_print_wf(term, ch);
        let next = term.print(ch);
        if width_of(ch) == 2 {
            lemma_print_wide(term, ch);
        } else {
            lemma_print_narrow(term, ch);
        }
        assert(forall|i: int| 0 <= i < rest.len() ==> width_of(#[trigger] rest[i]) != 0) by {
            assert forall|i: int| 0 <= i < rest.len() implies width_of(#[trigger] rest[i])
                != 0 by {
                assert(rest[i] == chars[i + 1]);
            }
        }
        if rest.len() == 0 {
            assert(tail.len() == 0);
            assert(print_all(next, rest) == next);
            assert(image =~= head);
        } else {
            assert(tail.len() >= 1) by {
                assert(tail == glyph_cells(rest[0], term.pen) + text_cells(
                    rest.drop_first(),
                    term.pen,
                ));
                assert(width_of(rest[0]) != 0);
                lemma_glyph_cells(rest[0], term.pen);
            }
            assert(next.grid.cursor_col == col + head.len());
            lemma_print_all_on_row(next, rest);
        }
        let after = print_all(term, chars);
        assert forall|r: int, c: int|
            0 <= r < term.grid.rows && 0 <= c < term.grid.cols implies #[trigger] after.grid.cell(
            r,
            c,
        ) == (if r == row && col <= c < col + image.len() {
            image[c - col]
        } else {
            term.grid.cell(r, c)
        }) by {
            assert(next.grid.cell(r, c) == (if r == row && col <= c < col + head.len() {
                head[c - col]
            } else {
                term.grid.cell(r, c)
            }));
            if r == row && col + head.len() <= c < col + image.len() {
                assert(image[c - col] == tail[c - col - head.len()]);
            }
        }
    }
}

} // verus!
