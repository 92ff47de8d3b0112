//! The terminal's invariant holds of every state that feeding can reach:
//! each step that the handler takes keeps the state well formed.
use super::grid::{blank_row, Cell, CellAttr, Color, GridState};
use super::laws::{lemma_next_tab_in_row, lemma_scroll_region_up_shape};
use super::parser::{ActionView, ParserState};
use super::state::TermState;
use super::utf8::Utf8State;
use crate::shell_integration::ShellModel;
use vstd::prelude::*;

verus! {

/// The size of a grid and its cursor's place.
pub open spec fn same_shape(a: GridState, b: GridState) -> bool {
    &&& a.cols == b.cols
    &&& a.rows == b.rows
    &&& a.cursor_row == b.cursor_row
    &&& a.cursor_col == b.cursor_col
}

pub proof fn lemma_with_cell_wf(g: GridState, row: int, col: int, cell: Cell)
    requires
        g.wf(),
        0 <= row < g.rows,
        0 <= col < g.cols,
    ensures
        g.with_cell(row, col, cell).wf(),
        same_shape(g.with_cell(row, col, cell), g),
{
    let after = g.with_cell(row, col, cell);
    assert forall|r: int| 0 <= r < after.rows implies (#[trigger] after.cells[r]).len()
        == after.cols by {
        if r != row {
            assert(after.cells[r] == g.cells[r]);
        }
    }
}

pub proof fn lemma_blank_range_wf(g: GridState, row: int, from: int, to: int)
    requires
        g.wf(),
        0 <= row < g.rows,
    ensures
        g.blank_range(row, from, to).wf(),
        same_shape(g.blank_range(row, from, to), g),
{
    reveal(GridState::blank_range);
    let after = g.blank_range(row, from, to);
    assert forall|r: int| 0 <= r < after.rows implies (#[trigger] after.cells[r]).len()
        == after.cols by {
        if r != row {
            assert(after.cells[r] == g.cells[r]);
        }
    }
}

pub proof fn lemma_blank_rows_wf(g: GridState, from: int, to: int)
    requires
        g.wf(),
    ensures
        g.blank_rows(from, to).wf(),
        same_shape(g.blank_rows(from, to), g),
{
    reveal(GridState::blank_rows);
    let after = g.blank_rows(from, to);
    assert forall|r: int| 0 <= r < after.rows implies (#[trigger] after.cells[r]).len()
        == after.cols by {
        if !(from <= r < to) {
            assert(after.cells[r] == g.cells[r]);
        }
    }
}

pub proof fn lemma_fill_wf(g: GridState, cell: Cell)
    requires
        g.wf(),
    ensures
        g.fill(cell).wf(),
        same_shape(g.fill(cell), g),
{
    reveal(GridState::fill);
}

pub proof fn lemma_fresh_wf(cols: int, rows: int)
    requires
        cols >= 1,
        rows >= 1,
    ensures
        GridState::fresh(cols, rows).wf(),
        GridState::fresh(cols, rows).cols == cols,
        GridState::fresh(cols, rows).rows == rows,
{
}

pub proof fn lemma_resize_wf(g: GridState, cols: int, rows: int)
    requires
        g.wf(),
        cols >= 1,
        rows >= 1,
    ensures
        g.resize(cols, rows).wf(),
        g.resize(cols, rows).cols == cols,
        g.resize(cols, rows).rows == rows,
{
    reveal(GridState::resize);
}

pub proof fn lemma_scroll_region_down_wf(g: GridState, top: int, bottom: int)
    requires
        g.wf(),
        0 <= top <= bottom < g.rows,
    ensures
        g.scroll_region_down(top, bottom).wf(),
        same_shape(g.scroll_region_down(top, bottom), g),
{
    reveal(GridState::scroll_region_down);
    let after = g.scroll_region_down(top, bottom);
    assert forall|r: int| 0 <= r < after.rows implies (#[trigger] after.cells[r]).len()
        == after.cols by {
        if r < top {
            assert(after.cells[r] == g.cells[r]);
        } else if r == top {
            assert(after.cells[r] == blank_row(g.cols));
        } else if r <= bottom {
            assert(after.cells[r] == g.cells[r - 1]);
        } else {
            assert(after.cells[r] == g.cells[r]);
        }
    }
}

pub proof fn lemma_lines_wf(g: GridState, at: int, n: int, bottom: int)
    requires
        g.wf(),
        0 <= at,
        0 <= n,
        bottom < g.rows,
    ensures
        g.insert_lines(at, n, bottom).wf(),
        same_shape(g.insert_lines(at, n, bottom), g),
        g.delete_lines(at, n, bottom).wf(),
        same_shape(g.delete_lines(at, n, bottom), g),
{
    reveal(GridState::insert_lines);
    reveal(GridState::delete_lines);
}

pub proof fn lemma_chars_wf(g: GridState, n: int)
    requires
        g.wf(),
        0 <= n,
    ensures
        g.insert_chars(n).wf(),
        same_shape(g.insert_chars(n), g),
        g.delete_chars(n).wf(),
        same_shape(g.delete_chars(n), g),
{
    reveal(GridState::insert_chars);
    reveal(GridState::delete_chars);
    let a = g.insert_chars(n);
    assert forall|r: int| 0 <= r < a.rows implies (#[trigger] a.cells[r]).len() == a.cols by {
        if r != g.cursor_row {
            assert(a.cells[r] == g.cells[r]);
        }
    }
    let b = g.delete_chars(n);
    assert forall|r: int| 0 <= r < b.rows implies (#[trigger] b.cells[r]).len() == b.cols by {
        if r != g.cursor_row {
            assert(b.cells[r] == g.cells[r]);
        }
    }
}

pub proof fn lemma_put_char_wf(g: GridState, ch: char, attr: CellAttr, fg: Color, bg: Color)
    requires
        g.wf(),
    ensures
        g.put_char(ch, attr, fg, bg).wf(),
        g.put_char(ch, attr, fg, bg).cols == g.cols,
        g.put_char(ch, attr, fg, bg).rows == g.rows,
        g.cursor_col < g.cols ==> g.put_char(ch, attr, fg, bg).cursor_row == g.cursor_row
            && g.put_char(ch, attr, fg, bg).cursor_col == g.cursor_col + 1,
{
    lemma_scroll_region_up_shape(g, 0, g.rows - 1);
    let line = if g.cursor_col >= g.cols {
        g.newline()
    } else {
        g
    };
    lemma_with_cell_wf(line, line.cursor_row, line.cursor_col, Cell { ch, attr, fg, bg });
}

pub proof fn lemma_erase_wf(g: GridState)
    requires
        g.wf(),
    ensures
        g.erase_line_right().wf() && same_shape(g.erase_line_right(), g),
        g.erase_line_left().wf() && same_shape(g.erase_line_left(), g),
        g.erase_line().wf() && same_shape(g.erase_line(), g),
        g.erase_below().wf() && same_shape(g.erase_below(), g),
        g.erase_above().wf() && same_shape(g.erase_above(), g),
        g.clear().wf() && g.clear().cols == g.cols && g.clear().rows == g.rows,
{
    lemma_blank_range_wf(g, g.cursor_row, g.cursor_col, g.cols);
    lemma_blank_range_wf(g, g.cursor_row, 0, g.cursor_col + 1);
    lemma_blank_range_wf(g, g.cursor_row, 0, g.cols);
    lemma_blank_rows_wf(g.erase_line_right(), g.cursor_row + 1, g.rows);
    lemma_blank_rows_wf(g, 0, g.cursor_row);
    lemma_blank_range_wf(g.blank_rows(0, g.cursor_row), g.cursor_row, 0, g.cursor_col + 1);
    lemma_blank_rows_wf(g, 0, g.rows);
}

/// What a step may not touch for the invariant to go on holding: the
/// decoder, the grid that is held back, the tab stops, the scroll region and
/// the tracker.
pub open spec fn same_frame(a: TermState, b: TermState) -> bool {
    &&& a.utf8 == b.utf8
    &&& a.alt_grid == b.alt_grid
    &&& a.tab_stops == b.tab_stops
    &&& a.scroll_top == b.scroll_top
    &&& a.scroll_bottom == b.scroll_bottom
    &&& a.shell == b.shell
    &&& a.auto_wrap == b.auto_wrap
    &&& a.origin_mode == b.origin_mode
    &&& a.pen == b.pen
    &&& a.grid.cols == b.grid.cols
    &&& a.grid.rows == b.grid.rows
}

pub proof fn lemma_index_wf(t: TermState)
    requires
        t.wf(),
    ensures
        t.index().wf(),
        same_frame(t.index(), t),
        t.index().grid.cursor_col == t.grid.cursor_col,
        t.reverse_index().wf(),
        same_frame(t.reverse_index(), t),
{
    reveal(TermState::index);
    reveal(TermState::reverse_index);
    lemma_scroll_region_up_shape(t.grid, t.scroll_top, t.scroll_bottom);
    lemma_scroll_region_down_wf(t.grid, t.scroll_top, t.scroll_bottom);
}

pub proof fn lemma_put_wf(t: TermState, ch: char)
    requires
        t.wf(),
    ensures
        t.put(ch).wf(),
        same_frame(t.put(ch), t),
        t.grid.cursor_col < t.grid.cols ==> t.put(ch).grid.cursor_col == t.grid.cursor_col + 1,
{
    reveal(TermState::put);
    lemma_put_char_wf(t.grid, ch, t.pen.attr, t.pen.fg, t.pen.bg);
}

/// Printing keeps the terminal well formed.
pub proof fn lemma_print_wf(t: TermState, ch: char)
    requires
        t.wf(),
    ensures
        t.print(ch).wf(),
        same_frame(t.print(ch), t),
{
    reveal(TermState::print);
    reveal(TermState::settle_wrap);
    reveal(TermState::make_room);
    reveal(TermState::put_trailer);
    reveal(TermState::hold_margin);
    let settled = t.settle_wrap();
    assert(settled.wf() && same_frame(settled, t) && settled.grid.cursor_col < t.grid.cols) by {
        if t.grid.cursor_col >= t.grid.cols && t.auto_wrap {
            lemma_index_wf(t.with_col(0));
        }
    }
    let roomy = settled.make_room();
    assert(roomy.wf() && same_frame(roomy, t)) by {
        if settled.grid.cursor_col + 1 >= settled.grid.cols && settled.auto_wrap {
            lemma_put_wf(settled, ' ');
            lemma_index_wf(settled.put(' ').with_col(0));
        }
    }
    lemma_put_wf(settled, ch);
    lemma_put_wf(roomy, ch);
    lemma_put_wf(roomy.put(ch), '\0');
}

pub proof fn lemma_print_n_wf(t: TermState, ch: char, n: int)
    requires
        t.wf(),
    ensures
        t.print_n(ch, n).wf(),
        same_frame(t.print_n(ch, n), t),
    decreases n,
{
    if n > 0 {
        lemma_print_wf(t, ch);
        lemma_print_n_wf(t.print(ch), ch, n - 1);
    }
}

pub proof fn lemma_execute_wf(t: TermState, byte: u8)
    requires
        t.wf(),
    ensures
        t.execute(byte).wf(),
        same_frame(t.execute(byte), t),
{
    reveal(TermState::execute);
    lemma_index_wf(t);
    lemma_next_tab_in_row(t.tab_stops, t.grid.cursor_col);
}

pub proof fn lemma_scroll_n_wf(t: TermState, n: int)
    requires
        t.wf(),
    ensures
        t.scroll_up_n(n).wf(),
        same_frame(t.scroll_up_n(n), t),
        t.scroll_down_n(n).wf(),
        same_frame(t.scroll_down_n(n), t),
    decreases n,
{
    if n > 0 {
        lemma_scroll_region_up_shape(t.grid, t.scroll_top, t.scroll_bottom);
        lemma_scroll_region_down_wf(t.grid, t.scroll_top, t.scroll_bottom);
        lemma_scroll_n_wf(
            t.with_grid(t.grid.scroll_region_up(t.scroll_top, t.scroll_bottom)),
            n - 1,
        );
        lemma_scroll_n_wf(
            t.with_grid(t.grid.scroll_region_down(t.scroll_top, t.scroll_bottom)),
            n - 1,
        );
    }
}

pub proof fn lemma_csi_edit_wf(t: TermState, final_byte: u8, n: int, mode: int, private: bool)
    requires
        t.wf(),
        n >= 0,
    ensures
        t.csi_edit(final_byte, n, mode, private).wf(),
{
    reveal(TermState::csi_edit);
    reveal(TermState::erase_display);
    reveal(TermState::erase_in_line);
    reveal(TermState::erase_chars);
    reveal(TermState::repeat);
    lemma_erase_wf(t.grid);
    lemma_blank_range_wf(
        t.grid,
        t.grid.cursor_row,
        t.grid.cursor_col,
        if t.grid.cursor_col + n < t.grid.cols {
            t.grid.cursor_col + n
        } else {
            t.grid.cols
        },
    );
    lemma_lines_wf(t.grid, t.grid.cursor_row, n, t.scroll_bottom);
    lemma_chars_wf(t.grid, n);
    lemma_scroll_n_wf(t, n);
    if t.grid.cursor_col > 0 {
        lemma_print_n_wf(t, t.grid.cell(t.grid.cursor_row, t.grid.cursor_col - 1).ch, n);
    }
}

pub proof fn lemma_dec_mode_wf(t: TermState, mode: u16, enable: bool)
    requires
        t.wf(),
    ensures
        t.dec_mode(mode, enable).wf(),
{
    reveal(TermState::dec_mode);
    reveal(TermState::enter_alt);
    reveal(TermState::leave_alt);
    reveal(TermState::save_cursor);
    reveal(TermState::restore_cursor);
    lemma_fresh_wf(t.grid.cols, t.grid.rows);
}

pub proof fn lemma_dec_modes_wf(t: TermState, params: Seq<u16>, i: int, enable: bool)
    requires
        t.wf(),
    ensures
        t.dec_modes_from(params, i, enable).wf(),
    decreases params.len() - i,
{
    if 0 <= i < params.len() {
        lemma_dec_mode_wf(t, params[i], enable);
        lemma_dec_modes_wf(t.dec_mode(params[i], enable), params, i + 1, enable);
    }
}

pub proof fn lemma_csi_control_wf(t: TermState, final_byte: u8, params: Seq<u16>, private: bool)
    requires
        t.wf(),
    ensures
        t.csi_control(final_byte, params, private).wf(),
{
    reveal(TermState::csi_control);
    reveal(TermState::set_scroll_region);
    reveal(TermState::save_cursor);
    reveal(TermState::restore_cursor);
    reveal(TermState::report);
    reveal(TermState::clear_tabs);
    lemma_dec_modes_wf(t, params, 0, true);
    lemma_dec_modes_wf(t, params, 0, false);
}

/// A CSI sequence keeps the terminal well formed.
pub proof fn lemma_csi_dispatch_wf(
    t: TermState,
    final_byte: u8,
    params: Seq<u16>,
    intermediates: Seq<u8>,
)
    requires
        t.wf(),
    ensures
        t.csi_dispatch(final_byte, params, intermediates).wf(),
{
    reveal(TermState::csi_dispatch);
    let private = intermediates.len() > 0 && intermediates[0] == 0x3f;
    let n = super::state::param_or(params, 0, 1);
    if TermState::moves_cursor(final_byte) {
        super::laws::lemma_cursor_moves_stay_inside(
            t,
            final_byte,
            n,
            super::state::param_or(params, 1, 1),
        );
    } else if TermState::edits_grid(final_byte) {
        lemma_csi_edit_wf(t, final_byte, n, super::state::param_or(params, 0, 0), private);
    } else {
        lemma_csi_control_wf(t, final_byte, params, private);
    }
}

/// An escape sequence keeps the terminal well formed.
pub proof fn lemma_esc_dispatch_wf(t: TermState, final_byte: u8, intermediates: Seq<u8>)
    requires
        t.wf(),
    ensures
        t.esc_dispatch(final_byte, intermediates).wf(),
{
    reveal(TermState::esc_dispatch);
    reveal(TermState::alignment_test);
    reveal(TermState::save_cursor);
    reveal(TermState::restore_cursor);
    lemma_fill_wf(
        t.grid,
        Cell { ch: 'E', attr: CellAttr::none(), fg: Color::fg_default(), bg: Color::bg_default() },
    );
    lemma_index_wf(t);
    lemma_index_wf(t.with_col(0));
    lemma_fresh_wf(t.grid.cols, t.grid.rows);
}

/// The tracker keeps its history within its bound.
pub proof fn lemma_shell_wf(shell: ShellModel, param: Seq<char>, data: Seq<char>, row: usize)
    requires
        shell.wf(),
    ensures
        shell.osc133(param, row).wf(),
        shell.osc7(data).wf(),
{
}

/// An OSC string keeps the terminal well formed.
pub proof fn lemma_osc_text_wf(t: TermState, text: Seq<char>)
    requires
        t.wf(),
    ensures
        t.osc_text(text).wf(),
{
    reveal(TermState::osc_text);
    lemma_shell_wf(t.shell, text.skip(4), text.skip(2), t.grid.cursor_row as usize);
}

/// The decoder stays well formed.
pub proof fn lemma_decoder_wf(u: Utf8State, byte: u8)
    requires
        u.wf(),
    ensures
        u.feed(byte).0.wf(),
{
}

/// Every action keeps the terminal well formed.
pub proof fn lemma_handle_action_wf(t: TermState, action: ActionView)
    requires
        t.wf(),
    ensures
        t.handle_action(action).wf(),
{
    reveal(TermState::handle_action);
    match action {
        ActionView::Print(ch) => lemma_print_wf(t, ch),
        ActionView::Execute(byte) => lemma_execute_wf(t, byte),
        ActionView::CsiDispatch { final_byte, params, intermediates } => lemma_csi_dispatch_wf(
            t,
            final_byte,
            params,
            intermediates,
        ),
        ActionView::EscDispatch { final_byte, intermediates } => lemma_esc_dispatch_wf(
            t,
            final_byte,
            intermediates,
        ),
        ActionView::OscDispatch(data) => lemma_osc_text_wf(t, crate::text::lossy_text(data)),
        ActionView::Nothing => {},
    }
}

/// Whatever bytes are fed, the terminal stays well formed: the cursor is on
/// a row of the grid and at most one column past its last, the scroll region
/// lies within the rows, and the scrollback is within its bound.
pub proof fn lemma_feed_wf(t: TermState, parser: ParserState, data: Seq<u8>)
    requires
        t.wf(),
    ensures
        t.feed(parser, data).0.wf(),
        0 <= t.feed(parser, data).0.grid.cursor_row < t.feed(parser, data).0.grid.rows,
        0 <= t.feed(parser, data).0.grid.cursor_col <= t.feed(parser, data).0.grid.cols,
        t.feed(parser, data).0.grid.scrollback.len() <= t.feed(
            parser,
            data,
        ).0.grid.scrollback_max,
    decreases data.len(),
{
    if data.len() > 0 {
        lemma_feed_wf(t, parser, data.drop_last());
        let (mid, before) = t.feed(parser, data.drop_last());
        let byte = data.last();
        reveal(TermState::feed_byte);
        let (after, action) = before.advance(byte);
        lemma_handle_action_wf(mid, action);
        lemma_decoder_wf(mid.utf8, byte);
        let (utf8, decoded) = mid.utf8.feed(byte);
        let fed = TermState { utf8, ..mid };
        if decoded is Some {
            lemma_print_wf(fed, decoded->0);
        }
    }
}

} // verus!
