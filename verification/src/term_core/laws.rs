//! What holds of the terminal whatever it is fed.
use super::grid::{blank_row, GridState};
use super::parser::{ActionView, ParserState, State};
use super::state::{next_tab, next_tab_n, prev_tab, prev_tab_n, Pen, TermState};
use vstd::prelude::*;

verus! {

/// Feeding does not depend on how the bytes are cut into chunks: feeding `a`
/// and then `b` leaves the terminal and the parser as feeding `a + b` at once
/// does.
pub proof fn lemma_feed_split(term: TermState, parser: ParserState, a: Seq<u8>, b: Seq<u8>)
    ensures
        term.feed(parser, a + b) == ({
            let (mid_term, mid_parser) = term.feed(parser, a);
            mid_term.feed(mid_parser, b)
        }),
    decreases b.len(),
{
    if b.len() == 0 {
        assert(a + b =~= a);
    } else {
        assert((a + b).drop_last() =~= a + b.drop_last());
        assert((a + b).last() == b.last());
        lemma_feed_split(term, parser, a, b.drop_last());
    }
}

/// A reset of the rendition makes what came before it forgotten: SGR 0
/// followed by an SGR with any codes leaves the terminal as that SGR leaves
/// one whose pen is plain.
pub proof fn lemma_sgr_after_reset(term: TermState, codes: Seq<u16>)
    ensures
        term.csi_dispatch(0x6d, seq![0u16], Seq::empty()).csi_dispatch(0x6d, codes, Seq::empty())
            == (TermState { pen: Pen::plain(), ..term }).csi_dispatch(0x6d, codes, Seq::empty()),
        term.csi_dispatch(0x6d, seq![0u16], Seq::empty()).csi_dispatch(0x6d, codes, Seq::empty())
            == (TermState { pen: Pen::plain().sgr(codes), ..term }),
{
    reveal(TermState::csi_dispatch);
    reveal(TermState::csi_control);
    let zero = seq![0u16];
    assert(term.pen.sgr_one(zero, 0) == (Pen::plain(), 1int));
    assert(Pen::plain().sgr_from(zero, 1) == Pen::plain());
    assert(term.pen.sgr_from(zero, 0) == Pen::plain());
    assert(term.pen.sgr(zero) == Pen::plain());
}

/// A full reset makes the terminal new: `ESC c`, fed in any state of the
/// terminal and of the parser, leaves the terminal as a new one of its size
/// and the parser as a new one.
pub proof fn lemma_reset_is_new(term: TermState, parser: ParserState)
    ensures
        term.feed(parser, seq![0x1bu8, 0x63u8]) == (
            TermState::fresh(term.grid.cols, term.grid.rows),
            ParserState::initial(),
        ),
{
    reveal(TermState::feed_byte);
    reveal(TermState::handle_action);
    reveal(TermState::esc_dispatch);
    let data = seq![0x1bu8, 0x63u8];
    let one = seq![0x1bu8];
    assert(data.drop_last() =~= one);
    assert(one.drop_last() =~= Seq::<u8>::empty());
    assert(term.feed(parser, Seq::<u8>::empty()) == (term, parser));
    assert(term.feed(parser, one) == term.feed_byte(parser, 0x1b)) by {
        assert(one.last() == 0x1bu8);
    }
    let escaped = parser.cleared(State::Escape);
    assert(parser.advance(0x1b) == (escaped, ActionView::Nothing));
    assert(term.feed_byte(parser, 0x1b) == (term, escaped));
    assert(escaped.advance(0x63) == escaped.escape(0x63));
    assert(escaped.intermediates =~= Seq::<u8>::empty());
    assert(term.feed(parser, data) == term.feed_byte(escaped, 0x63)) by {
        assert(data.last() == 0x63u8);
    }
}

/// A forward tabulation from a column of the grid ends on a column of the
/// grid.
pub proof fn lemma_next_tab_in_row(stops: Seq<bool>, col: int)
    requires
        stops.len() >= 1,
        0 <= col,
    ensures
        0 <= next_tab(stops, col) < stops.len(),
    decreases stops.len() - col,
{
    if col + 1 < stops.len() && !stops[col + 1] {
        lemma_next_tab_in_row(stops, col + 1);
    }
}

/// A backward tabulation ends at or before the column it starts from, and
/// not before column 0.
pub proof fn lemma_prev_tab_in_row(stops: Seq<bool>, col: int)
    requires
        0 <= col,
    ensures
        0 <= prev_tab(stops, col) <= col,
        col >= 1 ==> prev_tab(stops, col) < col,
    decreases col,
{
    if col > 0 && !stops[col - 1] {
        lemma_prev_tab_in_row(stops, col - 1);
    }
}

proof fn lemma_next_tab_n_in_row(stops: Seq<bool>, col: int, n: int)
    requires
        stops.len() >= 1,
        0 <= col,
        n >= 1,
    ensures
        0 <= next_tab_n(stops, col, n) < stops.len(),
    decreases n,
{
    lemma_next_tab_in_row(stops, col);
    if n > 1 {
        lemma_next_tab_n_in_row(stops, next_tab(stops, col), n - 1);
    } else {
        assert(next_tab_n(stops, next_tab(stops, col), 0) == next_tab(stops, col));
    }
}

proof fn lemma_prev_tab_n_in_row(stops: Seq<bool>, col: int, n: int)
    requires
        0 <= col,
        n >= 0,
    ensures
        0 <= prev_tab_n(stops, col, n) <= col,
    decreases n,
{
    if n > 0 {
        lemma_prev_tab_in_row(stops, col);
        lemma_prev_tab_n_in_row(stops, prev_tab(stops, col), n - 1);
    }
}

/// The cursor movements of CSI keep the cursor on the grid and never bring
/// it into the pending-wrap column: a cursor that is on a column before the
/// movement is on a column after it. Beyond that, without origin mode a
/// cursor on row 0 stays there when moved up, and a cursor on the last
/// column stays there when moved right.
pub proof fn lemma_cursor_moves_stay_inside(term: TermState, final_byte: u8, n: int, m: int)
    requires
        term.wf(),
        n >= 1,
        m >= 1,
        TermState::moves_cursor(final_byte),
    ensures
        ({
            let after = term.csi_cursor(final_byte, n, m);
            &&& after.wf()
            &&& after.grid.cols == term.grid.cols
            &&& after.grid.rows == term.grid.rows
            &&& (term.grid.cursor_col < term.grid.cols ==> after.grid.cursor_col
                < after.grid.cols)
        }),
        !term.origin_mode && term.grid.cursor_row == 0 ==> term.csi_cursor(
            0x41,
            n,
            m,
        ).grid.cursor_row == 0,
        term.grid.cursor_col == term.grid.cols - 1 ==> term.csi_cursor(
            0x43,
            n,
            m,
        ).grid.cursor_col == term.grid.cols - 1,
{
    reveal(TermState::csi_cursor);
    reveal(TermState::cursor_up);
    reveal(TermState::cursor_down);
    reveal(TermState::cursor_forward);
    reveal(TermState::cursor_back);
    reveal(TermState::cursor_next_line);
    reveal(TermState::cursor_prev_line);
    reveal(TermState::cursor_to_col);
    reveal(TermState::cursor_to_row);
    reveal(TermState::cursor_to);
    lemma_next_tab_n_in_row(term.tab_stops, term.grid.cursor_col, n);
    lemma_prev_tab_n_in_row(term.tab_stops, term.grid.cursor_col, n);
}

/// Scrolling a region up keeps the grid well formed and leaves its size and
/// its cursor as they are.
pub proof fn lemma_scroll_region_up_shape(grid: GridState, top: int, bottom: int)
    requires
        grid.wf(),
        0 <= top <= bottom < grid.rows,
    ensures
        ({
            let after = grid.scroll_region_up(top, bottom);
            &&& after.wf()
            &&& after.cols == grid.cols
            &&& after.rows == grid.rows
            &&& after.cursor_row == grid.cursor_row
            &&& after.cursor_col == grid.cursor_col
        }),
{
    reveal(GridState::scroll_region_up);
    reveal(GridState::push_scrollback);
    let after = grid.scroll_region_up(top, bottom);
    assert forall|r: int| 0 <= r < after.rows implies (#[trigger] after.cells[r]).len()
        == after.cols by {
        if r < top {
            assert(after.cells[r] == grid.cells[r]);
        } else if r < bottom {
            assert(after.cells[r] == grid.cells[r + 1]);
        } else if r == bottom {
            assert(after.cells[r] == blank_row(grid.cols));
        } else {
            assert(after.cells[r] == grid.cells[r]);
        }
    }
}

/// An index keeps the terminal well formed and changes nothing but the
/// grid, of which it leaves the size and the cursor's column as they are.
pub proof fn lemma_index_shape(term: TermState)
    requires
        term.wf(),
    ensures
        ({
            let after = term.index();
            &&& after.wf()
            &&& after == (TermState { grid: after.grid, ..term })
            &&& after.grid.cols == term.grid.cols
            &&& after.grid.rows == term.grid.rows
            &&& after.grid.cursor_col == term.grid.cursor_col
        }),
{
    reveal(TermState::index);
    lemma_scroll_region_up_shape(term.grid, term.scroll_top, term.scroll_bottom);
}

} // verus!
