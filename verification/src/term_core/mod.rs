mod grid;
mod handler;
mod wellformed;
mod laws;
mod printing;
mod roundtrip;
mod parser;
mod state;
mod utf8;

pub use grid::{blank_row, lines_of, Cell, CellAttr, Color, Grid, GridState};
pub use handler::{color_from_256, grid_of, param, parse_extended_color, text_of, Terminal};
pub use wellformed::{
    lemma_csi_dispatch_wf, lemma_esc_dispatch_wf, lemma_feed_wf, lemma_handle_action_wf,
    lemma_osc_text_wf, lemma_print_wf,
};
pub use laws::{
    lemma_cursor_moves_stay_inside, lemma_feed_split, lemma_index_shape, lemma_next_tab_in_row,
    lemma_prev_tab_in_row, lemma_reset_is_new, lemma_scroll_region_up_shape,
    lemma_sgr_after_reset,
};
pub use printing::{
    glyph_cells, is_printed, lemma_print_all_on_row, lemma_print_narrow, lemma_print_wide,
    lemma_wide_glyph_pair, print_all, text_cells,
};
pub use roundtrip::{lemma_feed_push, lemma_feed_utf8_on_row, lemma_feed_utf8_prints};
pub use parser::{action_views, push_digit, Action, ActionView, ParserState, State, VtParser};
pub use state::{
    ansi_color, cube_level, cursor_report, decimal, default_tabs, device_attributes,
    extended_color, next_tab, next_tab_n, palette_color, param_or, prev_tab, prev_tab_n,
    status_report, title_cap, MouseEncoding, MouseMode, Pen, TermState,
};
pub use utf8::{
    char_width, decode_sequence, is_wide, is_zero_width, replacement, width_of, Utf8Decoder,
    Utf8State,
};
