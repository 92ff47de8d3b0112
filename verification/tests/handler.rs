use libterm::clipboard::decode_osc52_set;
use libterm::term_core::{
    color_from_256, CellAttr, Color, MouseEncoding, MouseMode, Terminal, VtParser,
};

fn make_term() -> (Terminal, VtParser) {
    (Terminal::new(80, 24), VtParser::new())
}

fn small_term() -> (Terminal, VtParser) {
    (Terminal::new(10, 5), VtParser::new())
}

fn grid_row(t: &Terminal, row: usize) -> String {
    (0..t.grid.cols())
        .map(|c| t.grid.cell(row, c).ch)
        .collect::<String>()
        .trim_end()
        .to_string()
}

// --- Basic printing ---

#[test]
fn test_print_ascii() {
    let (mut t, mut p) = make_term();
    t.feed_bytes(&mut p, b"Hello");
    assert_eq!(t.grid.cursor_col, 5);
    assert_eq!(t.grid.cell(0, 0).ch, 'H');
    assert_eq!(t.grid.cell(0, 4).ch, 'o');
}

#[test]
fn test_cjk_wide_char() {
    let (mut t, mut p) = make_term();
    t.feed_bytes(&mut p, "中文".as_bytes());
    assert_eq!(t.grid.cursor_col, 4);
    assert_eq!(t.grid.cell(0, 0).ch, '中');
    assert_eq!(t.grid.cell(0, 1).ch, '\0');
    assert_eq!(t.grid.cell(0, 2).ch, '文');
    assert_eq!(t.grid.cell(0, 3).ch, '\0');
}

#[test]
fn test_cjk_wrap_at_boundary() {
    // 9-col terminal: wide char at col 8 should wrap
    let (mut t, mut p) = (Terminal::new(9, 3), VtParser::new());
    t.feed_bytes(&mut p, b"AAAAAAAA"); // 8 chars, cursor at col 8
    t.feed_bytes(&mut p, "中".as_bytes()); // needs 2 cols, should wrap
    assert_eq!(t.grid.cursor_row, 1);
    assert_eq!(t.grid.cursor_col, 2);
    assert_eq!(t.grid.cell(1, 0).ch, '中');
}

#[test]
fn test_emoji() {
    let (mut t, mut p) = make_term();
    t.feed_bytes(&mut p, "😀".as_bytes());
    assert_eq!(t.grid.cursor_col, 2);
    assert_eq!(t.grid.cell(0, 0).ch, '😀');
}

// --- Cursor movement ---

#[test]
fn test_cursor_movement() {
    let (mut t, mut p) = make_term();
    t.feed_bytes(&mut p, b"\x1b[5;10H");
    assert_eq!(t.grid.cursor_row, 4);
    assert_eq!(t.grid.cursor_col, 9);
}

#[test]
fn test_cursor_up_down() {
    let (mut t, mut p) = make_term();
    t.feed_bytes(&mut p, b"\x1b[10;1H"); // row 10
    t.feed_bytes(&mut p, b"\x1b[3A");    // up 3
    assert_eq!(t.grid.cursor_row, 6);
    t.feed_bytes(&mut p, b"\x1b[5B");    // down 5
    assert_eq!(t.grid.cursor_row, 11);
}

#[test]
fn test_cursor_forward_back() {
    let (mut t, mut p) = make_term();
    t.feed_bytes(&mut p, b"\x1b[1;20H"); // col 20
    t.feed_bytes(&mut p, b"\x1b[5D");    // back 5
    assert_eq!(t.grid.cursor_col, 14);
    t.feed_bytes(&mut p, b"\x1b[10C");   // forward 10
    assert_eq!(t.grid.cursor_col, 24);
}

#[test]
fn test_cursor_clamp_to_bounds() {
    let (mut t, mut p) = small_term();
    t.feed_bytes(&mut p, b"\x1b[100;100H"); // way out of bounds
    assert_eq!(t.grid.cursor_row, 4);  // clamped to rows-1
    assert_eq!(t.grid.cursor_col, 9);  // clamped to cols-1
}

#[test]
fn test_cursor_up_clamp_zero() {
    let (mut t, mut p) = make_term();
    t.feed_bytes(&mut p, b"\x1b[1;1H");  // top-left
    t.feed_bytes(&mut p, b"\x1b[999A");  // up 999
    assert_eq!(t.grid.cursor_row, 0);    // clamped
}

#[test]
fn test_cnl_cpl() {
    let (mut t, mut p) = make_term();
    t.feed_bytes(&mut p, b"\x1b[5;10H"); // row 5, col 10
    t.feed_bytes(&mut p, b"\x1b[2E");    // CNL: next line ×2
    assert_eq!(t.grid.cursor_row, 6);
    assert_eq!(t.grid.cursor_col, 0);
    t.feed_bytes(&mut p, b"\x1b[1F");    // CPL: prev line ×1
    assert_eq!(t.grid.cursor_row, 5);
    assert_eq!(t.grid.cursor_col, 0);
}

#[test]
fn test_cha_vpa() {
    let (mut t, mut p) = make_term();
    t.feed_bytes(&mut p, b"\x1b[15G");   // CHA: col 15
    assert_eq!(t.grid.cursor_col, 14);
    t.feed_bytes(&mut p, b"\x1b[8d");    // VPA: row 8
    assert_eq!(t.grid.cursor_row, 7);
}

// --- SGR ---

#[test]
fn test_sgr_colors() {
    let (mut t, mut p) = make_term();
    t.feed_bytes(&mut p, b"\x1b[1;31m");
    assert!(t.attr.contains(CellAttr::bold()));
    assert_eq!(t.fg, Color { r: 205, g: 49, b: 49 });
}

#[test]
fn test_sgr_truecolor() {
    let (mut t, mut p) = make_term();
    t.feed_bytes(&mut p, b"\x1b[38;2;100;150;200m");
    assert_eq!(t.fg, Color { r: 100, g: 150, b: 200 });
}

#[test]
fn test_sgr_256_color() {
    let (mut t, mut p) = make_term();
    t.feed_bytes(&mut p, b"\x1b[38;5;196m");
    assert_eq!(t.fg, Color { r: 255, g: 0, b: 0 });
}

#[test]
fn test_sgr_256_bg() {
    let (mut t, mut p) = make_term();
    t.feed_bytes(&mut p, b"\x1b[48;5;21m"); // blue in cube
    // 21 - 16 = 5, r=0, g=0, b=5 → (0, 0, 255)
    assert_eq!(t.bg, Color { r: 0, g: 0, b: 255 });
}

#[test]
fn test_sgr_bright_colors() {
    let (mut t, mut p) = make_term();
    t.feed_bytes(&mut p, b"\x1b[91m"); // bright red fg
    assert_eq!(t.fg, Color { r: 241, g: 76, b: 76 });
    t.feed_bytes(&mut p, b"\x1b[104m"); // bright blue bg
    assert_eq!(t.bg, Color { r: 59, g: 142, b: 234 });
}

#[test]
fn test_sgr_reset() {
    let (mut t, mut p) = make_term();
    t.feed_bytes(&mut p, b"\x1b[1;3;4;31m"); // bold+italic+underline+red
    assert!(t.attr.contains(CellAttr::bold()));
    assert!(t.attr.contains(CellAttr::italic()));
    t.feed_bytes(&mut p, b"\x1b[0m"); // reset
    assert_eq!(t.attr, CellAttr::empty());
    assert_eq!(t.fg, Color::default_fg());
}

#[test]
fn test_sgr_individual_remove() {
    let (mut t, mut p) = make_term();
    t.feed_bytes(&mut p, b"\x1b[1;3m"); // bold + italic
    t.feed_bytes(&mut p, b"\x1b[22m");  // remove bold only
    assert!(!t.attr.contains(CellAttr::bold()));
    assert!(t.attr.contains(CellAttr::italic()));
}

#[test]
fn test_sgr_256_grayscale() {
    let (mut t, mut p) = make_term();
    t.feed_bytes(&mut p, b"\x1b[38;5;232m"); // darkest gray
    assert_eq!(t.fg, Color { r: 8, g: 8, b: 8 });
    t.feed_bytes(&mut p, b"\x1b[38;5;255m"); // lightest gray
    assert_eq!(t.fg, Color { r: 238, g: 238, b: 238 });
}

// --- Erase ---

#[test]
fn test_erase_display() {
    let (mut t, mut p) = make_term();
    t.feed_bytes(&mut p, b"Hello");
    t.feed_bytes(&mut p, b"\x1b[2J");
    assert_eq!(t.grid.cell(0, 0).ch, ' ');
}

#[test]
fn handler_test_erase_line_right() {
    let (mut t, mut p) = small_term();
    t.feed_bytes(&mut p, b"ABCDEFGHIJ");
    t.feed_bytes(&mut p, b"\x1b[1;6H"); // col 6
    t.feed_bytes(&mut p, b"\x1b[0K");   // erase right
    assert_eq!(grid_row(&t, 0), "ABCDE");
}

#[test]
fn handler_test_erase_line_left() {
    let (mut t, mut p) = small_term();
    t.feed_bytes(&mut p, b"ABCDEFGHIJ");
    t.feed_bytes(&mut p, b"\x1b[1;4H"); // col 4
    t.feed_bytes(&mut p, b"\x1b[1K");   // erase left
    assert_eq!(t.grid.cell(0, 0).ch, ' ');
    assert_eq!(t.grid.cell(0, 3).ch, ' ');
    assert_eq!(t.grid.cell(0, 4).ch, 'E');
}

#[test]
fn test_erase_entire_line() {
    let (mut t, mut p) = small_term();
    t.feed_bytes(&mut p, b"ABCDEFGHIJ");
    t.feed_bytes(&mut p, b"\x1b[1;5H");
    t.feed_bytes(&mut p, b"\x1b[2K");
    assert_eq!(grid_row(&t, 0), "");
}

// --- Scroll ---

#[test]
fn test_scroll_region() {
    let (mut t, mut p) = make_term();
    t.feed_bytes(&mut p, b"\x1b[5;10r");
    assert_eq!(t.scroll_top, 4);
    assert_eq!(t.scroll_bottom, 9);
    assert_eq!(t.grid.cursor_row, 0); // cursor goes home
}

#[test]
fn test_scroll_up_su() {
    let (mut t, mut p) = small_term();
    t.feed_bytes(&mut p, b"Line0\r\nLine1\r\nLine2\r\nLine3\r\nLine4");
    t.feed_bytes(&mut p, b"\x1b[1S"); // scroll up 1
    assert_eq!(grid_row(&t, 0), "Line1");
    assert_eq!(grid_row(&t, 3), "Line4");
    assert_eq!(grid_row(&t, 4), "");
}

#[test]
fn test_scroll_down_sd() {
    let (mut t, mut p) = small_term();
    t.feed_bytes(&mut p, b"Line0\r\nLine1\r\nLine2\r\nLine3\r\nLine4");
    t.feed_bytes(&mut p, b"\x1b[1T"); // scroll down 1
    assert_eq!(grid_row(&t, 0), "");
    assert_eq!(grid_row(&t, 1), "Line0");
}

// --- Insert/Delete ---

#[test]
fn handler_test_insert_lines() {
    let (mut t, mut p) = small_term();
    t.feed_bytes(&mut p, b"AAA\r\nBBB\r\nCCC\r\nDDD\r\nEEE");
    t.feed_bytes(&mut p, b"\x1b[2;1H"); // row 2
    t.feed_bytes(&mut p, b"\x1b[1L");   // insert 1 line
    assert_eq!(grid_row(&t, 0), "AAA");
    assert_eq!(grid_row(&t, 1), "");    // inserted
    assert_eq!(grid_row(&t, 2), "BBB");
}

#[test]
fn handler_test_delete_lines() {
    let (mut t, mut p) = small_term();
    t.feed_bytes(&mut p, b"AAA\r\nBBB\r\nCCC\r\nDDD\r\nEEE");
    t.feed_bytes(&mut p, b"\x1b[2;1H"); // row 2
    t.feed_bytes(&mut p, b"\x1b[1M");   // delete 1 line
    assert_eq!(grid_row(&t, 0), "AAA");
    assert_eq!(grid_row(&t, 1), "CCC");
    assert_eq!(grid_row(&t, 2), "DDD");
}

#[test]
fn handler_test_delete_chars() {
    let (mut t, mut p) = small_term();
    t.feed_bytes(&mut p, b"ABCDEFGHIJ");
    t.feed_bytes(&mut p, b"\x1b[1;4H"); // col 4
    t.feed_bytes(&mut p, b"\x1b[2P");   // delete 2 chars
    assert_eq!(grid_row(&t, 0), "ABCFGHIJ");
}

#[test]
fn handler_test_insert_chars() {
    let (mut t, mut p) = small_term();
    t.feed_bytes(&mut p, b"ABCDEFGHIJ");
    t.feed_bytes(&mut p, b"\x1b[1;4H"); // col 4
    t.feed_bytes(&mut p, b"\x1b[2@");   // insert 2 blanks
    assert_eq!(t.grid.cell(0, 3).ch, ' ');
    assert_eq!(t.grid.cell(0, 4).ch, ' ');
    assert_eq!(t.grid.cell(0, 5).ch, 'D');
}

// --- ESC sequences ---

#[test]
fn test_save_restore_cursor_esc() {
    let (mut t, mut p) = make_term();
    t.feed_bytes(&mut p, b"\x1b[5;10H"); // row 5, col 10
    t.feed_bytes(&mut p, b"\x1b7");       // save
    t.feed_bytes(&mut p, b"\x1b[1;1H");   // home
    t.feed_bytes(&mut p, b"\x1b8");       // restore
    assert_eq!(t.grid.cursor_row, 4);
    assert_eq!(t.grid.cursor_col, 9);
}

#[test]
fn test_save_restore_cursor_csi() {
    let (mut t, mut p) = make_term();
    t.feed_bytes(&mut p, b"\x1b[3;7H");
    t.feed_bytes(&mut p, b"\x1b[s");     // save
    t.feed_bytes(&mut p, b"\x1b[1;1H");
    t.feed_bytes(&mut p, b"\x1b[u");     // restore
    assert_eq!(t.grid.cursor_row, 2);
    assert_eq!(t.grid.cursor_col, 6);
}

#[test]
fn test_reverse_index() {
    let (mut t, mut p) = small_term();
    t.feed_bytes(&mut p, b"\x1b[1;1H"); // top
    t.feed_bytes(&mut p, b"\x1bM");     // reverse index at top → scroll down
    assert_eq!(t.grid.cursor_row, 0);
}

#[test]
fn test_full_reset() {
    let (mut t, mut p) = make_term();
    t.feed_bytes(&mut p, b"\x1b[1;31mHello");
    t.feed_bytes(&mut p, b"\x1bc"); // RIS
    assert_eq!(t.grid.cell(0, 0).ch, ' ');
    assert_eq!(t.attr, CellAttr::empty());
    assert_eq!(t.fg, Color::default_fg());
    assert_eq!(t.grid.cursor_row, 0);
    assert_eq!(t.grid.cursor_col, 0);
}

// --- OSC ---

#[test]
fn test_osc_title() {
    let (mut t, mut p) = make_term();
    t.feed_bytes(&mut p, b"\x1b]0;My Terminal\x07");
    assert_eq!(t.title, "My Terminal");
}

#[test]
fn test_osc_title_type2() {
    let (mut t, mut p) = make_term();
    t.feed_bytes(&mut p, b"\x1b]2;Window Title\x07");
    assert_eq!(t.title, "Window Title");
}

// --- Alt screen ---

#[test]
fn test_alt_screen() {
    let (mut t, mut p) = make_term();
    t.feed_bytes(&mut p, b"Main");
    assert_eq!(t.grid.cell(0, 0).ch, 'M');
    t.feed_bytes(&mut p, b"\x1b[?1049h");
    assert_eq!(t.grid.cell(0, 0).ch, ' ');
    t.feed_bytes(&mut p, b"Alt");
    t.feed_bytes(&mut p, b"\x1b[?1049l");
    assert_eq!(t.grid.cell(0, 0).ch, 'M');
}

#[test]
fn test_alt_screen_preserves_cursor() {
    let (mut t, mut p) = make_term();
    t.feed_bytes(&mut p, b"\x1b[5;10H"); // row 5, col 10
    t.feed_bytes(&mut p, b"\x1b[?1049h"); // alt
    t.feed_bytes(&mut p, b"\x1b[1;1H");   // move in alt
    t.feed_bytes(&mut p, b"\x1b[?1049l"); // back to main
    assert_eq!(t.grid.cursor_row, 4);
    assert_eq!(t.grid.cursor_col, 9);
}

// --- Tab stops ---

#[test]
fn test_tab_stop() {
    let (mut t, mut p) = make_term();
    t.feed_bytes(&mut p, b"AB\t"); // tab from col 2
    assert_eq!(t.grid.cursor_col, 8); // next tab stop at 8
}

// --- Auto-wrap ---

#[test]
fn test_auto_wrap_off() {
    let (mut t, mut p) = small_term();
    t.feed_bytes(&mut p, b"\x1b[?7l"); // disable auto-wrap
    t.feed_bytes(&mut p, b"ABCDEFGHIJKLM"); // more than 10 cols
    assert_eq!(t.grid.cursor_row, 0); // no wrap
    assert_eq!(t.grid.cursor_col, 9); // stuck at last col
}

// --- C0 controls ---

#[test]
fn test_backspace() {
    let (mut t, mut p) = make_term();
    t.feed_bytes(&mut p, b"ABC\x08"); // BS
    assert_eq!(t.grid.cursor_col, 2);
}

#[test]
fn test_backspace_at_zero() {
    let (mut t, mut p) = make_term();
    t.feed_bytes(&mut p, b"\x08"); // BS at col 0
    assert_eq!(t.grid.cursor_col, 0); // stays
}

#[test]
fn test_cr_lf() {
    let (mut t, mut p) = make_term();
    t.feed_bytes(&mut p, b"Hello\r\nWorld");
    assert_eq!(t.grid.cell(0, 0).ch, 'H');
    assert_eq!(t.grid.cell(1, 0).ch, 'W');
}

// --- Resize ---

#[test]
fn test_terminal_resize() {
    let (mut t, mut p) = make_term();
    t.feed_bytes(&mut p, b"Hello");
    t.resize(40, 12);
    assert_eq!(t.grid.cols(), 40);
    assert_eq!(t.grid.rows(), 12);
    assert_eq!(t.scroll_bottom, 11);
    assert_eq!(t.grid.cell(0, 0).ch, 'H');
}

// --- Color helpers ---

#[test]
fn test_color_from_256_ansi() {
    assert_eq!(color_from_256(0), Color { r: 0, g: 0, b: 0 });
    assert_eq!(color_from_256(15), Color { r: 242, g: 242, b: 242 });
}

#[test]
fn test_color_from_256_cube() {
    // Index 16 = (0,0,0) = black
    assert_eq!(color_from_256(16), Color { r: 0, g: 0, b: 0 });
    // Index 231 = (5,5,5) = white-ish
    assert_eq!(color_from_256(231), Color { r: 255, g: 255, b: 255 });
}

#[test]
fn test_color_from_256_grayscale() {
    assert_eq!(color_from_256(232), Color { r: 8, g: 8, b: 8 });
    assert_eq!(color_from_256(255), Color { r: 238, g: 238, b: 238 });
}

// ---- Phase 3 tests ----

#[test]
fn test_dsr_status() {
    let mut t = Terminal::new(10, 5);
    let mut p = VtParser::new();
    t.feed_bytes(&mut p, b"\x1b[5n");
    assert_eq!(t.write_back, b"\x1b[0n");
}

#[test]
fn test_dsr_cursor_position() {
    let mut t = Terminal::new(10, 5);
    let mut p = VtParser::new();
    t.feed_bytes(&mut p, b"\x1b[3;5H");
    t.write_back.clear();
    t.feed_bytes(&mut p, b"\x1b[6n");
    assert_eq!(t.write_back, b"\x1b[3;5R");
}

#[test]
fn test_device_attributes() {
    let mut t = Terminal::new(10, 5);
    let mut p = VtParser::new();
    t.feed_bytes(&mut p, b"\x1b[c");
    assert_eq!(t.write_back, b"\x1b[?62;22c");
}

#[test]
fn test_cursor_keys_app_mode() {
    let mut t = Terminal::new(10, 5);
    let mut p = VtParser::new();
    assert!(!t.cursor_keys_app);
    t.feed_bytes(&mut p, b"\x1b[?1h");
    assert!(t.cursor_keys_app);
    t.feed_bytes(&mut p, b"\x1b[?1l");
    assert!(!t.cursor_keys_app);
}

#[test]
fn test_cursor_visible() {
    let mut t = Terminal::new(10, 5);
    let mut p = VtParser::new();
    assert!(t.cursor_visible);
    t.feed_bytes(&mut p, b"\x1b[?25l");
    assert!(!t.cursor_visible);
    t.feed_bytes(&mut p, b"\x1b[?25h");
    assert!(t.cursor_visible);
}

#[test]
fn test_bracketed_paste() {
    let mut t = Terminal::new(10, 5);
    let mut p = VtParser::new();
    assert!(!t.bracketed_paste);
    t.feed_bytes(&mut p, b"\x1b[?2004h");
    assert!(t.bracketed_paste);
    t.feed_bytes(&mut p, b"\x1b[?2004l");
    assert!(!t.bracketed_paste);
}

#[test]
fn test_mouse_mode() {
    let mut t = Terminal::new(10, 5);
    let mut p = VtParser::new();
    assert_eq!(t.mouse_mode, MouseMode::Off);
    t.feed_bytes(&mut p, b"\x1b[?1000h");
    assert_eq!(t.mouse_mode, MouseMode::Normal);
    t.feed_bytes(&mut p, b"\x1b[?1003h");
    assert_eq!(t.mouse_mode, MouseMode::Any);
    t.feed_bytes(&mut p, b"\x1b[?1003l");
    assert_eq!(t.mouse_mode, MouseMode::Off);
}

#[test]
fn test_sgr_mouse_encoding() {
    let mut t = Terminal::new(10, 5);
    let mut p = VtParser::new();
    assert_eq!(t.mouse_encoding, MouseEncoding::X10);
    t.feed_bytes(&mut p, b"\x1b[?1006h");
    assert_eq!(t.mouse_encoding, MouseEncoding::Sgr);
}

#[test]
fn test_ech_erase_characters() {
    let mut t = Terminal::new(10, 5);
    let mut p = VtParser::new();
    t.feed_bytes(&mut p, b"ABCDEFGHIJ");
    t.feed_bytes(&mut p, b"\x1b[1;4H");
    t.feed_bytes(&mut p, b"\x1b[3X");
    assert_eq!(t.grid.cell(0, 3).ch, ' ');
    assert_eq!(t.grid.cell(0, 4).ch, ' ');
    assert_eq!(t.grid.cell(0, 5).ch, ' ');
    assert_eq!(t.grid.cell(0, 6).ch, 'G');
}

#[test]
fn test_tab_set_and_clear() {
    let mut t = Terminal::new(20, 5);
    let mut p = VtParser::new();
    t.feed_bytes(&mut p, b"\x1b[1;6H");
    t.feed_bytes(&mut p, b"\x1bH");
    t.feed_bytes(&mut p, b"\x1b[1;1H");
    t.feed_bytes(&mut p, b"\t");
    assert_eq!(t.grid.cursor_col, 5);
    t.feed_bytes(&mut p, b"\x1b[0g");
    t.feed_bytes(&mut p, b"\x1b[1;1H");
    t.feed_bytes(&mut p, b"\t");
    assert_eq!(t.grid.cursor_col, 8);
}

#[test]
fn test_keypad_mode() {
    let mut t = Terminal::new(10, 5);
    let mut p = VtParser::new();
    assert!(!t.keypad_app);
    t.feed_bytes(&mut p, b"\x1b=");
    assert!(t.keypad_app);
    t.feed_bytes(&mut p, b"\x1b>");
    assert!(!t.keypad_app);
}

#[test]
fn test_decaln() {
    let mut t = Terminal::new(5, 3);
    let mut p = VtParser::new();
    t.feed_bytes(&mut p, b"\x1b#8");
    for r in 0..3 {
        for c in 0..5 {
            assert_eq!(t.grid.cell(r, c).ch, 'E');
        }
    }
}

#[test]
fn test_dim_hidden_attr() {
    let mut t = Terminal::new(10, 5);
    let mut p = VtParser::new();
    t.feed_bytes(&mut p, b"\x1b[2m");
    t.feed_bytes(&mut p, b"A");
    assert!(t.grid.cell(0, 0).attr.contains(CellAttr::dim()));
    t.feed_bytes(&mut p, b"\x1b[8m");
    t.feed_bytes(&mut p, b"B");
    assert!(t.grid.cell(0, 1).attr.contains(CellAttr::hidden()));
    t.feed_bytes(&mut p, b"\x1b[22m");
    t.feed_bytes(&mut p, b"C");
    assert!(!t.grid.cell(0, 2).attr.contains(CellAttr::dim()));
}

#[test]
fn test_alt_screen_1047() {
    let mut t = Terminal::new(10, 5);
    let mut p = VtParser::new();
    t.feed_bytes(&mut p, b"Hello");
    t.feed_bytes(&mut p, b"\x1b[?1047h");
    assert_eq!(t.grid.cell(0, 0).ch, ' ');
    t.feed_bytes(&mut p, b"\x1b[?1047l");
    assert_eq!(t.grid.cell(0, 0).ch, 'H');
}

#[test]
fn test_save_restore_cursor_with_attrs() {
    let mut t = Terminal::new(10, 5);
    let mut p = VtParser::new();
    t.feed_bytes(&mut p, b"\x1b[1;31m");
    t.feed_bytes(&mut p, b"\x1b[s");
    t.feed_bytes(&mut p, b"\x1b[0m");
    t.feed_bytes(&mut p, b"\x1b[u");
    t.feed_bytes(&mut p, b"X");
    assert!(t.grid.cell(0, 0).attr.contains(CellAttr::bold()));
    assert_eq!(t.grid.cell(0, 0).fg, Color { r: 205, g: 49, b: 49 });
}

#[test]
fn test_rep_repeat_char() {
    let mut t = Terminal::new(10, 5);
    let mut p = VtParser::new();
    t.feed_bytes(&mut p, b"A");
    t.feed_bytes(&mut p, b"\x1b[3b");
    assert_eq!(t.grid.cell(0, 0).ch, 'A');
    assert_eq!(t.grid.cell(0, 1).ch, 'A');
    assert_eq!(t.grid.cell(0, 2).ch, 'A');
    assert_eq!(t.grid.cell(0, 3).ch, 'A');
}

#[test]
fn test_origin_mode_cup() {
    let mut t = Terminal::new(10, 10);
    let mut p = VtParser::new();
    t.feed_bytes(&mut p, b"\x1b[3;7r");
    t.feed_bytes(&mut p, b"\x1b[?6h");
    t.feed_bytes(&mut p, b"\x1b[1;1H");
    assert_eq!(t.grid.cursor_row, 2);
}

#[test]
fn handler_test_osc7_working_dir() {
    let mut t = Terminal::new(40, 5);
    let mut p = VtParser::new();
    t.feed_bytes(&mut p, b"\x1b]7;file://hostname/home/user\x07");
    assert_eq!(t.osc7_cwd, Some("file://hostname/home/user".into()));
}

#[test]
fn test_osc133_shell_integration() {
    let mut t = Terminal::new(40, 5);
    let mut p = VtParser::new();
    t.feed_bytes(&mut p, b"\x1b]133;A\x07");
    assert_eq!(t.osc133_data, Some("A".into()));
}

#[test]
fn test_osc52_clipboard() {
    let mut t = Terminal::new(40, 5);
    let mut p = VtParser::new();
    t.feed_bytes(&mut p, b"\x1b]52;c;aGVsbG8=\x07");
    assert_eq!(t.osc52_data, decode_osc52_set("52;c;aGVsbG8="));
    assert_eq!(t.osc52_data, Some("hello".into()));
}
