use libterm::term_core::{CellAttr, Color, Grid, Terminal, VtParser};

fn feed(t: &mut Terminal, bytes: &[u8]) {
    let mut p = VtParser::new();
    t.feed_bytes(&mut p, bytes);
}

fn same_cells(a: &Grid, b: &Grid) -> bool {
    if a.cols() != b.cols() || a.rows() != b.rows() {
        return false;
    }
    for r in 0..a.rows() {
        for c in 0..a.cols() {
            let (x, y) = (a.cell(r, c), b.cell(r, c));
            if x.ch != y.ch || x.attr != y.attr || x.fg != y.fg || x.bg != y.bg {
                return false;
            }
        }
    }
    true
}

fn same_terminal(a: &Terminal, b: &Terminal) -> bool {
    same_cells(&a.grid, &b.grid)
        && a.grid.cursor_row == b.grid.cursor_row
        && a.grid.cursor_col == b.grid.cursor_col
        && a.grid.scrollback.len() == b.grid.scrollback.len()
        && a.attr == b.attr
        && a.fg == b.fg
        && a.bg == b.bg
        && a.saved_cursor == b.saved_cursor
        && a.tab_stops == b.tab_stops
        && a.origin_mode == b.origin_mode
        && a.auto_wrap == b.auto_wrap
        && a.scroll_top == b.scroll_top
        && a.scroll_bottom == b.scroll_bottom
        && a.title == b.title
        && a.write_back == b.write_back
        && a.cursor_keys_app == b.cursor_keys_app
        && a.cursor_visible == b.cursor_visible
        && a.bracketed_paste == b.bracketed_paste
        && a.mouse_mode == b.mouse_mode
        && a.mouse_encoding == b.mouse_encoding
        && a.keypad_app == b.keypad_app
        && a.osc7_cwd == b.osc7_cwd
        && a.osc133_data == b.osc133_data
        && a.osc52_data == b.osc52_data
        && a.alt_grid.is_some() == b.alt_grid.is_some()
        && a.shell.history().len() == b.shell.history().len()
}

/// A stream with a bit of everything: text, wide glyphs, controls, CSI, OSC.
fn sample() -> Vec<u8> {
    let mut v: Vec<u8> = Vec::new();
    v.extend_from_slice(b"Hello\r\n\x1b[1;31mred\x1b[0m \x1b[5;3H");
    v.extend_from_slice("中文😀é".as_bytes());
    v.extend_from_slice(b"\x1b]0;a title\x07\x1b[?1049h\x1b[2J\x1b[10;10Hxyz\x1b[?1049l");
    v.extend_from_slice(b"\x1b[3;6r\x1b[?6h\x1b[2;2H\n\n\n\n\n\n\x1bM\x1b[?6l\x1b[r");
    v.extend_from_slice(b"\t\tab\x08\x08\x1b[4b\x1b[6n\x1b[c\x1b]133;A\x07\x1b]133;D;3\x07");
    v.extend_from_slice(b"\x1b[999C\x1b[999B\x1b[38;5;100m\x1b[48;2;1;2;3mQ\x1b#8\x1b[2X");
    v
}

#[test]
fn cursor_stays_on_the_grid_whatever_is_fed() {
    let data = sample();
    for cols in [1usize, 2, 3, 7, 80] {
        for rows in [1usize, 2, 5, 24] {
            let mut t = Terminal::new(cols, rows);
            let mut p = VtParser::new();
            for chunk in data.chunks(3) {
                t.feed_bytes(&mut p, chunk);
                assert!(t.grid.cursor_row < t.grid.rows());
                assert!(t.grid.cursor_col <= t.grid.cols());
                assert!(t.scroll_top <= t.scroll_bottom && t.scroll_bottom < t.grid.rows());
            }
        }
    }
}

#[test]
fn every_byte_value_is_taken() {
    let mut t = Terminal::new(10, 4);
    let mut p = VtParser::new();
    for round in 0..3u16 {
        for b in 0..=255u8 {
            t.feed_bytes(&mut p, &[b, (b as u16 * 7 + round) as u8]);
            assert!(t.grid.cursor_row < 4);
            assert!(t.grid.cursor_col <= 10);
        }
    }
}

#[test]
fn scrollback_keeps_to_its_bound() {
    let mut t = Terminal::new(4, 2);
    let mut p = VtParser::new();
    let line = b"ab\r\n";
    for _ in 0..10_050 {
        t.feed_bytes(&mut p, line);
        assert!(t.grid.scrollback().len() <= 10_000);
    }
    assert_eq!(t.grid.scrollback().len(), 10_000);
    assert_eq!(t.grid.scrollback()[0][0].ch, 'a');
}

#[test]
fn scrollback_drops_the_oldest_line() {
    let mut g = Grid::new(2, 1);
    g.scrollback_max = 2;
    for ch in ['1', '2', '3'] {
        g.put_char(ch, CellAttr::empty(), Color::default_fg(), Color::default_bg());
        g.newline();
    }
    assert_eq!(g.scrollback().len(), 2);
    assert_eq!(g.scrollback()[0][0].ch, '2');
    assert_eq!(g.scrollback()[1][0].ch, '3');
}

#[test]
fn chunk_boundaries_do_not_matter() {
    let data = sample();
    let mut whole = Terminal::new(20, 6);
    feed(&mut whole, &data);
    for cut in 0..=data.len() {
        let mut t = Terminal::new(20, 6);
        let mut p = VtParser::new();
        t.feed_bytes(&mut p, &data[..cut]);
        t.feed_bytes(&mut p, &data[cut..]);
        assert!(same_terminal(&t, &whole), "cut at {}", cut);
    }
    let mut bytewise = Terminal::new(20, 6);
    let mut p = VtParser::new();
    for b in &data {
        bytewise.feed_bytes(&mut p, &[*b]);
    }
    assert!(same_terminal(&bytewise, &whole));
}

#[test]
fn utf8_text_comes_out_as_it_went_in() {
    let text = "aé中😀z~ ";
    let mut t = Terminal::new(40, 3);
    feed(&mut t, text.as_bytes());
    let mut seen = String::new();
    for c in 0..t.grid.cursor_col {
        let ch = t.grid.cell(0, c).ch;
        if ch != '\0' {
            seen.push(ch);
        }
    }
    assert_eq!(seen, text);
    assert_eq!(t.grid.cursor_col, 9);
}

#[test]
fn sgr_after_reset_is_sgr_from_default() {
    let codes: [&[u8]; 5] =
        [b"\x1b[1;4;33m", b"\x1b[38;5;200;7m", b"\x1b[48;2;9;8;7;2m", b"\x1b[22;3m", b"\x1b[m"];
    for code in codes {
        let mut dirty = Terminal::new(10, 3);
        feed(&mut dirty, b"\x1b[3;9;45;91m");
        feed(&mut dirty, b"\x1b[0m");
        feed(&mut dirty, code);
        let mut clean = Terminal::new(10, 3);
        feed(&mut clean, code);
        assert_eq!(dirty.attr, clean.attr);
        assert_eq!(dirty.fg, clean.fg);
        assert_eq!(dirty.bg, clean.bg);
    }
}

#[test]
fn full_reset_gives_a_new_terminal() {
    let mut t = Terminal::new(20, 6);
    let mut p = VtParser::new();
    t.feed_bytes(&mut p, &sample());
    t.feed_bytes(&mut p, b"\x1b[?1049h\x1b[?1h\x1b[?2004h\x1b=\x1b[?25l\x1b[?1000h\x1b[?1006h");
    t.feed_bytes(&mut p, b"\x1b]52;c;aGk=\x07\x1b]7;file://h/p\x07\x1bc");
    let fresh = Terminal::new(20, 6);
    assert!(same_terminal(&t, &fresh));
    assert!(t.alt_grid.is_none());
    assert_eq!(t.grid.scrollback().len(), 0);
    assert!(!t.shell.is_active());
    assert_eq!(t.shell.working_dir, "");
}

#[test]
fn cursor_movement_clamps_and_never_pends_a_wrap() {
    let mut t = Terminal::new(10, 5);
    feed(&mut t, b"\x1b[A");
    assert_eq!(t.grid.cursor_row, 0);
    feed(&mut t, b"\x1b[1;10H\x1b[C");
    assert_eq!(t.grid.cursor_col, 9);
    for seq in [
        &b"\x1b[999C"[..],
        b"\x1b[999G",
        b"\x1b[1;999H",
        b"\x1b[1;999f",
        b"\x1b[999`",
        b"\x1b[99I",
        b"\x1b[999B",
        b"\x1b[999E",
        b"\x1b[999d",
    ] {
        feed(&mut t, seq);
        assert!(t.grid.cursor_col < 10);
        assert!(t.grid.cursor_row < 5);
    }
    feed(&mut t, b"\x1b[1;1H0123456789");
    assert_eq!(t.grid.cursor_col, 10);
}

#[test]
fn csi_parameters_saturate() {
    let mut p = VtParser::new();
    let actions = p.feed(b"\x1b[999999999A");
    assert_eq!(actions.len(), 1);
    match &actions[0] {
        libterm::term_core::Action::CsiDispatch { final_byte, params, .. } => {
            assert_eq!(*final_byte, b'A');
            assert_eq!(params, &vec![65535u16]);
        }
        other => panic!("unexpected action {:?}", other),
    }
    let mut t = Terminal::new(10, 5);
    feed(&mut t, b"\x1b[3;3H\x1b[999999999A");
    assert_eq!(t.grid.cursor_row, 0);
    feed(&mut t, b"\x1b[65534B\x1b[65536C");
    assert_eq!((t.grid.cursor_row, t.grid.cursor_col), (4, 9));
}

#[test]
fn wide_glyph_at_the_last_column_wraps() {
    let mut t = Terminal::new(5, 3);
    feed(&mut t, b"\x1b[4mabcd");
    feed(&mut t, "中".as_bytes());
    assert_eq!(t.grid.cell(0, 4).ch, ' ');
    assert!(t.grid.cell(0, 4).attr.contains(CellAttr::underline()));
    assert_eq!(t.grid.cell(1, 0).ch, '中');
    assert_eq!(t.grid.cell(1, 1).ch, '\0');
    assert_eq!((t.grid.cursor_row, t.grid.cursor_col), (1, 2));
}

#[test]
fn wide_glyph_is_a_pair_with_one_rendition() {
    let mut t = Terminal::new(8, 2);
    feed(&mut t, b"\x1b[1;35;44mx");
    feed(&mut t, "文".as_bytes());
    let (head, tail) = (t.grid.cell(0, 1), t.grid.cell(0, 2));
    assert_eq!(head.ch, '文');
    assert_eq!(tail.ch, '\0');
    assert_eq!(head.attr, tail.attr);
    assert_eq!(head.fg, tail.fg);
    assert_eq!(head.bg, tail.bg);
    assert!(tail.attr.contains(CellAttr::bold()));
}

#[test]
fn a_pair_can_be_split_by_a_later_write() {
    let mut t = Terminal::new(8, 2);
    feed(&mut t, "中".as_bytes());
    feed(&mut t, b"\rA");
    assert_eq!(t.grid.cell(0, 0).ch, 'A');
    assert_eq!(t.grid.cell(0, 1).ch, '\0');
}
