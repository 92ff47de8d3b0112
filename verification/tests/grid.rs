use libterm::term_core::{CellAttr, Color, Grid};

fn grid_row_chars(g: &Grid, row: usize) -> String {
    (0..g.cols()).map(|c| g.cell(row, c).ch).collect::<String>().trim_end().to_string()
}

#[test]
fn test_put_char_and_wrap() {
    let mut g = Grid::new(5, 3);
    for ch in "ABCDE".chars() {
        g.put_char(ch, CellAttr::empty(), Color::default_fg(), Color::default_bg());
    }
    assert_eq!(g.cursor_col, 5);
    assert_eq!(g.cursor_row, 0);
    // Next char should wrap
    g.put_char('F', CellAttr::empty(), Color::default_fg(), Color::default_bg());
    assert_eq!(g.cursor_row, 1);
    assert_eq!(g.cursor_col, 1);
    assert_eq!(g.cell(1, 0).ch, 'F');
}

#[test]
fn test_newline_scrolls() {
    let mut g = Grid::new(5, 3);
    g.put_char('A', CellAttr::empty(), Color::default_fg(), Color::default_bg());
    g.newline();
    g.put_char('B', CellAttr::empty(), Color::default_fg(), Color::default_bg());
    g.newline();
    g.put_char('C', CellAttr::empty(), Color::default_fg(), Color::default_bg());
    g.newline(); // should scroll
    assert_eq!(g.cell(0, 0).ch, 'B');
    assert_eq!(g.cell(1, 0).ch, 'C');
    assert_eq!(g.cell(2, 0).ch, ' ');
}

#[test]
fn grid_test_erase_line_right() {
    let mut g = Grid::new(10, 1);
    for ch in "ABCDEFGHIJ".chars() {
        g.put_char(ch, CellAttr::empty(), Color::default_fg(), Color::default_bg());
    }
    g.cursor_col = 5;
    g.erase_line_right();
    assert_eq!(grid_row_chars(&g, 0), "ABCDE");
}

#[test]
fn grid_test_erase_line_left() {
    let mut g = Grid::new(10, 1);
    for ch in "ABCDEFGHIJ".chars() {
        g.put_char(ch, CellAttr::empty(), Color::default_fg(), Color::default_bg());
    }
    g.cursor_col = 4;
    g.erase_line_left();
    assert_eq!(g.cell(0, 0).ch, ' ');
    assert_eq!(g.cell(0, 4).ch, ' ');
    assert_eq!(g.cell(0, 5).ch, 'F');
}

#[test]
fn test_erase_below() {
    let mut g = Grid::new(5, 3);
    for r in 0..3 {
        for ch in "XXXXX".chars() {
            g.put_char(ch, CellAttr::empty(), Color::default_fg(), Color::default_bg());
        }
        if r < 2 { g.newline(); }
    }
    g.cursor_row = 1;
    g.cursor_col = 2;
    g.erase_below();
    assert_eq!(grid_row_chars(&g, 0), "XXXXX");
    assert_eq!(g.cell(1, 0).ch, 'X');
    assert_eq!(g.cell(1, 1).ch, 'X');
    assert_eq!(g.cell(1, 2).ch, ' '); // erased from cursor
    assert_eq!(g.cell(2, 0).ch, ' '); // row below fully erased
}

#[test]
fn test_scroll_region_up() {
    let mut g = Grid::new(3, 5);
    for (r, s) in ["AAA", "BBB", "CCC", "DDD", "EEE"].iter().enumerate() {
        g.cursor_row = r;
        g.cursor_col = 0;
        for ch in s.chars() {
            g.put_char(ch, CellAttr::empty(), Color::default_fg(), Color::default_bg());
        }
    }
    g.scroll_region_up(1, 3); // scroll rows 1-3
    assert_eq!(grid_row_chars(&g, 0), "AAA");
    assert_eq!(grid_row_chars(&g, 1), "CCC");
    assert_eq!(grid_row_chars(&g, 2), "DDD");
    assert_eq!(grid_row_chars(&g, 3), "");    // cleared
    assert_eq!(grid_row_chars(&g, 4), "EEE");
}

#[test]
fn test_scroll_region_down() {
    let mut g = Grid::new(3, 5);
    for (r, s) in ["AAA", "BBB", "CCC", "DDD", "EEE"].iter().enumerate() {
        g.cursor_row = r;
        g.cursor_col = 0;
        for ch in s.chars() {
            g.put_char(ch, CellAttr::empty(), Color::default_fg(), Color::default_bg());
        }
    }
    g.scroll_region_down(1, 3);
    assert_eq!(grid_row_chars(&g, 0), "AAA");
    assert_eq!(grid_row_chars(&g, 1), "");    // cleared (new blank line)
    assert_eq!(grid_row_chars(&g, 2), "BBB");
    assert_eq!(grid_row_chars(&g, 3), "CCC");
    assert_eq!(grid_row_chars(&g, 4), "EEE");
}

#[test]
fn grid_test_insert_lines() {
    let mut g = Grid::new(3, 4);
    for (r, s) in ["AAA", "BBB", "CCC", "DDD"].iter().enumerate() {
        g.cursor_row = r;
        g.cursor_col = 0;
        for ch in s.chars() {
            g.put_char(ch, CellAttr::empty(), Color::default_fg(), Color::default_bg());
        }
    }
    g.insert_lines(1, 1, 3);
    assert_eq!(grid_row_chars(&g, 0), "AAA");
    assert_eq!(grid_row_chars(&g, 1), "");    // inserted blank
    assert_eq!(grid_row_chars(&g, 2), "BBB");
    assert_eq!(grid_row_chars(&g, 3), "CCC"); // DDD pushed off
}

#[test]
fn grid_test_delete_lines() {
    let mut g = Grid::new(3, 4);
    for (r, s) in ["AAA", "BBB", "CCC", "DDD"].iter().enumerate() {
        g.cursor_row = r;
        g.cursor_col = 0;
        for ch in s.chars() {
            g.put_char(ch, CellAttr::empty(), Color::default_fg(), Color::default_bg());
        }
    }
    g.delete_lines(1, 1, 3);
    assert_eq!(grid_row_chars(&g, 0), "AAA");
    assert_eq!(grid_row_chars(&g, 1), "CCC");
    assert_eq!(grid_row_chars(&g, 2), "DDD");
    assert_eq!(grid_row_chars(&g, 3), "");    // blank at bottom
}

#[test]
fn grid_test_delete_chars() {
    let mut g = Grid::new(10, 1);
    for ch in "ABCDEFGHIJ".chars() {
        g.put_char(ch, CellAttr::empty(), Color::default_fg(), Color::default_bg());
    }
    g.cursor_col = 3;
    g.delete_chars(2); // delete D, E
    assert_eq!(grid_row_chars(&g, 0), "ABCFGHIJ");
}

#[test]
fn grid_test_insert_chars() {
    let mut g = Grid::new(10, 1);
    for ch in "ABCDEFGHIJ".chars() {
        g.put_char(ch, CellAttr::empty(), Color::default_fg(), Color::default_bg());
    }
    g.cursor_col = 3;
    g.insert_chars(2); // insert 2 blanks at D
    assert_eq!(g.cell(0, 3).ch, ' ');
    assert_eq!(g.cell(0, 4).ch, ' ');
    assert_eq!(g.cell(0, 5).ch, 'D');
}

#[test]
fn test_resize_shrink() {
    let mut g = Grid::new(10, 5);
    for ch in "Hello".chars() {
        g.put_char(ch, CellAttr::empty(), Color::default_fg(), Color::default_bg());
    }
    g.cursor_row = 3;
    g.cursor_col = 8;
    g.resize(5, 3);
    assert_eq!(g.cols(), 5);
    assert_eq!(g.rows(), 3);
    assert_eq!(g.cursor_row, 2); // clamped
    assert_eq!(g.cursor_col, 4); // clamped
    assert_eq!(grid_row_chars(&g, 0), "Hello");
}

#[test]
fn test_resize_grow() {
    let mut g = Grid::new(5, 3);
    for ch in "Hi".chars() {
        g.put_char(ch, CellAttr::empty(), Color::default_fg(), Color::default_bg());
    }
    g.resize(10, 5);
    assert_eq!(g.cols(), 10);
    assert_eq!(g.rows(), 5);
    assert_eq!(g.cell(0, 0).ch, 'H');
    assert_eq!(g.cell(0, 1).ch, 'i');
}

#[test]
fn test_scrollback_saved() {
    let mut g = Grid::new(3, 2);
    g.put_char('A', CellAttr::empty(), Color::default_fg(), Color::default_bg());
    g.newline();
    g.put_char('B', CellAttr::empty(), Color::default_fg(), Color::default_bg());
    g.newline(); // scrolls, A goes to scrollback
    assert_eq!(g.scrollback.len(), 1);
    assert_eq!(g.scrollback[0][0].ch, 'A');
}
