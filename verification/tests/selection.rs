use libterm::renderer::selection::{Selection, SelectionMode};
use libterm::term_core::{CellAttr, Color, Grid};

#[test]
fn test_selection_empty() {
    let s = Selection::new();
    assert!(!s.active);
    assert!(!s.contains(0, 0));
}

#[test]
fn test_selection_single_line() {
    let mut s = Selection::new();
    s.begin(0, 2, SelectionMode::Normal);
    s.update(0, 7);
    assert!(s.contains(0, 2));
    assert!(s.contains(0, 5));
    assert!(s.contains(0, 7));
    assert!(!s.contains(0, 1));
    assert!(!s.contains(0, 8));
    assert!(!s.contains(1, 5));
}

#[test]
fn test_selection_multi_line() {
    let mut s = Selection::new();
    s.begin(1, 5, SelectionMode::Normal);
    s.update(3, 3);
    // Row 1: col 5+
    assert!(!s.contains(1, 4));
    assert!(s.contains(1, 5));
    assert!(s.contains(1, 79));
    // Row 2: all
    assert!(s.contains(2, 0));
    assert!(s.contains(2, 50));
    // Row 3: up to col 3
    assert!(s.contains(3, 0));
    assert!(s.contains(3, 3));
    assert!(!s.contains(3, 4));
}

#[test]
fn test_selection_reversed() {
    let mut s = Selection::new();
    s.begin(3, 5, SelectionMode::Normal);
    s.update(1, 2); // drag upward
    assert!(s.contains(1, 2));
    assert!(s.contains(2, 0));
    assert!(s.contains(3, 5));
    assert!(!s.contains(3, 6));
}

#[test]
fn test_selection_line_mode() {
    let mut s = Selection::new();
    s.begin(2, 5, SelectionMode::Line);
    s.update(4, 0);
    assert!(!s.contains(1, 0));
    assert!(s.contains(2, 0)); // entire line
    assert!(s.contains(3, 50));
    assert!(s.contains(4, 79));
    assert!(!s.contains(5, 0));
}

#[test]
fn test_selection_clear() {
    let mut s = Selection::new();
    s.begin(0, 0, SelectionMode::Normal);
    s.update(5, 5);
    s.clear();
    assert!(!s.active);
    assert!(!s.contains(0, 0));
}

#[test]
fn test_get_text() {
    let mut grid = Grid::new(10, 3);
    for (i, ch) in "Hello".chars().enumerate() {
        grid.cursor_col = i;
        grid.cursor_row = 0;
        grid.put_char(ch, CellAttr::empty(), Color::default_fg(), Color::default_bg());
    }
    for (i, ch) in "World".chars().enumerate() {
        grid.cursor_col = i;
        grid.cursor_row = 1;
        grid.put_char(ch, CellAttr::empty(), Color::default_fg(), Color::default_bg());
    }

    let mut s = Selection::new();
    s.begin(0, 0, SelectionMode::Normal);
    s.update(0, 4);
    assert_eq!(s.get_text(&grid), "Hello");
}

#[test]
fn test_get_text_multiline() {
    let mut grid = Grid::new(10, 3);
    for (i, ch) in "Hello".chars().enumerate() {
        grid.cursor_col = i;
        grid.cursor_row = 0;
        grid.put_char(ch, CellAttr::empty(), Color::default_fg(), Color::default_bg());
    }
    for (i, ch) in "World".chars().enumerate() {
        grid.cursor_col = i;
        grid.cursor_row = 1;
        grid.put_char(ch, CellAttr::empty(), Color::default_fg(), Color::default_bg());
    }

    let mut s = Selection::new();
    s.begin(0, 0, SelectionMode::Normal);
    s.update(1, 4);
    assert_eq!(s.get_text(&grid), "Hello\nWorld");
}
