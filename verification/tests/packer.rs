use libterm::renderer::packer::AtlasPacker;

#[test]
fn glyphs_go_side_by_side_then_on_a_new_row() {
    let mut p = AtlasPacker::new(8, 6);
    assert_eq!(p.place(3, 2, &[1, 2, 3, 4, 5, 6]), Some((0, 0)));
    assert_eq!(p.place(3, 3, &[7; 9]), Some((4, 0)));
    assert_eq!((p.cursor_x, p.cursor_y, p.row_height), (8, 0, 3));
    // no room with its padding: the next row starts below the tallest glyph
    assert_eq!(p.place(1, 1, &[9]), Some((0, 4)));
    assert_eq!(
        p.pixels,
        vec![
            1, 2, 3, 0, 7, 7, 7, 0, //
            4, 5, 6, 0, 7, 7, 7, 0, //
            0, 0, 0, 0, 7, 7, 7, 0, //
            0, 0, 0, 0, 0, 0, 0, 0, //
            9, 0, 0, 0, 0, 0, 0, 0, //
            0, 0, 0, 0, 0, 0, 0, 0,
        ]
    );
}

#[test]
fn a_full_atlas_places_nothing() {
    let mut p = AtlasPacker::new(4, 2);
    assert_eq!(p.place(2, 3, &[1; 6]), None);
    assert_eq!(p.pixels, vec![0; 8]);
    assert_eq!(p.place(2, 2, &[1; 4]), Some((0, 0)));
    assert_eq!(p.place(2, 1, &[2; 2]), None);
    assert_eq!((p.cursor_x, p.cursor_y, p.row_height), (0, 3, 0));
    assert_eq!(p.place(0, 0, &[]), None);
    assert_eq!(p.place(9, 1, &[3; 9]), None);
    assert_eq!(p.cursor_y, 3);
    assert_eq!(p.pixels, vec![1, 1, 0, 0, 1, 1, 0, 0]);
    // a glyph with no pixels takes its padding
    let mut p = AtlasPacker::new(4, 2);
    assert_eq!(p.place(0, 0, &[]), Some((0, 0)));
    assert_eq!(p.cursor_x, 1);
    // a glyph as wide as the atlas goes on a row of its own
    assert_eq!(p.place(4, 1, &[5; 4]), Some((0, 1)));
    assert_eq!(p.pixels, vec![0, 0, 0, 0, 5, 5, 5, 5]);
}
