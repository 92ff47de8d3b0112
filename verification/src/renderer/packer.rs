//! Packing glyph bitmaps into the atlas: row after row, left to right, with
//! one pixel between neighbours.
use vstd::prelude::*;

verus! {

/// The atlas as pixels (one byte each, row by row) and the place where the
/// next glyph goes.
pub struct AtlasPacker {
    pub pixels: Vec<u8>,
    pub width: usize,
    pub height: usize,
    pub cursor_x: usize,
    pub cursor_y: usize,
    /// The height of the tallest glyph of the row that is being filled.
    pub row_height: usize,
}

/// Where a glyph goes, and the row height that goes with it.
pub struct Origin {
    pub x: int,
    pub y: int,
    pub row_height: int,
}

proof fn lemma_index(x: int, y: int, w: int, h: int)
    requires
        0 <= x < w,
        0 <= y < h,
    ensures
        0 <= y * w + x < h * w,
{
    assert(y * w + x < h * w) by (nonlinear_arith)
        requires
            0 <= x < w,
            0 <= y < h,
    ;
    assert(0 <= y * w) by (nonlinear_arith)
        requires
            0 <= y,
            0 <= w,
    ;
}

proof fn lemma_index_distinct(x: int, y: int, x2: int, y2: int, w: int)
    requires
        0 <= x < w,
        0 <= x2 < w,
        0 <= y,
        0 <= y2,
        x != x2 || y != y2,
    ensures
        y * w + x != y2 * w + x2,
{
    if y < y2 {
        assert(y * w + x < y2 * w + x2) by (nonlinear_arith)
            requires
                y < y2,
                0 <= x < w,
                0 <= x2,
        ;
    } else if y2 < y {
        assert(y2 * w + x2 < y * w + x) by (nonlinear_arith)
            requires
                y2 < y,
                0 <= x2 < w,
                0 <= x,
        ;
    }
}

impl AtlasPacker {
    /// There is a pixel for each position, and the atlas is not empty.
    pub open spec fn wf(&self) -> bool {
        &&& 1 <= self.width < usize::MAX
        &&& self.height < usize::MAX
        &&& self.pixels@.len() == self.width * self.height
    }

    /// The pixel in column `x` of row `y`.
    pub open spec fn pixel(&self, x: int, y: int) -> u8 {
        self.pixels@[y * self.width + x]
    }

    /// Where a glyph of width `w` goes: after the last one, or at the start
    /// of a new row where the row has no room for it and a pixel of padding.
    /// Rows past the atlas count as the first of them.
    pub open spec fn origin(&self, w: int) -> Origin {
        if self.cursor_x + w + 1 > self.width {
            Origin {
                x: 0,
                y: if self.cursor_y + self.row_height + 1 > self.height {
                    self.height + 1
                } else {
                    self.cursor_y + self.row_height + 1
                },
                row_height: 0,
            }
        } else {
            Origin { x: self.cursor_x as int, y: self.cursor_y as int, row_height: self.row_height as int }
        }
    }

    /// Whether a glyph of `w` by `h` pixels can still be placed.
    pub open spec fn fits(&self, w: int, h: int) -> bool {
        self.origin(w).x + w <= self.width && self.origin(w).y + h <= self.height
    }

    /// An atlas of `width` by `height` pixels, all 0.
    pub fn new(width: usize, height: usize) -> (p: AtlasPacker)
        requires
            1 <= width < usize::MAX,
            width * height < usize::MAX,
        ensures
            p.wf(),
            p.width == width,
            p.height == height,
            p.cursor_x == 0,
            p.cursor_y == 0,
            p.row_height == 0,
            forall|i: int| 0 <= i < p.pixels@.len() ==> p.pixels@[i] == 0,
    {
        assert(height <= width * height) by (nonlinear_arith)
            requires
                width >= 1,
                height >= 0,
        ;
        let total = width * height;
        let mut pixels: Vec<u8> = Vec::with_capacity(total);
        let mut i: usize = 0;
        while i < total
            invariant
                i <= total,
                pixels@.len() == i,
                forall|j: int| 0 <= j < i ==> pixels@[j] == 0,
            decreases total - i,
        {
            pixels.push(0);
            i += 1;
        }
        AtlasPacker { pixels, width, height, cursor_x: 0, cursor_y: 0, row_height: 0 }
    }

    /// Places a glyph of `w` by `h` pixels, whose pixels are `bitmap`, row by
    /// row. Returns where its top left corner went, or `None` where the
    /// atlas is full: then no pixel changes.
    pub fn place(&mut self, w: usize, h: usize, bitmap: &[u8]) -> (r: Option<(usize, usize)>)
        requires
            old(self).wf(),
            bitmap@.len() == w * h,
        ensures
            final(self).wf(),
            final(self).width == old(self).width,
            final(self).height == old(self).height,
            r is Some <==> old(self).fits(w as int, h as int),
            r matches Some((x, y)) ==> {
                &&& x == old(self).origin(w as int).x
                &&& y == old(self).origin(w as int).y
                &&& final(self).cursor_x == x + w + 1
                &&& final(self).cursor_y == y
                &&& final(self).row_height == (if old(self).origin(w as int).row_height > h {
                    old(self).origin(w as int).row_height
                } else {
                    h as int
                })
                &&& forall|px: int, py: int|
                    0 <= px < old(self).width && 0 <= py < old(self).height
                        ==> #[trigger] final(self).pixel(px, py) == (if x <= px < x + w && y <= py
                        < y + h {
                        bitmap@[(py - y) * w + (px - x)]
                    } else {
                        old(self).pixel(px, py)
                    })
            },
            r is None ==> {
                &&& final(self).pixels == old(self).pixels
                &&& final(self).cursor_x == old(self).origin(w as int).x
                &&& final(self).cursor_y == old(self).origin(w as int).y
                &&& final(self).row_height == old(self).origin(w as int).row_height
            },
    {
        if self.cursor_x as u128 + w as u128 + 1 > self.width as u128 {
            self.cursor_x = 0;
            self.cursor_y = if self.cursor_y as u128 + self.row_height as u128 + 1
                > self.height as u128 {
                self.height + 1
            } else {
                self.cursor_y + self.row_height + 1
            };
            self.row_height = 0;
        }
        if w > self.width - self.cursor_x || self.cursor_y > self.height || h > self.height
            - self.cursor_y {
            return None;
        }
        let x = self.cursor_x;
        let y = self.cursor_y;
        let width = self.width;
        let size = self.pixels.len();
        let given = bitmap.len();
        let tallest = self.row_height;
        let mut row: usize = 0;
        while row < h
            invariant
                self.wf(),
                width == self.width == old(self).width,
                self.height == old(self).height,
                self.cursor_x == x,
                self.cursor_y == y,
                self.row_height == tallest,
                x + w <= width,
                y + h <= self.height,
                row <= h,
                bitmap@.len() == w * h,
                bitmap@.len() == given,
                self.pixels@.len() == size,
                forall|px: int, py: int|
                    0 <= px < width && 0 <= py < self.height ==> #[trigger] self.pixel(px, py)
                        == (if x <= px < x + w && y <= py < y + row {
                        bitmap@[(py - y) * w + (px - x)]
                    } else {
                        old(self).pixel(px, py)
                    }),
            decreases h - row,
        {
            let mut col: usize = 0;
            while col < w
                invariant
                    self.wf(),
                    width == self.width == old(self).width,
                    self.height == old(self).height,
                    self.cursor_x == x,
                    self.cursor_y == y,
                    self.row_height == tallest,
                    x + w <= width,
                    y + h <= self.height,
                    row < h,
                    col <= w,
                    bitmap@.len() == w * h,
                    bitmap@.len() == given,
                    self.pixels@.len() == size,
                    forall|px: int, py: int|
                        0 <= px < width && 0 <= py < self.height ==> #[trigger] self.pixel(px, py)
                            == (if x <= px < x + w && (y <= py < y + row || (py == y + row && px
                            < x + col)) {
                            bitmap@[(py - y) * w + (px - x)]
                        } else {
                            old(self).pixel(px, py)
                        }),
                decreases w - col,
            {
                proof {
                    lemma_index(col as int, row as int, w as int, h as int);
                    lemma_index(x + col, y + row, width as int, self.height as int);
                    assert(h * w == w * h) by (nonlinear_arith);
                    assert(self.height * width == width * self.height) by (nonlinear_arith);
                    assert(0 <= row * w) by (nonlinear_arith)
                        requires
                            0 <= row,
                            0 <= w,
                    ;
                    assert(0 <= (y + row) * width) by (nonlinear_arith)
                        requires
                            0 <= y + row,
                            0 <= width,
                    ;
                }
                let src = bitmap[row * w + col];
                let ghost before = *self;
                let at = (y + row) * width + (x + col);
                self.pixels[at] = src;
                assert forall|px: int, py: int|
                    0 <= px < width && 0 <= py < self.height implies #[trigger] self.pixel(px, py)
                    == (if x <= px < x + w && (y <= py < y + row || (py == y + row && px < x + col
                    + 1)) {
                    bitmap@[(py - y) * w + (px - x)]
                } else {
                    old(self).pixel(px, py)
                }) by {
                    lemma_index(px, py, width as int, self.height as int);
                    if px != x + col || py != y + row {
                        lemma_index_distinct(px, py, x + col, y + row, width as int);
                        assert(self.pixel(px, py) == before.pixel(px, py));
                    }
                }
                col += 1;
            }
            row += 1;
        }
        let ghost copied = *self;
        self.cursor_x = x + w + 1;
        if h > self.row_height {
            self.row_height = h;
        }
        assert forall|px: int, py: int|
            0 <= px < old(self).width && 0 <= py < old(self).height implies #[trigger] self.pixel(
            px,
            py,
        ) == (if x <= px < x + w && y <= py < y + h {
            bitmap@[(py - y) * w + (px - x)]
        } else {
            old(self).pixel(px, py)
        }) by {
            assert(self.pixel(px, py) == copied.pixel(px, py));
        }
        Some((x, y))
    }
}

} // verus!
