//! Writing text in the Premium typeface.

use vstd::prelude::*;
use crate::glyphs::glyph_of;
use crate::glyphs::lemma_glyph_bounds;
use crate::glyphs::lookup;
use crate::glyphs::MAX_ADVANCE;
use crate::glyphs::MAX_ROWS;
use crate::surface::lemma_plotted_all_append;
use crate::surface::plotted_all;
use crate::surface::Surface;

verus! {

/// The gap in pixels between two neighbouring glyphs.
pub const GAP: i32 = 2;

/// The columns of a glyph row.
pub const COLUMNS: u32 = 16;

/// Whether column `j` of a glyph row is set; column 0 is the leftmost.
pub open spec fn column_set(row: u16, j: u32) -> bool {
    row & (1u16 << (15 - j)) != 0
}

/// The pixels of the first `n` columns of a glyph row whose column 2 is at
/// `x`, left to right.
pub open spec fn row_points(row: u16, x: int, y: int, n: nat) -> Seq<(int, int)>
    decreases n,
{
    if n == 0 {
        Seq::empty()
    } else {
        let before = row_points(row, x, y, (n - 1) as nat);
        if column_set(row, (n - 1) as u32) {
            before.push((x + (n - 1) - 2, y))
        } else {
            before
        }
    }
}

/// The pixels of the first `n` of some glyph rows, the first of which is at
/// height `top`: row after row downwards, each from left to right.
pub open spec fn rows_points(rows: Seq<u16>, x: int, top: int, n: nat) -> Seq<(int, int)>
    decreases n,
{
    if n == 0 {
        Seq::empty()
    } else {
        rows_points(rows, x, top, (n - 1) as nat) + row_points(
            rows[n - 1],
            x,
            top + (n - 1),
            COLUMNS as nat,
        )
    }
}

/// The pixels of the glyph of `c` with the pen at `x` on the baseline `y`.
/// Row `i` of `h` rows lies at `y - h + offset + i`.
pub open spec fn glyph_points(x: int, y: int, c: char) -> Seq<(int, int)> {
    let g = glyph_of(c);
    rows_points(g.rows, x, y - g.rows.len() + g.offset, g.rows.len())
}

/// The width of a text: the advances of its glyphs and a gap of [`GAP`]
/// pixels between each two of them.
pub open spec fn text_width(text: Seq<char>) -> int
    decreases text.len(),
{
    if text.len() == 0 {
        0
    } else if text.len() == 1 {
        glyph_of(text[0]).advance
    } else {
        text_width(text.drop_last()) + GAP + glyph_of(text.last()).advance
    }
}

/// Where the pen stands, relative to the start of the text, when character
/// `i` of `text` is drawn.
pub open spec fn pen_offset(text: Seq<char>, i: int) -> int {
    if i <= 0 {
        0
    } else {
        text_width(text.take(i)) + GAP
    }
}

/// The pixels of the first `n` characters of a text that starts at `x` on
/// the baseline `y`, glyph after glyph.
pub open spec fn text_points(x: int, y: int, text: Seq<char>, n: nat) -> Seq<(int, int)>
    decreases n,
{
    if n == 0 {
        Seq::empty()
    } else {
        text_points(x, y, text, (n - 1) as nat) + glyph_points(
            x + pen_offset(text, n - 1),
            y,
            text[n - 1],
        )
    }
}

/// A text is never narrower than -2 pixels, and no prefix of it is wider
/// than the whole.
pub proof fn lemma_text_width_grows(text: Seq<char>, i: int)
    requires
        0 <= i <= text.len(),
    ensures
        -2 <= text_width(text.take(i)),
        1 <= i ==> text_width(text.take(i)) <= text_width(text),
    decreases text.len() - i,
{
    lemma_text_width_floor(text.take(i));
    if i == text.len() {
        assert(text.take(i) =~= text);
    } else {
        lemma_text_width_grows(text, i + 1);
        assert(text.take(i + 1).drop_last() =~= text.take(i));
        lemma_glyph_bounds(text[i]);
    }
}

/// A text of `n` characters is at most `12 * n` pixels wide, so a text of
/// up to a hundred million characters can always be written.
pub proof fn lemma_text_width_bound(text: Seq<char>)
    ensures
        text_width(text) <= (MAX_ADVANCE + GAP) * text.len(),
        text.len() <= 100_000_000 ==> text_width(text) <= i32::MAX,
    decreases text.len(),
{
    if text.len() > 0 {
        lemma_glyph_bounds(text.last());
        lemma_text_width_bound(text.drop_last());
    }
}

proof fn lemma_text_width_floor(text: Seq<char>)
    ensures
        -2 <= text_width(text),
    decreases text.len(),
{
    if text.len() > 0 {
        lemma_glyph_bounds(text.last());
        lemma_text_width_floor(text.drop_last());
    }
}

/// Write on a surface using the Premium typeface
pub trait Premium {
    /// Write the text with the baseline starting at the given position.
    /// Returns the width of the text in pixels.
    ///
    /// The width has to fit the result, which
    /// [`lemma_text_width_bound`] shows of every text of reasonable length.
    fn premium(&mut self, x: i32, y: i32, text: &str) -> (width: i32)
        requires
            text_width(text@) <= i32::MAX,
        ensures
            width == text_width(text@),
    ;
}

impl<S: Surface> Premium for S {
    /// Plots the pixels of [`text_points`], glyph after glyph.
    fn premium(&mut self, x: i32, y: i32, text: &str) -> (width: i32)
        ensures
            *final(self) == plotted_all(
                *old(self),
                text_points(x as int, y as int, text@, text@.len()),
            ),
    {
        let mut w: i64 = 0;
        let mut first = true;
        for c in it: text.chars()
            invariant
                it.seq() == text@,
                text_width(text@) <= i32::MAX,
                first == (it.index() == 0),
                w == text_width(text@.take(it.index() as int)),
                *self == plotted_all(
                    *old(self),
                    text_points(x as int, y as int, text@, it.index() as nat),
                ),
        {
            let ghost i = it.index() as int;
            let ghost drawn = text_points(x as int, y as int, text@, i as nat);
            proof {
                lemma_text_width_grows(text@, i);
                lemma_text_width_grows(text@, i + 1);
                assert(text@.take(i + 1).drop_last() =~= text@.take(i));
                assert(text@.take(0) =~= Seq::<char>::empty());
            }
            if !first {
                w += GAP as i64;
            }
            first = false;
            let advance = glyph(self, x as i64 + w, y, c);
            w += advance as i64;
            proof {
                lemma_plotted_all_append(
                    *old(self),
                    drawn,
                    glyph_points(x + pen_offset(text@, i), y as int, c),
                );
            }
        }
        proof {
            assert(text@.take(text@.len() as int) =~= text@);
            lemma_text_width_grows(text@, text@.len() as int);
        }
        w as i32
    }
}

/// Draw the glyph of one character with the pen at `x` on the baseline `y`,
/// and return its advance.
///
/// Plots the pixels of [`glyph_points`]: every set bit, row after row.
pub fn glyph<S: Surface>(surface: &mut S, x: i64, y: i32, c: char) -> (advance: i32)
    requires
        -0x1_0000_0000 <= x <= 0x1_0000_0000,
    ensures
        advance == glyph_of(c).advance,
        *final(surface) == plotted_all(*old(surface), glyph_points(x as int, y as int, c)),
{
    let (rows, advance, offset) = lookup(c);
    let h = rows.len();
    proof {
        lemma_glyph_bounds(c);
    }
    let top: i64 = y as i64 - h as i64 + offset as i64;
    let mut i: usize = 0;
    while i < h
        invariant
            0 <= i <= h,
            h == rows@.len(),
            h <= MAX_ROWS,
            top == y - h + offset,
            -6 <= offset <= 3,
            -0x1_0000_0000 <= x <= 0x1_0000_0000,
            *surface == plotted_all(*old(surface), rows_points(rows@, x as int, top as int, i as nat)),
        decreases h - i,
    {
        let row = rows[i];
        let py: i64 = top + i as i64;
        let ghost above = rows_points(rows@, x as int, top as int, i as nat);
        let mut j: u32 = 0;
        proof {
            assert(above + row_points(row, x as int, py as int, 0) =~= above);
        }
        while j < COLUMNS
            invariant
                0 <= j <= COLUMNS,
                -0x1_0000_0000 <= x <= 0x1_0000_0000,
                i32::MIN - 17 <= py <= i32::MAX + 17,
                *surface == plotted_all(
                    *old(surface),
                    above + row_points(row, x as int, py as int, j as nat),
                ),
            decreases COLUMNS - j,
        {
            let ghost before = above + row_points(row, x as int, py as int, j as nat);
            if row & (1u16 << (15 - j)) != 0 {
                let px: i64 = x + j as i64 - 2;
                proof {
                    assert(above + row_points(row, x as int, py as int, j as nat).push(
                        (px as int, py as int),
                    ) =~= before.push((px as int, py as int)));
                    assert(before.push((px as int, py as int)).drop_last() =~= before);
                    surface.lemma_surface(px as int, py as int);
                }
                if i32::MIN as i64 <= px && px <= i32::MAX as i64 && i32::MIN as i64 <= py && py
                    <= i32::MAX as i64 {
                    surface.pixel(px as i32, py as i32);
                }
            }
            j += 1;
        }
        i += 1;
    }
    advance
}

/// Whether `p` is the pixel of column `j` of a glyph row, and set.
pub open spec fn is_row_pixel(row: u16, x: int, y: int, j: int, p: (int, int)) -> bool {
    0 <= j < COLUMNS && column_set(row, j as u32) && p == (x + j - 2, y)
}

/// Whether `p` is the pixel of column `j` of row `i` of the glyph of `c`,
/// and set.
pub open spec fn is_glyph_pixel(x: int, y: int, c: char, i: int, j: int, p: (int, int)) -> bool {
    let g = glyph_of(c);
    0 <= i < g.rows.len() && is_row_pixel(g.rows[i], x, y - g.rows.len() + g.offset + i, j, p)
}

/// The pixels of a glyph row are its set columns: column `j` is the pixel
/// `x + j - 2`.
pub proof fn lemma_row_pixels(row: u16, x: int, y: int, n: nat, p: (int, int))
    requires
        n <= COLUMNS,
    ensures
        row_points(row, x, y, n).contains(p) <==> exists|j: int|
            j < n && #[trigger] is_row_pixel(row, x, y, j, p),
    decreases n,
{
    if n > 0 {
        let before = row_points(row, x, y, (n - 1) as nat);
        let all = row_points(row, x, y, n);
        lemma_row_pixels(row, x, y, (n - 1) as nat, p);
        if all.contains(p) {
            let at = choose|at: int| 0 <= at < all.len() && all[at] == p;
            if at < before.len() {
                assert(before[at] == p);
                let j = choose|j: int| j < n - 1 && #[trigger] is_row_pixel(row, x, y, j, p);
                assert(j < n && is_row_pixel(row, x, y, j, p));
            } else {
                assert(is_row_pixel(row, x, y, n - 1, p));
            }
        }
        if exists|j: int| j < n && #[trigger] is_row_pixel(row, x, y, j, p) {
            let j = choose|j: int| j < n && #[trigger] is_row_pixel(row, x, y, j, p);
            if j < n - 1 {
                let at = choose|at: int| 0 <= at < before.len() && before[at] == p;
                assert(all[at] == p);
            } else {
                assert(all[all.len() - 1] == p);
            }
        }
    }
}

/// The pixels of a glyph are the set bits of its rows: bit `15 - j` of row
/// `i` of `h` rows is the pixel `(x + j - 2, y - h + offset + i)`.
pub proof fn lemma_glyph_pixels(x: int, y: int, c: char, p: (int, int))
    ensures
        glyph_points(x, y, c).contains(p) <==> exists|i: int, j: int| #[trigger]
            is_glyph_pixel(x, y, c, i, j, p),
{
    let g = glyph_of(c);
    let top = y - g.rows.len() + g.offset;
    lemma_rows_pixels(g.rows, x, top, g.rows.len(), p);
    if glyph_points(x, y, c).contains(p) {
        let (i, j) = choose|i: int, j: int|
            0 <= i < g.rows.len() && #[trigger] is_row_pixel(g.rows[i], x, top + i, j, p);
        assert(is_glyph_pixel(x, y, c, i, j, p));
    }
    if exists|i: int, j: int| #[trigger] is_glyph_pixel(x, y, c, i, j, p) {
        let (i, j) = choose|i: int, j: int| #[trigger] is_glyph_pixel(x, y, c, i, j, p);
        assert(0 <= i < g.rows.len() && is_row_pixel(g.rows[i], x, top + i, j, p));
    }
}

proof fn lemma_rows_pixels(rows: Seq<u16>, x: int, top: int, n: nat, p: (int, int))
    requires
        n <= rows.len(),
    ensures
        rows_points(rows, x, top, n).contains(p) <==> exists|i: int, j: int|
            0 <= i < n && #[trigger] is_row_pixel(rows[i], x, top + i, j, p),
    decreases n,
{
    if n > 0 {
        let above = rows_points(rows, x, top, (n - 1) as nat);
        let row = row_points(rows[n - 1], x, top + (n - 1), COLUMNS as nat);
        let all = rows_points(rows, x, top, n);
        lemma_rows_pixels(rows, x, top, (n - 1) as nat, p);
        lemma_row_pixels(rows[n - 1], x, top + (n - 1), COLUMNS as nat, p);
        if all.contains(p) {
            let at = choose|at: int| 0 <= at < all.len() && all[at] == p;
            if at < above.len() {
                assert(above[at] == p);
                let (i, j) = choose|i: int, j: int|
                    0 <= i < n - 1 && #[trigger] is_row_pixel(rows[i], x, top + i, j, p);
                assert(0 <= i < n && is_row_pixel(rows[i], x, top + i, j, p));
            } else {
                assert(row[at - above.len()] == p);
                let j = choose|j: int|
                    j < COLUMNS && #[trigger] is_row_pixel(rows[n - 1], x, top + (n - 1), j, p);
                assert(is_row_pixel(rows[n - 1], x, top + (n - 1), j, p));
            }
        }
        if exists|i: int, j: int|
            0 <= i < n && #[trigger] is_row_pixel(rows[i], x, top + i, j, p) {
            let (i, j) = choose|i: int, j: int|
                0 <= i < n && #[trigger] is_row_pixel(rows[i], x, top + i, j, p);
            if i < n - 1 {
                let at = choose|at: int| 0 <= at < above.len() && above[at] == p;
                assert(all[at] == p);
            } else {
                assert(j < COLUMNS && is_row_pixel(rows[n - 1], x, top + (n - 1), j, p));
                let at = choose|at: int| 0 <= at < row.len() && row[at] == p;
                assert(all[above.len() + at] == p);
            }
        }
    }
}

/// The pixels of a text are the pixels of its glyphs, each with the pen
/// where the glyphs before it and the gaps between them have left it.
pub proof fn lemma_text_pixels(x: int, y: int, text: Seq<char>, n: nat, p: (int, int))
    requires
        n <= text.len(),
    ensures
        text_points(x, y, text, n).contains(p) <==> exists|k: int|
            0 <= k < n && #[trigger] glyph_points(x + pen_offset(text, k), y, text[k]).contains(p),
    decreases n,
{
    if n > 0 {
        let before = text_points(x, y, text, (n - 1) as nat);
        let glyph = glyph_points(x + pen_offset(text, n - 1), y, text[n - 1]);
        let all = text_points(x, y, text, n);
        lemma_text_pixels(x, y, text, (n - 1) as nat, p);
        if all.contains(p) {
            let at = choose|at: int| 0 <= at < all.len() && all[at] == p;
            if at < before.len() {
                assert(before[at] == p);
                let k = choose|k: int|
                    0 <= k < n - 1 && #[trigger] glyph_points(
                        x + pen_offset(text, k),
                        y,
                        text[k],
                    ).contains(p);
                assert(0 <= k < n && glyph_points(x + pen_offset(text, k), y, text[k]).contains(p));
            } else {
                assert(glyph[at - before.len()] == p);
                assert(glyph_points(x + pen_offset(text, n - 1), y, text[n - 1]).contains(p));
            }
        }
        if exists|k: int|
            0 <= k < n && #[trigger] glyph_points(x + pen_offset(text, k), y, text[k]).contains(p) {
            let k = choose|k: int|
                0 <= k < n && #[trigger] glyph_points(x + pen_offset(text, k), y, text[k]).contains(
                    p,
                );
            if k < n - 1 {
                let at = choose|at: int| 0 <= at < before.len() && before[at] == p;
                assert(all[at] == p);
            } else {
                let at = choose|at: int| 0 <= at < glyph.len() && glyph[at] == p;
                assert(all[before.len() + at] == p);
            }
        }
    }
}

} // verus!
