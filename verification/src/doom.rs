//! The title screen: a colour gradient across the whole screen, with the
//! `#` characters of the logo picked out over it.
use vstd::prelude::*;
use crate::banner::{banner_lines, doom_banner};
use crate::vga::{
    column_of, glyph_frame, lemma_put_pixel, row_of, GlyphFilter, Renderer, SCREEN_PIXELS,
    VGA_HEIGHT, VGA_WIDTH,
};

verus! {

/// Palette entry of the logo's `#` characters on the title screen.
pub const TITLE_COLOR: u8 = 12;

/// Column of the logo's left edge on the title screen.
pub const TITLE_X: usize = 80;

/// Row of the logo's top line on the title screen.
pub const TITLE_Y: usize = 50;

/// Palette entry of the gradient at column `x`, row `y`: the mean of the
/// column's and the row's share of 255.  The original computes `x * 255` in
/// 16 bits, which overflows for columns from 258 on: a debug build panics
/// there and a release build wraps the product around at 65536.  This
/// follows the wrapping, so the right-hand columns are an artefact of that
/// overflow, not a planned part of the gradient.
pub open spec fn gradient_shade(x: int, y: int) -> int {
    ((x * 255) % 65536 / 320 + y * 255 / 200) / 2
}

/// The whole screen painted with the gradient.
pub open spec fn gradient_frame(s: Seq<u8>) -> Seq<u8> {
    Seq::new(s.len(), |i: int| gradient_shade(column_of(i), row_of(i)) as u8)
}

/// The title screen: the gradient, with every `#` of the logo, placed at
/// column 80, row 50, painted over it.
pub open spec fn title_frame(s: Seq<u8>) -> Seq<u8> {
    glyph_frame(gradient_frame(s), doom_banner(), 80, 50, GlyphFilter::Only('#'), TITLE_COLOR)
}

/// Paints the whole screen with the gradient.
pub fn draw_gradient(r: &mut Renderer)
    requires
        old(r).wf(),
    ensures
        final(r)@ == gradient_frame(old(r)@),
{
    let ghost start = r@;
    let mut y: usize = 0;
    while y < VGA_HEIGHT
        invariant
            y <= VGA_HEIGHT,
            r@.len() == SCREEN_PIXELS,
            start.len() == SCREEN_PIXELS,
            forall|j: int|
                0 <= j < 64000 ==> #[trigger] r@[j] == if row_of(j) < y {
                    gradient_shade(column_of(j), row_of(j)) as u8
                } else {
                    start[j]
                },
        decreases VGA_HEIGHT - y,
    {
        let mut x: usize = 0;
        while x < VGA_WIDTH
            invariant
                y < VGA_HEIGHT,
                x <= VGA_WIDTH,
                r@.len() == SCREEN_PIXELS,
                start.len() == SCREEN_PIXELS,
                forall|j: int|
                    0 <= j < 64000 ==> #[trigger] r@[j] == if row_of(j) < y || (row_of(j) == y
                        && column_of(j) < x) {
                        gradient_shade(column_of(j), row_of(j)) as u8
                    } else {
                        start[j]
                    },
            decreases VGA_WIDTH - x,
        {
            let across: u16 = (x as u16).wrapping_mul(255) / 320;
            let down: u16 = (y as u16) * 255 / 200;
            let color: u8 = ((across + down) / 2) as u8;
            assert(color == gradient_shade(x as int, y as int) as u8);
            let ghost before = r@;
            r.put(x, y, color);
            proof {
                lemma_put_pixel(before, r@, x as int, y as int, color);
            }
            x = x + 1;
        }
        y = y + 1;
    }
    assert(r@ =~= gradient_frame(start));
}

/// Paints the title screen: the gradient, then each `#` of the logo as a
/// red dot, the logo's top-left corner at column 80, row 50.
pub fn draw_title_screen(r: &mut Renderer)
    requires
        old(r).wf(),
    ensures
        final(r)@ == title_frame(old(r)@),
        final(r).wf(),
{
    draw_gradient(r);
    let doom_pattern = banner_lines();
    r.draw_glyphs(&doom_pattern, TITLE_X, TITLE_Y, GlyphFilter::Only('#'), TITLE_COLOR);
}

} // verus!
