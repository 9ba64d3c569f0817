//! The VGA mode 13h framebuffer: 320 x 200 pixels, one palette byte each,
//! stored row by row.
use vstd::prelude::*;

verus! {

/// Pixels per row.
pub const VGA_WIDTH: usize = 320;

/// Rows on the screen.
pub const VGA_HEIGHT: usize = 200;

/// Pixels on the screen.
pub const SCREEN_PIXELS: usize = 64000;

/// Physical address of the mode 13h framebuffer.
pub const VGA_BUFFER: usize = 0xA0000;

/// Offset of the pixel in column `x` of row `y`.
pub open spec fn pixel_index(x: int, y: int) -> int {
    y * 320 + x
}

/// Column of the pixel at offset `i`.
pub open spec fn column_of(i: int) -> int {
    i % 320
}

/// Row of the pixel at offset `i`.
pub open spec fn row_of(i: int) -> int {
    i / 320
}

/// The offset of an on-screen pixel gives back its column and row.
pub proof fn lemma_pixel_coords(x: int, y: int)
    requires
        0 <= x < 320,
        0 <= y,
    ensures
        column_of(pixel_index(x, y)) == x,
        row_of(pixel_index(x, y)) == y,
{
    vstd::arithmetic::div_mod::lemma_fundamental_div_mod_converse(pixel_index(x, y), 320, y, x);
}

/// Every offset is the offset of its own column and row.
pub proof fn lemma_coords_pixel(i: int)
    requires
        0 <= i,
    ensures
        pixel_index(column_of(i), row_of(i)) == i,
        0 <= column_of(i) < 320,
        0 <= row_of(i),
        i < 64000 ==> row_of(i) < 200,
{
    vstd::arithmetic::div_mod::lemma_fundamental_div_mod(i, 320);
}

/// Setting the pixel at column `x`, row `y` changes exactly the pixel with
/// that column and row.
pub proof fn lemma_put_pixel(before: Seq<u8>, after: Seq<u8>, x: int, y: int, c: u8)
    requires
        before.len() == 64000,
        after == before.update(pixel_index(x, y), c),
        0 <= x < 320,
        0 <= y < 200,
    ensures
        after.len() == 64000,
        forall|j: int|
            0 <= j < 64000 ==> #[trigger] after[j] == if column_of(j) == x && row_of(j) == y {
                c
            } else {
                before[j]
            },
{
    lemma_pixel_coords(x, y);
    assert forall|j: int| 0 <= j < 64000 implies #[trigger] after[j] == if column_of(j) == x
        && row_of(j) == y {
        c
    } else {
        before[j]
    } by {
        lemma_coords_pixel(j);
    }
}

/// A frame whose every pixel is palette entry 0.
pub open spec fn cleared(s: Seq<u8>) -> Seq<u8> {
    Seq::new(s.len(), |i: int| 0u8)
}

/// An off-screen picture of the whole framebuffer, with the drawing
/// operations of the engine.  Its view is the sequence of palette bytes, row
/// by row.
pub struct Renderer {
    buffer: Vec<u8>,
}

impl View for Renderer {
    type V = Seq<u8>;

    closed spec fn view(&self) -> Seq<u8> {
        self.buffer@
    }
}

impl Renderer {
    /// The picture covers the whole screen.
    pub open spec fn wf(&self) -> bool {
        self@.len() == SCREEN_PIXELS
    }

    /// A picture of the whole screen, all black.
    pub fn new() -> (r: Self)
        ensures
            r.wf(),
            r@ == cleared(r@),
    {
        let buffer: Vec<u8> = vec![0u8; SCREEN_PIXELS];
        let r = Renderer { buffer };
        assert(r@ =~= cleared(r@));
        r
    }

    /// The palette bytes of the picture, row by row, as the framebuffer
    /// holds them.
    pub fn pixels(&self) -> (p: &[u8])
        ensures
            p@ == self@,
    {
        self.buffer.as_slice()
    }

    /// The palette byte of the pixel in column `x` of row `y`.
    pub fn pixel(&self, x: usize, y: usize) -> (c: u8)
        requires
            self.wf(),
            x < VGA_WIDTH,
            y < VGA_HEIGHT,
        ensures
            c == self@[pixel_index(x as int, y as int)],
    {
        self.buffer[y * VGA_WIDTH + x]
    }

    /// Sets one on-screen pixel.
    pub(crate) fn put(&mut self, x: usize, y: usize, color: u8)
        requires
            old(self).wf(),
            x < VGA_WIDTH,
            y < VGA_HEIGHT,
        ensures
            final(self)@ == old(self)@.update(pixel_index(x as int, y as int), color),
    {
        self.buffer.set(y * VGA_WIDTH + x, color);
    }

    /// Paints every pixel black.
    pub fn clear_screen(&mut self)
        requires
            old(self).wf(),
        ensures
            final(self)@ == cleared(old(self)@),
    {
        let mut i: usize = 0;
        while i < SCREEN_PIXELS
            invariant
                self@.len() == SCREEN_PIXELS,
                i <= SCREEN_PIXELS,
                forall|j: int| 0 <= j < i ==> self@[j] == 0u8,
            decreases SCREEN_PIXELS - i,
        {
            self.buffer.set(i, 0);
            i = i + 1;
        }
        assert(self@ =~= cleared(old(self)@));
    }
}

/// Which characters of a block of text are drawn as pixels.
#[derive(Debug, Clone, Copy)]
pub enum GlyphFilter {
    /// Only this character.
    Only(char),
    /// Every character but this one.
    AllBut(char),
}

impl GlyphFilter {
    /// The filter lets `ch` through.
    pub open spec fn admits(self, ch: char) -> bool {
        match self {
            GlyphFilter::Only(c) => ch == c,
            GlyphFilter::AllBut(c) => ch != c,
        }
    }

    /// Whether the filter lets `ch` through.
    pub fn selects(&self, ch: char) -> (b: bool)
        ensures
            b == self.admits(ch),
    {
        match self {
            GlyphFilter::Only(c) => ch == *c,
            GlyphFilter::AllBut(c) => ch != *c,
        }
    }
}

/// The characters of each line of a block of text.
pub open spec fn text_of(lines: Seq<&str>) -> Seq<Seq<char>> {
    Seq::new(lines.len(), |i: int| lines[i]@)
}

/// The text placed with its first character at column `x0`, row `y0` puts an
/// admitted character on the pixel at column `x`, row `y`.
pub open spec fn glyph_covers(
    text: Seq<Seq<char>>,
    x0: int,
    y0: int,
    filter: GlyphFilter,
    x: int,
    y: int,
) -> bool {
    let r = y - y0;
    let c = x - x0;
    &&& 0 <= r < text.len()
    &&& 0 <= c < text[r].len()
    &&& filter.admits(text[r][c])
}

/// The frame `s` with every admitted character of the text, placed at
/// column `x0`, row `y0`, one pixel per character, painted in `color`;
/// what falls off the screen is not drawn.
pub open spec fn glyph_frame(
    s: Seq<u8>,
    text: Seq<Seq<char>>,
    x0: int,
    y0: int,
    filter: GlyphFilter,
    color: u8,
) -> Seq<u8> {
    Seq::new(
        s.len(),
        |i: int|
            if glyph_covers(text, x0, y0, filter, column_of(i), row_of(i)) {
                color
            } else {
                s[i]
            },
    )
}

impl Renderer {
    /// Draws one pixel in `color` for every character of `lines` that the
    /// filter admits, the first character of the first line at column
    /// `start_x`, row `start_y`; characters that fall off the screen are
    /// skipped.
    pub fn draw_glyphs(
        &mut self,
        lines: &Vec<&str>,
        start_x: usize,
        start_y: usize,
        filter: GlyphFilter,
        color: u8,
    )
        requires
            old(self).wf(),
        ensures
            final(self)@ == glyph_frame(
                old(self)@,
                text_of(lines@),
                start_x as int,
                start_y as int,
                filter,
                color,
            ),
    {
        let ghost start = self@;
        let ghost text = text_of(lines@);
        if start_x >= VGA_WIDTH || start_y >= VGA_HEIGHT {
            assert forall|j: int| 0 <= j < 64000 implies !glyph_covers(
                text,
                start_x as int,
                start_y as int,
                filter,
                #[trigger] column_of(j),
                row_of(j),
            ) by {
                lemma_coords_pixel(j);
            }
            assert(self@ =~= glyph_frame(start, text, start_x as int, start_y as int, filter, color));
            return;
        }
        let mut row: usize = 0;
        while row < lines.len() && row < VGA_HEIGHT - start_y
            invariant
                start_x < VGA_WIDTH,
                start_y < VGA_HEIGHT,
                row <= lines.len(),
                row <= VGA_HEIGHT - start_y,
                text == text_of(lines@),
                self@.len() == SCREEN_PIXELS,
                start.len() == SCREEN_PIXELS,
                forall|j: int|
                    0 <= j < 64000 ==> #[trigger] self@[j] == if glyph_covers(
                        text,
                        start_x as int,
                        start_y as int,
                        filter,
                        column_of(j),
                        row_of(j),
                    ) && row_of(j) - start_y < row {
                        color
                    } else {
                        start[j]
                    },
            decreases lines.len() - row,
        {
            let line: &str = lines[row];
            let n: usize = line.unicode_len();
            let mut col: usize = 0;
            while col < n && col < VGA_WIDTH - start_x
                invariant
                    start_x < VGA_WIDTH,
                    start_y < VGA_HEIGHT,
                    row < lines.len(),
                    row < VGA_HEIGHT - start_y,
                    col <= n,
                    col <= VGA_WIDTH - start_x,
                    n == line@.len(),
                    line@ == text[row as int],
                    text == text_of(lines@),
                    self@.len() == SCREEN_PIXELS,
                    start.len() == SCREEN_PIXELS,
                    forall|j: int|
                        0 <= j < 64000 ==> #[trigger] self@[j] == if glyph_covers(
                            text,
                            start_x as int,
                            start_y as int,
                            filter,
                            column_of(j),
                            row_of(j),
                        ) && (row_of(j) - start_y < row || (row_of(j) - start_y == row
                            && column_of(j) - start_x < col)) {
                            color
                        } else {
                            start[j]
                        },
                decreases n - col,
            {
                let ch: char = line.get_char(col);
                if filter.selects(ch) {
                    let ghost before = self@;
                    self.put(start_x + col, start_y + row, color);
                    proof {
                        lemma_put_pixel(
                            before,
                            self@,
                            (start_x + col) as int,
                            (start_y + row) as int,
                            color,
                        );
                    }
                }
                col = col + 1;
            }
            proof {
                assert forall|j: int| 0 <= j < 64000 && row_of(j) - start_y == row implies !(
                glyph_covers(
                    text,
                    start_x as int,
                    start_y as int,
                    filter,
                    #[trigger] column_of(j),
                    row_of(j),
                ) && column_of(j) - start_x >= col) by {
                    lemma_coords_pixel(j);
                }
            }
            row = row + 1;
        }
        proof {
            assert forall|j: int| 0 <= j < 64000 implies !(glyph_covers(
                text,
                start_x as int,
                start_y as int,
                filter,
                #[trigger] column_of(j),
                row_of(j),
            ) && row_of(j) - start_y >= row) by {
                lemma_coords_pixel(j);
            }
        }
        assert(self@ =~= glyph_frame(start, text, start_x as int, start_y as int, filter, color));
    }
}

/// Every on-screen pixel of a block of text drawn at column `x0`, row `y0`
/// is painted in the colour exactly when the character at its own line
/// `y - y0` and column `x - x0` exists and the filter lets it through,
/// however long that line runs past the edge; every other pixel keeps its
/// colour.
pub proof fn lemma_glyph_pixels(
    s: Seq<u8>,
    text: Seq<Seq<char>>,
    x0: int,
    y0: int,
    filter: GlyphFilter,
    color: u8,
    x: int,
    y: int,
)
    requires
        s.len() == SCREEN_PIXELS,
        0 <= x < 320,
        0 <= y < 200,
    ensures
        glyph_frame(s, text, x0, y0, filter, color)[pixel_index(x, y)] == if 0 <= y - y0
            < text.len() && 0 <= x - x0 < text[y - y0].len() && match filter {
            GlyphFilter::Only(c) => text[y - y0][x - x0] == c,
            GlyphFilter::AllBut(c) => text[y - y0][x - x0] != c,
        } {
            color
        } else {
            s[pixel_index(x, y)]
        },
{
    lemma_pixel_coords(x, y);
}

} // verus!
