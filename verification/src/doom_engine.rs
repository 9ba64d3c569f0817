//! The in-game renderer: depth-shaded floor and ceiling, the wall columns of
//! the raycaster, and the HUD with the DOOM banner and the frame counter.
use vstd::prelude::*;
use crate::banner::{banner_lines, doom_banner};
use crate::counter_text::{
    decimal_chars, format_number, lemma_decimal_digit_count, lemma_decimal_round_trip, pow10,
    text_to_chars,
};
use crate::vga::{
    cleared, column_of, glyph_frame, lemma_coords_pixel, lemma_glyph_pixels, lemma_pixel_coords,
    lemma_put_pixel, pixel_index, row_of, GlyphFilter,
    Renderer, SCREEN_PIXELS, VGA_HEIGHT, VGA_WIDTH,
};

verus! {

/// The row of the horizon: the ceiling lies above it, the floor from it down.
pub const HORIZON: usize = 100;

/// Palette entry of a floor row: its depth below the horizon, as a fraction
/// of the half screen, scaled to 64 shades.
pub open spec fn floor_shade(y: int) -> int {
    (y - 100) * 64 / 100
}

/// Palette entry of a ceiling row: one minus its height above the bottom of
/// the upper half, as a fraction of the half screen, scaled to 32 shades.
pub open spec fn ceiling_shade(y: int) -> int {
    (100 - y) * 32 / 100
}

/// The frame `s` with the floor painted over the lower half.
pub open spec fn floor_frame(s: Seq<u8>) -> Seq<u8> {
    Seq::new(
        s.len(),
        |i: int|
            if row_of(i) >= 100 {
                floor_shade(row_of(i)) as u8
            } else {
                s[i]
            },
    )
}

/// The frame `s` with the ceiling painted over the upper half.
pub open spec fn ceiling_frame(s: Seq<u8>) -> Seq<u8> {
    Seq::new(
        s.len(),
        |i: int|
            if row_of(i) < 100 {
                ceiling_shade(row_of(i)) as u8
            } else {
                s[i]
            },
    )
}

/// What the raycaster found for one screen column: how many rows the wall
/// spans on screen, and how bright it is drawn.
#[derive(Debug, Clone, Copy)]
pub struct WallColumn {
    pub height: usize,
    pub brightness: u8,
}

/// First row a wall of the given height covers: walls are centred on the
/// horizon.
pub open spec fn wall_top(height: int) -> int {
    100 - height / 2
}

/// Row just below the last row a wall of the given height covers.
pub open spec fn wall_bottom(height: int) -> int {
    100 + height / 2
}

/// The wall of column `x` covers row `y`.
pub open spec fn wall_covers(walls: Seq<WallColumn>, x: int, y: int) -> bool {
    wall_top(walls[x].height as int) <= y < wall_bottom(walls[x].height as int)
}

/// The frame `s` with each column's wall painted over it.
pub open spec fn walls_frame(s: Seq<u8>, walls: Seq<WallColumn>) -> Seq<u8> {
    Seq::new(
        s.len(),
        |i: int|
            if wall_covers(walls, column_of(i), row_of(i)) {
                walls[column_of(i)].brightness
            } else {
                s[i]
            },
    )
}

/// One wall per screen column, none taller than the screen.
pub open spec fn walls_fit(walls: Seq<WallColumn>) -> bool {
    &&& walls.len() == 320
    &&& forall|x: int| 0 <= x < 320 ==> #[trigger] walls[x].height / 2 <= 100
}

impl Renderer {
    /// Paints each column's wall, a vertical run of rows centred on the
    /// horizon, in that column's brightness.
    pub fn draw_walls(&mut self, walls: &Vec<WallColumn>)
        requires
            old(self).wf(),
            walls_fit(walls@),
        ensures
            final(self)@ == walls_frame(old(self)@, walls@),
    {
        let ghost start = self@;
        let mut x: usize = 0;
        while x < VGA_WIDTH
            invariant
                x <= VGA_WIDTH,
                walls_fit(walls@),
                self@.len() == SCREEN_PIXELS,
                start.len() == SCREEN_PIXELS,
                forall|j: int|
                    0 <= j < 64000 ==> #[trigger] self@[j] == if column_of(j) < x && wall_covers(
                        walls@,
                        column_of(j),
                        row_of(j),
                    ) {
                        walls@[column_of(j)].brightness
                    } else {
                        start[j]
                    },
            decreases VGA_WIDTH - x,
        {
            let wall: WallColumn = walls[x];
            assert(wall.height / 2 <= 100);
            let wall_start: usize = HORIZON - wall.height / 2;
            let wall_end: usize = HORIZON + wall.height / 2;
            let last: usize = if wall_end < VGA_HEIGHT { wall_end } else { VGA_HEIGHT };
            let mut y: usize = wall_start;
            while y < last
                invariant
                    x < VGA_WIDTH,
                    walls_fit(walls@),
                    wall == walls@[x as int],
                    wall_start == wall_top(wall.height as int),
                    wall_end == wall_bottom(wall.height as int),
                    last == wall_end,
                    wall_start <= y <= last,
                    self@.len() == SCREEN_PIXELS,
                    start.len() == SCREEN_PIXELS,
                    forall|j: int|
                        0 <= j < 64000 ==> #[trigger] self@[j] == if (column_of(j) < x
                            && wall_covers(walls@, column_of(j), row_of(j))) || (column_of(j)
                            == x && wall_start <= row_of(j) < y) {
                            walls@[column_of(j)].brightness
                        } else {
                            start[j]
                        },
                decreases last - y,
            {
                let ghost before = self@;
                self.put(x, y, wall.brightness);
                proof {
                    lemma_put_pixel(before, self@, x as int, y as int, wall.brightness);
                }
                y = y + 1;
            }
            x = x + 1;
        }
        assert(self@ =~= walls_frame(start, walls@));
    }

    /// Paints every row from the horizon down with its floor shade.
    pub fn draw_floor(&mut self)
        requires
            old(self).wf(),
        ensures
            final(self)@ == floor_frame(old(self)@),
    {
        let ghost start = self@;
        let mut y: usize = HORIZON;
        while y < VGA_HEIGHT
            invariant
                HORIZON <= y <= VGA_HEIGHT,
                self@.len() == SCREEN_PIXELS,
                start.len() == SCREEN_PIXELS,
                forall|j: int|
                    0 <= j < 64000 ==> #[trigger] self@[j] == if 100 <= row_of(j) < y {
                        floor_shade(row_of(j)) as u8
                    } else {
                        start[j]
                    },
            decreases VGA_HEIGHT - y,
        {
            let color: u8 = ((y - HORIZON) * 64 / 100) as u8;
            let mut x: usize = 0;
            while x < VGA_WIDTH
                invariant
                    HORIZON <= y < VGA_HEIGHT,
                    x <= VGA_WIDTH,
                    color == floor_shade(y as int) as u8,
                    self@.len() == SCREEN_PIXELS,
                    start.len() == SCREEN_PIXELS,
                    forall|j: int|
                        0 <= j < 64000 ==> #[trigger] self@[j] == if 100 <= row_of(j) < y || (
                        row_of(j) == y && column_of(j) < x) {
                            floor_shade(row_of(j)) as u8
                        } else {
                            start[j]
                        },
                decreases VGA_WIDTH - x,
            {
                let ghost before = self@;
                self.put(x, y, color);
                proof {
                    lemma_put_pixel(before, self@, x as int, y as int, color);
                }
                x = x + 1;
            }
            y = y + 1;
        }
        assert(self@ =~= floor_frame(start));
    }

    /// Paints every row above the horizon with its ceiling shade.
    pub fn draw_ceiling(&mut self)
        requires
            old(self).wf(),
        ensures
            final(self)@ == ceiling_frame(old(self)@),
    {
        let ghost start = self@;
        let mut y: usize = 0;
        while y < HORIZON
            invariant
                y <= HORIZON,
                self@.len() == SCREEN_PIXELS,
                start.len() == SCREEN_PIXELS,
                forall|j: int|
                    0 <= j < 64000 ==> #[trigger] self@[j] == if row_of(j) < y {
                        ceiling_shade(row_of(j)) as u8
                    } else {
                        start[j]
                    },
            decreases HORIZON - y,
        {
            let color: u8 = ((HORIZON - y) * 32 / 100) as u8;
            let mut x: usize = 0;
            while x < VGA_WIDTH
                invariant
                    y < HORIZON,
                    x <= VGA_WIDTH,
                    color == ceiling_shade(y as int) as u8,
                    self@.len() == SCREEN_PIXELS,
                    start.len() == SCREEN_PIXELS,
                    forall|j: int|
                        0 <= j < 64000 ==> #[trigger] self@[j] == if row_of(j) < y || (row_of(j)
                            == y && column_of(j) < x) {
                            ceiling_shade(row_of(j)) as u8
                        } else {
                            start[j]
                        },
                decreases VGA_WIDTH - x,
            {
                let ghost before = self@;
                self.put(x, y, color);
                proof {
                    lemma_put_pixel(before, self@, x as int, y as int, color);
                }
                x = x + 1;
            }
            y = y + 1;
        }
        assert(self@ =~= ceiling_frame(start));
    }
}

/// Palette entry of the logo in the HUD.
pub const HUD_COLOR: u8 = 12;

/// Palette entry of the frame counter digits.
pub const COUNTER_COLOR: u8 = 15;

/// Column of the logo's left edge in the HUD.
pub const HUD_X: usize = 5;

/// Row of the logo's top line in the HUD: 120 rows above the bottom.
pub const HUD_Y: usize = 80;

/// Column and row of the frame counter's first digit.
pub const COUNTER_X: usize = 10;

/// Row of the frame counter.
pub const COUNTER_Y: usize = 10;

/// Columns from one counter character to the next.
pub const COUNTER_STEP: usize = 8;

/// The counter text puts a dot on the pixel at column `x`, row `y`: every
/// character but a space is one dot on row 10, eight columns apart,
/// starting at column 10.
pub open spec fn counter_covers(text: Seq<char>, x: int, y: int) -> bool {
    &&& y == 10
    &&& x >= 10
    &&& (x - 10) % 8 == 0
    &&& (x - 10) / 8 < text.len()
    &&& text[(x - 10) / 8] != ' '
}

/// The frame `s` with the dots of the counter text painted in white.
pub open spec fn counter_frame(s: Seq<u8>, text: Seq<char>) -> Seq<u8> {
    Seq::new(
        s.len(),
        |i: int|
            if counter_covers(text, column_of(i), row_of(i)) {
                COUNTER_COLOR
            } else {
                s[i]
            },
    )
}

/// The frame `s` with the HUD painted over it: the logo, then the frame
/// counter.
pub open spec fn hud_frame(s: Seq<u8>, frame_count: u32) -> Seq<u8> {
    counter_frame(
        glyph_frame(s, doom_banner(), 5, 80, GlyphFilter::AllBut(' '), HUD_COLOR),
        decimal_chars(frame_count as nat),
    )
}

/// The frame counter after one more frame.  The counter is a 32-bit
/// number; the original's `+= 1` overflows past its largest value, which
/// `requires` rules out.
pub fn next_frame_count(count: u32) -> (next: u32)
    requires
        count < u32::MAX,
    ensures
        next == count + 1,
{
    count + 1
}

/// One frame of the game: the cleared screen, the floor, the ceiling, the
/// walls and the HUD, each painted over the last.
pub open spec fn game_frame(s: Seq<u8>, frame_count: u32, walls: Seq<WallColumn>) -> Seq<u8> {
    hud_frame(
        walls_frame(ceiling_frame(floor_frame(cleared(s))), walls),
        frame_count,
    )
}

proof fn lemma_counter_slot(x: int)
    requires
        x >= 10,
    ensures
        x - 10 == 8 * ((x - 10) / 8) + (x - 10) % 8,
        0 <= (x - 10) % 8 < 8,
{
    vstd::arithmetic::div_mod::lemma_fundamental_div_mod(x - 10, 8);
}

impl Renderer {
    /// Draws the counter text: a white dot for every character but a space.
    fn draw_counter(&mut self, text: &Vec<char>)
        requires
            old(self).wf(),
            text.len() <= 64,
        ensures
            final(self)@ == counter_frame(old(self)@, text@),
    {
        let ghost start = self@;
        let mut i: usize = 0;
        while i < text.len()
            invariant
                i <= text.len(),
                text.len() <= 64,
                self@.len() == SCREEN_PIXELS,
                start.len() == SCREEN_PIXELS,
                forall|j: int|
                    0 <= j < 64000 ==> #[trigger] self@[j] == if counter_covers(
                        text@,
                        column_of(j),
                        row_of(j),
                    ) && (column_of(j) - 10) / 8 < i {
                        COUNTER_COLOR
                    } else {
                        start[j]
                    },
            decreases text.len() - i,
        {
            let ch: char = text[i];
            let x: usize = COUNTER_X + i * COUNTER_STEP;
            if ch != ' ' && x < VGA_WIDTH {
                let ghost before = self@;
                self.put(x, COUNTER_Y, COUNTER_COLOR);
                proof {
                    lemma_put_pixel(before, self@, x as int, 10, COUNTER_COLOR);
                    vstd::arithmetic::div_mod::lemma_fundamental_div_mod_converse(
                        x - 10,
                        8,
                        i as int,
                        0,
                    );
                    assert forall|j: int| 0 <= j < 64000 implies #[trigger] self@[j] == if counter_covers(
                        text@,
                        column_of(j),
                        row_of(j),
                    ) && (column_of(j) - 10) / 8 < i + 1 {
                        COUNTER_COLOR
                    } else {
                        start[j]
                    } by {
                        if column_of(j) >= 10 {
                            lemma_counter_slot(column_of(j));
                        }
                    }
                }
            } else {
                proof {
                    assert forall|j: int| 0 <= j < 64000 implies #[trigger] self@[j] == if counter_covers(
                        text@,
                        column_of(j),
                        row_of(j),
                    ) && (column_of(j) - 10) / 8 < i + 1 {
                        COUNTER_COLOR
                    } else {
                        start[j]
                    } by {
                        lemma_coords_pixel(j);
                        if column_of(j) >= 10 {
                            lemma_counter_slot(column_of(j));
                        }
                    }
                }
            }
            i = i + 1;
        }
        assert(self@ =~= counter_frame(start, text@));
    }

    /// Draws the HUD: the logo, every character but spaces as a red dot, its
    /// top-left corner at column 5, row 80; then the frame counter as white
    /// dots on row 10.
    pub fn draw_hud(&mut self, frame_count: u32)
        requires
            old(self).wf(),
        ensures
            final(self)@ == hud_frame(old(self)@, frame_count),
    {
        let hud_text = banner_lines();
        self.draw_glyphs(&hud_text, HUD_X, VGA_HEIGHT - 120, GlyphFilter::AllBut(' '), HUD_COLOR);
        let frame_text = format_number(frame_count);
        let digits = text_to_chars(&frame_text);
        self.draw_counter(&digits);
    }

    /// Renders one frame of the game for the given frame counter and wall
    /// columns: clears the screen, then paints the floor, the ceiling, the
    /// walls and the HUD.
    pub fn render_frame(&mut self, frame_count: u32, walls: &Vec<WallColumn>)
        requires
            old(self).wf(),
            walls_fit(walls@),
        ensures
            final(self)@ == game_frame(old(self)@, frame_count, walls@),
            final(self).wf(),
    {
        self.clear_screen();
        self.draw_floor();
        self.draw_ceiling();
        self.draw_walls(walls);
        self.draw_hud(frame_count);
    }
}

/// Floor and ceiling together repaint every pixel: whatever was on the
/// screen before does not show through them.
pub proof fn lemma_floor_and_ceiling_cover_screen(s1: Seq<u8>, s2: Seq<u8>)
    requires
        s1.len() == SCREEN_PIXELS,
        s2.len() == SCREEN_PIXELS,
    ensures
        ceiling_frame(floor_frame(s1)) == ceiling_frame(floor_frame(s2)),
{
    assert(ceiling_frame(floor_frame(s1)) =~= ceiling_frame(floor_frame(s2)));
}

/// Each frame of the game is a function of the frame counter and the wall
/// columns alone: nothing of the previous frame survives.
pub proof fn lemma_frame_ignores_previous(
    s1: Seq<u8>,
    s2: Seq<u8>,
    frame_count: u32,
    walls: Seq<WallColumn>,
)
    requires
        s1.len() == SCREEN_PIXELS,
        s2.len() == SCREEN_PIXELS,
    ensures
        game_frame(s1, frame_count, walls) == game_frame(s2, frame_count, walls),
{
    lemma_floor_and_ceiling_cover_screen(cleared(s1), cleared(s2));
}

/// The floor gets brighter row by row from the horizon down, through 64
/// shades starting at black.
pub proof fn lemma_floor_shading_deepens(y1: int, y2: int)
    requires
        100 <= y1 <= y2 < 200,
    ensures
        floor_shade(y1) <= floor_shade(y2),
        floor_shade(100) == 0,
        0 <= floor_shade(y2) < 64,
{
    assert((y1 - 100) * 64 <= (y2 - 100) * 64) by (nonlinear_arith)
        requires
            y1 <= y2,
    ;
    vstd::arithmetic::div_mod::lemma_div_is_ordered((y1 - 100) * 64, (y2 - 100) * 64, 100);
    assert(0 <= (y2 - 100) * 64 < 6400) by (nonlinear_arith)
        requires
            100 <= y2 < 200,
    ;
}

/// The ceiling gets darker row by row down to the horizon, from shade 32 at
/// the top row to shade 0 just above the horizon.
pub proof fn lemma_ceiling_shading_fades(y1: int, y2: int)
    requires
        0 <= y1 <= y2 < 100,
    ensures
        ceiling_shade(y1) >= ceiling_shade(y2),
        ceiling_shade(0) == 32,
        ceiling_shade(99) == 0,
        0 <= ceiling_shade(y2) <= 32,
{
    assert((100 - y2) * 32 <= (100 - y1) * 32) by (nonlinear_arith)
        requires
            y1 <= y2,
    ;
    vstd::arithmetic::div_mod::lemma_div_is_ordered((100 - y2) * 32, (100 - y1) * 32, 100);
    assert(0 < (100 - y2) * 32 <= 3200) by (nonlinear_arith)
        requires
            0 <= y2 < 100,
    ;
}

/// Walls are centred on the horizon, and a taller wall covers every row a
/// shorter one covers.
pub proof fn lemma_walls_centred(h1: int, h2: int)
    requires
        0 <= h1 <= h2,
    ensures
        wall_top(h1) - 100 == 100 - wall_bottom(h1),
        wall_top(h2) <= wall_top(h1),
        wall_bottom(h1) <= wall_bottom(h2),
{
    vstd::arithmetic::div_mod::lemma_div_is_ordered(h1, h2, 2);
}

/// The wall of column `x` is drawn in column `x` itself: on that column it
/// covers exactly the `height / 2` rows above the horizon and the
/// `height / 2` rows from the horizon down, in its brightness, and leaves
/// every other row of the column as it was.
pub proof fn lemma_wall_in_its_own_column(s: Seq<u8>, walls: Seq<WallColumn>, x: int, y: int)
    requires
        s.len() == SCREEN_PIXELS,
        0 <= x < 320,
        0 <= y < 200,
    ensures
        walls_frame(s, walls)[pixel_index(x, y)] == if 100 - walls[x].height / 2 <= y < 100
            + walls[x].height / 2 {
            walls[x].brightness
        } else {
            s[pixel_index(x, y)]
        },
{
    lemma_pixel_coords(x, y);
}

/// The HUD's frame counter shows one white dot per decimal digit of the
/// frame count itself, eight columns apart on row 10 from column 10: the
/// dot for position `i` is there exactly when `i` is the first position or
/// the count is at least ten to the power `i`; past the last digit the row
/// keeps its colour.
pub proof fn lemma_counter_shows_each_digit(s: Seq<u8>, frame_count: u32, i: int)
    requires
        s.len() == SCREEN_PIXELS,
        0 <= i,
        10 + 8 * i < 320,
    ensures
        hud_frame(s, frame_count)[pixel_index(10 + 8 * i, 10)] == if i == 0 || frame_count
            >= pow10(i as nat) {
            COUNTER_COLOR
        } else {
            s[pixel_index(10 + 8 * i, 10)]
        },
{
    let x = 10 + 8 * i;
    let text = decimal_chars(frame_count as nat);
    let g = glyph_frame(s, doom_banner(), 5, 80, GlyphFilter::AllBut(' '), HUD_COLOR);
    lemma_pixel_coords(x, 10);
    lemma_glyph_pixels(s, doom_banner(), 5, 80, GlyphFilter::AllBut(' '), HUD_COLOR, x, 10);
    vstd::arithmetic::div_mod::lemma_fundamental_div_mod_converse(x - 10, 8, i, 0);
    lemma_decimal_digit_count(frame_count as nat, i as nat);
    lemma_decimal_round_trip(frame_count as nat);
    if i < text.len() {
        assert(crate::counter_text::is_digit(text[i]));
    }
}

/// Every pixel of a game frame, spelled out: the frame counter's dot for
/// each decimal digit of the frame count on row 10; the logo's characters
/// other than spaces at column 5, row 80; where neither falls, the wall of
/// the pixel's own column over its `height / 2` rows either side of the
/// horizon; and elsewhere the floor shade `(y - 100) * 64 / 100` below the
/// horizon and the ceiling shade `(100 - y) * 32 / 100` above it.  Nothing
/// of the previous picture shows.
pub proof fn lemma_game_frame_pixels(
    s: Seq<u8>,
    frame_count: u32,
    walls: Seq<WallColumn>,
    x: int,
    y: int,
)
    requires
        s.len() == SCREEN_PIXELS,
        0 <= x < 320,
        0 <= y < 200,
    ensures
        game_frame(s, frame_count, walls)[pixel_index(x, y)] == if y == 10 && x >= 10 && (x
            - 10) % 8 == 0 && ((x - 10) / 8 == 0 || frame_count >= pow10(((x - 10) / 8) as nat)) {
            COUNTER_COLOR
        } else if 0 <= y - 80 < doom_banner().len() && 0 <= x - 5 < doom_banner()[y - 80].len()
            && doom_banner()[y - 80][x - 5] != ' ' {
            HUD_COLOR
        } else if 100 - walls[x].height / 2 <= y < 100 + walls[x].height / 2 {
            walls[x].brightness
        } else if y >= 100 {
            ((y - 100) * 64 / 100) as u8
        } else {
            ((100 - y) * 32 / 100) as u8
        },
{
    let base = ceiling_frame(floor_frame(cleared(s)));
    let w = walls_frame(base, walls);
    let g = glyph_frame(w, doom_banner(), 5, 80, GlyphFilter::AllBut(' '), HUD_COLOR);
    let text = decimal_chars(frame_count as nat);
    lemma_pixel_coords(x, y);
    lemma_wall_in_its_own_column(base, walls, x, y);
    lemma_glyph_pixels(w, doom_banner(), 5, 80, GlyphFilter::AllBut(' '), HUD_COLOR, x, y);
    lemma_decimal_round_trip(frame_count as nat);
    if y == 10 && x >= 10 {
        let i = (x - 10) / 8;
        vstd::arithmetic::div_mod::lemma_fundamental_div_mod(x - 10, 8);
        lemma_decimal_digit_count(frame_count as nat, i as nat);
        if 0 <= i < text.len() {
            assert(crate::counter_text::is_digit(text[i]));
        }
    }
}

} // verus!
