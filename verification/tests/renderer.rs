use doombox::banner::banner_lines;
use doombox::doom::{draw_gradient, draw_title_screen};
use doombox::doom_engine::WallColumn;
use doombox::vga::{GlyphFilter, Renderer, SCREEN_PIXELS, VGA_HEIGHT, VGA_WIDTH};

fn scribbled() -> Renderer {
    let mut r = Renderer::new();
    let lines = vec!["abcdefghijklmnopqrstuvwxyz"; 200];
    for x in 0..12 {
        r.draw_glyphs(&lines, x * 26, 0, GlyphFilter::AllBut(' '), (x * 20 + 3) as u8);
    }
    r
}

fn flat_walls(height: usize, brightness: u8) -> Vec<WallColumn> {
    vec![WallColumn { height, brightness }; VGA_WIDTH]
}

#[test]
fn new_renderer_is_black() {
    let r = Renderer::new();
    assert_eq!(r.pixels().len(), SCREEN_PIXELS);
    assert!(r.pixels().iter().all(|&p| p == 0));
}

#[test]
fn clear_screen_blacks_out_everything() {
    let mut r = scribbled();
    assert!(r.pixels().iter().any(|&p| p != 0));
    r.clear_screen();
    assert!(r.pixels().iter().all(|&p| p == 0));
}

#[test]
fn floor_matches_float_depth_shading() {
    let mut r = scribbled();
    let before = r.pixels().to_vec();
    r.draw_floor();
    for y in 0..VGA_HEIGHT {
        for x in 0..VGA_WIDTH {
            let got = r.pixel(x, y);
            if y >= VGA_HEIGHT / 2 {
                let depth = (y - VGA_HEIGHT / 2) as f32 / (VGA_HEIGHT / 2) as f32;
                assert_eq!(got, (depth * 64.0) as u8, "row {}", y);
            } else {
                assert_eq!(got, before[y * VGA_WIDTH + x]);
            }
        }
    }
}

#[test]
fn ceiling_matches_float_depth_shading() {
    let mut r = scribbled();
    let before = r.pixels().to_vec();
    r.draw_ceiling();
    for y in 0..VGA_HEIGHT {
        for x in 0..VGA_WIDTH {
            let got = r.pixel(x, y);
            if y < VGA_HEIGHT / 2 {
                let depth = 1.0 - (y as f32 / (VGA_HEIGHT / 2) as f32);
                assert_eq!(got, (depth * 32.0) as u8, "row {}", y);
            } else {
                assert_eq!(got, before[y * VGA_WIDTH + x]);
            }
        }
    }
}

#[test]
fn floor_shades_by_row() {
    let mut r = Renderer::new();
    r.draw_floor();
    assert_eq!(r.pixel(0, 100), 0);
    assert_eq!(r.pixel(17, 125), 16);
    assert_eq!(r.pixel(0, 150), 32);
    assert_eq!(r.pixel(319, 199), 63);
    for y in 101..VGA_HEIGHT {
        assert!(r.pixel(5, y - 1) <= r.pixel(5, y));
    }
}

#[test]
fn ceiling_shades_by_row() {
    let mut r = Renderer::new();
    r.draw_ceiling();
    assert_eq!(r.pixel(0, 0), 32);
    assert_eq!(r.pixel(100, 50), 16);
    assert_eq!(r.pixel(319, 99), 0);
    for y in 1..VGA_HEIGHT / 2 {
        assert!(r.pixel(5, y - 1) >= r.pixel(5, y));
    }
}

#[test]
fn floor_and_ceiling_repaint_everything() {
    let mut a = scribbled();
    let mut b = Renderer::new();
    a.draw_floor();
    a.draw_ceiling();
    b.draw_floor();
    b.draw_ceiling();
    assert_eq!(a.pixels(), b.pixels());
}

#[test]
fn walls_are_centred_on_the_horizon() {
    let mut r = Renderer::new();
    let mut walls = flat_walls(40, 51);
    walls[7] = WallColumn { height: 25, brightness: 31 };
    r.draw_walls(&walls);
    for y in 0..VGA_HEIGHT {
        let expected = if (80..120).contains(&y) { 51 } else { 0 };
        assert_eq!(r.pixel(0, y), expected, "row {}", y);
        let expected7 = if (88..112).contains(&y) { 31 } else { 0 };
        assert_eq!(r.pixel(7, y), expected7, "row {}", y);
    }
}

#[test]
fn full_height_wall_fills_the_column() {
    let mut r = Renderer::new();
    r.draw_walls(&flat_walls(200, 9));
    assert!(r.pixels().iter().all(|&p| p == 9));
}

#[test]
fn empty_wall_draws_nothing() {
    let mut r = scribbled();
    let before = r.pixels().to_vec();
    r.draw_walls(&flat_walls(0, 200));
    assert_eq!(r.pixels(), &before[..]);
}

#[test]
fn glyphs_off_screen_are_clipped() {
    let mut r = Renderer::new();
    let lines = vec!["xx", "x x"];
    r.draw_glyphs(&lines, 318, 199, GlyphFilter::Only('x'), 4);
    assert_eq!(r.pixel(318, 199), 4);
    assert_eq!(r.pixel(319, 199), 4);
    assert_eq!(r.pixels().iter().filter(|&&p| p != 0).count(), 2);
    r.draw_glyphs(&lines, 320, 0, GlyphFilter::Only('x'), 4);
    r.draw_glyphs(&lines, 0, 200, GlyphFilter::Only('x'), 4);
    assert_eq!(r.pixels().iter().filter(|&&p| p != 0).count(), 2);
}

#[test]
fn glyph_filter_selects_characters() {
    let mut r = Renderer::new();
    let lines = vec!["a b#", "#  a"];
    r.draw_glyphs(&lines, 10, 20, GlyphFilter::AllBut(' '), 7);
    assert_eq!(r.pixel(10, 20), 7);
    assert_eq!(r.pixel(11, 20), 0);
    assert_eq!(r.pixel(12, 20), 7);
    assert_eq!(r.pixel(13, 20), 7);
    assert_eq!(r.pixel(10, 21), 7);
    assert_eq!(r.pixel(11, 21), 0);
    assert_eq!(r.pixel(13, 21), 7);
    let mut s = Renderer::new();
    s.draw_glyphs(&lines, 10, 20, GlyphFilter::Only('#'), 7);
    assert_eq!(s.pixels().iter().filter(|&&p| p != 0).count(), 2);
    assert_eq!(s.pixel(13, 20), 7);
    assert_eq!(s.pixel(10, 21), 7);
}

#[test]
fn hud_draws_banner_and_counter() {
    let mut r = Renderer::new();
    r.draw_hud(305);
    let banner = banner_lines();
    for (row, line) in banner.iter().enumerate() {
        for (col, ch) in line.chars().enumerate() {
            let expected = if ch != ' ' { 12 } else { 0 };
            assert_eq!(r.pixel(5 + col, 80 + row), expected, "row {} col {}", row, col);
        }
    }
    // "305": one white dot per digit, eight columns apart
    assert_eq!(r.pixel(10, 10), 15);
    assert_eq!(r.pixel(18, 10), 15);
    assert_eq!(r.pixel(26, 10), 15);
    assert_eq!(r.pixel(34, 10), 0);
    assert_eq!(r.pixel(11, 10), 0);
    let banner_dots: usize = banner
        .iter()
        .map(|l| l.chars().filter(|&c| c != ' ').count())
        .sum();
    assert_eq!(r.pixels().iter().filter(|&&p| p != 0).count(), banner_dots + 3);
}

#[test]
fn hud_counter_has_one_dot_per_digit() {
    let mut r = Renderer::new();
    r.draw_hud(u32::MAX);
    for i in 0..10 {
        assert_eq!(r.pixel(10 + 8 * i, 10), 15);
    }
    assert_eq!(r.pixel(90, 10), 0);
    let mut z = Renderer::new();
    z.draw_hud(0);
    assert_eq!(z.pixel(10, 10), 15);
    assert_eq!(z.pixel(18, 10), 0);
}

#[test]
fn gradient_matches_sixteen_bit_formula() {
    let mut r = scribbled();
    draw_gradient(&mut r);
    for y in 0..VGA_HEIGHT {
        for x in 0..VGA_WIDTH {
            let color = ((x as u16).wrapping_mul(255) / VGA_WIDTH as u16
                + (y as u16 * 255 / VGA_HEIGHT as u16))
                / 2;
            assert_eq!(r.pixel(x, y), color as u8, "x {} y {}", x, y);
        }
    }
    assert_eq!(r.pixel(0, 0), 0);
    assert_eq!(r.pixel(257, 199), 228);
    // 258 * 255 wraps around 65536 in 16 bits
    assert_eq!(r.pixel(258, 0), (254 / 320) as u8);
}

#[test]
fn title_logo_has_no_hash_so_title_is_the_gradient() {
    let mut a = Renderer::new();
    let mut b = scribbled();
    draw_title_screen(&mut a);
    draw_gradient(&mut b);
    assert_eq!(a.pixels(), b.pixels());
}

#[test]
fn render_frame_is_floor_ceiling_walls_and_hud() {
    let walls = flat_walls(30, 40);
    let mut r = scribbled();
    r.render_frame(42, &walls);
    let mut s = Renderer::new();
    s.clear_screen();
    s.draw_floor();
    s.draw_ceiling();
    s.draw_walls(&walls);
    s.draw_hud(42);
    assert_eq!(r.pixels(), s.pixels());
    assert_eq!(r.pixel(0, 0), 32);
    assert_eq!(r.pixel(0, 199), 63);
    assert_eq!(r.pixel(0, 90), 40);
}

#[test]
fn frame_does_not_depend_on_previous_frame() {
    let walls = flat_walls(36, 7);
    let mut a = scribbled();
    let mut b = Renderer::new();
    a.render_frame(1234, &walls);
    b.render_frame(1234, &walls);
    assert_eq!(a.pixels(), b.pixels());
}
