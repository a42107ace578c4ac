use musicboom::bitmap::{bitmap_header, BITMAP_HEADER_SIZE, UNCOMPRESSED};
use musicboom::error::TaskbarError;
use musicboom::glyph::{draw_rect, draw_triangle, point_in_triangle, put_pixel_checked, render_glyph, Glyph};
use musicboom::surface::{premultiply, swap_red_blue, to_premultiplied_bgra, PixelLayout, PixelSurface};

fn pixel(s: &PixelSurface, x: u32, y: u32) -> [u8; 4] {
    let i = ((y * s.width + x) * 4) as usize;
    [s.data[i], s.data[i + 1], s.data[i + 2], s.data[i + 3]]
}

#[test]
fn every_glyph_is_inset_with_an_opaque_pixel() {
    for kind in [Glyph::Prev, Glyph::Play, Glyph::Pause, Glyph::Next] {
        let s = render_glyph(kind, 48);
        assert_eq!(s.width, 48);
        assert_eq!(s.height, 48);
        assert_eq!(s.data.len(), 48 * 48 * 4);
        let mut opaque = 0;
        for y in 0..48 {
            for x in 0..48 {
                let p = pixel(&s, x, y);
                if p[3] == 255 {
                    opaque += 1;
                    assert_eq!(p, [255, 255, 255, 255]);
                } else {
                    assert_eq!(p, [0, 0, 0, 0]);
                }
                if x == 0 || y == 0 || x == 47 || y == 47 {
                    assert_eq!(p, [0, 0, 0, 0], "border pixel ({x}, {y})");
                }
            }
        }
        assert!(opaque > 0);
    }
}

#[test]
fn pause_glyph_is_two_inclusive_bars() {
    let s = render_glyph(Glyph::Pause, 48);
    assert_eq!(pixel(&s, 12, 10)[3], 255);
    assert_eq!(pixel(&s, 20, 38)[3], 255);
    assert_eq!(pixel(&s, 21, 20)[3], 0);
    assert_eq!(pixel(&s, 27, 20)[3], 0);
    assert_eq!(pixel(&s, 28, 10)[3], 255);
    assert_eq!(pixel(&s, 36, 38)[3], 255);
    assert_eq!(pixel(&s, 37, 38)[3], 0);
    assert_eq!(pixel(&s, 12, 39)[3], 0);
}

#[test]
fn play_glyph_points_right() {
    let s = render_glyph(Glyph::Play, 48);
    assert_eq!(pixel(&s, 12, 10)[3], 255);
    assert_eq!(pixel(&s, 36, 24)[3], 255);
    assert_eq!(pixel(&s, 24, 24)[3], 255);
    assert_eq!(pixel(&s, 30, 12)[3], 0);
    assert_eq!(pixel(&s, 11, 24)[3], 0);
}

#[test]
fn prev_and_next_glyphs_have_their_bars() {
    let prev = render_glyph(Glyph::Prev, 48);
    assert_eq!(pixel(&prev, 34, 24)[3], 255);
    assert_eq!(pixel(&prev, 10, 24)[3], 255);
    assert_eq!(pixel(&prev, 37, 24)[3], 0);
    let next = render_glyph(Glyph::Next, 48);
    assert_eq!(pixel(&next, 14, 24)[3], 255);
    assert_eq!(pixel(&next, 36, 24)[3], 255);
    assert_eq!(pixel(&next, 11, 24)[3], 0);
}

#[test]
fn small_canvas_skips_pixels_off_the_canvas() {
    let s = render_glyph(Glyph::Pause, 16);
    assert_eq!(s.data.len(), 16 * 16 * 4);
    assert_eq!(pixel(&s, 12, 10)[3], 255);
    assert_eq!(pixel(&s, 15, 15)[3], 255);
    assert_eq!(pixel(&s, 11, 15)[3], 0);
}

#[test]
fn point_in_triangle_uses_the_area_test() {
    assert!(point_in_triangle((24, 24), (12, 10), (12, 38), (36, 24)));
    assert!(point_in_triangle((12, 10), (12, 10), (12, 38), (36, 24)));
    assert!(point_in_triangle((12, 20), (12, 10), (12, 38), (36, 24)));
    assert!(!point_in_triangle((11, 24), (12, 10), (12, 38), (36, 24)));
    assert!(!point_in_triangle((36, 10), (12, 10), (12, 38), (36, 24)));
    assert!(point_in_triangle(
        (u32::MAX, u32::MAX),
        (0, 0),
        (u32::MAX, 0),
        (u32::MAX, u32::MAX)
    ));
}

#[test]
fn rect_corners_are_inclusive_and_off_canvas_writes_are_skipped() {
    let mut c = PixelSurface::filled(4, 3, PixelLayout::Rgba, [0, 0, 0, 0]);
    draw_rect(&mut c, 1, 1, 9, 9, [1, 2, 3, 4]);
    assert_eq!(pixel(&c, 0, 0), [0, 0, 0, 0]);
    assert_eq!(pixel(&c, 1, 1), [1, 2, 3, 4]);
    assert_eq!(pixel(&c, 3, 2), [1, 2, 3, 4]);
    assert_eq!(pixel(&c, 0, 2), [0, 0, 0, 0]);
    assert_eq!(c.data.len(), 4 * 3 * 4);
    assert!(!put_pixel_checked(&mut c, 4, 0, [9, 9, 9, 9]));
    assert!(put_pixel_checked(&mut c, 0, 0, [9, 9, 9, 9]));
    assert_eq!(pixel(&c, 0, 0), [9, 9, 9, 9]);
}

#[test]
fn triangle_fills_only_inside_points() {
    let mut c = PixelSurface::filled(5, 5, PixelLayout::Rgba, [0, 0, 0, 0]);
    draw_triangle(&mut c, (0, 0), (4, 0), (0, 4), [7, 7, 7, 7]);
    assert_eq!(pixel(&c, 0, 0), [7, 7, 7, 7]);
    assert_eq!(pixel(&c, 2, 2), [7, 7, 7, 7]);
    assert_eq!(pixel(&c, 3, 2), [0, 0, 0, 0]);
    assert_eq!(pixel(&c, 4, 4), [0, 0, 0, 0]);
}

#[test]
fn premultiply_rounds_to_nearest() {
    assert_eq!(premultiply(200, 128), 100);
    assert_eq!(premultiply(255, 128), 128);
    assert_eq!(premultiply(1, 128), 1);
    assert_eq!(premultiply(1, 127), 0);
    assert_eq!(premultiply(100, 51), 20);
}

#[test]
fn premultiply_is_identity_at_full_alpha_and_zero_at_no_alpha() {
    for c in 0..=255u8 {
        assert_eq!(premultiply(c, 255), c);
        assert_eq!(premultiply(c, 0), 0);
    }
}

#[test]
fn premultiplied_bgra_swaps_and_scales() {
    let s = PixelSurface::new(2, 1, PixelLayout::Rgba, vec![10, 20, 30, 255, 200, 100, 50, 128]).unwrap();
    assert_eq!(to_premultiplied_bgra(&s), vec![30, 20, 10, 255, 25, 50, 100, 128]);
    assert_eq!(swap_red_blue(&s), vec![30, 20, 10, 255, 50, 100, 200, 128]);
}

#[test]
fn surface_with_wrong_length_is_refused() {
    let r = PixelSurface::new(2, 2, PixelLayout::Rgba, vec![0; 15]);
    assert!(matches!(r, Err(TaskbarError::SizeMismatch)));
    assert!(PixelSurface::new(2, 2, PixelLayout::Rgba, vec![0; 16]).is_ok());
}

#[test]
fn bitmap_with_one_byte_short_is_a_size_mismatch() {
    let buf = vec![0u8; 4 * 3 * 4 - 1];
    assert_eq!(bitmap_header(&buf, 4, 3), Err(TaskbarError::SizeMismatch));
    let buf = vec![0u8; 48 * 48 * 4 - 1];
    assert_eq!(bitmap_header(&buf, 48, 48), Err(TaskbarError::SizeMismatch));
}

#[test]
fn bitmap_header_is_top_down_32_bit_uncompressed() {
    let buf = vec![0u8; 4 * 3 * 4];
    let h = bitmap_header(&buf, 4, 3).unwrap();
    assert_eq!(h.header_size, BITMAP_HEADER_SIZE);
    assert_eq!(h.header_size, 40);
    assert_eq!(h.width, 4);
    assert_eq!(h.height, -3);
    assert_eq!(h.planes, 1);
    assert_eq!(h.bit_count, 32);
    assert_eq!(h.compression, UNCOMPRESSED);
    assert_eq!(h.size_image, 48);
}

#[test]
fn bitmap_with_non_positive_size_is_refused() {
    assert_eq!(bitmap_header(&[], 0, 3), Err(TaskbarError::SurfaceAllocationFailed));
    assert_eq!(bitmap_header(&[], 3, -1), Err(TaskbarError::SurfaceAllocationFailed));
}
