use vstd::prelude::*;

use crate::surface::{surface_len, uniform_bytes, PixelLayout, PixelSurface};

verus! {

/// The four transport symbols drawn on the taskbar buttons.
#[derive(Clone, Copy, Debug, PartialEq, Eq, Structural)]
pub enum Glyph {
    /// Left-pointing triangle with a trailing bar.
    Prev,
    /// Right-pointing triangle.
    Play,
    /// Two parallel bars.
    Pause,
    /// Right-pointing triangle with a leading bar.
    Next,
}

/// Column of the pixel that holds byte `j` of a surface `w` pixels wide.
pub open spec fn pixel_x(w: int, j: int) -> int {
    (j / 4) % w
}

/// Row of the pixel that holds byte `j` of a surface `w` pixels wide.
pub open spec fn pixel_y(w: int, j: int) -> int {
    (j / 4) / w
}

/// The inclusive rectangle from corner `(x0, y0)` to corner `(x1, y1)` holds `(x, y)`.
pub open spec fn in_rect(x: int, y: int, x0: int, y0: int, x1: int, y1: int) -> bool {
    x0 <= x <= x1 && y0 <= y <= y1
}

pub open spec fn abs(v: int) -> int {
    if v < 0 {
        -v
    } else {
        v
    }
}

/// Twice the area of the triangle `a b c`.
pub open spec fn twice_area(ax: int, ay: int, bx: int, by: int, cx: int, cy: int) -> int {
    abs(ax * (by - cy) + bx * (cy - ay) + cx * (ay - by))
}

/// `p` lies in the triangle `p1 p2 p3`: the three triangles that `p` forms with the
/// edges add up to the whole.
pub open spec fn in_triangle(p: (u32, u32), p1: (u32, u32), p2: (u32, u32), p3: (u32, u32)) -> bool {
    twice_area(p1.0 as int, p1.1 as int, p2.0 as int, p2.1 as int, p3.0 as int, p3.1 as int)
        == twice_area(p.0 as int, p.1 as int, p2.0 as int, p2.1 as int, p3.0 as int, p3.1 as int)
        + twice_area(p1.0 as int, p1.1 as int, p.0 as int, p.1 as int, p3.0 as int, p3.1 as int)
        + twice_area(p1.0 as int, p1.1 as int, p2.0 as int, p2.1 as int, p.0 as int, p.1 as int)
}

pub open spec fn min3(a: u32, b: u32, c: u32) -> u32 {
    if a <= b && a <= c {
        a
    } else if b <= c {
        b
    } else {
        c
    }
}

pub open spec fn max3(a: u32, b: u32, c: u32) -> u32 {
    if a >= b && a >= c {
        a
    } else if b >= c {
        b
    } else {
        c
    }
}

/// The pixel `(x, y)` is filled when drawing the triangle `p1 p2 p3`: it lies in the
/// triangle's bounding box and passes the area test.
pub open spec fn triangle_covers(p1: (u32, u32), p2: (u32, u32), p3: (u32, u32), x: int, y: int) -> bool {
    &&& in_rect(
        x,
        y,
        min3(p1.0, p2.0, p3.0) as int,
        min3(p1.1, p2.1, p3.1) as int,
        max3(p1.0, p2.0, p3.0) as int,
        max3(p1.1, p2.1, p3.1) as int,
    )
    &&& in_triangle((x as u32, y as u32), p1, p2, p3)
}

/// The pixel `(x, y)` belongs to the glyph's shapes.
pub open spec fn glyph_covers(kind: Glyph, x: int, y: int) -> bool {
    match kind {
        Glyph::Prev => triangle_covers((10, 24), (30, 10), (30, 38), x, y) || in_rect(
            x,
            y,
            32,
            12,
            36,
            36,
        ),
        Glyph::Play => triangle_covers((12, 10), (12, 38), (36, 24), x, y),
        Glyph::Pause => in_rect(x, y, 12, 10, 20, 38) || in_rect(x, y, 28, 10, 36, 38),
        Glyph::Next => triangle_covers((36, 24), (16, 10), (16, 38), x, y) || in_rect(
            x,
            y,
            12,
            12,
            16,
            36,
        ),
    }
}

/// The RGBA bytes of a `size` by `size` canvas holding the glyph in opaque white on
/// a transparent background.
pub open spec fn glyph_bytes(kind: Glyph, size: int) -> Seq<u8> {
    Seq::new(
        surface_len(size, size) as nat,
        |j: int|
            if glyph_covers(kind, pixel_x(size, j), pixel_y(size, j)) {
                255u8
            } else {
                0u8
            },
    )
}

/// Byte `j` lies in the pixel `(x, y)` exactly when its pixel number is `y * w + x`.
pub proof fn lemma_pixel_number(w: int, x: int, y: int, j: int)
    requires
        0 <= x < w,
        0 <= y,
        0 <= j,
    ensures
        (j / 4 == y * w + x) <==> (pixel_x(w, j) == x && pixel_y(w, j) == y),
{
    let i = j / 4;
    if i == y * w + x {
        vstd::arithmetic::div_mod::lemma_fundamental_div_mod_converse(i, w, y, x);
    }
    vstd::arithmetic::div_mod::lemma_fundamental_div_mod(i, w);
    if pixel_x(w, j) == x && pixel_y(w, j) == y {
        assert(i == y * w + x) by (nonlinear_arith)
            requires
                i == w * (i / w) + i % w,
                i / w == y,
                i % w == x,
        ;
    }
}

/// The pixel `(x, y)` of a `w` by `h` surface starts inside the buffer.
proof fn lemma_pixel_in_buffer(w: int, h: int, x: int, y: int)
    requires
        0 <= x < w,
        0 <= y < h,
    ensures
        0 <= (y * w + x) * 4 + 4 <= surface_len(w, h),
{
    assert((y * w + x) * 4 + 4 <= surface_len(w, h)) by (nonlinear_arith)
        requires
            0 <= x < w,
            0 <= y < h,
    ;
    assert(0 <= y * w) by (nonlinear_arith)
        requires
            0 <= x < w,
            0 <= y,
    ;
}

/// Pixels outside the surface of a byte that is inside it do not exist.
proof fn lemma_pixel_bounds(w: int, h: int, j: int)
    requires
        0 < w,
        0 <= h,
        0 <= j < surface_len(w, h),
    ensures
        0 <= pixel_x(w, j) < w,
        0 <= pixel_y(w, j) < h,
{
    let i = j / 4;
    assert(i < w * h) by (nonlinear_arith)
        requires
            0 <= j < w * h * 4,
            i == j / 4,
    ;
    vstd::arithmetic::div_mod::lemma_fundamental_div_mod(i, w);
    vstd::arithmetic::div_mod::lemma_mod_pos_bound(i, w);
    vstd::arithmetic::div_mod::lemma_div_pos_is_pos(i, w);
    let q = i / w;
    assert(q < h) by (nonlinear_arith)
        requires
            i == w * q + i % w,
            i % w >= 0,
            i < w * h,
            w > 0,
    ;
}

/// Writes `color` at `(x, y)` if that pixel lies on the canvas; reports whether it did.
pub fn put_pixel_checked(canvas: &mut PixelSurface, x: u32, y: u32, color: [u8; 4]) -> (r: bool)
    requires
        old(canvas).wf(),
    ensures
        final(canvas).wf(),
        final(canvas).width == old(canvas).width,
        final(canvas).height == old(canvas).height,
        final(canvas).layout == old(canvas).layout,
        r == (x < old(canvas).width && y < old(canvas).height),
        forall|j: int|
            0 <= j < old(canvas).data@.len() ==> #[trigger] final(canvas).data@[j] == if r
                && pixel_x(old(canvas).width as int, j) == x && pixel_y(old(canvas).width as int, j)
                == y {
                color@[j % 4]
            } else {
                old(canvas).data@[j]
            },
{
    let len = canvas.data.len();
    if x < canvas.width && y < canvas.height {
        let ghost w = canvas.width as int;
        proof {
            lemma_pixel_in_buffer(w, canvas.height as int, x as int, y as int);
            assert(0 <= y as int * w <= y as int * w + x);
        }
        let base: usize = ((y as usize) * (canvas.width as usize) + (x as usize)) * 4;
        let ghost before = canvas.data@;
        canvas.data.set(base, color[0]);
        canvas.data.set(base + 1, color[1]);
        canvas.data.set(base + 2, color[2]);
        canvas.data.set(base + 3, color[3]);
        proof {
            assert forall|j: int| 0 <= j < before.len() implies #[trigger] canvas.data@[j] == if
                pixel_x(w, j) == x && pixel_y(w, j) == y {
                color@[j % 4]
            } else {
                before[j]
            } by {
                lemma_pixel_number(w, x as int, y as int, j);
            }
        }
        true
    } else {
        false
    }
}

/// Fills the inclusive rectangle from `(x0, y0)` to `(x1, y1)`, skipping pixels off the canvas.
pub fn draw_rect(canvas: &mut PixelSurface, x0: u32, y0: u32, x1: u32, y1: u32, color: [u8; 4])
    requires
        old(canvas).wf(),
    ensures
        final(canvas).wf(),
        final(canvas).width == old(canvas).width,
        final(canvas).height == old(canvas).height,
        final(canvas).layout == old(canvas).layout,
        forall|j: int|
            0 <= j < old(canvas).data@.len() ==> #[trigger] final(canvas).data@[j] == if in_rect(
                pixel_x(old(canvas).width as int, j),
                pixel_y(old(canvas).width as int, j),
                x0 as int,
                y0 as int,
                x1 as int,
                y1 as int,
            ) {
                color@[j % 4]
            } else {
                old(canvas).data@[j]
            },
{
    let ghost orig = canvas.data@;
    let ghost w = canvas.width as int;
    let ghost h = canvas.height as int;
    let mut y: u64 = y0 as u64;
    while y <= y1 as u64
        invariant
            y0 <= y,
            y <= y1 as int + 1 || y == y0,
            canvas.wf(),
            canvas.width == w,
            canvas.height == h,
            canvas.layout == old(canvas).layout,
            orig.len() == canvas.data@.len(),
            forall|j: int|
                0 <= j < orig.len() ==> #[trigger] canvas.data@[j] == if in_rect(
                    pixel_x(w, j),
                    pixel_y(w, j),
                    x0 as int,
                    y0 as int,
                    x1 as int,
                    y as int - 1,
                ) {
                    color@[j % 4]
                } else {
                    orig[j]
                },
        decreases y1 as int + 1 - y,
    {
        let mut x: u64 = x0 as u64;
        while x <= x1 as u64
            invariant
                y0 <= y <= y1,
                x0 <= x,
                x <= x1 as int + 1 || x == x0,
                canvas.wf(),
                canvas.width == w,
                canvas.height == h,
                canvas.layout == old(canvas).layout,
                orig.len() == canvas.data@.len(),
                forall|j: int|
                    0 <= j < orig.len() ==> #[trigger] canvas.data@[j] == if in_rect(
                        pixel_x(w, j),
                        pixel_y(w, j),
                        x0 as int,
                        y0 as int,
                        x1 as int,
                        y as int - 1,
                    ) || in_rect(pixel_x(w, j), pixel_y(w, j), x0 as int, y as int, x as int - 1, y as int) {
                        color@[j % 4]
                    } else {
                        orig[j]
                    },
            decreases x1 as int + 1 - x,
        {
            put_pixel_checked(canvas, x as u32, y as u32, color);
            proof {
                assert forall|j: int| 0 <= j < orig.len() implies 0 <= #[trigger] pixel_x(w, j) < w
                    && 0 <= pixel_y(w, j) < h by {
                    lemma_pixel_bounds(w, h, j);
                }
            }
            x = x + 1;
        }
        y = y + 1;
    }
}

proof fn lemma_term_bound(a: int, d: int)
    requires
        0 <= a < 0x1_0000_0000,
        -0x1_0000_0000 < d < 0x1_0000_0000,
    ensures
        -0x1_0000_0000_0000_0000 < a * d < 0x1_0000_0000_0000_0000,
{
    assert(-0x1_0000_0000_0000_0000 < a * d < 0x1_0000_0000_0000_0000) by (nonlinear_arith)
        requires
            0 <= a < 0x1_0000_0000,
            -0x1_0000_0000 < d < 0x1_0000_0000,
    ;
}

/// Twice the area of a triangle with corners on the `u32` grid.
fn twice_area_exec(ax: u32, ay: u32, bx: u32, by: u32, cx: u32, cy: u32) -> (r: i128)
    ensures
        r == twice_area(ax as int, ay as int, bx as int, by as int, cx as int, cy as int),
        0 <= r < 0x4_0000_0000_0000_0000,
{
    proof {
        lemma_term_bound(ax as int, by - cy);
        lemma_term_bound(bx as int, cy - ay);
        lemma_term_bound(cx as int, ay - by);
    }
    let t1: i128 = ax as i128 * (by as i128 - cy as i128);
    let t2: i128 = bx as i128 * (cy as i128 - ay as i128);
    let t3: i128 = cx as i128 * (ay as i128 - by as i128);
    let s: i128 = t1 + t2 + t3;
    if s < 0 {
        -s
    } else {
        s
    }
}

/// Whether the grid point `p` lies in the triangle `p1 p2 p3`, by the area test.
pub fn point_in_triangle(p: (u32, u32), p1: (u32, u32), p2: (u32, u32), p3: (u32, u32)) -> (r: bool)
    ensures
        r == in_triangle(p, p1, p2, p3),
{
    let area = twice_area_exec(p1.0, p1.1, p2.0, p2.1, p3.0, p3.1);
    let area1 = twice_area_exec(p.0, p.1, p2.0, p2.1, p3.0, p3.1);
    let area2 = twice_area_exec(p1.0, p1.1, p.0, p.1, p3.0, p3.1);
    let area3 = twice_area_exec(p1.0, p1.1, p2.0, p2.1, p.0, p.1);
    area == area1 + area2 + area3
}

/// The pixel `(x, y)` has been filled once the scan of the triangle's bounding box has
/// reached column `col` of row `row`.
spec fn triangle_scanned(
    p1: (u32, u32),
    p2: (u32, u32),
    p3: (u32, u32),
    x: int,
    y: int,
    row: int,
    col: int,
) -> bool {
    let min_x = min3(p1.0, p2.0, p3.0) as int;
    let min_y = min3(p1.1, p2.1, p3.1) as int;
    let max_x = max3(p1.0, p2.0, p3.0) as int;
    &&& in_triangle((x as u32, y as u32), p1, p2, p3)
    &&& (in_rect(x, y, min_x, min_y, max_x, row - 1) || in_rect(x, y, min_x, row, col - 1, row)
        && col - 1 <= max_x)
}

fn min3_exec(a: u32, b: u32, c: u32) -> (r: u32)
    ensures
        r == min3(a, b, c),
{
    if a <= b && a <= c {
        a
    } else if b <= c {
        b
    } else {
        c
    }
}

fn max3_exec(a: u32, b: u32, c: u32) -> (r: u32)
    ensures
        r == max3(a, b, c),
{
    if a >= b && a >= c {
        a
    } else if b >= c {
        b
    } else {
        c
    }
}

/// Fills the triangle `p1 p2 p3`: every pixel of its bounding box that passes the area
/// test, skipping pixels off the canvas.
pub fn draw_triangle(
    canvas: &mut PixelSurface,
    p1: (u32, u32),
    p2: (u32, u32),
    p3: (u32, u32),
    color: [u8; 4],
)
    requires
        old(canvas).wf(),
    ensures
        final(canvas).wf(),
        final(canvas).width == old(canvas).width,
        final(canvas).height == old(canvas).height,
        final(canvas).layout == old(canvas).layout,
        forall|j: int|
            0 <= j < old(canvas).data@.len() ==> #[trigger] final(canvas).data@[j] == if triangle_covers(
                p1,
                p2,
                p3,
                pixel_x(old(canvas).width as int, j),
                pixel_y(old(canvas).width as int, j),
            ) {
                color@[j % 4]
            } else {
                old(canvas).data@[j]
            },
{
    let min_x = min3_exec(p1.0, p2.0, p3.0);
    let max_x = max3_exec(p1.0, p2.0, p3.0);
    let min_y = min3_exec(p1.1, p2.1, p3.1);
    let max_y = max3_exec(p1.1, p2.1, p3.1);
    let ghost orig = canvas.data@;
    let ghost w = canvas.width as int;
    let ghost h = canvas.height as int;
    proof {
        assert forall|j: int| 0 <= j < orig.len() implies 0 <= #[trigger] pixel_x(w, j) < w && 0
            <= pixel_y(w, j) < h by {
            lemma_pixel_bounds(w, h, j);
        }
    }
    let mut y: u64 = min_y as u64;
    while y <= max_y as u64
        invariant
            min_x == min3(p1.0, p2.0, p3.0),
            max_x == max3(p1.0, p2.0, p3.0),
            min_y == min3(p1.1, p2.1, p3.1),
            max_y == max3(p1.1, p2.1, p3.1),
            min_y <= y,
            y <= max_y as int + 1 || y == min_y,
            canvas.wf(),
            canvas.width == w,
            canvas.height == h,
            canvas.layout == old(canvas).layout,
            orig.len() == canvas.data@.len(),
            forall|j: int| 0 <= j < orig.len() ==> 0 <= #[trigger] pixel_x(w, j) < w && 0 <= pixel_y(w, j) < h,
            forall|j: int|
                0 <= j < orig.len() ==> #[trigger] canvas.data@[j] == if triangle_scanned(
                    p1,
                    p2,
                    p3,
                    pixel_x(w, j),
                    pixel_y(w, j),
                    y as int,
                    min_x as int,
                ) {
                    color@[j % 4]
                } else {
                    orig[j]
                },
        decreases max_y as int + 1 - y,
    {
        let mut x: u64 = min_x as u64;
        while x <= max_x as u64
            invariant
                min_x == min3(p1.0, p2.0, p3.0),
                max_x == max3(p1.0, p2.0, p3.0),
                min_y == min3(p1.1, p2.1, p3.1),
                max_y == max3(p1.1, p2.1, p3.1),
                min_y <= y <= max_y,
                min_x <= x,
                x <= max_x as int + 1 || x == min_x,
                canvas.wf(),
                canvas.width == w,
                canvas.height == h,
                canvas.layout == old(canvas).layout,
                orig.len() == canvas.data@.len(),
                forall|j: int| 0 <= j < orig.len() ==> 0 <= #[trigger] pixel_x(w, j) < w && 0 <= pixel_y(w, j) < h,
                forall|j: int|
                    0 <= j < orig.len() ==> #[trigger] canvas.data@[j] == if triangle_scanned(
                        p1,
                        p2,
                        p3,
                        pixel_x(w, j),
                        pixel_y(w, j),
                        y as int,
                        x as int,
                    ) {
                        color@[j % 4]
                    } else {
                        orig[j]
                    },
            decreases max_x as int + 1 - x,
        {
            let xs = x as u32;
            let ys = y as u32;
            let inside = point_in_triangle((xs, ys), p1, p2, p3);
            if inside {
                put_pixel_checked(canvas, xs, ys, color);
            }
            proof {
                assert forall|j: int| 0 <= j < orig.len() implies #[trigger] canvas.data@[j] == if triangle_scanned(
                    p1,
                    p2,
                    p3,
                    pixel_x(w, j),
                    pixel_y(w, j),
                    y as int,
                    x + 1,
                ) {
                    color@[j % 4]
                } else {
                    orig[j]
                } by {
                    let px = pixel_x(w, j);
                    let py = pixel_y(w, j);
                    if px == x && py == y {
                        assert((px as u32, py as u32) == (xs, ys));
                    }
                }
            }
            x = x + 1;
        }
        y = y + 1;
    }
}

/// Draws `kind` in opaque white on a transparent `canvas_size` by `canvas_size` RGBA canvas.
pub fn render_glyph(kind: Glyph, canvas_size: u32) -> (r: PixelSurface)
    requires
        surface_len(canvas_size as int, canvas_size as int) <= usize::MAX,
    ensures
        r.wf(),
        r.width == canvas_size,
        r.height == canvas_size,
        r.layout == PixelLayout::Rgba,
        r.data@ == glyph_bytes(kind, canvas_size as int),
{
    let mut canvas = PixelSurface::filled(canvas_size, canvas_size, PixelLayout::Rgba, [0, 0, 0, 0]);
    let fg: [u8; 4] = [255, 255, 255, 255];
    let ghost blank = canvas.data@;
    match kind {
        Glyph::Prev => {
            draw_triangle(&mut canvas, (10, 24), (30, 10), (30, 38), fg);
            draw_rect(&mut canvas, 32, 12, 36, 36, fg);
        },
        Glyph::Play => {
            draw_triangle(&mut canvas, (12, 10), (12, 38), (36, 24), fg);
        },
        Glyph::Pause => {
            draw_rect(&mut canvas, 12, 10, 20, 38, fg);
            draw_rect(&mut canvas, 28, 10, 36, 38, fg);
        },
        Glyph::Next => {
            draw_triangle(&mut canvas, (36, 24), (16, 10), (16, 38), fg);
            draw_rect(&mut canvas, 12, 12, 16, 36, fg);
        },
    }
    proof {
        assert(fg@ =~= seq![255u8, 255u8, 255u8, 255u8]);
        assert(blank =~= uniform_bytes(blank.len() as int, seq![0u8, 0u8, 0u8, 0u8]));
        assert(canvas.data@ =~= glyph_bytes(kind, canvas_size as int));
    }
    canvas
}

/// The pixel `(x, y)` lies on the outermost rows or columns of a `size` by `size` canvas.
pub open spec fn on_border(size: int, x: int, y: int) -> bool {
    x == 0 || y == 0 || x == size - 1 || y == size - 1
}

/// Every glyph leaves a canvas of at least 40 pixels a side with some opaque pixel, and
/// with its border rows and columns fully transparent.
pub proof fn lemma_glyph_inset(kind: Glyph, size: u32)
    requires
        40 <= size,
        surface_len(size as int, size as int) <= usize::MAX,
    ensures
        exists|j: int|
            0 <= j < surface_len(size as int, size as int) && j % 4 == 3 && #[trigger] glyph_bytes(
                kind,
                size as int,
            )[j] == 255,
        forall|j: int|
            0 <= j < surface_len(size as int, size as int) && on_border(
                size as int,
                pixel_x(size as int, j),
                pixel_y(size as int, j),
            ) ==> #[trigger] glyph_bytes(kind, size as int)[j] == 0,
{
    let n = size as int;
    let x: int = match kind {
        Glyph::Prev => 34,
        Glyph::Play => 24,
        Glyph::Pause => 16,
        Glyph::Next => 14,
    };
    let j = (24 * n + x) * 4 + 3;
    lemma_pixel_in_buffer(n, n, x, 24);
    lemma_pixel_number(n, x, 24, j);
    assert(j / 4 == 24 * n + x);
    assert(glyph_covers(kind, x, 24));
    assert(glyph_bytes(kind, n)[j] == 255);
}

} // verus!
