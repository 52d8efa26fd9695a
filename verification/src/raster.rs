//! The software rasterizer for the logical framebuffer: a vector of
//! `WIDTH * HEIGHT` pixels in row-major order. Every function states exactly
//! which pixels it colors and leaves every other pixel unchanged.

use vstd::prelude::*;

use crate::geom::Color;
use crate::geom::HEIGHT;
use crate::geom::WIDTH;
use crate::geom::Rect;

verus! {

/// Fills the whole framebuffer with one color.
pub fn clear(fb: &mut Vec<Color>, c: Color)
    ensures
        final(fb)@.len() == old(fb)@.len(),
        forall|i: int| 0 <= i < final(fb)@.len() ==> final(fb)@[i] == c,
{
    let mut i: usize = 0;
    while i < fb.len()
        invariant
            i <= fb@.len(),
            fb@.len() == old(fb)@.len(),
            forall|j: int| 0 <= j < i ==> fb@[j] == c,
        decreases fb@.len() - i,
    {
        fb.set(i, c);
        i = i + 1;
    }
}

/// The framebuffer indices colored by a horizontal line on row `y` from
/// `x0` (inclusive) to `x1` (exclusive), both clamped to the screen width; a
/// row below the screen colors nothing.
pub open spec fn spec_line_covers(x0: int, x1: int, y: int, i: int) -> bool {
    let min_x = if x0 < WIDTH {
        x0
    } else {
        WIDTH as int
    };
    let max_x = if x1 < WIDTH {
        x1
    } else {
        WIDTH as int
    };
    y < HEIGHT && y * WIDTH + min_x <= i < y * WIDTH + max_x
}

/// Draws a horizontal line on row `y` from `x0` to `x1` (exclusive), clamped
/// to the screen width; rows below the screen are skipped. Every other pixel
/// is unchanged.
pub fn line(fb: &mut Vec<Color>, x0: usize, x1: usize, y: usize, c: Color)
    requires
        old(fb)@.len() == WIDTH * HEIGHT,
        x0 <= x1,
    ensures
        final(fb)@.len() == old(fb)@.len(),
        forall|i: int|
            0 <= i < final(fb)@.len() ==> final(fb)@[i] == (if spec_line_covers(
                x0 as int,
                x1 as int,
                y as int,
                i,
            ) {
                c
            } else {
                old(fb)@[i]
            }),
{
    let min_x = if x0 < WIDTH {
        x0
    } else {
        WIDTH
    };
    let max_x = if x1 < WIDTH {
        x1
    } else {
        WIDTH
    };
    if y >= HEIGHT {
        return;
    }
    proof {
        vstd::arithmetic::mul::lemma_mul_inequality(y as int, HEIGHT - 1, WIDTH as int);
    }
    let start = y * WIDTH + min_x;
    let stop = y * WIDTH + max_x;
    let mut j = start;
    while j < stop
        invariant
            start <= j <= stop || j == start,
            stop <= fb@.len(),
            fb@.len() == old(fb)@.len(),
            forall|i: int| start <= i < j ==> fb@[i] == c,
            forall|i: int| 0 <= i < fb@.len() && !(start <= i < j) ==> fb@[i] == old(fb)@[i],
        decreases stop - j,
    {
        fb.set(j, c);
        j = j + 1;
    }
}

/// The framebuffer indices covered by a filled rectangle: those of each of
/// its rows' horizontal lines.
pub open spec fn spec_rect_covers(r: Rect, i: int) -> bool {
    exists|yy: int|
        r.y <= yy < r.y + r.h && #[trigger] spec_line_covers(r.x as int, r.x + r.w, yy, i)
}

/// Fills a rectangle, clamped to the screen on the right and the bottom.
/// Every pixel outside it is unchanged.
pub fn rectangle(fb: &mut Vec<Color>, r: Rect, c: Color)
    requires
        old(fb)@.len() == WIDTH * HEIGHT,
        r.x + r.w <= usize::MAX,
        r.y + r.h <= usize::MAX,
    ensures
        final(fb)@.len() == old(fb)@.len(),
        forall|i: int|
            0 <= i < final(fb)@.len() ==> final(fb)@[i] == (if spec_rect_covers(r, i) {
                c
            } else {
                old(fb)@[i]
            }),
{
    let mut row = r.y;
    while row < r.y + r.h
        invariant
            old(fb)@.len() == WIDTH * HEIGHT,
            r.x + r.w <= usize::MAX,
            r.y + r.h <= usize::MAX,
            r.y <= row <= r.y + r.h || row == r.y,
            fb@.len() == old(fb)@.len(),
            forall|i: int|
                0 <= i < fb@.len() ==> fb@[i] == (if exists|yy: int|
                    r.y <= yy < row && #[trigger] spec_line_covers(r.x as int, r.x + r.w, yy, i) {
                    c
                } else {
                    old(fb)@[i]
                }),
        decreases r.y + r.h - row,
    {
        line(fb, r.x, r.x + r.w, row, c);
        row = row + 1;
    }
}

/// The framebuffer indices covered by the left or right edge column of an
/// outline, on some row in the given range.
pub open spec fn spec_side_covers(x: int, w: int, y_lo: int, y_hi: int, i: int) -> bool {
    exists|yy: int|
        y_lo <= yy < y_hi && (#[trigger] spec_line_covers(x, x + 1, yy, i) || spec_line_covers(
            x + w - 1,
            x + w,
            yy,
            i,
        ))
}

/// The framebuffer indices covered by a one-pixel-wide rectangle outline:
/// the top and bottom rows in full, and the leftmost and rightmost column on
/// every row between them.
pub open spec fn spec_outline_covers(r: Rect, i: int) -> bool {
    ||| spec_line_covers(r.x as int, r.x + r.w, r.y as int, i)
    ||| spec_line_covers(r.x as int, r.x + r.w, r.y + r.h - 1, i)
    ||| spec_side_covers(r.x as int, r.w as int, r.y + 1, r.y + r.h - 1, i)
}

/// A pixel covered by the current row's edge columns is covered by the side
/// region extended to include that row.
proof fn lemma_side_covers_hit(x: usize, w: usize, y_lo: int, row: usize, i: int)
    requires
        y_lo <= row,
        spec_line_covers(x as int, x + 1, row as int, i) || spec_line_covers(
            x + w - 1,
            x + w,
            row as int,
            i,
        ),
    ensures
        spec_side_covers(x as int, w as int, y_lo, row + 1, i),
{
}

/// A pixel not covered by the current row's edge columns is covered by the
/// side region extended to include that row exactly if it was covered
/// before.
proof fn lemma_side_covers_miss(x: usize, w: usize, y_lo: int, row: usize, i: int)
    requires
        !(spec_line_covers(x as int, x + 1, row as int, i) || spec_line_covers(
            x + w - 1,
            x + w,
            row as int,
            i,
        )),
    ensures
        spec_side_covers(x as int, w as int, y_lo, row + 1, i) == spec_side_covers(
            x as int,
            w as int,
            y_lo,
            row as int,
            i,
        ),
{
    if spec_side_covers(x as int, w as int, y_lo, row + 1, i) {
        let yy = choose|yy: int|
            y_lo <= yy < row + 1 && (#[trigger] spec_line_covers(x as int, x + 1, yy, i)
                || spec_line_covers(x + w - 1, x + w, yy, i));
        assert(yy < row);
        assert(spec_side_covers(x as int, w as int, y_lo, row as int, i));
    }
    if spec_side_covers(x as int, w as int, y_lo, row as int, i) {
        let yy = choose|yy: int|
            y_lo <= yy < row && (#[trigger] spec_line_covers(x as int, x + 1, yy, i)
                || spec_line_covers(x + w - 1, x + w, yy, i));
        assert(spec_side_covers(x as int, w as int, y_lo, row + 1, i));
    }
}

/// Draws a one-pixel-wide rectangle outline, clamped to the screen. Every
/// pixel off the outline is unchanged.
pub fn rect_outlined(fb: &mut Vec<Color>, r: Rect, c: Color)
    requires
        old(fb)@.len() == WIDTH * HEIGHT,
        1 <= r.w,
        1 <= r.h,
        r.x + r.w <= usize::MAX,
        r.y + r.h <= usize::MAX,
    ensures
        final(fb)@.len() == old(fb)@.len(),
        forall|i: int|
            0 <= i < final(fb)@.len() ==> final(fb)@[i] == (if spec_outline_covers(r, i) {
                c
            } else {
                old(fb)@[i]
            }),
{
    let x = r.x;
    let y = r.y;
    let h = r.h;
    let w = r.w;
    line(fb, x, x + w, y, c);
    line(fb, x, x + w, y + h - 1, c);
    let ghost fb0 = fb@;

    let mut row = y + 1;
    while row < y + h - 1
        invariant
            fb0.len() == WIDTH * HEIGHT,
            x == r.x && y == r.y && w == r.w && h == r.h,
            1 <= w,
            1 <= h,
            x + w <= usize::MAX,
            y + h <= usize::MAX,
            y + 1 <= row <= y + h - 1 || row == y + 1,
            fb@.len() == fb0.len(),
            forall|i: int|
                0 <= i < fb@.len() ==> fb@[i] == (if spec_side_covers(
                    x as int,
                    w as int,
                    y + 1,
                    row as int,
                    i,
                ) {
                    c
                } else {
                    fb0[i]
                }),
        decreases y + h - 1 - row,
    {
        let ghost fb_entry = fb@;
        line(fb, x, x + 1, row, c);
        line(fb, x + w - 1, x + w, row, c);
        proof {
            assert forall|i: int| 0 <= i < fb@.len() implies fb@[i] == (if spec_side_covers(
                x as int,
                w as int,
                y + 1,
                row + 1,
                i,
            ) {
                c
            } else {
                fb0[i]
            }) by {
                if spec_line_covers(x as int, x + 1, row as int, i) || spec_line_covers(
                    x + w - 1,
                    x + w,
                    row as int,
                    i,
                ) {
                    assert(fb@[i] == c);
                    lemma_side_covers_hit(x, w, y + 1, row, i);
                } else {
                    assert(fb@[i] == fb_entry[i]);
                    lemma_side_covers_miss(x, w, y + 1, row, i);
                }
            }
        }
        row = row + 1;
    }

    proof {
        assert forall|i: int| 0 <= i < fb@.len() implies fb@[i] == (if spec_outline_covers(r, i) {
            c
        } else {
            old(fb)@[i]
        }) by {
            assert(fb0[i] == (if spec_line_covers(x as int, x + w, y as int, i)
                || spec_line_covers(x as int, x + w, y + h - 1, i) {
                c
            } else {
                old(fb)@[i]
            }));
            assert(fb@[i] == (if spec_side_covers(x as int, w as int, y + 1, y + h - 1, i) {
                c
            } else {
                fb0[i]
            }));
        }
    }
}

/// Sets one pixel; the coordinates must be on the screen.
pub fn point(fb: &mut Vec<Color>, x: usize, y: usize, c: Color)
    requires
        old(fb)@.len() == WIDTH * HEIGHT,
        x < WIDTH,
        y < HEIGHT,
    ensures
        final(fb)@ == old(fb)@.update(y * WIDTH + x, c),
{
    proof {
        vstd::arithmetic::mul::lemma_mul_inequality(y as int, HEIGHT - 1, WIDTH as int);
    }
    fb.set(y * WIDTH + x, c);
}

} // verus!

verus! {

/// The row-major framebuffer index of a coordinate pair.
pub open spec fn spec_pixel_index(x: int, y: int) -> int {
    y * WIDTH + x
}

/// Draws a straight line between two points with integer error
/// accumulation. The contract pins down that only pixels within the bounding
/// box of the two endpoints change, that every changed pixel gets the line
/// color, and that the starting pixel is colored whenever the endpoints
/// differ; the exact pixel trace is left to the algorithm.
pub fn line_bresenham(fb: &mut Vec<Color>, p0: (usize, usize), p1: (usize, usize), col: Color)
    requires
        old(fb)@.len() == WIDTH * HEIGHT,
        p0.0 < WIDTH,
        p0.1 < HEIGHT,
        p1.0 < WIDTH,
        p1.1 < HEIGHT,
    ensures
        final(fb)@.len() == old(fb)@.len(),
        forall|i: int|
            0 <= i < final(fb)@.len() && final(fb)@[i] != old(fb)@[i] ==> final(fb)@[i] == col
                && vstd::math::min(p0.0 as int, p1.0 as int) <= i % (WIDTH as int) <= vstd::math::max(
                p0.0 as int,
                p1.0 as int,
            ) && vstd::math::min(p0.1 as int, p1.1 as int) <= i / (WIDTH as int)
                <= vstd::math::max(p0.1 as int, p1.1 as int),
        p0 != p1 ==> final(fb)@[spec_pixel_index(p0.0 as int, p0.1 as int)] == col,
{
    let (x0u, y0u) = p0;
    let (x1u, y1u) = p1;
    let mut x: i64 = x0u as i64;
    let mut y: i64 = y0u as i64;
    let x0: i64 = x0u as i64;
    let y0: i64 = y0u as i64;
    let x1: i64 = x1u as i64;
    let y1: i64 = y1u as i64;
    let dx: i64 = if x1 >= x0 {
        x1 - x0
    } else {
        x0 - x1
    };
    let sx: i64 = if x0 < x1 {
        1
    } else {
        -1
    };
    let dy: i64 = if y1 >= y0 {
        y0 - y1
    } else {
        y1 - y0
    };
    let sy: i64 = if y0 < y1 {
        1
    } else {
        -1
    };
    let mut err: i64 = dx + dy;
    let ghost mut a: int = 0;
    let ghost mut b: int = 0;

    while x != x1 || y != y1
        invariant
            old(fb)@.len() == WIDTH * HEIGHT,
            fb@.len() == old(fb)@.len(),
            x0 == x0u && y0 == y0u && x1 == x1u && y1 == y1u,
            x0u < WIDTH && y0u < HEIGHT && x1u < WIDTH && y1u < HEIGHT,
            0 <= dx < WIDTH,
            0 <= -dy < HEIGHT,
            sx == 1 || sx == -1,
            sy == 1 || sy == -1,
            sx == 1 ==> x0 <= x1 && dx == x1 - x0 && x == x0 + a,
            sx == -1 ==> x1 <= x0 && dx == x0 - x1 && x == x0 - a,
            sy == 1 ==> y0 <= y1 && -dy == y1 - y0 && y == y0 + b,
            sy == -1 ==> y1 <= y0 && -dy == y0 - y1 && y == y0 - b,
            0 <= a <= dx,
            0 <= b <= -dy,
            err == dx + dy + a * dy + b * dx,
            forall|i: int|
                0 <= i < fb@.len() && fb@[i] != old(fb)@[i] ==> fb@[i] == col && vstd::math::min(
                    x0 as int,
                    x1 as int,
                ) <= i % (WIDTH as int) <= vstd::math::max(x0 as int, x1 as int) && vstd::math::min(
                    y0 as int,
                    y1 as int,
                ) <= i / (WIDTH as int) <= vstd::math::max(y0 as int, y1 as int),
            (x0 != x1 || y0 != y1) ==> (fb@[spec_pixel_index(x0 as int, y0 as int)] == col || (a
                == 0 && b == 0)),
        decreases (dx - a) + (-dy - b),
    {
        let ghost a0 = a;
        let ghost b0 = b;
        let ghost err0 = err as int;
        proof {
            vstd::arithmetic::mul::lemma_mul_inequality(y as int, HEIGHT - 1, WIDTH as int);
        }
        let idx = (y as usize) * WIDTH + (x as usize);
        fb.set(idx, col);
        proof {
            vstd::arithmetic::div_mod::lemma_fundamental_div_mod_converse(
                idx as int,
                WIDTH as int,
                y as int,
                x as int,
            );
        }
        proof {
            assert(dx * dy <= a * dy <= 0) by (nonlinear_arith)
                requires
                    0 <= a <= dx,
                    dy <= 0,
            ;
            assert(0 <= b * dx <= (-dy) * dx) by (nonlinear_arith)
                requires
                    0 <= b <= -dy,
                    dx >= 0,
            ;
            assert(0 - (1920 * 1080) <= dx * dy && (-dy) * dx <= 1920 * 1080) by (nonlinear_arith)
                requires
                    0 <= dx < 1920,
                    0 <= -dy < 1080,
            ;
        }
        let e2 = 2 * err;
        let moved_x = dy <= e2;
        let moved_y = e2 <= dx;
        if moved_x {
            proof {
                if a == dx {
                    assert(b < -dy);
                    assert(err <= dy) by (nonlinear_arith)
                        requires
                            err == dx + dy + dx * dy + b * dx,
                            b <= -dy - 1,
                            dx >= 0,
                    ;
                    assert(false);
                }
            }
            err = err + dy;
            x = x + sx;
            proof {
                a = a + 1;
                assert(a * dy == a0 * dy + dy) by (nonlinear_arith)
                    requires
                        a == a0 + 1,
                ;
            }
        }
        if moved_y {
            proof {
                if b == -dy {
                    assert(a0 < dx);
                    assert(err0 >= dx) by (nonlinear_arith)
                        requires
                            err0 == dx + dy + a0 * dy + b * dx,
                            b == -dy,
                            0 <= a0 <= dx - 1,
                            dy <= 0,
                    ;
                    assert(false);
                }
            }
            err = err + dx;
            y = y + sy;
            proof {
                b = b + 1;
                assert(b * dx == b0 * dx + dx) by (nonlinear_arith)
                    requires
                        b == b0 + 1,
                ;
            }
        }
        proof {
            if !moved_x && !moved_y {
                assert(false);
            }
        }
    }
}

} // verus!
