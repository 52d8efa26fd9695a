use engine::Color;
use engine::Rect;
use engine::clear;
use engine::line_bresenham;
use engine::point;
use engine::rect_outlined;
use engine::rectangle;

const WIDTH: usize = 1920;
const HEIGHT: usize = 1080;

const BG: Color = (9, 9, 9, 9);
const RED: Color = (255, 0, 0, 255);

fn fresh_fb() -> Vec<Color> {
    vec![BG; WIDTH * HEIGHT]
}

fn at(fb: &Vec<Color>, x: usize, y: usize) -> Color {
    fb[y * WIDTH + x]
}

#[test]
fn clear_fills_every_pixel() {
    let mut fb = vec![BG; 16];
    clear(&mut fb, RED);
    assert!(fb.iter().all(|p| *p == RED));
    assert_eq!(fb.len(), 16);
}

#[test]
fn line_colors_a_half_open_row_segment() {
    let mut fb = fresh_fb();
    engine::raster::line(&mut fb, 2, 5, 1, RED);
    assert_eq!(at(&fb, 1, 1), BG);
    assert_eq!(at(&fb, 2, 1), RED);
    assert_eq!(at(&fb, 4, 1), RED);
    assert_eq!(at(&fb, 5, 1), BG);
    assert_eq!(at(&fb, 2, 0), BG);
    assert_eq!(at(&fb, 2, 2), BG);
}

#[test]
fn line_clamps_to_the_screen_width() {
    let mut fb = fresh_fb();
    engine::raster::line(&mut fb, WIDTH - 2, WIDTH + 50, 0, RED);
    assert_eq!(at(&fb, WIDTH - 2, 0), RED);
    assert_eq!(at(&fb, WIDTH - 1, 0), RED);
    // nothing bleeds into the next row
    assert_eq!(at(&fb, 0, 1), BG);
}

#[test]
fn rectangle_fills_exactly_its_box() {
    let mut fb = fresh_fb();
    rectangle(&mut fb, Rect::new(10, 10, 3, 2), RED);
    for x in 10..13 {
        for y in 10..12 {
            assert_eq!(at(&fb, x, y), RED);
        }
    }
    assert_eq!(at(&fb, 9, 10), BG);
    assert_eq!(at(&fb, 13, 10), BG);
    assert_eq!(at(&fb, 10, 9), BG);
    assert_eq!(at(&fb, 10, 12), BG);
}

#[test]
fn rect_outlined_leaves_the_interior_unchanged() {
    let mut fb = fresh_fb();
    rect_outlined(&mut fb, Rect::new(5, 5, 4, 4), RED);
    // top and bottom rows
    for x in 5..9 {
        assert_eq!(at(&fb, x, 5), RED);
        assert_eq!(at(&fb, x, 8), RED);
    }
    // side columns
    for y in 6..8 {
        assert_eq!(at(&fb, 5, y), RED);
        assert_eq!(at(&fb, 8, y), RED);
    }
    // interior and exterior untouched
    assert_eq!(at(&fb, 6, 6), BG);
    assert_eq!(at(&fb, 7, 7), BG);
    assert_eq!(at(&fb, 4, 6), BG);
    assert_eq!(at(&fb, 9, 6), BG);
}

#[test]
fn point_sets_one_pixel() {
    let mut fb = fresh_fb();
    point(&mut fb, 3, 2, RED);
    assert_eq!(at(&fb, 3, 2), RED);
    assert_eq!(at(&fb, 2, 2), BG);
    assert_eq!(at(&fb, 3, 1), BG);
}

#[test]
fn bresenham_traces_a_diagonal() {
    let mut fb = fresh_fb();
    line_bresenham(&mut fb, (0, 0), (3, 3), RED);
    assert_eq!(at(&fb, 0, 0), RED);
    assert_eq!(at(&fb, 1, 1), RED);
    assert_eq!(at(&fb, 2, 2), RED);
    // the loop stops at the endpoint without plotting it
    assert_eq!(at(&fb, 3, 3), BG);
    // nothing off the diagonal changes
    assert_eq!(at(&fb, 1, 0), BG);
    assert_eq!(at(&fb, 0, 1), BG);
    assert_eq!(at(&fb, 2, 3), BG);
}

#[test]
fn bresenham_handles_all_directions() {
    let mut fb = fresh_fb();
    line_bresenham(&mut fb, (10, 10), (6, 10), RED);
    for x in 7..11 {
        assert_eq!(at(&fb, x, 10), RED);
    }
    assert_eq!(at(&fb, 6, 10), BG);
    line_bresenham(&mut fb, (20, 20), (20, 23), RED);
    for y in 20..23 {
        assert_eq!(at(&fb, 20, y), RED);
    }
    assert_eq!(at(&fb, 20, 23), BG);
    // coincident endpoints are a no-op
    let before = at(&fb, 30, 30);
    line_bresenham(&mut fb, (30, 30), (30, 30), RED);
    assert_eq!(at(&fb, 30, 30), before);
}
