use tilecore::geom::{Rect, Vec2i};
use tilecore::surface::{blend_px, Image};

fn img(w: i32, h: i32) -> Image {
    Image::new(Vec2i { x: w, y: h })
}

fn px(im: &Image, x: i32, y: i32) -> (u8, u8, u8, u8) {
    im.buffer[(y * im.sz.x + x) as usize]
}

#[test]
fn new_image_is_opaque_black() {
    let im = img(4, 3);
    assert_eq!(im.buffer.len(), 12);
    for p in im.as_slice() {
        assert_eq!(*p, (0, 0, 0, 255));
    }
}

#[test]
fn clear_overwrites_every_pixel() {
    let mut im = img(3, 3);
    im.clear((7, 8, 9, 10));
    for p in im.as_slice() {
        assert_eq!(*p, (7, 8, 9, 10));
    }
}

#[test]
fn blend_opaque_source_replaces_destination() {
    let s = (10, 20, 30, 255);
    let d = (200, 150, 100, 50);
    assert_eq!(blend_px(s, d), s);
}

#[test]
fn blend_transparent_source_keeps_destination() {
    let d = (200, 150, 100, 50);
    assert_eq!(blend_px((0, 0, 0, 0), d), d);
}

#[test]
fn blend_half_alpha_exact_values() {
    // resid(d, 128) = (d * 127 + 127) / 255, rounded source-over on
    // premultiplied channels; alpha = 128 + resid(64, 128).
    let s = (100, 50, 25, 128);
    let d = (200, 100, 50, 64);
    assert_eq!(blend_px(s, d), (200, 100, 50, 160));
}

#[test]
fn blend_saturates_instead_of_wrapping() {
    // 250 + resid(200, 0) = 250 + 200 saturates to 255.
    let s = (250, 250, 250, 0);
    let d = (200, 200, 200, 255);
    assert_eq!(blend_px(s, d), (255, 255, 255, 255));
}

#[test]
fn bitblt_fully_outside_leaves_destination_unchanged() {
    let mut dst = img(4, 4);
    dst.clear((1, 2, 3, 4));
    let before = dst.buffer.clone();
    let mut src = img(2, 2);
    src.clear((9, 9, 9, 255));
    let from = Rect { pos: Vec2i { x: 0, y: 0 }, sz: Vec2i { x: 2, y: 2 } };
    dst.bitblt(&src, from, Vec2i { x: 10, y: 0 });
    assert_eq!(dst.buffer, before);
    dst.bitblt(&src, from, Vec2i { x: 0, y: -2 });
    assert_eq!(dst.buffer, before);
}

#[test]
fn bitblt_clips_to_destination_bounds() {
    let mut dst = img(4, 4);
    dst.clear((0, 0, 0, 0));
    let mut src = img(2, 2);
    src.clear((9, 9, 9, 255));
    let from = Rect { pos: Vec2i { x: 0, y: 0 }, sz: Vec2i { x: 2, y: 2 } };
    // placed at (-1, -1): only the bottom-right source pixel lands inside
    dst.bitblt(&src, from, Vec2i { x: -1, y: -1 });
    assert_eq!(px(&dst, 0, 0), (9, 9, 9, 255));
    for y in 0..4 {
        for x in 0..4 {
            if !(x == 0 && y == 0) {
                assert_eq!(px(&dst, x, y), (0, 0, 0, 0));
            }
        }
    }
}

#[test]
fn bitblt_reads_only_declared_source_rect() {
    let mut dst = img(2, 2);
    dst.clear((0, 0, 0, 0));
    let mut src = img(4, 4);
    src.clear((1, 1, 1, 255));
    // mark the declared region with a distinct color
    src.draw_rect(
        &Rect { pos: Vec2i { x: 2, y: 2 }, sz: Vec2i { x: 2, y: 2 } },
        (5, 6, 7, 255),
    );
    let from = Rect { pos: Vec2i { x: 2, y: 2 }, sz: Vec2i { x: 2, y: 2 } };
    dst.bitblt(&src, from, Vec2i { x: 0, y: 0 });
    for y in 0..2 {
        for x in 0..2 {
            assert_eq!(px(&dst, x, y), (5, 6, 7, 255));
        }
    }
}

#[test]
fn draw_rect_clips_and_overwrites() {
    let mut im = img(4, 4);
    im.draw_rect(
        &Rect { pos: Vec2i { x: 2, y: -1 }, sz: Vec2i { x: 5, y: 3 } },
        (9, 0, 0, 255),
    );
    for y in 0..4 {
        for x in 0..4 {
            if x >= 2 && y < 2 {
                assert_eq!(px(&im, x, y), (9, 0, 0, 255));
            } else {
                assert_eq!(px(&im, x, y), (0, 0, 0, 255));
            }
        }
    }
}

#[test]
fn hline_covers_half_open_span() {
    let mut im = img(5, 2);
    im.hline(1, 4, 1, (3, 3, 3, 3));
    assert_eq!(px(&im, 0, 1), (0, 0, 0, 255));
    assert_eq!(px(&im, 1, 1), (3, 3, 3, 3));
    assert_eq!(px(&im, 3, 1), (3, 3, 3, 3));
    assert_eq!(px(&im, 4, 1), (0, 0, 0, 255));
    assert_eq!(px(&im, 2, 0), (0, 0, 0, 255));
}

#[test]
fn draw_ball_paints_disc_stencil() {
    let mut im = img(8, 8);
    im.clear((0, 0, 0, 0));
    im.draw_ball(
        &Rect { pos: Vec2i { x: 0, y: 0 }, sz: Vec2i { x: 8, y: 8 } },
        (100, 50, 0, 255),
    );
    // corners stay untouched, center painted with (r, g, 0, 255)
    assert_eq!(px(&im, 0, 0), (0, 0, 0, 0));
    assert_eq!(px(&im, 7, 0), (0, 0, 0, 0));
    assert_eq!(px(&im, 1, 0), (0, 0, 0, 0));
    assert_eq!(px(&im, 2, 0), (100, 50, 0, 255));
    assert_eq!(px(&im, 4, 4), (100, 50, 0, 255));
    assert_eq!(px(&im, 0, 3), (100, 50, 0, 255));
}

#[test]
fn size_reports_extent() {
    let im = img(7, 5);
    assert_eq!(im.size(), (7, 5));
}
