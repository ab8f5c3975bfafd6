//! Owned RGBA pixel surfaces and the compositor: fill, solid-rectangle draw,
//! and alpha-blended blit with boundary clipping.
//!
//! Pixel buffers store colors premultiplied by alpha: each channel was scaled
//! by `alpha/255` when the image was decoded, and alpha itself is unscaled.

use vstd::prelude::*;

use crate::geom::{lemma_grid_index, lemma_index_to_grid, Rect, Vec2i};

verus! {

/// One RGBA pixel, channels premultiplied by alpha.
pub type Color = (u8, u8, u8, u8);

/// `round(d * (255 - sa) / 255)` in exact integer arithmetic: the surviving
/// part of a destination channel `d` under a source pixel of alpha `sa`.
/// Because 255 is odd the real quotient is never exactly halfway between two
/// integers, so rounding it to nearest equals `(d * (255 - sa) + 127) / 255`
/// in flooring division.
pub open spec fn resid(d: u8, sa: u8) -> int {
    ((d as int) * (255 - sa as int) + 127) / 255
}

/// Clamp a non-negative sum into a byte.
pub open spec fn sat255(v: int) -> u8 {
    if v > 255 {
        255u8
    } else {
        v as u8
    }
}

/// The compositor's blend of a premultiplied source pixel `s` over a
/// destination pixel `d`: each color channel is the source channel plus the
/// rounded surviving destination part, saturating on overflow; the result
/// alpha is `round((sa/255 + da/255 * (1 - sa/255)) * 255)`, which equals
/// `sa + resid(da, sa)` exactly. The source term is deliberately not
/// unpremultiplied; this is the engine's exact rule, not standard over-blending.
pub open spec fn blend(s: Color, d: Color) -> Color {
    (
        sat255(s.0 + resid(d.0, s.3)),
        sat255(s.1 + resid(d.1, s.3)),
        sat255(s.2 + resid(d.2, s.3)),
        (s.3 + resid(d.3, s.3)) as u8,
    )
}

/// The rounded surviving destination part is a byte, and it never exceeds
/// what the source alpha leaves of a full channel.
pub proof fn lemma_resid_bounds(d: u8, sa: u8)
    ensures
        0 <= resid(d, sa) <= 255 - sa,
{
    let k = 255 - sa as int;
    assert((d as int) * k <= 255 * k) by (nonlinear_arith)
        requires
            d <= 255,
            0 <= k,
    ;
    assert(0 <= (d as int) * k) by (nonlinear_arith)
        requires
            0 <= d,
            0 <= k,
    ;
    assert((255 * k + 127) / 255 == k) by (nonlinear_arith)
        requires
            0 <= k,
    ;
    assert(((d as int) * k + 127) / 255 <= (255 * k + 127) / 255) by (nonlinear_arith)
        requires
            (d as int) * k <= 255 * k,
    ;
    assert(0 <= ((d as int) * k + 127) / 255) by (nonlinear_arith)
        requires
            0 <= (d as int) * k,
    ;
}

/// Blending a fully opaque source pixel yields exactly the source pixel.
pub proof fn lemma_blend_opaque(s: Color, d: Color)
    requires
        s.3 == 255,
    ensures
        blend(s, d) == s,
{
    assert(resid(d.0, 255) == 0);
    assert(resid(d.1, 255) == 0);
    assert(resid(d.2, 255) == 0);
    assert(resid(d.3, 255) == 0);
}

/// Blending a fully transparent source pixel leaves the destination pixel
/// unchanged. In premultiplied form a fully transparent pixel is all zero;
/// for a pixel with zero alpha but nonzero channels (which decoding never
/// produces) the channels would instead add saturating into the destination.
pub proof fn lemma_blend_transparent(d: Color)
    ensures
        blend((0u8, 0u8, 0u8, 0u8), d) == d,
{
    assert(((d.0 as int) * 255 + 127) / 255 == d.0 as int) by (nonlinear_arith)
        requires
            0 <= d.0 <= 255,
    ;
    assert(((d.1 as int) * 255 + 127) / 255 == d.1 as int) by (nonlinear_arith)
        requires
            0 <= d.1 <= 255,
    ;
    assert(((d.2 as int) * 255 + 127) / 255 == d.2 as int) by (nonlinear_arith)
        requires
            0 <= d.2 <= 255,
    ;
    assert(((d.3 as int) * 255 + 127) / 255 == d.3 as int) by (nonlinear_arith)
        requires
            0 <= d.3 <= 255,
    ;
}

/// Compute `resid(d, sa)` executably.
fn resid_px(d: u8, sa: u8) -> (r: u8)
    ensures
        r as int == resid(d, sa),
{
    proof {
        lemma_resid_bounds(d, sa);
        assert((d as int) * (255 - sa as int) <= 255 * 255) by (nonlinear_arith)
            requires
                d <= 255,
                sa <= 255,
        ;
    }
    (((d as u32) * (255 - sa as u32) + 127) / 255) as u8
}

/// Compute `blend(s, d)` executably.
pub fn blend_px(s: Color, d: Color) -> (r: Color)
    ensures
        r == blend(s, d),
{
    proof {
        lemma_resid_bounds(d.3, s.3);
    }
    let sa = s.3;
    (
        s.0.saturating_add(resid_px(d.0, sa)),
        s.1.saturating_add(resid_px(d.1, sa)),
        s.2.saturating_add(resid_px(d.2, sa)),
        s.3 + resid_px(d.3, sa),
    )
}

/// Whether destination cell `(x, y)` of a `dst_w`-by-`dst_h` surface is
/// covered when a source rectangle of extent `from.sz` is placed with its
/// top-left corner at `to`: the placement clipped to the surface bounds.
pub open spec fn blit_covers(dst_w: int, dst_h: int, from: Rect, to: Vec2i, x: int, y: int) -> bool {
    to.x <= x < to.x + from.sz.x && to.y <= y < to.y + from.sz.y && 0 <= x < dst_w && 0 <= y
        < dst_h
}


/// The fixed 8-by-8 disc stencil used by `draw_ball`: full middle rows,
/// shortened top and bottom rows.
pub open spec fn in_ball(dx: int, dy: int) -> bool {
    if dy == 0 || dy == 7 {
        2 <= dx <= 5
    } else if dy == 1 || dy == 6 {
        1 <= dx <= 6
    } else {
        0 <= dx <= 7
    }
}


/// The pure effect of a clipped alpha blit on a `dw`-by-`dh` row-major
/// destination buffer: every covered cell is the blend of the matching
/// source pixel over the old cell, every other cell is kept.
pub open spec fn spec_blit(
    dst: Seq<Color>,
    dw: int,
    dh: int,
    src: Image,
    from: Rect,
    to: Vec2i,
) -> Seq<Color> {
    if dw <= 0 {
        dst
    } else {
        Seq::new(
            dst.len(),
            |i: int|
                if blit_covers(dw, dh, from, to, i % dw, i / dw) {
                    blend(src.pix(from.pos.x + i % dw - to.x, from.pos.y + i / dw - to.y), dst[i])
                } else {
                    dst[i]
                },
        )
    }
}

/// The pure effect of a clipped solid-rectangle fill on a `dw`-by-`dh`
/// row-major destination buffer.
pub open spec fn spec_fill_rect(dst: Seq<Color>, dw: int, dh: int, r: Rect, c: Color) -> Seq<
    Color,
> {
    if dw <= 0 {
        dst
    } else {
        Seq::new(
            dst.len(),
            |i: int|
                if r.pos.x <= i % dw < r.pos.x + r.sz.x && r.pos.y <= i / dw < r.pos.y + r.sz.y
                    && 0 <= i / dw < dh {
                    c
                } else {
                    dst[i]
                },
        )
    }
}

/// An owned pixel buffer: `buffer.len() == sz.x * sz.y`, row-major.
pub struct Image {
    pub buffer: Vec<Color>,
    pub sz: Vec2i,
}

impl Image {
    /// The backing vector holds exactly one pixel per cell.
    pub open spec fn wf(self) -> bool {
        0 <= self.sz.x && 0 <= self.sz.y && self.buffer.len() == self.sz.x * self.sz.y
    }

    /// The pixel at `(x, y)`.
    pub open spec fn pix(self, x: int, y: int) -> Color {
        self.buffer@[y * self.sz.x + x]
    }

    /// A fresh surface of extent `sz`, all pixels opaque black.
    #[verifier::loop_isolation(false)]
    pub fn new(sz: Vec2i) -> (r: Image)
        requires
            0 <= sz.x,
            0 <= sz.y,
            sz.x * sz.y <= usize::MAX,
        ensures
            r.wf(),
            r.sz == sz,
            forall|i: int| 0 <= i < r.buffer.len() ==> r.buffer@[i] == (0u8, 0u8, 0u8, 255u8),
    {
        let n: usize = (sz.x as usize) * (sz.y as usize);
        let mut buffer: Vec<Color> = Vec::new();
        while buffer.len() < n
            invariant
                buffer.len() <= n,
                forall|i: int| 0 <= i < buffer.len() ==> buffer@[i] == (0u8, 0u8, 0u8, 255u8),
            decreases n - buffer.len(),
        {
            buffer.push((0, 0, 0, 255));
        }
        Image { buffer, sz }
    }

    /// The pixels as a flat row-major slice.
    pub fn as_slice(&self) -> (r: &[Color])
        ensures
            r@ == self.buffer@,
    {
        self.buffer.as_slice()
    }

    /// The extent as a pair.
    pub fn size(&self) -> (r: (i32, i32))
        ensures
            r.0 == self.sz.x,
            r.1 == self.sz.y,
    {
        (self.sz.x, self.sz.y)
    }

    /// Overwrite every pixel with `c`.
    #[verifier::loop_isolation(false)]
    pub fn clear(&mut self, c: Color)
        ensures
            final(self).sz == old(self).sz,
            final(self).buffer.len() == old(self).buffer.len(),
            forall|i: int| 0 <= i < final(self).buffer.len() ==> final(self).buffer@[i] == c,
    {
        let n = self.buffer.len();
        let mut i: usize = 0;
        while i < n
            invariant
                i <= n,
                n == self.buffer.len(),
                self.sz == old(self).sz,
                forall|j: int| 0 <= j < i ==> self.buffer@[j] == c,
            decreases n - i,
        {
            self.buffer.set(i, c);
            i = i + 1;
        }
    }

    /// Overwrite the pixels of `rect`, clipped to the surface bounds, with
    /// `color`; pixels outside the surface are skipped.
    #[verifier::loop_isolation(false)]
    pub fn draw_rect(&mut self, rect: &Rect, color: Color)
        requires
            old(self).wf(),
            rect.ok(),
        ensures
            final(self).wf(),
            final(self).sz == old(self).sz,
            forall|x: int, y: int|
                0 <= x < old(self).sz.x && 0 <= y < old(self).sz.y ==> final(self).pix(x, y) == (
                if rect.pos.x <= x < rect.pos.x + rect.sz.x && rect.pos.y <= y < rect.pos.y
                    + rect.sz.y {
                    color
                } else {
                    old(self).pix(x, y)
                }),
            final(self).buffer@ == spec_fill_rect(
                old(self).buffer@,
                old(self).sz.x as int,
                old(self).sz.y as int,
                *rect,
                color,
            ),
    {
        let w = self.sz.x;
        let h = self.sz.y;
        let x0: i32 = if rect.pos.x > 0 { rect.pos.x } else { 0 };
        let y0: i32 = if rect.pos.y > 0 { rect.pos.y } else { 0 };
        let x1: i32 = if rect.pos.x + rect.sz.x < w { rect.pos.x + rect.sz.x } else { w };
        let y1: i32 = if rect.pos.y + rect.sz.y < h { rect.pos.y + rect.sz.y } else { h };
        let mut y = y0;
        while y < y1
            invariant
                old(self).wf(),
                self.wf(),
                self.sz == old(self).sz,
                y0 <= y <= y1 || y == y0,
                forall|px: int, py: int|
                    0 <= px < w && 0 <= py < h ==> self.pix(px, py) == (if rect.pos.x <= px
                        < rect.pos.x + rect.sz.x && rect.pos.y <= py < rect.pos.y + rect.sz.y && py
                        < y {
                        color
                    } else {
                        old(self).pix(px, py)
                    }),
            decreases y1 - y,
        {
            let mut x = x0;
            while x < x1
                invariant
                    old(self).wf(),
                    self.wf(),
                    self.sz == old(self).sz,
                    y0 <= y < y1,
                    x0 <= x <= x1 || x == x0,
                    forall|px: int, py: int|
                        0 <= px < w && 0 <= py < h ==> self.pix(px, py) == (if rect.pos.x <= px
                            < rect.pos.x + rect.sz.x && rect.pos.y <= py < rect.pos.y + rect.sz.y
                            && (py < y || (py == y && px < x)) {
                            color
                        } else {
                            old(self).pix(px, py)
                        }),
                decreases x1 - x,
            {
                proof {
                    lemma_grid_index(w as int, h as int, x as int, y as int);
                }
                let idx: usize = (y as usize) * (w as usize) + (x as usize);
                let ghost pre = *self;
                self.buffer.set(idx, color);
                proof {
                    assert(self.buffer@ == pre.buffer@.update(idx as int, color));
                    assert forall|px: int, py: int|
                        0 <= px < w && 0 <= py < h implies self.pix(px, py) == (if rect.pos.x <= px
                        < rect.pos.x + rect.sz.x && rect.pos.y <= py < rect.pos.y + rect.sz.y && (
                    py < y || (py == y && px < x + 1)) {
                        color
                    } else {
                        old(self).pix(px, py)
                    }) by {
                        lemma_grid_index(w as int, h as int, px, py);
                        lemma_grid_index(w as int, h as int, x as int, y as int);
                        assert(pre.pix(px, py) == pre.buffer@[py * w + px]);
                        if py * w + px != idx {
                            assert(self.buffer@[py * w + px] == pre.buffer@[py * w + px]);
                        }
                    }
                }
                x = x + 1;
            }
            y = y + 1;
        }
        proof {
            let fr = spec_fill_rect(old(self).buffer@, w as int, h as int, *rect, color);
            if w > 0 {
                assert(self.buffer@ =~= fr) by {
                    assert forall|i: int| 0 <= i < self.buffer.len() implies self.buffer@[i]
                        == fr[i] by {
                        lemma_index_to_grid(w as int, h as int, i);
                        assert(self.pix(i % (w as int), i / (w as int)) == self.buffer@[i]);
                    }
                }
            } else {
                assert(self.buffer@ =~= fr);
            }
        }
    }

    /// Draw the 8-by-8 disc stencil into `rect` (which must be 8-by-8) using
    /// the red and green channels of `color` at full opacity; stencil cells
    /// outside the disc, and pixels outside the surface, are left unchanged.
    #[verifier::loop_isolation(false)]
    pub fn draw_ball(&mut self, rect: &Rect, color: Color)
        requires
            old(self).wf(),
            rect.ok(),
            rect.sz.x == 8,
            rect.sz.y == 8,
        ensures
            final(self).wf(),
            final(self).sz == old(self).sz,
            forall|x: int, y: int|
                0 <= x < old(self).sz.x && 0 <= y < old(self).sz.y ==> final(self).pix(x, y) == (
                if rect.pos.x <= x < rect.pos.x + 8 && rect.pos.y <= y < rect.pos.y + 8 && in_ball(
                    x - rect.pos.x,
                    y - rect.pos.y,
                ) {
                    (color.0, color.1, 0u8, 255u8)
                } else {
                    old(self).pix(x, y)
                }),
    {
        let w = self.sz.x;
        let h = self.sz.y;
        let mut dy: i32 = 0;
        while dy < 8
            invariant
                self.wf(),
                self.sz == old(self).sz,
                0 <= dy <= 8,
                forall|x: int, y: int|
                    0 <= x < w && 0 <= y < h ==> self.pix(x, y) == (if rect.pos.x <= x < rect.pos.x
                        + 8 && rect.pos.y <= y < rect.pos.y + 8 && in_ball(
                        x - rect.pos.x,
                        y - rect.pos.y,
                    ) && y - rect.pos.y < dy {
                        (color.0, color.1, 0u8, 255u8)
                    } else {
                        old(self).pix(x, y)
                    }),
            decreases 8 - dy,
        {
            let mut dx: i32 = 0;
            while dx < 8
                invariant
                    self.wf(),
                    self.sz == old(self).sz,
                    0 <= dy < 8,
                    0 <= dx <= 8,
                    forall|x: int, y: int|
                        0 <= x < w && 0 <= y < h ==> self.pix(x, y) == (if rect.pos.x <= x
                            < rect.pos.x + 8 && rect.pos.y <= y < rect.pos.y + 8 && in_ball(
                            x - rect.pos.x,
                            y - rect.pos.y,
                        ) && (y - rect.pos.y < dy || (y - rect.pos.y == dy && x - rect.pos.x
                            < dx)) {
                            (color.0, color.1, 0u8, 255u8)
                        } else {
                            old(self).pix(x, y)
                        }),
                decreases 8 - dx,
            {
                let hit = if dy == 0 || dy == 7 {
                    2 <= dx && dx <= 5
                } else if dy == 1 || dy == 6 {
                    1 <= dx && dx <= 6
                } else {
                    true
                };
                let px = rect.pos.x + dx;
                let py = rect.pos.y + dy;
                if hit && 0 <= px && px < w && 0 <= py && py < h {
                    proof {
                        lemma_grid_index(w as int, h as int, px as int, py as int);
                    }
                    let idx: usize = (py as usize) * (w as usize) + (px as usize);
                    let ghost pre = *self;
                    self.buffer.set(idx, (color.0, color.1, 0, 255));
                    proof {
                        assert forall|x: int, y: int|
                            0 <= x < w && 0 <= y < h implies self.pix(x, y) == (if rect.pos.x <= x
                            < rect.pos.x + 8 && rect.pos.y <= y < rect.pos.y + 8 && in_ball(
                            x - rect.pos.x,
                            y - rect.pos.y,
                        ) && (y - rect.pos.y < dy || (y - rect.pos.y == dy && x - rect.pos.x < dx
                            + 1)) {
                            (color.0, color.1, 0u8, 255u8)
                        } else {
                            old(self).pix(x, y)
                        }) by {
                            lemma_grid_index(w as int, h as int, x, y);
                            lemma_grid_index(w as int, h as int, px as int, py as int);
                            assert(pre.pix(x, y) == pre.buffer@[y * w + x]);
                            if y * w + x != idx {
                                assert(self.buffer@[y * w + x] == pre.buffer@[y * w + x]);
                            }
                        }
                    }
                }
                dx = dx + 1;
            }
            dy = dy + 1;
        }
    }

    /// Overwrite the pixels of row `y` from column `x0` up to but not
    /// including column `x1` with `c`.
    #[verifier::loop_isolation(false)]
    pub fn hline(&mut self, x0: usize, x1: usize, y: usize, c: Color)
        requires
            old(self).wf(),
            y < old(self).sz.y,
            x0 <= x1,
            x1 < old(self).sz.x,
        ensures
            final(self).wf(),
            final(self).sz == old(self).sz,
            forall|x: int, py: int|
                0 <= x < old(self).sz.x && 0 <= py < old(self).sz.y ==> final(self).pix(x, py) == (
                if py == y && x0 <= x < x1 {
                    c
                } else {
                    old(self).pix(x, py)
                }),
    {
        let w = self.sz.x;
        let h = self.sz.y;
        let mut x = x0;
        while x < x1
            invariant
                self.wf(),
                self.sz == old(self).sz,
                x0 <= x <= x1,
                forall|px: int, py: int|
                    0 <= px < w && 0 <= py < h ==> self.pix(px, py) == (if py == y && x0 <= px < x {
                        c
                    } else {
                        old(self).pix(px, py)
                    }),
            decreases x1 - x,
        {
            proof {
                lemma_grid_index(w as int, h as int, x as int, y as int);
            }
            let idx: usize = y * (w as usize) + x;
            let ghost pre = *self;
            self.buffer.set(idx, c);
            proof {
                assert forall|px: int, py: int|
                    0 <= px < w && 0 <= py < h implies self.pix(px, py) == (if py == y && x0 <= px
                    < x + 1 {
                    c
                } else {
                    old(self).pix(px, py)
                }) by {
                    lemma_grid_index(w as int, h as int, px, py);
                    lemma_grid_index(w as int, h as int, x as int, y as int);
                    assert(pre.pix(px, py) == pre.buffer@[py * w + px]);
                    if py * w + px != idx {
                        assert(self.buffer@[py * w + px] == pre.buffer@[py * w + px]);
                    }
                }
            }
            x = x + 1;
        }
    }

    /// Alpha-blend the pixels of `src` inside `from` onto this surface with
    /// the region's top-left corner placed at `to`. The placement is clipped
    /// independently on each axis to the destination bounds; a placement
    /// fully outside leaves the destination unchanged. `from` must lie fully
    /// inside `src`; only pixels of that rectangle are read.
    #[verifier::loop_isolation(false)]
    pub fn bitblt(&mut self, src: &Image, from: Rect, to: Vec2i)
        requires
            old(self).wf(),
            src.wf(),
            from.ok(),
            0 <= from.pos.x,
            0 <= from.pos.y,
            from.pos.x + from.sz.x <= src.sz.x,
            from.pos.y + from.sz.y <= src.sz.y,
            i32::MIN < to.x,
            i32::MIN < to.y,
            to.x + from.sz.x <= i32::MAX,
            to.y + from.sz.y <= i32::MAX,
        ensures
            final(self).wf(),
            final(self).sz == old(self).sz,
            forall|x: int, y: int|
                0 <= x < old(self).sz.x && 0 <= y < old(self).sz.y ==> final(self).pix(x, y) == (
                if blit_covers(old(self).sz.x as int, old(self).sz.y as int, from, to, x, y) {
                    blend(
                        src.pix(from.pos.x + x - to.x, from.pos.y + y - to.y),
                        old(self).pix(x, y),
                    )
                } else {
                    old(self).pix(x, y)
                }),
            (to.x + from.sz.x <= 0 || old(self).sz.x <= to.x || to.y + from.sz.y <= 0 || old(
                self,
            ).sz.y <= to.y) ==> final(self).buffer@ == old(self).buffer@,
            final(self).buffer@ == spec_blit(
                old(self).buffer@,
                old(self).sz.x as int,
                old(self).sz.y as int,
                *src,
                from,
                to,
            ),
    {
        let w = self.sz.x;
        let h = self.sz.y;
        if to.x + from.sz.x <= 0 || w <= to.x || to.y + from.sz.y <= 0 || h <= to.y {
            proof {
                let sb = spec_blit(old(self).buffer@, w as int, h as int, *src, from, to);
                if w > 0 {
                    assert(self.buffer@ =~= sb) by {
                        assert forall|i: int| 0 <= i < self.buffer.len() implies self.buffer@[i]
                            == sb[i] by {
                            lemma_index_to_grid(w as int, h as int, i);
                        }
                    }
                } else {
                    assert(self.buffer@ =~= sb);
                }
            }
            return ;
        }
        let y_skip: i32 = if to.y < 0 { -to.y } else { 0 };
        let x_skip: i32 = if to.x < 0 { -to.x } else { 0 };
        let x_count: i32 = if (from.sz.x as i64) < (w as i64) - (to.x as i64) {
            from.sz.x
        } else {
            w - to.x
        };
        let y_count: i32 = if (from.sz.y as i64) < (h as i64) - (to.y as i64) {
            from.sz.y
        } else {
            h - to.y
        };
        let mut dy = y_skip;
        while dy < y_count
            invariant
                self.wf(),
                self.sz == old(self).sz,
                y_skip <= dy <= y_count || dy == y_skip,
                forall|x: int, y: int|
                    0 <= x < w && 0 <= y < h ==> self.pix(x, y) == (if blit_covers(
                        w as int,
                        h as int,
                        from,
                        to,
                        x,
                        y,
                    ) && y < to.y + dy {
                        blend(
                            src.pix(from.pos.x + x - to.x, from.pos.y + y - to.y),
                            old(self).pix(x, y),
                        )
                    } else {
                        old(self).pix(x, y)
                    }),
            decreases y_count - dy,
        {
            let mut dx = x_skip;
            while dx < x_count
                invariant
                    self.wf(),
                    self.sz == old(self).sz,
                    y_skip <= dy < y_count,
                    x_skip <= dx <= x_count || dx == x_skip,
                    forall|x: int, y: int|
                        0 <= x < w && 0 <= y < h ==> self.pix(x, y) == (if blit_covers(
                            w as int,
                            h as int,
                            from,
                            to,
                            x,
                            y,
                        ) && (y < to.y + dy || (y == to.y + dy && x < to.x + dx)) {
                            blend(
                                src.pix(from.pos.x + x - to.x, from.pos.y + y - to.y),
                                old(self).pix(x, y),
                            )
                        } else {
                            old(self).pix(x, y)
                        }),
                decreases x_count - dx,
            {
                let sx = from.pos.x + dx;
                let sy = from.pos.y + dy;
                let tx = to.x + dx;
                let ty = to.y + dy;
                proof {
                    lemma_grid_index(src.sz.x as int, src.sz.y as int, sx as int, sy as int);
                    lemma_grid_index(w as int, h as int, tx as int, ty as int);
                }
                let sidx: usize = (sy as usize) * (src.sz.x as usize) + (sx as usize);
                let didx: usize = (ty as usize) * (w as usize) + (tx as usize);
                let spx = src.buffer[sidx];
                let dpx = self.buffer[didx];
                let ghost pre = *self;
                self.buffer.set(didx, blend_px(spx, dpx));
                proof {
                    assert(self.buffer@ == pre.buffer@.update(didx as int, blend(spx, dpx)));
                    assert forall|x: int, y: int|
                        0 <= x < w && 0 <= y < h implies self.pix(x, y) == (if blit_covers(
                        w as int,
                        h as int,
                        from,
                        to,
                        x,
                        y,
                    ) && (y < to.y + dy || (y == to.y + dy && x < to.x + dx + 1)) {
                        blend(
                            src.pix(from.pos.x + x - to.x, from.pos.y + y - to.y),
                            old(self).pix(x, y),
                        )
                    } else {
                        old(self).pix(x, y)
                    }) by {
                        lemma_grid_index(w as int, h as int, x, y);
                        lemma_grid_index(w as int, h as int, tx as int, ty as int);
                        assert(pre.pix(x, y) == pre.buffer@[y * w + x]);
                        if y * w + x != didx {
                            assert(self.buffer@[y * w + x] == pre.buffer@[y * w + x]);
                        }
                    }
                }
                dx = dx + 1;
            }
            dy = dy + 1;
        }
        proof {
            let sb = spec_blit(old(self).buffer@, w as int, h as int, *src, from, to);
            if w > 0 {
                assert(self.buffer@ =~= sb) by {
                    assert forall|i: int| 0 <= i < self.buffer.len() implies self.buffer@[i]
                        == sb[i] by {
                        lemma_index_to_grid(w as int, h as int, i);
                        assert(self.pix(i % (w as int), i / (w as int)) == self.buffer@[i]);
                    }
                }
            } else {
                assert(self.buffer@ =~= sb);
            }
        }
    }
}

} // verus!
