//! Tilesets, tilemaps, the derived coarse movement mask, and the per-tile
//! reveal mask used by level-transition effects.

use vstd::prelude::*;

use crate::geom::{lemma_grid_index, Dir, Rect, Vec2i, TILE_SZ};
use crate::surface::{spec_blit, Color, Image};

verus! {

/// A graphical tile; tiny, so it is `Copy`.
#[derive(PartialEq, Eq, Structural, Clone, Copy, Debug)]
pub struct Tile {
    pub solid: bool,
}

/// An index into a `Tileset`.
#[derive(PartialEq, Eq, Structural, Clone, Copy, Debug)]
pub struct TileID(pub usize);

/// A catalog of tiles sharing one source image. Tile `i` is drawn from the
/// 8-by-8 cell at column `i % (image width / 8)` and row `i / (image width / 8)`
/// of the image.
pub struct Tileset {
    pub tiles: Vec<Tile>,
    pub image: Image,
}

impl Tileset {
    /// The image is a well-formed surface at least one tile column wide.
    pub open spec fn wf(self) -> bool {
        self.image.wf() && self.image.sz.x >= 8
    }

    /// How many tile cells fit in one row of the source image.
    pub open spec fn tiles_per_row(self) -> int {
        self.image.sz.x as int / 8
    }

    /// How many whole tile rows the source image holds.
    pub open spec fn tile_rows(self) -> int {
        self.image.sz.y as int / 8
    }

    /// The source rectangle of tile `id`.
    pub open spec fn spec_rect(self, id: TileID) -> Rect {
        Rect {
            pos: Vec2i {
                x: (8 * (id.0 as int % self.tiles_per_row())) as i32,
                y: (8 * (id.0 as int / self.tiles_per_row())) as i32,
            },
            sz: Vec2i { x: 8, y: 8 },
        }
    }

    pub fn new(tiles: Vec<Tile>, texture: Image) -> (r: Tileset)
        ensures
            r.tiles == tiles,
            r.image == texture,
    {
        Tileset { tiles, image: texture }
    }

    /// The tile with a given ID.
    pub fn index(&self, id: TileID) -> (r: Tile)
        requires
            id.0 < self.tiles.len(),
        ensures
            r == self.tiles@[id.0 as int],
    {
        self.tiles[id.0]
    }

    /// The frame rectangle for a tile ID: column `id % tiles_per_row`, row
    /// `id / tiles_per_row`, one tile each. The ID must fit the sheet's tile
    /// capacity so that the rectangle lies inside the image (an oversized ID
    /// would yield a rect below the sheet that no blit could satisfy);
    /// `Tilemap::new` and `Tilemap::try_new` validate every map ID against
    /// this bound.
    pub fn get_rect(&self, id: TileID) -> (r: Rect)
        requires
            self.wf(),
            id.0 < self.tiles_per_row() * self.tile_rows(),
        ensures
            r == self.spec_rect(id),
            0 <= r.pos.x,
            0 <= r.pos.y,
            r.pos.x + 8 <= self.image.sz.x,
            r.pos.y + 8 <= self.image.sz.y,
            r.sz.x == 8,
            r.sz.y == 8,
    {
        let idx = id.0;
        let (w, _h) = self.image.size();
        let tw = (w as usize) / (TILE_SZ as usize);
        let row = idx / tw;
        proof {
            let t = self.tiles_per_row();
            assert(tw == t);
            assert(row * t <= idx && idx - row * t == idx as int % t) by (nonlinear_arith)
                requires
                    0 < t,
                    row == idx as int / t,
            ;
        }
        let col = idx - (row * tw);
        proof {
            let t = self.tiles_per_row();
            assert(0 <= col < t && 0 <= row < self.tile_rows()) by (nonlinear_arith)
                requires
                    0 < t,
                    idx < t * self.tile_rows(),
                    row == idx as int / t,
                    col == idx as int % t,
            ;
            assert(8 * (col + 1) <= 8 * t <= self.image.sz.x && 8 * (row + 1) <= 8
                * self.tile_rows() <= self.image.sz.y) by (nonlinear_arith)
                requires
                    col < t,
                    row < self.tile_rows(),
                    t == self.image.sz.x as int / 8,
                    self.tile_rows() == self.image.sz.y as int / 8,
            ;
        }
        Rect {
            pos: Vec2i { x: (col as i32) * TILE_SZ, y: (row as i32) * TILE_SZ },
            sz: Vec2i { x: TILE_SZ, y: TILE_SZ },
        }
    }
}

/// How many entries of a mask are already unmasked (false).
pub open spec fn count_unmasked(s: Seq<bool>) -> nat
    decreases s.len(),
{
    if s.len() == 0 {
        0
    } else {
        count_unmasked(s.drop_last()) + (if s.last() {
            0nat
        } else {
            1nat
        })
    }
}

/// The unmask count never exceeds the number of cells.
pub proof fn lemma_count_le_len(s: Seq<bool>)
    ensures
        count_unmasked(s) <= s.len(),
    decreases s.len(),
{
    if s.len() > 0 {
        lemma_count_le_len(s.drop_last());
    }
}

/// A mask with every cell still masked has unmask count zero.
pub proof fn lemma_count_all_true(s: Seq<bool>)
    requires
        forall|i: int| 0 <= i < s.len() ==> s[i],
    ensures
        count_unmasked(s) == 0,
    decreases s.len(),
{
    if s.len() > 0 {
        lemma_count_all_true(s.drop_last());
    }
}

/// Unmasking one still-masked cell raises the count by exactly one.
pub proof fn lemma_count_update_false(s: Seq<bool>, i: int)
    requires
        0 <= i < s.len(),
        s[i],
    ensures
        count_unmasked(s.update(i, false)) == count_unmasked(s) + 1,
    decreases s.len(),
{
    let t = s.update(i, false);
    if i == s.len() - 1 {
        assert(t.drop_last() =~= s.drop_last());
    } else {
        assert(t.drop_last() =~= s.drop_last().update(i, false));
        lemma_count_update_false(s.drop_last(), i);
    }
}

/// The per-fine-tile reveal state for level-transition effects: every cell
/// starts masked (true), and `swapc` counts how many cells have been
/// unmasked so far, which never decreases.
pub struct MapMask {
    pub mask: Vec<bool>,
    pub dims: (usize, usize),
    pub swapc: usize,
}

impl MapMask {
    /// The mask covers the grid and `swapc` is exactly the unmask count.
    pub open spec fn wf(self) -> bool {
        self.mask.len() == self.dims.0 * self.dims.1 && self.swapc == count_unmasked(self.mask@)
    }

    /// A fresh mask with every cell masked.
    #[verifier::loop_isolation(false)]
    pub fn new(dims: (usize, usize)) -> (r: MapMask)
        requires
            dims.0 * dims.1 <= usize::MAX,
        ensures
            r.wf(),
            r.dims == dims,
            r.swapc == 0,
            r.mask.len() == dims.0 * dims.1,
            forall|i: int| 0 <= i < r.mask.len() ==> r.mask@[i],
    {
        let n: usize = dims.0 * dims.1;
        let mut mask: Vec<bool> = Vec::new();
        while mask.len() < n
            invariant
                mask.len() <= n,
                forall|i: int| 0 <= i < mask.len() ==> mask@[i],
            decreases n - mask.len(),
        {
            mask.push(true);
        }
        proof {
            lemma_count_all_true(mask@);
        }
        MapMask { mask, dims, swapc: 0 }
    }

    /// Unmask cell `(x, y)`: flip it from masked to unmasked at most once and
    /// count it; a cell already unmasked is left untouched, so repeated calls
    /// are no-ops and `swapc` is monotone.
    pub fn unmask(&mut self, x: usize, y: usize)
        requires
            old(self).wf(),
            x < old(self).dims.0,
            y < old(self).dims.1,
        ensures
            final(self).wf(),
            final(self).dims == old(self).dims,
            final(self).mask.len() == old(self).mask.len(),
            old(self).mask@[y * old(self).dims.0 + x] ==> final(self).mask@ == old(
                self,
            ).mask@.update(y * old(self).dims.0 + x, false) && final(self).swapc == old(self).swapc
                + 1,
            !old(self).mask@[y * old(self).dims.0 + x] ==> *final(self) == *old(self),
            old(self).swapc <= final(self).swapc <= old(self).swapc + 1,
    {
        proof {
            lemma_grid_index(old(self).dims.0 as int, old(self).dims.1 as int, x as int, y as int);
            lemma_count_le_len(old(self).mask@);
        }
        let idx: usize = y * self.dims.0 + x;
        if self.mask[idx] {
            proof {
                lemma_count_update_false(self.mask@, idx as int);
                lemma_count_le_len(self.mask@.update(idx as int, false));
            }
            self.mask.set(idx, false);
            self.swapc = self.swapc + 1;
        }
    }

    /// Whether cell `(x, y)` is still masked.
    pub fn at(&self, x: usize, y: usize) -> (r: bool)
        requires
            self.wf(),
            x < self.dims.0,
            y < self.dims.1,
        ensures
            r == self.mask@[y * self.dims.0 + x],
    {
        proof {
            lemma_grid_index(self.dims.0 as int, self.dims.1 as int, x as int, y as int);
        }
        self.mask[y * self.dims.0 + x]
    }
}

/// Whether every tile ID of `map` (a `w`-wide row-major grid) inside the
/// `sf`-by-`sf` footprint of coarse cell `(cx, cy)` belongs to `moveables`.
pub open spec fn cell_moveable(
    map: Seq<usize>,
    w: int,
    moveables: Seq<usize>,
    sf: int,
    cx: int,
    cy: int,
) -> bool {
    forall|dx: int, dy: int|
        0 <= dx < sf && 0 <= dy < sf ==> #[trigger] moveables.contains(
            map[(cy * sf + dy) * w + (cx * sf + dx)],
        )
}

/// Whether every tile ID of `map` inside rectangle `r` (in tile coordinates)
/// belongs to `moveables`.
pub open spec fn rect_moveable(map: Seq<usize>, w: int, moveables: Seq<usize>, r: Rect) -> bool {
    forall|x: int, y: int|
        r.pos.x <= x < r.pos.x + r.sz.x && r.pos.y <= y < r.pos.y + r.sz.y ==> #[trigger] moveables.contains(
            map[y * w + x],
        )
}

/// A coarse cell footprint lies within the fine grid.
pub proof fn lemma_coarse_cell_bounds(w: int, sf: int, c: int)
    requires
        1 <= sf,
        0 <= c < w / sf,
        w % sf == 0,
    ensures
        0 <= c * sf,
        c * sf + sf <= w,
{
    assert(0 <= c * sf && c * sf + sf <= (w / sf) * sf && (w / sf) * sf == w) by (nonlinear_arith)
        requires
            1 <= sf,
            0 <= c < w / sf,
            w % sf == 0,
    ;
}

/// Whether slice `moveables` holds `id`.
pub fn ids_contain(moveables: &[usize], id: usize) -> (r: bool)
    ensures
        r == moveables@.contains(id),
{
    let n = moveables.len();
    let mut i: usize = 0;
    while i < n
        invariant
            i <= n,
            n == moveables.len(),
            forall|j: int| 0 <= j < i ==> moveables@[j] != id,
        decreases n - i,
    {
        if moveables[i] == id {
            return true;
        }
        i = i + 1;
    }
    false
}


/// The pure effect of `Tilemap::draw`'s first `n` cells (row-major) on a
/// `dw`-by-`dh` destination buffer: cell `k` blits the frame of tile ID
/// `map[k]` at the cell's screen position.
pub open spec fn spec_draw_tiles(m: Tilemap, dst: Seq<Color>, dw: int, dh: int, n: int) -> Seq<
    Color,
>
    decreases n,
{
    if n <= 0 {
        dst
    } else {
        let k = n - 1;
        let x = k % (m.dims.0 as int);
        let y = k / (m.dims.0 as int);
        spec_blit(
            spec_draw_tiles(m, dst, dw, dh, k),
            dw,
            dh,
            m.tileset.image,
            m.tileset.spec_rect(m.map@[k]),
            Vec2i { x: (8 * x + m.position.x) as i32, y: (8 * y + m.position.y) as i32 },
        )
    }
}

/// The pure effect of `Tilemap::masked_draw`'s first `n` cells: as
/// `spec_draw_tiles`, but a cell whose reveal-mask entry is already
/// unmasked is skipped.
pub open spec fn spec_masked_draw_tiles(
    m: Tilemap,
    dst: Seq<Color>,
    dw: int,
    dh: int,
    n: int,
) -> Seq<Color>
    decreases n,
{
    if n <= 0 {
        dst
    } else {
        let k = n - 1;
        let x = k % (m.dims.0 as int);
        let y = k / (m.dims.0 as int);
        let base = spec_masked_draw_tiles(m, dst, dw, dh, k);
        if m.mask.mask@[k] {
            spec_blit(
                base,
                dw,
                dh,
                m.tileset.image,
                m.tileset.spec_rect(m.map@[k]),
                Vec2i { x: (8 * x + m.position.x) as i32, y: (8 * y + m.position.y) as i32 },
            )
        } else {
            base
        }
    }
}

/// A positioned tile grid with its tileset, derived coarse movement mask,
/// and reveal mask.
pub struct Tilemap {
    /// Where the tilemap is in screen space (its scroll origin).
    pub position: Vec2i,
    /// Grid extent in fine tiles.
    pub dims: (usize, usize),
    /// The tileset used for this tilemap.
    pub tileset: Tileset,
    /// A row-major grid of tile IDs into the tileset.
    pub map: Vec<TileID>,
    /// Scale factor between the fine tile grid and the coarse movement grid.
    pub sf: i32,
    /// Derived coarse passability grid.
    pub movemap: Vec<bool>,
    /// Reveal mask for level-transition effects.
    pub mask: MapMask,
    pub swapc: usize,
    /// The set of passable tile IDs the movement mask was derived from.
    pub moveables: Ghost<Seq<usize>>,
}

impl Tilemap {
    /// The raw tile IDs of the grid.
    pub open spec fn ids(self) -> Seq<usize> {
        self.map@.map_values(|t: TileID| t.0)
    }

    /// Coarse grid width.
    pub open spec fn cw(self) -> int {
        self.dims.0 as int / self.sf as int
    }

    /// Coarse grid height.
    pub open spec fn ch(self) -> int {
        self.dims.1 as int / self.sf as int
    }

    pub open spec fn wf(self) -> bool {
        self.dims.0 * self.dims.1 == self.map.len() && 1 <= self.sf && self.dims.0 as int
            % self.sf as int == 0 && self.dims.1 as int % self.sf as int == 0 && self.dims.0
            <= 0x7fffffff && self.dims.1 <= 0x7fffffff && self.movemap.len() == self.cw() * self.ch()
            && (forall|cx: int, cy: int|
            0 <= cx < self.cw() && 0 <= cy < self.ch() ==> self.movemap@[cy * self.cw() + cx]
                == cell_moveable(
                self.ids(),
                self.dims.0 as int,
                self.moveables@,
                self.sf as int,
                cx,
                cy,
            )) && self.mask.wf() && self.mask.dims == self.dims && self.tileset.wf() && (forall|
            i: int,
        |
            0 <= i < self.map.len() ==> self.map@[i].0 < self.tileset.tiles_per_row()
                * self.tileset.tile_rows() && self.map@[i].0 < self.tileset.tiles.len())
    }

    /// Derive the coarse movement mask: coarse cell `(cx, cy)` is passable
    /// iff every fine tile ID in its `sf`-by-`sf` footprint is in `moveables`.
    #[verifier::loop_isolation(false)]
    pub fn move_map(dims: (usize, usize), map: &[usize], moveables: &[usize], sf: i32) -> (r: Vec<
        bool,
    >)
        requires
            dims.0 * dims.1 == map.len(),
            1 <= sf,
            dims.0 as int % sf as int == 0,
            dims.1 as int % sf as int == 0,
            dims.0 <= 0x7fffffff,
            dims.1 <= 0x7fffffff,
        ensures
            r.len() == (dims.0 as int / sf as int) * (dims.1 as int / sf as int),
            forall|cx: int, cy: int|
                0 <= cx < dims.0 as int / sf as int && 0 <= cy < dims.1 as int / sf as int ==> r@[cy
                    * (dims.0 as int / sf as int) + cx] == cell_moveable(
                    map@,
                    dims.0 as int,
                    moveables@,
                    sf as int,
                    cx,
                    cy,
                ),
    {
        let w = dims.0;
        let h = dims.1;
        let sfu = sf as usize;
        let cw = w / sfu;
        let ch = h / sfu;
        let mut smap: Vec<bool> = Vec::new();
        let mut cy: usize = 0;
        while cy < ch
            invariant
                cy <= ch,
                smap.len() == cy * cw,
                forall|px: int, py: int|
                    0 <= px < cw && 0 <= py < cy ==> smap@[py * cw + px] == cell_moveable(
                        map@,
                        w as int,
                        moveables@,
                        sf as int,
                        px,
                        py,
                    ),
            decreases ch - cy,
        {
            let mut cx: usize = 0;
            while cx < cw
                invariant
                    cy < ch,
                    cx <= cw,
                    smap.len() == cy * cw + cx,
                    forall|px: int, py: int|
                        0 <= px < cw && 0 <= py < cy ==> smap@[py * cw + px] == cell_moveable(
                            map@,
                            w as int,
                            moveables@,
                            sf as int,
                            px,
                            py,
                        ),
                    forall|px: int|
                        0 <= px < cx ==> smap@[cy * cw + px] == cell_moveable(
                            map@,
                            w as int,
                            moveables@,
                            sf as int,
                            px,
                            cy as int,
                        ),
                decreases cw - cx,
            {
                proof {
                    lemma_coarse_cell_bounds(w as int, sf as int, cx as int);
                    lemma_coarse_cell_bounds(h as int, sf as int, cy as int);
                    lemma_grid_index(cw as int, ch as int, cx as int, cy as int);
                    assert((sf as int) * (cx as int) == (cx as int) * (sf as int)
                        && (sf as int) * (cy as int) == (cy as int) * (sf as int))
                        by (nonlinear_arith);
                }
                let r = Rect {
                    pos: Vec2i { x: sf * (cx as i32), y: sf * (cy as i32) },
                    sz: Vec2i { x: sf, y: sf },
                };
                let solid = Self::contains_solid(dims, map, r, moveables);
                proof {
                    assert(rect_moveable(map@, w as int, moveables@, r) == cell_moveable(
                        map@,
                        w as int,
                        moveables@,
                        sf as int,
                        cx as int,
                        cy as int,
                    )) by {
                        let cxi = cx as int;
                        let cyi = cy as int;
                        let sfi = sf as int;
                        if rect_moveable(map@, w as int, moveables@, r) {
                            assert forall|dx: int, dy: int|
                                0 <= dx < sfi && 0 <= dy < sfi implies #[trigger] moveables@.contains(
                                map@[(cyi * sfi + dy) * w + (cxi * sfi + dx)],
                            ) by {
                                assert(r.pos.x <= cxi * sfi + dx < r.pos.x + r.sz.x);
                                assert(r.pos.y <= cyi * sfi + dy < r.pos.y + r.sz.y);
                            }
                        }
                        if cell_moveable(map@, w as int, moveables@, sfi, cxi, cyi) {
                            assert forall|x: int, y: int|
                                r.pos.x <= x < r.pos.x + r.sz.x && r.pos.y <= y < r.pos.y
                                    + r.sz.y implies #[trigger] moveables@.contains(
                                map@[y * w + x],
                            ) by {
                                let dx = x - cxi * sfi;
                                let dy = y - cyi * sfi;
                                assert(0 <= dx < sfi && 0 <= dy < sfi);
                                assert(moveables@.contains(
                                    map@[(cyi * sfi + dy) * w + (cxi * sfi + dx)],
                                ));
                            }
                        }
                    }
                }
                let ghost pres = smap@;
                smap.push(!solid);
                proof {
                    assert forall|px: int, py: int|
                        0 <= px < cw && 0 <= py < cy implies smap@[py * cw + px] == cell_moveable(
                        map@,
                        w as int,
                        moveables@,
                        sf as int,
                        px,
                        py,
                    ) by {
                        assert(0 <= py * cw + px && py * cw + px < cy * cw) by (nonlinear_arith)
                            requires
                                0 <= px < cw,
                                0 <= py,
                                py < cy,
                        ;
                        assert(smap@[py * cw + px] == pres[py * cw + px]);
                    }
                }
                cx = cx + 1;
            }
            proof {
                assert((cy + 1) * cw == cy * cw + cw) by (nonlinear_arith);
            }
            cy = cy + 1;
        }
        proof {
            assert((ch as int) * (cw as int) == (cw as int) * (ch as int)) by (nonlinear_arith);
        }
        smap
    }


    /// Build a tilemap: the grid must match its declared extent, and the
    /// coarse movement mask is derived eagerly from `moveables`.
    #[verifier::loop_isolation(false)]
    pub fn new(
        position: Vec2i,
        dims: (usize, usize),
        tileset: Tileset,
        map: Vec<usize>,
        sf: i32,
        moveables: &[usize],
    ) -> (r: Tilemap)
        requires
            dims.0 * dims.1 == map.len(),
            1 <= sf,
            dims.0 as int % sf as int == 0,
            dims.1 as int % sf as int == 0,
            dims.0 <= 0x7fffffff,
            dims.1 <= 0x7fffffff,
            tileset.wf(),
            forall|i: int|
                0 <= i < map.len() ==> map@[i] < tileset.tiles_per_row() * tileset.tile_rows()
                    && map@[i] < tileset.tiles.len(),
        ensures
            r.wf(),
            r.position == position,
            r.dims == dims,
            r.tileset == tileset,
            r.sf == sf,
            r.ids() == map@,
            r.moveables@ == moveables@,
            r.mask.swapc == 0,
            forall|i: int| 0 <= i < r.mask.mask.len() ==> r.mask.mask@[i],
            r.swapc == 0,
    {
        let movemap = Self::move_map(dims, map.as_slice(), moveables, sf);
        let mask = MapMask::new(dims);
        let n = map.len();
        let mut tids: Vec<TileID> = Vec::new();
        let mut i: usize = 0;
        while i < n
            invariant
                i <= n,
                tids.len() == i,
                forall|j: int| 0 <= j < i ==> tids@[j] == TileID(map@[j]),
            decreases n - i,
        {
            tids.push(TileID(map[i]));
            i = i + 1;
        }
        proof {
            assert(tids@.map_values(|t: TileID| t.0) =~= map@);
        }
        Tilemap {
            position,
            dims,
            tileset,
            map: tids,
            sf,
            movemap,
            mask,
            swapc: 0,
            moveables: Ghost(moveables@),
        }
    }


    /// Validating constructor: build the tilemap when, and only when, the
    /// grid matches its declared extent, the scale factor divides both
    /// dimensions, the tileset is usable, and every tile ID fits both the
    /// tileset's catalog and its sheet.
    #[verifier::loop_isolation(false)]
    pub fn try_new(
        position: Vec2i,
        dims: (usize, usize),
        tileset: Tileset,
        map: Vec<usize>,
        sf: i32,
        moveables: &[usize],
    ) -> (r: Option<Tilemap>)
        ensures
            r is Some <==> (dims.0 * dims.1 == map.len() && 1 <= sf && dims.0 as int % sf as int
                == 0 && dims.1 as int % sf as int == 0 && dims.0 <= 0x7fffffff && dims.1
                <= 0x7fffffff && tileset.wf() && (forall|i: int|
                0 <= i < map.len() ==> map@[i] < tileset.tiles_per_row() * tileset.tile_rows()
                    && map@[i] < tileset.tiles.len())),
            r is Some ==> r->0.wf() && r->0.position == position && r->0.dims == dims && r->0.sf
                == sf && r->0.ids() == map@ && r->0.moveables@ == moveables@ && r->0.mask.swapc
                == 0,
    {
        if !(dims.0 as u64 <= 0x7fffffff && dims.1 as u64 <= 0x7fffffff) {
            return Option::None;
        }
        proof {
            assert((dims.0 as int) * (dims.1 as int) <= 0x7fffffff * 0x7fffffff)
                by (nonlinear_arith)
                requires
                    dims.0 <= 0x7fffffff,
                    dims.1 <= 0x7fffffff,
            ;
        }
        if (dims.0 as u64) * (dims.1 as u64) != map.len() as u64 {
            return Option::None;
        }
        if sf < 1 {
            return Option::None;
        }
        if dims.0 % (sf as usize) != 0 || dims.1 % (sf as usize) != 0 {
            return Option::None;
        }
        let (iw, ih) = tileset.image.size();
        if iw < 8 || ih < 0 {
            return Option::None;
        }
        proof {
            assert((iw as int) * (ih as int) <= 0x7fffffff * 0x7fffffff) by (nonlinear_arith)
                requires
                    0 <= iw <= 0x7fffffff,
                    0 <= ih <= 0x7fffffff,
            ;
        }
        if tileset.image.buffer.len() as u64 != (iw as u64) * (ih as u64) {
            return Option::None;
        }
        let tw: u64 = (iw as u64) / 8;
        let th: u64 = (ih as u64) / 8;
        proof {
            assert((tw as int) * (th as int) <= 0x7fffffff * 0x7fffffff) by (nonlinear_arith)
                requires
                    tw <= 0x7fffffff,
                    th <= 0x7fffffff,
            ;
        }
        let cap: u64 = tw * th;
        proof {
            assert(cap == tileset.tiles_per_row() * tileset.tile_rows()) by (nonlinear_arith)
                requires
                    tw == tileset.tiles_per_row(),
                    th == tileset.tile_rows(),
                    cap == tw * th,
            ;
        }
        let mut i: usize = 0;
        while i < map.len()
            invariant
                i <= map.len(),
                forall|j: int| 0 <= j < i ==> map@[j] < cap && map@[j] < tileset.tiles.len(),
            decreases map.len() - i,
        {
            if !((map[i] as u64) < cap && map[i] < tileset.tiles.len()) {
                return Option::None;
            }
            i = i + 1;
        }
        Option::Some(Self::new(position, dims, tileset, map, sf, moveables))
    }

    /// O(1) lookup into the derived movement mask: coarse cell `pos` is
    /// passable iff every fine tile of its footprint is moveable.
    pub fn can_move_to(&self, pos: Vec2i) -> (r: bool)
        requires
            self.wf(),
            0 <= pos.x < self.cw(),
            0 <= pos.y < self.ch(),
        ensures
            r == cell_moveable(
                self.ids(),
                self.dims.0 as int,
                self.moveables@,
                self.sf as int,
                pos.x as int,
                pos.y as int,
            ),
    {
        proof {
            lemma_grid_index(self.cw(), self.ch(), pos.x as int, pos.y as int);
            assert((pos.x as int) + (self.dims.0 as int / self.sf as int) * (pos.y as int) == (
            pos.y as int) * (self.dims.0 as int / self.sf as int) + (pos.x as int))
                by (nonlinear_arith);
        }
        let cw = self.dims.0 / (self.sf as usize);
        self.movemap[(pos.x as usize) + cw * (pos.y as usize)]
    }

    /// The fixed corridor rule used while two levels overlap during a swap:
    /// the fringe rows and columns of the coarse grid are excluded.
    pub open spec fn spec_swap_can_move_to(pos: Vec2i) -> bool {
        !(0 <= pos.x <= 4 || 23 <= pos.x <= 27) && !(0 <= pos.y <= 5 || 22 <= pos.y <= 26)
    }

    /// Evaluate the swap corridor rule.
    pub fn swap_can_move_to(pos: Vec2i) -> (r: bool)
        ensures
            r == Tilemap::spec_swap_can_move_to(pos),
    {
        !(matches!(pos.x, 0..=4 | 23..=27)) && !(matches!(pos.y, 0..=5 | 22..=26))
    }

    /// The tile's top-left corner in screen space and the tile ID under the
    /// screen-space point `posn`. The point must lie at or right/below the
    /// map origin: flooring division of a negative offset would otherwise
    /// land outside the grid.
    pub fn tile_id_at(&self, posn: Vec2i) -> (r: (Vec2i, TileID))
        requires
            self.wf(),
            self.position.x <= posn.x,
            self.position.y <= posn.y,
            posn.x - self.position.x <= i32::MAX,
            posn.y - self.position.y <= i32::MAX,
            (posn.x - self.position.x) / 8 < self.dims.0,
            (posn.y - self.position.y) / 8 < self.dims.1,
        ensures
            r.0.x == ((posn.x - self.position.x) / 8) * 8 + self.position.x,
            r.0.y == ((posn.y - self.position.y) / 8) * 8 + self.position.y,
            r.1 == self.map@[((posn.y - self.position.y) / 8) * self.dims.0 + ((posn.x
                - self.position.x) / 8)],
    {
        let x = (posn.x - self.position.x) / TILE_SZ;
        let y = (posn.y - self.position.y) / TILE_SZ;
        proof {
            lemma_grid_index(self.dims.0 as int, self.dims.1 as int, x as int, y as int);
        }
        (
            Vec2i { x: x * TILE_SZ + self.position.x, y: y * TILE_SZ + self.position.y },
            self.map[(y as usize) * self.dims.0 + (x as usize)],
        )
    }

    /// The tile's corner and the tile itself under the screen-space point.
    pub fn tile_at(&self, posn: Vec2i) -> (r: (Vec2i, Tile))
        requires
            self.wf(),
            self.position.x <= posn.x,
            self.position.y <= posn.y,
            posn.x - self.position.x <= i32::MAX,
            posn.y - self.position.y <= i32::MAX,
            (posn.x - self.position.x) / 8 < self.dims.0,
            (posn.y - self.position.y) / 8 < self.dims.1,
        ensures
            r.0.x == ((posn.x - self.position.x) / 8) * 8 + self.position.x,
            r.0.y == ((posn.y - self.position.y) / 8) * 8 + self.position.y,
            r.1 == self.tileset.tiles@[self.map@[((posn.y - self.position.y) / 8) * self.dims.0 + (
            (posn.x - self.position.x) / 8)].0 as int],
    {
        let (pos, tile_id) = self.tile_id_at(posn);
        proof {
            lemma_grid_index(
                self.dims.0 as int,
                self.dims.1 as int,
                (posn.x - self.position.x) as int / 8,
                (posn.y - self.position.y) as int / 8,
            );
        }
        (pos, self.tileset.index(tile_id))
    }

    /// The grid extent in fine tiles.
    pub fn size(&self) -> (r: (usize, usize))
        ensures
            r == self.dims,
    {
        self.dims
    }

    /// The grid extent as a vector.
    pub fn size_vec2i(&self) -> (r: Vec2i)
        requires
            self.dims.0 <= 0x7fffffff,
            self.dims.1 <= 0x7fffffff,
        ensures
            r.x == self.dims.0,
            r.y == self.dims.1,
    {
        Vec2i { x: self.dims.0 as i32, y: self.dims.1 as i32 }
    }

    /// Shift the map's screen-space origin one pixel opposite the walking
    /// direction, so the world scrolls under a screen-centered actor.
    pub fn translate(&mut self, dir: Dir)
        requires
            old(self).position.walk_ok(dir.spec_opposite()),
        ensures
            final(self).position == old(self).position.spec_walked(dir.spec_opposite()),
            final(self).dims == old(self).dims,
            final(self).tileset == old(self).tileset,
            final(self).map == old(self).map,
            final(self).sf == old(self).sf,
            final(self).movemap == old(self).movemap,
            final(self).mask == old(self).mask,
            final(self).swapc == old(self).swapc,
            final(self).moveables == old(self).moveables,
            old(self).wf() ==> final(self).wf(),
    {
        match dir {
            Dir::Down => self.position.y = self.position.y - 1,
            Dir::Up => self.position.y = self.position.y + 1,
            Dir::Left => self.position.x = self.position.x + 1,
            Dir::Right => self.position.x = self.position.x - 1,
        }
        proof {
            assert(self.ids() =~= old(self).ids());
            if old(self).wf() {
                assert forall|cx: int, cy: int|
                    0 <= cx < self.cw() && 0 <= cy < self.ch() implies #[trigger] self.movemap@[cy
                    * self.cw() + cx] == cell_moveable(
                    self.ids(),
                    self.dims.0 as int,
                    self.moveables@,
                    self.sf as int,
                    cx,
                    cy,
                ) by {
                    assert(old(self).movemap@[cy * old(self).cw() + cx] == cell_moveable(
                        old(self).ids(),
                        old(self).dims.0 as int,
                        old(self).moveables@,
                        old(self).sf as int,
                        cx,
                        cy,
                    ));
                }
            }
        }
    }

    /// Blit every tile's frame at its grid position, row-major. Tiles do not
    /// overlap, so paint order does not matter.
    #[verifier::loop_isolation(false)]
    pub fn draw(&self, screen: &mut Image)
        requires
            self.wf(),
            old(screen).wf(),
            i32::MIN < self.position.x,
            i32::MIN < self.position.y,
            8 * self.dims.0 <= i32::MAX,
            8 * self.dims.1 <= i32::MAX,
            self.position.x + 8 * self.dims.0 <= i32::MAX,
            self.position.y + 8 * self.dims.1 <= i32::MAX,
        ensures
            final(screen).wf(),
            final(screen).sz == old(screen).sz,
            forall|x: int, y: int|
                0 <= x < old(screen).sz.x && 0 <= y < old(screen).sz.y && !(self.position.x <= x
                    < self.position.x + 8 * self.dims.0 && self.position.y <= y < self.position.y
                    + 8 * self.dims.1) ==> final(screen).pix(x, y) == old(screen).pix(x, y),
            final(screen).buffer@ == spec_draw_tiles(
                *self,
                old(screen).buffer@,
                old(screen).sz.x as int,
                old(screen).sz.y as int,
                self.dims.0 * self.dims.1,
            ),
    {
        let w = self.dims.0;
        let h = self.dims.1;
        let ghost sw = screen.sz.x as int;
        let ghost sh = screen.sz.y as int;
        let mut y: usize = 0;
        while y < h
            invariant
                screen.wf(),
                screen.sz == old(screen).sz,
                y <= h,
                screen.buffer@ == spec_draw_tiles(*self, old(screen).buffer@, sw, sh, y * w),
                forall|px: int, py: int|
                    0 <= px < old(screen).sz.x && 0 <= py < old(screen).sz.y && !(self.position.x
                        <= px < self.position.x + 8 * self.dims.0 && self.position.y <= py
                        < self.position.y + 8 * self.dims.1) ==> screen.pix(px, py) == old(
                        screen,
                    ).pix(px, py),
            decreases h - y,
        {
            let ypx = (y as i32) * TILE_SZ + self.position.y;
            let mut x: usize = 0;
            while x < w
                invariant
                    screen.wf(),
                    screen.sz == old(screen).sz,
                    y < h,
                    x <= w,
                    screen.buffer@ == spec_draw_tiles(
                        *self,
                        old(screen).buffer@,
                        sw,
                        sh,
                        y * w + x,
                    ),
                forall|px: int, py: int|
                        0 <= px < old(screen).sz.x && 0 <= py < old(screen).sz.y && !(self.position.x
                            <= px < self.position.x + 8 * self.dims.0 && self.position.y <= py
                            < self.position.y + 8 * self.dims.1) ==> screen.pix(px, py) == old(
                            screen,
                        ).pix(px, py),
            decreases w - x,
            {
                proof {
                    lemma_grid_index(w as int, h as int, x as int, y as int);
                }
                let xpx = (x as i32) * TILE_SZ + self.position.x;
                let id = self.map[y * w + x];
                let frame = self.tileset.get_rect(id);
                screen.bitblt(&self.tileset.image, frame, Vec2i { x: xpx, y: ypx });
                proof {
                    assert(screen.buffer@ == spec_draw_tiles(
                        *self,
                        old(screen).buffer@,
                        sw,
                        sh,
                        y * w + x + 1,
                    ));
                }
                x = x + 1;
            }
            proof {
                assert((y + 1) * w == y * w + w) by (nonlinear_arith);
            }
            y = y + 1;
        }
        proof {
            assert((h as int) * (w as int) == (w as int) * (h as int)) by (nonlinear_arith);
        }
    }

    /// Like `draw`, but skip every fine cell whose reveal-mask entry is
    /// already unmasked; used during level-transition reveals.
    #[verifier::loop_isolation(false)]
    pub fn masked_draw(&mut self, screen: &mut Image)
        requires
            old(self).wf(),
            old(screen).wf(),
            i32::MIN < old(self).position.x,
            i32::MIN < old(self).position.y,
            8 * old(self).dims.0 <= i32::MAX,
            8 * old(self).dims.1 <= i32::MAX,
            old(self).position.x + 8 * old(self).dims.0 <= i32::MAX,
            old(self).position.y + 8 * old(self).dims.1 <= i32::MAX,
        ensures
            *final(self) == *old(self),
            final(screen).wf(),
            final(screen).sz == old(screen).sz,
            forall|x: int, y: int|
                0 <= x < old(screen).sz.x && 0 <= y < old(screen).sz.y && !(old(self).position.x
                    <= x < old(self).position.x + 8 * old(self).dims.0 && old(self).position.y <= y
                    < old(self).position.y + 8 * old(self).dims.1) ==> final(screen).pix(x, y)
                    == old(screen).pix(x, y),
            final(screen).buffer@ == spec_masked_draw_tiles(
                *old(self),
                old(screen).buffer@,
                old(screen).sz.x as int,
                old(screen).sz.y as int,
                old(self).dims.0 * old(self).dims.1,
            ),
    {
        let w = self.dims.0;
        let h = self.dims.1;
        let ghost sw = screen.sz.x as int;
        let ghost sh = screen.sz.y as int;
        let mut y: usize = 0;
        while y < h
            invariant
                screen.wf(),
                screen.sz == old(screen).sz,
                *self == *old(self),
                y <= h,
                screen.buffer@ == spec_masked_draw_tiles(
                    *old(self),
                    old(screen).buffer@,
                    sw,
                    sh,
                    y * w,
                ),
                forall|px: int, py: int|
                    0 <= px < old(screen).sz.x && 0 <= py < old(screen).sz.y && !(old(
                        self,
                    ).position.x <= px < old(self).position.x + 8 * old(self).dims.0 && old(
                        self,
                    ).position.y <= py < old(self).position.y + 8 * old(self).dims.1)
                        ==> screen.pix(px, py) == old(screen).pix(px, py),
            decreases h - y,
        {
            let ypx = (y as i32) * TILE_SZ + self.position.y;
            let mut x: usize = 0;
            while x < w
                invariant
                    screen.wf(),
                    screen.sz == old(screen).sz,
                    *self == *old(self),
                    y < h,
                    x <= w,
                    screen.buffer@ == spec_masked_draw_tiles(
                        *old(self),
                        old(screen).buffer@,
                        sw,
                        sh,
                        y * w + x,
                    ),
                    forall|px: int, py: int|
                        0 <= px < old(screen).sz.x && 0 <= py < old(screen).sz.y && !(old(
                            self,
                        ).position.x <= px < old(self).position.x + 8 * old(self).dims.0 && old(
                            self,
                        ).position.y <= py < old(self).position.y + 8 * old(self).dims.1)
                            ==> screen.pix(px, py) == old(screen).pix(px, py),
                decreases w - x,
            {
                proof {
                    lemma_grid_index(w as int, h as int, x as int, y as int);
                }
                let xpx = (x as i32) * TILE_SZ + self.position.x;
                let id = self.map[y * w + x];
                let frame = self.tileset.get_rect(id);
                if self.mask.at(x, y) {
                    screen.bitblt(&self.tileset.image, frame, Vec2i { x: xpx, y: ypx });
                }
                proof {
                    assert(screen.buffer@ == spec_masked_draw_tiles(
                        *old(self),
                        old(screen).buffer@,
                        sw,
                        sh,
                        y * w + x + 1,
                    ));
                }
                x = x + 1;
            }
            proof {
                assert((y + 1) * w == y * w + w) by (nonlinear_arith);
            }
            y = y + 1;
        }
        proof {
            assert((h as int) * (w as int) == (w as int) * (h as int)) by (nonlinear_arith);
        }
    }

    /// Whether any tile of `map` inside rectangle `r` is outside the
    /// moveable set.
    #[verifier::loop_isolation(false)]
    pub fn contains_solid(dims: (usize, usize), map: &[usize], r: Rect, moveables: &[usize]) -> (res:
        bool)
        requires
            dims.0 * dims.1 == map.len(),
            dims.0 <= 0x7fffffff,
            dims.1 <= 0x7fffffff,
            0 <= r.pos.x,
            0 <= r.pos.y,
            0 <= r.sz.x,
            0 <= r.sz.y,
            r.pos.x + r.sz.x <= dims.0,
            r.pos.y + r.sz.y <= dims.1,
        ensures
            res == !rect_moveable(map@, dims.0 as int, moveables@, r),
    {
        let w = dims.0;
        let h = dims.1;
        let mut row = r.pos.y;
        while row < r.pos.y + r.sz.y
            invariant
                r.pos.y <= row <= r.pos.y + r.sz.y,
                forall|x: int, y: int|
                    r.pos.x <= x < r.pos.x + r.sz.x && r.pos.y <= y < row
                        ==> #[trigger] moveables@.contains(map@[y * w + x]),
            decreases r.pos.y + r.sz.y - row,
        {
            let mut col = r.pos.x;
            while col < r.pos.x + r.sz.x
                invariant
                    r.pos.y <= row < r.pos.y + r.sz.y,
                    r.pos.x <= col <= r.pos.x + r.sz.x,
                    forall|x: int, y: int|
                        r.pos.x <= x < r.pos.x + r.sz.x && r.pos.y <= y < row
                            ==> #[trigger] moveables@.contains(map@[y * w + x]),
                    forall|x: int|
                        r.pos.x <= x < col ==> #[trigger] moveables@.contains(map@[row * w + x]),
                decreases r.pos.x + r.sz.x - col,
            {
                proof {
                    lemma_grid_index(w as int, h as int, col as int, row as int);
                }
                let idx: usize = (row as usize) * w + (col as usize);
                if !ids_contain(moveables, map[idx]) {
                    return true;
                }
                col = col + 1;
            }
            row = row + 1;
        }
        false
    }
}



/// Law (iris reveal termination): a well-formed reveal mask's unmask count
/// is its number of unmasked cells, so it never exceeds the cell count;
/// together with `unmask`'s guarantee that the count never decreases and
/// grows only when a still-masked cell is hit, repeated unmasking converges.
pub proof fn lemma_reveal_bounded(m: MapMask)
    requires
        m.wf(),
    ensures
        m.swapc <= m.mask.len(),
{
    lemma_count_le_len(m.mask@);
}

/// Setting one fine tile inside a coarse cell's footprint to an ID outside
/// the moveable set makes that coarse cell impassable, whatever it was
/// before.
pub proof fn lemma_movemap_flip(
    map: Seq<usize>,
    w: int,
    moveables: Seq<usize>,
    sf: int,
    cx: int,
    cy: int,
    dx: int,
    dy: int,
    id: usize,
)
    requires
        0 <= dx < sf,
        0 <= dy < sf,
        0 <= (cy * sf + dy) * w + (cx * sf + dx) < map.len(),
        !moveables.contains(id),
    ensures
        !cell_moveable(map.update((cy * sf + dy) * w + (cx * sf + dx), id), w, moveables, sf, cx, cy),
{
    let m2 = map.update((cy * sf + dy) * w + (cx * sf + dx), id);
    assert(!moveables.contains(m2[(cy * sf + dy) * w + (cx * sf + dx)]));
}

} // verus!
