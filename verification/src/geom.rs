//! Integer 2D vectors, axis-aligned rectangles, the four walking directions,
//! and the fixed engine dimensions.

use vstd::prelude::*;

verus! {

/// Width of the engine's output pixel buffer.
pub const WIDTH: usize = 176;
/// Height of the engine's output pixel buffer.
pub const HEIGHT: usize = 176;

/// Side length, in pixels, of one coarse movement cell (one actor step).
pub const MOVE_SZ: i32 = 16;
/// Side length, in pixels, of one fine tile.
pub const TILE_SZ: i32 = 8;

/// Characters of dialogue text revealed per this many ticks.
pub const TSPEED: usize = 4;

/// The four walking directions. Direction codes are a closed enum so that an
/// invalid direction is unrepresentable.
#[derive(PartialEq, Eq, Structural, Clone, Copy, Debug, Hash)]
pub enum Dir {
    Down,
    Up,
    Left,
    Right,
}

impl Dir {
    /// The unit grid displacement of a step in this direction.
    pub open spec fn spec_delta(self) -> (int, int) {
        match self {
            Dir::Down => (0int, 1int),
            Dir::Up => (0int, -1int),
            Dir::Left => (-1int, 0int),
            Dir::Right => (1int, 0int),
        }
    }

    /// The direction facing back at this one.
    pub open spec fn spec_opposite(self) -> Dir {
        match self {
            Dir::Down => Dir::Up,
            Dir::Up => Dir::Down,
            Dir::Left => Dir::Right,
            Dir::Right => Dir::Left,
        }
    }

    /// The input-snapshot slot of this direction's button.
    pub open spec fn spec_button(self) -> int {
        match self {
            Dir::Down => 0,
            Dir::Up => 1,
            Dir::Left => 2,
            Dir::Right => 3,
        }
    }

    /// The input-snapshot slot, executably.
    pub fn button(self) -> (r: usize)
        ensures
            r == self.spec_button(),
            r < 4,
    {
        match self {
            Dir::Down => 0,
            Dir::Up => 1,
            Dir::Left => 2,
            Dir::Right => 3,
        }
    }

    pub fn opposite(self) -> (r: Dir)
        ensures
            r == self.spec_opposite(),
    {
        match self {
            Dir::Down => Dir::Up,
            Dir::Up => Dir::Down,
            Dir::Left => Dir::Right,
            Dir::Right => Dir::Left,
        }
    }
}

/// An integer point or extent in pixel or grid space.
#[derive(PartialEq, Eq, Structural, Clone, Copy, Debug, Hash)]
pub struct Vec2i {
    pub x: i32,
    pub y: i32,
}

impl Vec2i {
    /// The point one grid step away in direction `dir`.
    pub open spec fn spec_walked(self, dir: Dir) -> Vec2i {
        Vec2i {
            x: (self.x + dir.spec_delta().0) as i32,
            y: (self.y + dir.spec_delta().1) as i32,
        }
    }

    /// Whether a step in direction `dir` stays within `i32` range.
    pub open spec fn walk_ok(self, dir: Dir) -> bool {
        i32::MIN <= self.x + dir.spec_delta().0 <= i32::MAX
            && i32::MIN <= self.y + dir.spec_delta().1 <= i32::MAX
    }

    /// Move this point one grid step in direction `dir`.
    pub fn walk(&mut self, dir: Dir)
        requires
            old(self).walk_ok(dir),
        ensures
            *final(self) == old(self).spec_walked(dir),
    {
        match dir {
            Dir::Down => self.y = self.y + 1,
            Dir::Up => self.y = self.y - 1,
            Dir::Left => self.x = self.x - 1,
            Dir::Right => self.x = self.x + 1,
        }
    }

    pub fn pixel_x(&self) -> (r: i32)
        requires
            i32::MIN <= 16 * self.x <= i32::MAX,
        ensures
            r == 16 * self.x,
    {
        16 * self.x
    }

    pub fn pixel_y(&self) -> (r: i32)
        requires
            i32::MIN <= 16 * self.y <= i32::MAX,
        ensures
            r == 16 * self.y,
    {
        16 * self.y
    }

    /// This grid point scaled up to pixel coordinates.
    pub fn get(&self) -> (r: Vec2i)
        requires
            i32::MIN <= 16 * self.x <= i32::MAX,
            i32::MIN <= 16 * self.y <= i32::MAX,
        ensures
            r == (Vec2i { x: (16 * self.x) as i32, y: (16 * self.y) as i32 }),
    {
        Vec2i { x: self.pixel_x(), y: self.pixel_y() }
    }

    /// Componentwise sum.
    pub fn plus(self, other: Vec2i) -> (r: Vec2i)
        requires
            i32::MIN <= self.x + other.x <= i32::MAX,
            i32::MIN <= self.y + other.y <= i32::MAX,
        ensures
            r.x == self.x + other.x,
            r.y == self.y + other.y,
    {
        Vec2i { x: self.x + other.x, y: self.y + other.y }
    }

    /// Componentwise difference.
    pub fn minus(self, other: Vec2i) -> (r: Vec2i)
        requires
            i32::MIN <= self.x - other.x <= i32::MAX,
            i32::MIN <= self.y - other.y <= i32::MAX,
        ensures
            r.x == self.x - other.x,
            r.y == self.y - other.y,
    {
        Vec2i { x: self.x - other.x, y: self.y - other.y }
    }
}

/// A point `(x, y)` of a `w`-by-`h` row-major grid has a linear index inside
/// the grid's backing array.
pub proof fn lemma_grid_index(w: int, h: int, x: int, y: int)
    requires
        0 <= x < w,
        0 <= y < h,
    ensures
        0 <= y * w + x < w * h,
        x == (y * w + x) % w,
        y == (y * w + x) / w,
{
    assert(0 <= y * w + x < w * h) by (nonlinear_arith)
        requires
            0 <= x < w,
            0 <= y < h,
    ;
    assert(x == (y * w + x) % w && y == (y * w + x) / w) by (nonlinear_arith)
        requires
            0 <= x < w,
            0 <= y,
    ;
}

/// A linear index of a `w`-wide row-major grid decomposes into its column
/// `i % w` and row `i / w`.
pub proof fn lemma_index_to_grid(w: int, h: int, i: int)
    requires
        0 < w,
        0 <= i < w * h,
    ensures
        0 <= i % w < w,
        0 <= i / w < h,
        (i / w) * w + (i % w) == i,
{
    assert(0 <= i % w < w && 0 <= i / w < h && (i / w) * w + (i % w) == i) by (nonlinear_arith)
        requires
            0 < w,
            0 <= i < w * h,
    ;
}

/// An axis-aligned rectangle given by its top-left corner and its extent.
#[derive(PartialEq, Eq, Structural, Clone, Copy, Debug)]
pub struct Rect {
    pub pos: Vec2i,
    pub sz: Vec2i,
}

impl Rect {
    /// A rectangle whose extent is non-negative and whose far corner still
    /// fits in `i32`.
    pub open spec fn ok(self) -> bool {
        0 <= self.sz.x && 0 <= self.sz.y && self.pos.x + self.sz.x <= i32::MAX && self.pos.y
            + self.sz.y <= i32::MAX
    }

    pub open spec fn spec_contains(self, other: Rect) -> bool {
        self.pos.x <= other.pos.x && self.pos.y <= other.pos.y && other.pos.x + other.sz.x
            <= self.pos.x + self.sz.x && other.pos.y + other.sz.y <= self.pos.y + self.sz.y
    }

    /// True iff `other` lies fully inside this rectangle.
    pub fn contains(&self, other: Rect) -> (r: bool)
        requires
            self.ok(),
            other.ok(),
        ensures
            r == self.spec_contains(other),
    {
        let br_x = self.pos.x + self.sz.x;
        let br_y = self.pos.y + self.sz.y;
        let obr_x = other.pos.x + other.sz.x;
        let obr_y = other.pos.y + other.sz.y;
        self.pos.x <= other.pos.x && self.pos.y <= other.pos.y && obr_x <= br_x && obr_y <= br_y
    }

    pub open spec fn spec_contains_point(self, point: Vec2i) -> bool {
        self.pos.x <= point.x && self.pos.y <= point.y && self.pos.x + self.sz.x >= point.x
            && self.pos.y + self.sz.y >= point.y
    }

    /// True iff `point` lies inside this rectangle, both borders inclusive.
    pub fn contains_point(&self, point: Vec2i) -> (r: bool)
        requires
            self.ok(),
        ensures
            r == self.spec_contains_point(point),
    {
        self.pos.x <= point.x && self.pos.y <= point.y && self.pos.x + self.sz.x >= point.x
            && self.pos.y + self.sz.y >= point.y
    }

    /// Shift the rectangle by `(dx, dy)`.
    pub fn move_by(&mut self, dx: i32, dy: i32)
        requires
            i32::MIN <= old(self).pos.x + dx <= i32::MAX,
            i32::MIN <= old(self).pos.y + dy <= i32::MAX,
        ensures
            final(self).pos.x == old(self).pos.x + dx,
            final(self).pos.y == old(self).pos.y + dy,
            final(self).sz == old(self).sz,
    {
        self.pos.x = self.pos.x + dx;
        self.pos.y = self.pos.y + dy;
    }

    /// The y coordinate of the bottom edge.
    pub fn bottom(&self) -> (r: i32)
        requires
            i32::MIN <= self.pos.y + self.sz.y <= i32::MAX,
        ensures
            r == self.pos.y + self.sz.y,
    {
        self.pos.y + self.sz.y
    }
}

} // verus!
