//! Integer world coordinates, centred rectangles and the playing grid.

use vstd::prelude::*;

verus! {

/// Side of one grid square, in world units.
pub const SQUARE_W: u32 = 50;

/// Number of squares along each side of the playing grid.
pub const N_SQUARES: u32 = 10;

/// Side of the whole playing grid, in world units.
pub const W_I: u32 = 500;

/// Half of the side of the playing grid.
pub const HALF_W: i64 = 250;

/// Largest magnitude of a coordinate that the arithmetic of this crate
/// accepts without overflow.
pub const COORD_LIMIT: i64 = 0x100_0000_0000;

/// A position in the world or a cell of the grid.
#[derive(Clone, Copy, Debug, PartialEq, Eq, Structural)]
pub struct Point {
    pub x: i64,
    pub y: i64,
}

impl Point {
    /// Both coordinates lie within `COORD_LIMIT` of zero.
    pub open spec fn bounded(self) -> bool {
        &&& -COORD_LIMIT <= self.x <= COORD_LIMIT
        &&& -COORD_LIMIT <= self.y <= COORD_LIMIT
    }

    /// Whether both coordinates lie within `COORD_LIMIT` of zero.
    pub fn is_bounded(&self) -> (ok: bool)
        ensures
            ok == self.bounded(),
    {
        -COORD_LIMIT <= self.x && self.x <= COORD_LIMIT && -COORD_LIMIT <= self.y && self.y <= COORD_LIMIT
    }

    /// The origin of the world.
    pub fn new() -> (p: Point)
        ensures
            p == (Point { x: 0, y: 0 }),
    {
        Point { x: 0, y: 0 }
    }
}

/// Quotient of `a` by a positive `b`, rounded towards zero.
pub open spec fn trunc_div(a: int, b: int) -> int {
    if a >= 0 { a / b } else { -((-a) / b) }
}

/// The grid cell that holds the world position `pos`, for a camera centred at `camera`.
pub open spec fn square_of(pos: Point, camera: Point) -> (int, int) {
    (
        trunc_div(pos.x - camera.x + HALF_W, SQUARE_W as int),
        trunc_div(pos.y - camera.y + HALF_W, SQUARE_W as int),
    )
}

/// The grid cell that holds the world position `pos`, for a camera
/// centred at `camera`. Positions left of or above the grid's corner are
/// rounded towards it.
pub fn pos_to_square(pos: Point, camera: Point) -> (cell: Point)
    requires
        pos.bounded(),
        camera.bounded(),
    ensures
        (cell.x as int, cell.y as int) == square_of(pos, camera),
{
    let w: i64 = SQUARE_W as i64;
    Point { x: (pos.x - camera.x + HALF_W) / w, y: (pos.y - camera.y + HALF_W) / w }
}

/// The world position of the centre of `cell`, for a camera centred at `camera`.
pub open spec fn centre_of(cell: Point, camera: Point) -> (int, int) {
    (
        SQUARE_W * cell.x + SQUARE_W / 2 + camera.x - HALF_W,
        SQUARE_W * cell.y + SQUARE_W / 2 + camera.y - HALF_W,
    )
}

/// The world position of the centre of the grid cell `pos`, for a camera
/// centred at `camera`.
pub fn square_to_pos(pos: Point, camera: Point) -> (centre: Point)
    requires
        pos.bounded(),
        camera.bounded(),
    ensures
        (centre.x as int, centre.y as int) == centre_of(pos, camera),
{
    let w: i64 = SQUARE_W as i64;
    Point { x: w * pos.x + w / 2 + camera.x - HALF_W, y: w * pos.y + w / 2 + camera.y - HALF_W }
}

/// Mapping a cell with non-negative coordinates to the world and back gives
/// the cell again, whatever the camera.
pub proof fn lemma_square_round_trip(cell: Point, camera: Point, centre: Point)
    requires
        cell.x >= 0,
        cell.y >= 0,
        (centre.x as int, centre.y as int) == centre_of(cell, camera),
    ensures
        square_of(centre, camera) == (cell.x as int, cell.y as int),
{
}

/// Every world position lies in the square that it is mapped to: within half
/// a square of that square's centre, when the position is not left of or
/// above the grid's corner.
pub proof fn lemma_square_holds_position(pos: Point, camera: Point, cell: Point)
    requires
        pos.x - camera.x + HALF_W >= 0,
        pos.y - camera.y + HALF_W >= 0,
        (cell.x as int, cell.y as int) == square_of(pos, camera),
    ensures
        centre_of(cell, camera).0 - SQUARE_W / 2 <= pos.x < centre_of(cell, camera).0 + SQUARE_W / 2,
        centre_of(cell, camera).1 - SQUARE_W / 2 <= pos.y < centre_of(cell, camera).1 + SQUARE_W / 2,
{
}

/// An axis-aligned rectangle, held by its centre and its size.
#[derive(Clone, Copy, Debug, PartialEq, Eq, Structural)]
pub struct Rect {
    pub cx: i64,
    pub cy: i64,
    pub w: i64,
    pub h: i64,
}

impl Rect {
    /// Centre within `COORD_LIMIT` of zero, and a size between zero and `COORD_LIMIT`.
    pub open spec fn bounded(self) -> bool {
        &&& -COORD_LIMIT <= self.cx <= COORD_LIMIT
        &&& -COORD_LIMIT <= self.cy <= COORD_LIMIT
        &&& 0 <= self.w <= COORD_LIMIT
        &&& 0 <= self.h <= COORD_LIMIT
    }

    /// The two rectangles share a region of positive area: on each axis
    /// the centres are closer than half the sum of the sizes.
    pub open spec fn overlaps(self, other: Rect) -> bool {
        &&& self.w > 0 && self.h > 0 && other.w > 0 && other.h > 0
        &&& -(self.w + other.w) < 2 * (self.cx - other.cx) < self.w + other.w
        &&& -(self.h + other.h) < 2 * (self.cy - other.cy) < self.h + other.h
    }

    /// The centre of the rectangle.
    pub open spec fn center_spec(self) -> Point {
        Point { x: self.cx, y: self.cy }
    }

    /// Whether the centre lies within `COORD_LIMIT` of zero and the size
    /// between zero and `COORD_LIMIT`.
    pub fn is_bounded(&self) -> (ok: bool)
        ensures
            ok == self.bounded(),
    {
        -COORD_LIMIT <= self.cx && self.cx <= COORD_LIMIT && -COORD_LIMIT <= self.cy && self.cy <= COORD_LIMIT && 0
            <= self.w && self.w <= COORD_LIMIT && 0 <= self.h && self.h <= COORD_LIMIT
    }

    /// The rectangle of width `w` and height `h` centred at (`cx`, `cy`).
    pub fn from_center(cx: i64, cy: i64, w: i64, h: i64) -> (r: Rect)
        ensures
            r == (Rect { cx, cy, w, h }),
    {
        Rect { cx, cy, w, h }
    }

    /// The centre of the rectangle.
    pub fn center(&self) -> (p: Point)
        ensures
            p == self.center_spec(),
    {
        Point { x: self.cx, y: self.cy }
    }

    /// Whether the two rectangles share a region of positive area.
    /// Rectangles that only touch, and empty ones, do not.
    pub fn intersects(&self, other: &Rect) -> (hit: bool)
        requires
            self.bounded(),
            other.bounded(),
        ensures
            hit == self.overlaps(*other),
    {
        if self.w <= 0 || self.h <= 0 || other.w <= 0 || other.h <= 0 {
            return false;
        }
        let dx: i64 = 2 * (self.cx - other.cx);
        let dy: i64 = 2 * (self.cy - other.cy);
        let sw: i64 = self.w + other.w;
        let sh: i64 = self.h + other.h;
        -sw < dx && dx < sw && -sh < dy && dy < sh
    }
}

/// What the physics of the engine integrates for an entity: velocity,
/// acceleration, and the rectangle that the entity may not leave.
#[derive(Clone, Copy, Debug, PartialEq, Eq, Structural)]
pub struct PhysicsData {
    pub v: Point,
    pub a: Point,
    pub boundary: Option<Rect>,
}

/// The rectangle of the whole playing grid, centred on the origin.
pub open spec fn grid_rect() -> Rect {
    Rect { cx: 0, cy: 0, w: W_I as i64, h: W_I as i64 }
}

/// Overlap does not depend on the order of the two rectangles.
pub proof fn lemma_overlap_symmetric(a: Rect, b: Rect)
    ensures
        a.overlaps(b) == b.overlaps(a),
{
}

} // verus!
