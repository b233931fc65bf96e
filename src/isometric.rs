use vstd::prelude::*;
use vstd::arithmetic::div_mod::{lemma_fundamental_div_mod, lemma_fundamental_div_mod_converse};

verus! {

/// Tiles across the terrain grid.
pub const TILES_PCS_W: usize = 100;
/// Tiles down the terrain grid.
pub const TILES_PCS_H: usize = 100;

/// Horizontal distance, in world units, from a tile's centre to its left or
/// right corner.
pub const TILE_HALF_WIDTH: i64 = 30;
/// Vertical distance, in world units, from a tile's centre to its top or
/// bottom corner.
pub const TILE_HALF_HEIGHT: i64 = 15;
/// Half the projected height of the whole grid; tile (0, 0) sits this far
/// below the world origin.
pub const ORIGIN_OFFSET: i64 = 1500;

/// Largest world coordinate, in magnitude, that tile lookup accepts.
pub const WORLD_LIMIT: i64 = 1_000_000_000;

/// Twice the area factor `TILE_HALF_WIDTH * TILE_HALF_HEIGHT`: one tile step in
/// the sheared coordinates.
pub const TILE_STEP: i64 = 900;

/// Large multiple of `TILE_STEP` that makes every sheared coordinate in range
/// non-negative before dividing.
pub const SHIFT: i64 = 90_000_000_000;

/// A point in world space, in whole world units.
#[derive(Clone, Copy, Debug, PartialEq, Eq, Structural)]
pub struct Position {
    pub x: i64,
    pub y: i64,
}

/// Address of one terrain cell: column `x`, row `y`.
#[derive(Clone, Copy, Debug, PartialEq, Eq, Structural)]
pub struct TileAddress {
    pub x: i32,
    pub y: i32,
}

impl Position {
    pub fn new(x: i64, y: i64) -> (r: Position)
        ensures
            r.x == x,
            r.y == y,
    {
        Position { x, y }
    }

    pub fn origin() -> (r: Position)
        ensures
            r.x == 0,
            r.y == 0,
    {
        Position { x: 0, y: 0 }
    }
}

impl TileAddress {
    pub fn new(x: i32, y: i32) -> (r: TileAddress)
        ensures
            r.x == x,
            r.y == y,
    {
        TileAddress { x, y }
    }
}

/// World-space centre of tile `(c, r)`: the isometric shear of the tile
/// address, shifted down by the origin offset.
pub open spec fn center_x(c: int, r: int) -> int {
    (c - r) * TILE_HALF_WIDTH
}

pub open spec fn center_y(c: int, r: int) -> int {
    (c + r) * TILE_HALF_HEIGHT - ORIGIN_OFFSET
}

/// Column of the tile whose diamond holds the world point `(x, y)`.
pub open spec fn column_of(x: int, y: int) -> int {
    (x * TILE_HALF_HEIGHT + (y + ORIGIN_OFFSET) * TILE_HALF_WIDTH + TILE_STEP / 2) / (TILE_STEP as int)
}

/// Row of the tile whose diamond holds the world point `(x, y)`.
pub open spec fn row_of(x: int, y: int) -> int {
    ((y + ORIGIN_OFFSET) * TILE_HALF_WIDTH - x * TILE_HALF_HEIGHT + TILE_STEP / 2) / (TILE_STEP as int)
}

/// Tile under a world point.
pub open spec fn tile_at(p: Position) -> TileAddress {
    TileAddress { x: column_of(p.x as int, p.y as int) as i32, y: row_of(p.x as int, p.y as int) as i32 }
}

pub open spec fn in_world(p: Position) -> bool {
    -WORLD_LIMIT <= p.x <= WORLD_LIMIT && -WORLD_LIMIT <= p.y <= WORLD_LIMIT
}

pub open spec fn in_grid(t: TileAddress) -> bool {
    0 <= t.x < TILES_PCS_W as int && 0 <= t.y < TILES_PCS_H as int
}

/// World-space centre of a tile.
pub fn tile_to_coords(tile: TileAddress) -> (r: Position)
    ensures
        r.x == center_x(tile.x as int, tile.y as int),
        r.y == center_y(tile.x as int, tile.y as int),
{
    let c = tile.x as i64;
    let w = tile.y as i64;
    Position { x: (c - w) * TILE_HALF_WIDTH, y: (c + w) * TILE_HALF_HEIGHT - ORIGIN_OFFSET }
}

/// Floor of `n / TILE_STEP` for `n` in `[-SHIFT, SHIFT]`.
fn floor_tile_step(n: i64) -> (q: i64)
    requires
        -SHIFT <= n <= SHIFT,
    ensures
        q as int == (n as int) / (TILE_STEP as int),
{
    let shifted: u64 = (n + SHIFT) as u64;
    let qs: u64 = shifted / (TILE_STEP as u64);
    proof {
        let d = TILE_STEP as int;
        lemma_fundamental_div_mod(shifted as int, d);
        let rem = (shifted as int) % d;
        assert(n as int == (qs as int - SHIFT / TILE_STEP) * d + rem) by (nonlinear_arith)
            requires
                shifted as int == d * (qs as int) + rem,
                shifted as int == n as int + SHIFT,
                d == 900,
                SHIFT == 90_000_000_000,
        ;
        lemma_fundamental_div_mod_converse(n as int, d, qs as int - SHIFT / TILE_STEP, rem);
    }
    qs as i64 - SHIFT / TILE_STEP
}

/// Address of the tile that holds a world point.
pub fn coords_to_tile(position: Position) -> (r: TileAddress)
    requires
        in_world(position),
    ensures
        r.x == column_of(position.x as int, position.y as int),
        r.y == row_of(position.x as int, position.y as int),
        r == tile_at(position),
{
    let sx = position.x * TILE_HALF_HEIGHT;
    let sy = (position.y + ORIGIN_OFFSET) * TILE_HALF_WIDTH;
    let c = floor_tile_step(sx + sy + TILE_STEP / 2);
    let w = floor_tile_step(sy - sx + TILE_STEP / 2);
    TileAddress { x: c as i32, y: w as i32 }
}

/// Whether an actor may stand at a world point: the tile there lies inside
/// the terrain grid.
pub fn can_move_to_tile(position: Position) -> (r: bool)
    requires
        in_world(position),
    ensures
        r == in_grid(tile_at(position)),
{
    let t = coords_to_tile(position);
    0 <= t.x && (t.x as usize) < TILES_PCS_W && 0 <= t.y && (t.y as usize) < TILES_PCS_H
}

/// Tile lookup undoes `tile_to_coords` exactly on the centre of every tile of
/// the grid, and that centre is a point tile lookup accepts.
pub proof fn lemma_tile_round_trip(t: TileAddress)
    requires
        in_grid(t),
    ensures
        in_world(Position {
            x: center_x(t.x as int, t.y as int) as i64,
            y: center_y(t.x as int, t.y as int) as i64,
        }),
        column_of(center_x(t.x as int, t.y as int), center_y(t.x as int, t.y as int)) == t.x,
        row_of(center_x(t.x as int, t.y as int), center_y(t.x as int, t.y as int)) == t.y,
{
    let c = t.x as int;
    let r = t.y as int;
    let x = center_x(c, r);
    let y = center_y(c, r);
    assert(x * TILE_HALF_HEIGHT + (y + ORIGIN_OFFSET) * TILE_HALF_WIDTH == c * 900) by (nonlinear_arith)
        requires
            x == (c - r) * 30,
            y == (c + r) * 15 - 1500,
    ;
    assert((y + ORIGIN_OFFSET) * TILE_HALF_WIDTH - x * TILE_HALF_HEIGHT == r * 900) by (nonlinear_arith)
        requires
            x == (c - r) * 30,
            y == (c + r) * 15 - 1500,
    ;
    lemma_fundamental_div_mod_converse(c * 900 + 450, 900, c, 450);
    lemma_fundamental_div_mod_converse(r * 900 + 450, 900, r, 450);
}

/// The grid's first tile sits straight below the world origin, half the
/// projected grid height down.
pub proof fn lemma_first_tile_anchor()
    ensures
        center_x(0, 0) == 0,
        center_y(0, 0) == -1500,
{
}

} // verus!
