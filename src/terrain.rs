use vstd::prelude::*;
use genmesh::generators::{IndexedPolygon, Plane};
use genmesh::{Triangulate, Vertices};
use crate::isometric::{
    can_move_to_tile, coords_to_tile, in_grid, in_world, tile_at, Position, TileAddress,
    TILES_PCS_H, TILES_PCS_W,
};

verus! {

/// Most vertices a mesh can have while its indices fit in `u16`.
pub const MAX_MESH_VERTICES: usize = 65536;

/// Tile sheet size, in tiles, handed to the terrain shader.
pub const TILESHEET_TILES: u32 = 32;

/// Why a terrain grid cannot be turned into a mesh.
#[derive(Clone, Copy, Debug, PartialEq, Eq, Structural)]
pub enum MeshError {
    /// A subdivision count is zero.
    EmptyGrid,
    /// The grid has more vertices than 16-bit indices can address.
    GridTooLarge,
}

/// Vertices of a plane subdivided into `w` by `h` cells: one per grid
/// intersection, shared between neighbouring cells.
pub open spec fn vertex_count(w: int, h: int) -> int {
    (w + 1) * (h + 1)
}

/// Index of vertex `k` of the triangle list of a plane `w` cells wide: cell
/// `k / 6` in row-major order, with corners `base`, `base + 1`,
/// `base + w + 2`, `base + w + 1` (counter-clockwise), split into the
/// triangles (0, 1, 2) and (2, 3, 0) of those corners.
pub open spec fn plane_index(w: int, k: int) -> int {
    let q = k / 6;
    let base = (q / w) * (w + 1) + q % w;
    let j = k % 6;
    if j == 0 || j == 5 {
        base
    } else if j == 1 {
        base + 1
    } else if j == 2 || j == 3 {
        base + w + 2
    } else {
        base + w + 1
    }
}

/// The triangle list of a terrain grid of `w` by `h` tiles, as 16-bit indices.
pub open spec fn mesh_indices(w: int, h: int) -> Seq<u16> {
    Seq::new((6 * w * h) as nat, |k: int| plane_index(w, k) as u16)
}

/// Relies on genmesh's `Plane::subdivide(w, h)`, walked cell by cell through
/// `indexed_polygon_iter`, each quad split by `triangulate` into two triangles
/// and flattened by `vertices`. `subdivide` asserts that both counts are
/// non-zero.
#[verifier::external_body]
fn plane_indices(w: usize, h: usize) -> (r: Vec<usize>)
    requires
        0 < w,
        0 < h,
        vertex_count(w as int, h as int) <= MAX_MESH_VERTICES,
    ensures
        r@.len() == 6 * w * h,
        forall|k: int| 0 <= k < r@.len() ==> r@[k] as int == plane_index(w as int, k),
{
    Plane::subdivide(w, h).indexed_polygon_iter().triangulate().vertices().collect()
}

/// Every index of the triangle list names a vertex of the grid.
pub proof fn lemma_plane_index_bound(w: int, h: int, k: int)
    requires
        0 < w,
        0 < h,
        0 <= k < 6 * w * h,
    ensures
        0 <= plane_index(w, k) < vertex_count(w, h),
{
    let q = k / 6;
    assert(0 <= q < w * h) by (nonlinear_arith)
        requires
            0 <= k < 6 * w * h,
            q == k / 6,
    ;
    let row = q / w;
    let col = q % w;
    assert(0 <= row < h && 0 <= col < w) by (nonlinear_arith)
        requires
            0 <= q < w * h,
            0 < w,
            row == q / w,
            col == q % w,
    ;
    assert(0 <= row * (w + 1) + col && row * (w + 1) + col + w + 2 < (w + 1) * (h + 1))
        by (nonlinear_arith)
        requires
            0 <= row < h,
            0 <= col < w,
            0 < w,
    ;
}

/// Vertex and index counts of the terrain mesh depend on the grid
/// subdivision alone, and every index addresses one of its vertices.
pub proof fn lemma_mesh_counts(w: int, h: int)
    requires
        0 < w,
        0 < h,
    ensures
        mesh_indices(w, h).len() == 6 * w * h,
        vertex_count(w, h) == w * h + w + h + 1,
        vertex_count(w, h) <= MAX_MESH_VERTICES ==> forall|k: int|
            0 <= k < mesh_indices(w, h).len() ==> (#[trigger] mesh_indices(w, h)[k]) as int
                == plane_index(w, k),
{
    assert(6 * w * h >= 0) by (nonlinear_arith)
        requires
            0 < w,
            0 < h,
    ;
    assert(vertex_count(w, h) == w * h + w + h + 1) by (nonlinear_arith);
    if vertex_count(w, h) <= MAX_MESH_VERTICES {
        assert forall|k: int| 0 <= k < mesh_indices(w, h).len() implies (#[trigger] mesh_indices(
            w,
            h,
        )[k]) as int == plane_index(w, k) by {
            lemma_plane_index_bound(w, h, k);
        }
    }
}

/// Builds the triangle list of a terrain grid `w` tiles wide and `h` tiles
/// high: two triangles per tile, over vertices shared between tiles.
pub fn build_terrain_indices(w: usize, h: usize) -> (r: Result<Vec<u16>, MeshError>)
    ensures
        (w == 0 || h == 0) <==> r == Err::<Vec<u16>, MeshError>(MeshError::EmptyGrid),
        (w > 0 && h > 0 && vertex_count(w as int, h as int) > MAX_MESH_VERTICES) <==> r == Err::<
            Vec<u16>,
            MeshError,
        >(MeshError::GridTooLarge),
        r is Ok <==> (w > 0 && h > 0 && vertex_count(w as int, h as int) <= MAX_MESH_VERTICES),
        r is Ok ==> r->Ok_0@ == mesh_indices(w as int, h as int),
{
    if w == 0 || h == 0 {
        return Err(MeshError::EmptyGrid);
    }
    if w >= MAX_MESH_VERTICES || h >= MAX_MESH_VERTICES {
        assert((w + 1) * (h + 1) > MAX_MESH_VERTICES) by (nonlinear_arith)
            requires
                w >= MAX_MESH_VERTICES || h >= MAX_MESH_VERTICES,
                0 < w,
                0 < h,
        ;
        return Err(MeshError::GridTooLarge);
    }
    assert((w as int + 1) * (h as int + 1) <= 0x1_0000_0000) by (nonlinear_arith)
        requires
            w < MAX_MESH_VERTICES,
            h < MAX_MESH_VERTICES,
    ;
    if (w as u64 + 1) * (h as u64 + 1) > MAX_MESH_VERTICES as u64 {
        return Err(MeshError::GridTooLarge);
    }
    let raw = plane_indices(w, h);
    let mut out: Vec<u16> = Vec::new();
    let mut i: usize = 0;
    while i < raw.len()
        invariant
            0 < w,
            0 < h,
            vertex_count(w as int, h as int) <= MAX_MESH_VERTICES,
            raw@.len() == 6 * w * h,
            forall|k: int| 0 <= k < raw@.len() ==> raw@[k] as int == plane_index(w as int, k),
            0 <= i <= raw@.len(),
            out@.len() == i,
            forall|k: int| 0 <= k < i ==> out@[k] as int == plane_index(w as int, k),
        decreases raw@.len() - i,
    {
        proof {
            lemma_plane_index_bound(w as int, h as int, i as int);
        }
        out.push(raw[i] as u16);
        i += 1;
    }
    proof {
        lemma_mesh_counts(w as int, h as int);
        assert(out@ =~= mesh_indices(w as int, h as int));
    }
    Ok(out)
}

/// Per-tile metadata uploaded to the terrain shader.
#[derive(Clone, Copy, Debug, PartialEq, Eq)]
pub struct TileMapData {
    pub data: [u32; 4],
}

impl TileMapData {
    /// Metadata of a blank tile: the tile sheet size and tile (0, 0).
    pub fn new_empty() -> (r: TileMapData)
        ensures
            r.data@ == seq![TILESHEET_TILES, TILESHEET_TILES, 0u32, 0u32],
    {
        let r = TileMapData { data: [TILESHEET_TILES, TILESHEET_TILES, 0, 0] };
        assert(r.data@ =~= seq![TILESHEET_TILES, TILESHEET_TILES, 0u32, 0u32]);
        r
    }

    pub fn new(data: [u32; 4]) -> (r: TileMapData)
        ensures
            r.data@ == data@,
    {
        TileMapData { data }
    }
}

/// Grid and tile sheet sizes handed to the terrain shader.
#[derive(Clone, Copy, Debug, PartialEq, Eq, Structural)]
pub struct TilemapSettings {
    pub world_w: u32,
    pub world_h: u32,
    pub tilesheet_w: u32,
    pub tilesheet_h: u32,
}

/// Upload side of the terrain renderer: whether the tile map settings still
/// have to be uploaded, once after construction and again only after they are
/// marked dirty.
pub struct TerrainDrawSystem {
    pub is_tile_map_dirty: bool,
}

impl TerrainDrawSystem {
    pub fn new() -> (r: TerrainDrawSystem)
        ensures
            r.is_tile_map_dirty,
    {
        TerrainDrawSystem { is_tile_map_dirty: true }
    }

    /// Marks the settings for upload on the next draw.
    pub fn mark_dirty(&mut self)
        ensures
            final(self).is_tile_map_dirty,
    {
        self.is_tile_map_dirty = true;
    }

    /// The settings that this draw uploads: the current ones if they are
    /// dirty, then clean.
    pub fn draw(&mut self) -> (r: Option<TilemapSettings>)
        ensures
            !final(self).is_tile_map_dirty,
            r is Some <==> old(self).is_tile_map_dirty,
            r is Some ==> r->Some_0 == (TilemapSettings {
                world_w: TILES_PCS_W as u32,
                world_h: TILES_PCS_H as u32,
                tilesheet_w: TILESHEET_TILES,
                tilesheet_h: TILESHEET_TILES,
            }),
    {
        if self.is_tile_map_dirty {
            self.is_tile_map_dirty = false;
            Some(TilemapSettings {
                world_w: TILES_PCS_W as u32,
                world_h: TILES_PCS_H as u32,
                tilesheet_w: TILESHEET_TILES,
                tilesheet_h: TILESHEET_TILES,
            })
        } else {
            None
        }
    }
}

/// Where the player stands on the terrain, and the tile under it.
#[derive(Clone, Copy, Debug, PartialEq, Eq, Structural)]
pub struct TerrainDrawable {
    pub position: Position,
    pub tile_position: TileAddress,
}

impl TerrainDrawable {
    pub fn new() -> (r: TerrainDrawable)
        ensures
            r.position == (Position { x: 0, y: 0 }),
            r.tile_position == tile_at(Position { x: 0, y: 0 }),
    {
        TerrainDrawable { position: Position::origin(), tile_position: coords_to_tile(Position::origin()) }
    }

    /// Moves to `movement` when the tile there lies in the grid; returns
    /// whether the move was refused, that is whether the player collides.
    pub fn update(&mut self, movement: Position) -> (is_colliding: bool)
        requires
            in_world(movement),
        ensures
            is_colliding == !in_grid(tile_at(movement)),
            !is_colliding ==> final(self).position == movement && final(self).tile_position
                == tile_at(movement),
            is_colliding ==> *final(self) == *old(self),
    {
        if can_move_to_tile(movement) {
            self.position = movement;
            self.tile_position = coords_to_tile(movement);
            false
        } else {
            true
        }
    }
}

/// Per-frame system that feeds the terrain its camera and the player's input.
pub struct PreDrawSystem;

} // verus!
