//! The board that light travels over: tile positions, per-tile collision
//! flags, and the baked lighting metadata that the propagation reads.
//!
//! Every per-tile table is stored flat, in row-major order over
//! (x, y, z): the tile at (x, y, z) sits at `(x * ny + y) * nz + z`.

use crate::connectivity::TemperatureDiffusionConfig;
use vstd::prelude::*;

verus! {

/// A tile's place on the board as unsigned (x, y, z) indices.
pub type TileKey = (usize, usize, usize);

/// A tile's place on the board: column, row and floor.
#[derive(Clone, Copy, Debug, PartialEq, Eq, Hash)]
pub struct BoardPosition {
    pub x: i64,
    pub y: i64,
    pub z: i64,
}

/// Collision flags of one tile.
#[derive(Clone, Copy, Debug, PartialEq, Eq)]
pub struct CollisionInfo {
    /// Light can pass through the tile.
    pub see_through: bool,
    /// The tile can be walked on.
    pub player_free: bool,
    /// The tile's state changes at runtime (a door).
    pub is_dynamic: bool,
    /// 0 for a plain tile; otherwise the floor delta of the stair on this tile.
    pub stair_offset: i32,
}

/// Number of tiles of a board of the given size.
pub open spec fn tile_count(size: (usize, usize, usize)) -> int {
    size.0 * size.1 * size.2
}

/// Both the tile count and the column count of a board of this size fit in
/// `usize`, and every coordinate and its successor fit in an `i64`.
pub open spec fn size_fits(size: (usize, usize, usize)) -> bool {
    &&& size.0 * size.1 <= usize::MAX
    &&& tile_count(size) <= usize::MAX
    &&& size.0 < i64::MAX && size.1 < i64::MAX && size.2 < i64::MAX
}

/// Whether `pos` lies on a board of the given size.
pub open spec fn in_bounds(pos: (i64, i64, i64), size: (usize, usize, usize)) -> bool {
    0 <= pos.0 < size.0 && 0 <= pos.1 < size.1 && 0 <= pos.2 < size.2
}

/// Flat index of the tile (x, y, z) on a board of the given size.
pub open spec fn tile_index(x: int, y: int, z: int, size: (usize, usize, usize)) -> int {
    (x * size.1 + y) * size.2 + z
}

/// Flat index of the column (x, y) in a per-column table.
pub open spec fn column_index(x: int, y: int, size: (usize, usize, usize)) -> int {
    x * size.1 + y
}

pub open spec fn pos_tuple(p: BoardPosition) -> (i64, i64, i64) {
    (p.x, p.y, p.z)
}

/// The flat index of an in-bounds tile is below the tile count.
pub proof fn lemma_tile_index_bounds(x: int, y: int, z: int, size: (usize, usize, usize))
    requires
        0 <= x < size.0,
        0 <= y < size.1,
        0 <= z < size.2,
    ensures
        0 <= column_index(x, y, size) < size.0 * size.1,
        0 <= tile_index(x, y, z, size) < tile_count(size),
        0 <= x * size.1 <= column_index(x, y, size),
        0 <= column_index(x, y, size) * size.2 <= tile_index(x, y, z, size),
{
    let nx = size.0 as int;
    let ny = size.1 as int;
    let nz = size.2 as int;
    assert(0 <= x * ny + y < nx * ny && 0 <= x * ny) by (nonlinear_arith)
        requires
            0 <= x < nx,
            0 <= y < ny,
    ;
    let c = x * ny + y;
    assert(0 <= c * nz + z < (nx * ny) * nz && 0 <= c * nz) by (nonlinear_arith)
        requires
            0 <= c < nx * ny,
            0 <= z < nz,
    ;
    assert((nx * ny) * nz == nx * ny * nz) by (nonlinear_arith);
}

/// Stepping (x, y, z) to the next tile in row-major order steps its flat
/// index by one.
pub proof fn lemma_tile_index_next(x: int, y: int, z: int, size: (usize, usize, usize))
    requires
        0 <= x < size.0,
        0 <= y < size.1,
        0 <= z < size.2,
    ensures
        z + 1 < size.2 ==> tile_index(x, y, z + 1, size) == tile_index(x, y, z, size) + 1,
        z + 1 == size.2 && y + 1 < size.1 ==> tile_index(x, y + 1, 0, size) == tile_index(
            x,
            y,
            z,
            size,
        ) + 1,
        z + 1 == size.2 && y + 1 == size.1 ==> tile_index(x + 1, 0, 0, size) == tile_index(
            x,
            y,
            z,
            size,
        ) + 1,
        z + 1 == size.2 && y + 1 == size.1 && x + 1 == size.0 ==> tile_index(x, y, z, size) + 1
            == tile_count(size),
{
    let ny = size.1 as int;
    let nz = size.2 as int;
    assert((x * ny + y + 1) * nz == (x * ny + y) * nz + nz) by (nonlinear_arith);
    assert(((x + 1) * ny) * nz == (x * ny + ny) * nz) by (nonlinear_arith);
    assert((size.0 as int * ny) * nz == size.0 as int * ny * nz) by (nonlinear_arith);
}

/// Distinct in-bounds tiles have distinct flat indices.
pub proof fn lemma_tile_index_injective(
    x: int,
    y: int,
    z: int,
    u: int,
    v: int,
    w: int,
    size: (usize, usize, usize),
)
    requires
        0 <= x < size.0,
        0 <= y < size.1,
        0 <= z < size.2,
        0 <= u < size.0,
        0 <= v < size.1,
        0 <= w < size.2,
        tile_index(x, y, z, size) == tile_index(u, v, w, size),
    ensures
        x == u && y == v && z == w,
{
    let ny = size.1 as int;
    let nz = size.2 as int;
    let c = x * ny + y;
    let d = u * ny + v;
    assert(c == d && z == w) by (nonlinear_arith)
        requires
            c * nz + z == d * nz + w,
            0 <= z < nz,
            0 <= w < nz,
            0 <= c,
            0 <= d,
    ;
    assert(x == u && y == v) by (nonlinear_arith)
        requires
            x * ny + y == u * ny + v,
            0 <= y < ny,
            0 <= v < ny,
            0 <= x,
            0 <= u,
    ;
}

/// Checks whether a position is within the board boundaries.
pub fn is_in_bounds(pos: (i64, i64, i64), map_size: (usize, usize, usize)) -> (r: bool)
    ensures
        r == in_bounds(pos, map_size),
{
    pos.0 >= 0 && pos.1 >= 0 && pos.2 >= 0 && (pos.0 as u64) < (map_size.0 as u64) && (pos.1 as u64)
        < (map_size.1 as u64) && (pos.2 as u64) < (map_size.2 as u64)
}

/// Read-only snapshot of the board for one lighting pass.
pub struct BoardData {
    /// Size in tiles: (columns, rows, floors).
    pub map_size: (usize, usize, usize),
    /// Collision flags of each tile.
    pub collision: Vec<CollisionInfo>,
    /// The baked light source that claims each tile as directly lit, if any.
    pub source_ids: Vec<Option<u32>>,
    /// Whether each tile was baked as a wave edge of its source.
    pub wave_edges: Vec<bool>,
    /// For each source id, the baked propagation directions of each column
    /// (north, south, west, east), in the column order of `column_index`.
    pub propagation: Vec<Vec<[bool; 4]>>,
    /// Weights of the temperature diffusion scheduling.
    pub temp_diffusion_config: TemperatureDiffusionConfig,
    /// Connectivity score of each tile (see `calculate_connectivity_score`).
    pub connectivity_scores: Vec<u8>,
}

impl BoardData {
    /// The tables agree with the board size, and tile indices fit in `usize`.
    pub open spec fn wf(&self) -> bool {
        &&& size_fits(self.map_size)
        &&& self.collision@.len() == tile_count(self.map_size)
        &&& self.source_ids@.len() == tile_count(self.map_size)
        &&& self.wave_edges@.len() == tile_count(self.map_size)
        &&& self.connectivity_scores@.len() == tile_count(self.map_size)
        &&& forall|s: int|
            0 <= s < self.propagation@.len() ==> #[trigger] self.propagation@[s]@.len()
                == self.map_size.0 * self.map_size.1
    }

    /// The baked source of the tile at flat index `t`.
    pub open spec fn source_at(&self, t: int) -> Option<u32> {
        self.source_ids@[t]
    }

    /// Builds a board, or `None` when a table's length does not match the
    /// size. Every tile starts with a connectivity score of 8, and the
    /// diffusion weights are the defaults.
    pub fn new(
        map_size: (usize, usize, usize),
        collision: Vec<CollisionInfo>,
        source_ids: Vec<Option<u32>>,
        wave_edges: Vec<bool>,
        propagation: Vec<Vec<[bool; 4]>>,
    ) -> (r: Option<BoardData>)
        ensures
            r.is_some() <==> {
                &&& size_fits(map_size)
                &&& collision@.len() == tile_count(map_size)
                &&& source_ids@.len() == tile_count(map_size)
                &&& wave_edges@.len() == tile_count(map_size)
                &&& forall|s: int|
                    0 <= s < propagation@.len() ==> #[trigger] propagation@[s]@.len() == map_size.0
                        * map_size.1
            },
            r matches Some(b) ==> {
                &&& b.wf()
                &&& b.map_size == map_size
                &&& b.collision == collision
                &&& b.source_ids == source_ids
                &&& b.wave_edges == wave_edges
                &&& b.propagation == propagation
                &&& b.temp_diffusion_config == TemperatureDiffusionConfig::spec_default()
                &&& forall|t: int| 0 <= t < tile_count(map_size) ==> #[trigger] b.connectivity_scores@[t] == 8
            },
    {
        let columns = match map_size.0.checked_mul(map_size.1) {
            Some(c) => c,
            None => {
                return None;
            },
        };
        if (map_size.0 as u64) >= (i64::MAX as u64) || (map_size.1 as u64) >= (i64::MAX as u64) || (
        map_size.2 as u64) >= (i64::MAX as u64) {
            return None;
        }
        let tiles = match columns.checked_mul(map_size.2) {
            Some(t) => t,
            None => {
                return None;
            },
        };
        if collision.len() != tiles || source_ids.len() != tiles || wave_edges.len() != tiles {
            return None;
        }
        let mut s: usize = 0;
        while s < propagation.len()
            invariant
                0 <= s <= propagation@.len(),
                columns == map_size.0 * map_size.1,
                forall|u: int| 0 <= u < s ==> #[trigger] propagation@[u]@.len() == columns,
            decreases propagation@.len() - s,
        {
            if propagation[s].len() != columns {
                return None;
            }
            s = s + 1;
        }
        let mut connectivity_scores: Vec<u8> = Vec::new();
        let mut t: usize = 0;
        while t < tiles
            invariant
                t <= tiles,
                connectivity_scores@.len() == t,
                forall|u: int| 0 <= u < t ==> #[trigger] connectivity_scores@[u] == 8,
            decreases tiles - t,
        {
            connectivity_scores.push(8);
            t = t + 1;
        }
        Some(
            BoardData {
                map_size,
                collision,
                source_ids,
                wave_edges,
                propagation,
                temp_diffusion_config: TemperatureDiffusionConfig::default(),
                connectivity_scores,
            },
        )
    }

    /// Flat index of an in-bounds tile.
    pub fn index_of(&self, x: usize, y: usize, z: usize) -> (r: usize)
        requires
            self.wf(),
            x < self.map_size.0,
            y < self.map_size.1,
            z < self.map_size.2,
        ensures
            r == tile_index(x as int, y as int, z as int, self.map_size),
            r < tile_count(self.map_size),
    {
        proof {
            lemma_tile_index_bounds(x as int, y as int, z as int, self.map_size);
        }
        (x * self.map_size.1 + y) * self.map_size.2 + z
    }
}

} // verus!
