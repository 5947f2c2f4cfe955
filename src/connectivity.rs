//! Connectivity scores of the tiles, which set how often the temperature
//! diffusion visits each tile: a lower score means more frequent visits.

use crate::grid::{
    is_in_bounds, lemma_tile_index_bounds, lemma_tile_index_next, tile_count, tile_index, BoardData,
    BoardPosition,
};
use vstd::prelude::*;

verus! {

/// Scores given to special tiles by the temperature diffusion scheduling.
#[derive(Debug, Clone, Copy, PartialEq, Eq)]
pub struct TemperatureDiffusionConfig {
    /// Lowest score (always processed).
    pub min_score: u8,
    /// Highest score (rarely processed); also the score of walls and of
    /// positions off the board.
    pub max_score: u8,
    /// Score of a plain tile.
    pub default_score: u8,
    /// Score of a stair tile, which carries heat between floors.
    pub stair_score: u8,
    /// Score of a door.
    pub door_score: u8,
}

impl TemperatureDiffusionConfig {
    pub open spec fn spec_default() -> TemperatureDiffusionConfig {
        TemperatureDiffusionConfig {
            min_score: 1,
            max_score: 32,
            default_score: 16,
            stair_score: 1,
            door_score: 32,
        }
    }
}

impl Default for TemperatureDiffusionConfig {
    fn default() -> (r: Self)
        ensures
            r == TemperatureDiffusionConfig::spec_default(),
    {
        TemperatureDiffusionConfig {
            min_score: 1,
            max_score: 32,
            default_score: 16,
            stair_score: 1,
            door_score: 32,
        }
    }
}

pub open spec fn b2n(b: bool) -> nat {
    if b {
        1
    } else {
        0
    }
}

/// Whether (x, y, z) is on the board and can be walked on or seen through.
pub open spec fn passable(board: &BoardData, x: int, y: int, z: int) -> bool {
    &&& 0 <= x < board.map_size.0
    &&& 0 <= y < board.map_size.1
    &&& 0 <= z < board.map_size.2
    &&& {
        let c = board.collision@[tile_index(x, y, z, board.map_size)];
        c.player_free || c.see_through
    }
}

/// Number of passable tiles among the four planar neighbours of (x, y, z).
pub open spec fn passable_neighbors(board: &BoardData, x: int, y: int, z: int) -> nat {
    b2n(passable(board, x - 1, y, z)) + b2n(passable(board, x + 1, y, z)) + b2n(
        passable(board, x, y - 1, z),
    ) + b2n(passable(board, x, y + 1, z))
}

/// What the neighbour (x, y, z) adds to a score: one for itself and one for
/// each of its passable neighbours, when it is passable.
pub open spec fn neighbor_weight(board: &BoardData, x: int, y: int, z: int) -> nat {
    if passable(board, x, y, z) {
        1 + passable_neighbors(board, x, y, z)
    } else {
        0
    }
}

/// The connectivity score of (x, y, z): the maximum off the board and on
/// walls, fixed scores on stairs and doors, and otherwise the passable
/// neighbours plus their own passable neighbours.
pub open spec fn connectivity_of(board: &BoardData, x: int, y: int, z: int) -> int {
    let cfg = board.temp_diffusion_config;
    if !(0 <= x < board.map_size.0 && 0 <= y < board.map_size.1 && 0 <= z < board.map_size.2) {
        cfg.max_score as int
    } else {
        let c = board.collision@[tile_index(x, y, z, board.map_size)];
        if c.stair_offset != 0 {
            cfg.stair_score as int
        } else if c.is_dynamic {
            cfg.door_score as int
        } else if !c.see_through {
            cfg.max_score as int
        } else {
            (neighbor_weight(board, x - 1, y, z) + neighbor_weight(board, x + 1, y, z)
                + neighbor_weight(board, x, y - 1, z) + neighbor_weight(board, x, y + 1, z)) as int
        }
    }
}

impl BoardData {
    /// Whether a position is on the board and can be walked on or seen through.
    pub fn is_position_passable(&self, pos: BoardPosition) -> (r: bool)
        requires
            self.wf(),
        ensures
            r == passable(self, pos.x as int, pos.y as int, pos.z as int),
    {
        if !is_in_bounds((pos.x, pos.y, pos.z), self.map_size) {
            return false;
        }
        let t = self.index_of(pos.x as usize, pos.y as usize, pos.z as usize);
        let c = self.collision[t];
        c.player_free || c.see_through
    }

    /// Number of passable planar neighbours of a position.
    fn count_passable_neighbors(&self, pos: BoardPosition) -> (r: u8)
        requires
            self.wf(),
            i64::MIN < pos.x < i64::MAX,
            i64::MIN < pos.y < i64::MAX,
        ensures
            r == passable_neighbors(self, pos.x as int, pos.y as int, pos.z as int),
    {
        let mut n: u8 = 0;
        if self.is_position_passable(BoardPosition { x: pos.x - 1, y: pos.y, z: pos.z }) {
            n = n + 1;
        }
        if self.is_position_passable(BoardPosition { x: pos.x + 1, y: pos.y, z: pos.z }) {
            n = n + 1;
        }
        if self.is_position_passable(BoardPosition { x: pos.x, y: pos.y - 1, z: pos.z }) {
            n = n + 1;
        }
        if self.is_position_passable(BoardPosition { x: pos.x, y: pos.y + 1, z: pos.z }) {
            n = n + 1;
        }
        n
    }

    /// What a neighbour adds to a connectivity score.
    fn neighbor_contribution(&self, pos: BoardPosition) -> (r: u8)
        requires
            self.wf(),
            i64::MIN < pos.x < i64::MAX,
            i64::MIN < pos.y < i64::MAX,
        ensures
            r == neighbor_weight(self, pos.x as int, pos.y as int, pos.z as int),
            r <= 5,
    {
        if self.is_position_passable(pos) {
            1 + self.count_passable_neighbors(pos)
        } else {
            0
        }
    }

    /// The connectivity score of a position, which sets how often the
    /// temperature diffusion visits it.
    pub fn calculate_connectivity_score(&self, pos: BoardPosition) -> (r: u8)
        requires
            self.wf(),
        ensures
            r == connectivity_of(self, pos.x as int, pos.y as int, pos.z as int),
    {
        let config = self.temp_diffusion_config;
        if !is_in_bounds((pos.x, pos.y, pos.z), self.map_size) {
            return config.max_score;
        }
        let t = self.index_of(pos.x as usize, pos.y as usize, pos.z as usize);
        let c = self.collision[t];
        if c.stair_offset != 0 {
            return config.stair_score;
        }
        if c.is_dynamic {
            return config.door_score;
        }
        if !c.see_through {
            return config.max_score;
        }
        let left = self.neighbor_contribution(BoardPosition { x: pos.x - 1, y: pos.y, z: pos.z });
        let right = self.neighbor_contribution(BoardPosition { x: pos.x + 1, y: pos.y, z: pos.z });
        let top = self.neighbor_contribution(BoardPosition { x: pos.x, y: pos.y - 1, z: pos.z });
        let bottom = self.neighbor_contribution(BoardPosition { x: pos.x, y: pos.y + 1, z: pos.z });
        left + right + top + bottom
    }

    /// Computes the connectivity score of every tile.
    pub fn precompute_connectivity_scores(&mut self)
        requires
            old(self).wf(),
        ensures
            final(self).wf(),
            final(self).map_size == old(self).map_size,
            final(self).collision == old(self).collision,
            final(self).source_ids == old(self).source_ids,
            final(self).wave_edges == old(self).wave_edges,
            final(self).propagation == old(self).propagation,
            final(self).temp_diffusion_config == old(self).temp_diffusion_config,
            forall|x: int, y: int, z: int|
                0 <= x < old(self).map_size.0 && 0 <= y < old(self).map_size.1 && 0 <= z
                    < old(self).map_size.2 ==> #[trigger] final(self).connectivity_scores@[tile_index(
                    x,
                    y,
                    z,
                    old(self).map_size,
                )] == connectivity_of(old(self), x, y, z),
    {
        let ghost size = self.map_size;
        let n = self.connectivity_scores.len();
        let mut x: usize = 0;
        let mut y: usize = 0;
        let mut z: usize = 0;
        let mut t: usize = 0;
        proof {
            if n > 0 {
                assert(size.0 > 0 && size.1 > 0 && size.2 > 0) by (nonlinear_arith)
                    requires
                        size.0 * size.1 * size.2 > 0,
                ;
                assert(tile_index(0, 0, 0, size) == 0) by (nonlinear_arith);
            }
        }
        while t < n
            invariant
                self.wf(),
                size == self.map_size,
                self.map_size == old(self).map_size,
                self.collision == old(self).collision,
                self.source_ids == old(self).source_ids,
                self.wave_edges == old(self).wave_edges,
                self.propagation == old(self).propagation,
                self.temp_diffusion_config == old(self).temp_diffusion_config,
                n == tile_count(size),
                0 <= t <= n,
                t < n ==> x < size.0 && y < size.1 && z < size.2 && t == tile_index(
                    x as int,
                    y as int,
                    z as int,
                    size,
                ),
                forall|u: int, v: int, w: int|
                    0 <= u < size.0 && 0 <= v < size.1 && 0 <= w < size.2 && tile_index(u, v, w, size)
                        < t ==> #[trigger] self.connectivity_scores@[tile_index(u, v, w, size)]
                        == connectivity_of(old(self), u, v, w),
            decreases n - t,
        {
            proof {
                lemma_tile_index_bounds(x as int, y as int, z as int, size);
            }
            let score = self.calculate_connectivity_score(
                BoardPosition { x: x as i64, y: y as i64, z: z as i64 },
            );
            self.connectivity_scores.set(t, score);
            proof {
                lemma_tile_index_next(x as int, y as int, z as int, size);
                assert forall|u: int, v: int, w: int|
                    0 <= u < size.0 && 0 <= v < size.1 && 0 <= w < size.2 && tile_index(u, v, w, size)
                        < t + 1 implies #[trigger] self.connectivity_scores@[tile_index(u, v, w, size)]
                        == connectivity_of(old(self), u, v, w) by {
                    if tile_index(u, v, w, size) == t {
                        crate::grid::lemma_tile_index_injective(
                            u,
                            v,
                            w,
                            x as int,
                            y as int,
                            z as int,
                            size,
                        );
                    }
                }
            }
            t = t + 1;
            if z + 1 < self.map_size.2 {
                z = z + 1;
            } else if y + 1 < self.map_size.1 {
                z = 0;
                y = y + 1;
            } else {
                z = 0;
                y = 0;
                x = x + 1;
            }
        }
        proof {
            assert forall|u: int, v: int, w: int|
                0 <= u < size.0 && 0 <= v < size.1 && 0 <= w < size.2 implies #[trigger] self.connectivity_scores@[tile_index(
                    u,
                    v,
                    w,
                    size,
                )] == connectivity_of(old(self), u, v, w) by {
                lemma_tile_index_bounds(u, v, w, size);
            }
        }
    }
}

} // verus!
