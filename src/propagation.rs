//! The discrete part of one wave-front step: which neighbours a light packet
//! may spread to, and which transparency rule applies on the way in.

use crate::grid::{
    is_in_bounds, lemma_tile_index_bounds, tile_count, tile_index, BoardData, BoardPosition,
    CollisionInfo,
};
use vstd::prelude::*;

verus! {

/// Source id reserved for light that continues past a stair; such packets
/// have no baked direction mask.
pub const STAIR_SOURCE_ID: u32 = 0;

/// How much of a packet's light passes into a tile.
#[derive(Clone, Copy, Debug, PartialEq, Eq)]
pub enum TransparencyKind {
    /// Stair light entering a see-through tile.
    StairOpen,
    /// Stair light entering a tile that blocks sight.
    StairBlocked,
    /// A walkable, see-through, static tile: attenuated by the turn penalty only.
    Clear,
    /// A see-through tile that is not clear (a door, an obstacle).
    Translucent,
    /// A tile that blocks sight.
    Opaque,
}

/// A neighbour that a packet spreads to.
#[derive(Clone, Copy, Debug, PartialEq, Eq)]
pub struct StepCandidate {
    /// Index of the direction taken (see `direction_delta`).
    pub direction: usize,
    pub position: BoardPosition,
    /// Flat index of the neighbour.
    pub tile: usize,
    pub kind: TransparencyKind,
}

/// The planar offset (dx, dy) of direction `d`: north, south, west, east.
pub open spec fn direction_offset(d: int) -> (int, int) {
    if d == 0 {
        (0, -1)
    } else if d == 1 {
        (0, 1)
    } else if d == 2 {
        (-1, 0)
    } else {
        (1, 0)
    }
}

/// The tile next to `p` in direction `d`.
pub open spec fn neighbor_of(p: BoardPosition, d: int) -> (int, int, int) {
    (p.x + direction_offset(d).0, p.y + direction_offset(d).1, p.z as int)
}

pub open spec fn in_bounds_int(q: (int, int, int), size: (usize, usize, usize)) -> bool {
    0 <= q.0 < size.0 && 0 <= q.1 < size.1 && 0 <= q.2 < size.2
}

/// Whether a baked direction mask is recorded for `source_id` at the column of `p`.
pub open spec fn has_direction_mask(board: &BoardData, source_id: u32, p: BoardPosition) -> bool {
    &&& source_id < board.propagation@.len()
    &&& 0 <= p.x < board.map_size.0
    &&& 0 <= p.y < board.map_size.1
}

/// Whether a packet of `source_id` at `p` may spread in direction `d`: stair
/// packets may go anywhere, others where their baked mask allows.
pub open spec fn direction_permitted(board: &BoardData, source_id: u32, p: BoardPosition, d: int) -> bool {
    if source_id == STAIR_SOURCE_ID {
        true
    } else {
        has_direction_mask(board, source_id, p) && board.propagation@[source_id as int]@[p.x
            * board.map_size.1 + p.y]@[d]
    }
}

/// Whether a packet of `source_id` at `p` spreads to its neighbour in
/// direction `d`: the direction is permitted, the neighbour is on the board,
/// and, unless the packet comes from a stair, the neighbour was not already
/// lit by the same source when baking.
pub open spec fn is_step_candidate(board: &BoardData, source_id: u32, p: BoardPosition, d: int) -> bool {
    let q = neighbor_of(p, d);
    &&& direction_permitted(board, source_id, p, d)
    &&& in_bounds_int(q, board.map_size)
    &&& (source_id == STAIR_SOURCE_ID || board.source_at(tile_index(q.0, q.1, q.2, board.map_size))
        != Some(source_id))
}

/// A list of the neighbours that a packet of `source_id` at `pos` spreads
/// to: each candidate once, in direction order, with its position, tile and
/// transparency rule.
pub open spec fn is_step_list(
    board: &BoardData,
    source_id: u32,
    pos: BoardPosition,
    r: Seq<StepCandidate>,
) -> bool {
    &&& forall|k: int|
        0 <= k < r.len() ==> {
            let c = #[trigger] r[k];
            let q = neighbor_of(pos, c.direction as int);
            &&& c.direction < 4
            &&& is_step_candidate(board, source_id, pos, c.direction as int)
            &&& c.position.x == q.0 && c.position.y == q.1 && c.position.z == q.2
            &&& c.tile == tile_index(q.0, q.1, q.2, board.map_size)
            &&& c.kind == transparency_of(source_id == STAIR_SOURCE_ID, board.collision@[c.tile as int])
        }
    &&& forall|k: int, l: int| 0 <= k < l < r.len() ==> r[k].direction < r[l].direction
    &&& forall|d: int|
        0 <= d < 4 && is_step_candidate(board, source_id, pos, d) ==> exists|k: int|
            0 <= k < r.len() && #[trigger] r[k].direction == d
}

pub open spec fn strictly_increasing(s: Seq<int>) -> bool {
    forall|k: int, l: int| 0 <= k < l < s.len() ==> s[k] < s[l]
}

/// Two strictly increasing sequences that hold the same values are equal.
pub proof fn lemma_increasing_unique(a: Seq<int>, b: Seq<int>)
    requires
        strictly_increasing(a),
        strictly_increasing(b),
        forall|v: int| a.contains(v) <==> b.contains(v),
    ensures
        a == b,
    decreases a.len(),
{
    if a.len() == 0 {
        if b.len() > 0 {
            assert(b.contains(b[0]));
        }
        assert(a =~= b);
    } else {
        assert(a.contains(a[0]));
        let j = choose|j: int| 0 <= j < b.len() && b[j] == a[0];
        assert(b.contains(b[0]));
        let i = choose|i: int| 0 <= i < a.len() && a[i] == b[0];
        assert(a[0] == b[0]);
        let a1 = a.drop_first();
        let b1 = b.drop_first();
        assert forall|v: int| a1.contains(v) <==> b1.contains(v) by {
            if a1.contains(v) {
                let k = choose|k: int| 0 <= k < a1.len() && a1[k] == v;
                assert(a[k + 1] == v);
                assert(a.contains(v));
                let m = choose|m: int| 0 <= m < b.len() && b[m] == v;
                assert(m != 0);
                assert(b1[m - 1] == v);
            }
            if b1.contains(v) {
                let k = choose|k: int| 0 <= k < b1.len() && b1[k] == v;
                assert(b[k + 1] == v);
                assert(b.contains(v));
                let m = choose|m: int| 0 <= m < a.len() && a[m] == v;
                assert(m != 0);
                assert(a1[m - 1] == v);
            }
        }
        lemma_increasing_unique(a1, b1);
        assert forall|k: int| 0 <= k < a.len() implies a[k] == b[k] by {
            if k > 0 {
                assert(a[k] == a1[k - 1]);
                assert(b[k] == b1[k - 1]);
            }
        }
        assert(a =~= b);
    }
}

/// The neighbours that a packet spreads to are determined by the board, the
/// packet's source and its position: any two lists that meet the
/// description are the same list.
pub proof fn lemma_step_list_unique(
    board: &BoardData,
    source_id: u32,
    pos: BoardPosition,
    a: Seq<StepCandidate>,
    b: Seq<StepCandidate>,
)
    requires
        is_step_list(board, source_id, pos, a),
        is_step_list(board, source_id, pos, b),
    ensures
        a == b,
{
    let da = a.map_values(|c: StepCandidate| c.direction as int);
    let db = b.map_values(|c: StepCandidate| c.direction as int);
    assert forall|v: int| da.contains(v) <==> db.contains(v) by {
        if da.contains(v) {
            let k = choose|k: int| 0 <= k < da.len() && da[k] == v;
            assert(a[k].direction == v);
            let m = choose|m: int| 0 <= m < b.len() && #[trigger] b[m].direction == v;
            assert(db[m] == v);
        }
        if db.contains(v) {
            let k = choose|k: int| 0 <= k < db.len() && db[k] == v;
            assert(b[k].direction == v);
            let m = choose|m: int| 0 <= m < a.len() && #[trigger] a[m].direction == v;
            assert(da[m] == v);
        }
    }
    lemma_increasing_unique(da, db);
    assert forall|k: int| 0 <= k < a.len() implies a[k] == b[k] by {
        assert(da[k] == db[k]);
    }
    assert(a =~= b);
}

/// At the edge of the board a packet skips the directions that leave the
/// board and still spreads in every permitted direction that stays on it;
/// every tile it reaches lies within the board's tables.
pub proof fn lemma_boundary_steps(
    board: &BoardData,
    source_id: u32,
    pos: BoardPosition,
    r: Seq<StepCandidate>,
    d: int,
)
    requires
        board.wf(),
        is_step_list(board, source_id, pos, r),
        0 <= d < 4,
    ensures
        !in_bounds_int(neighbor_of(pos, d), board.map_size) ==> forall|k: int|
            0 <= k < r.len() ==> #[trigger] r[k].direction != d,
        is_step_candidate(board, source_id, pos, d) ==> exists|k: int|
            0 <= k < r.len() && #[trigger] r[k].direction == d,
        forall|k: int| 0 <= k < r.len() ==> #[trigger] r[k].tile < tile_count(board.map_size),
{
    assert forall|k: int| 0 <= k < r.len() implies #[trigger] r[k].tile < tile_count(
        board.map_size,
    ) by {
        let q = neighbor_of(pos, r[k].direction as int);
        lemma_tile_index_bounds(q.0, q.1, q.2, board.map_size);
    }
}

/// The transparency rule for light entering a tile with collision flags `c`.
pub open spec fn transparency_of(from_stair: bool, c: CollisionInfo) -> TransparencyKind {
    if from_stair {
        if c.see_through {
            TransparencyKind::StairOpen
        } else {
            TransparencyKind::StairBlocked
        }
    } else if c.player_free && c.see_through && !c.is_dynamic {
        TransparencyKind::Clear
    } else if c.see_through {
        TransparencyKind::Translucent
    } else {
        TransparencyKind::Opaque
    }
}

/// The planar offset of direction `d`.
pub fn direction_delta(d: usize) -> (r: (i64, i64))
    requires
        d < 4,
    ensures
        r.0 == direction_offset(d as int).0,
        r.1 == direction_offset(d as int).1,
{
    if d == 0 {
        (0, -1)
    } else if d == 1 {
        (0, 1)
    } else if d == 2 {
        (-1, 0)
    } else {
        (1, 0)
    }
}

/// Which transparency rule applies to light entering a tile.
pub fn transparency_kind(from_stair: bool, collision: &CollisionInfo) -> (r: TransparencyKind)
    ensures
        r == transparency_of(from_stair, *collision),
{
    if from_stair {
        if collision.see_through {
            TransparencyKind::StairOpen
        } else {
            TransparencyKind::StairBlocked
        }
    } else if collision.player_free && collision.see_through && !collision.is_dynamic {
        TransparencyKind::Clear
    } else if collision.see_through {
        TransparencyKind::Translucent
    } else {
        TransparencyKind::Opaque
    }
}

/// The directions in which a packet of `source_id` at `pos` may spread, or
/// `None` when no baked mask is recorded for it (the packet then stops).
pub fn allowed_directions(board: &BoardData, source_id: u32, pos: BoardPosition) -> (r: Option<
    [bool; 4],
>)
    requires
        board.wf(),
    ensures
        r.is_some() <==> (source_id == STAIR_SOURCE_ID || has_direction_mask(board, source_id, pos)),
        r matches Some(m) ==> forall|d: int|
            0 <= d < 4 ==> m@[d] == direction_permitted(board, source_id, pos, d),
{
    if source_id == STAIR_SOURCE_ID {
        return Some([true, true, true, true]);
    }
    if (source_id as usize) < board.propagation.len() && pos.x >= 0 && pos.y >= 0 && (pos.x as u64)
        < (board.map_size.0 as u64) && (pos.y as u64) < (board.map_size.1 as u64) {
        let x = pos.x as usize;
        let y = pos.y as usize;
        let ghost nx = board.map_size.0 as int;
        let ghost ny = board.map_size.1 as int;
        proof {
            assert(0 <= x * ny <= x * ny + y < nx * ny) by (nonlinear_arith)
                requires
                    0 <= x < nx,
                    0 <= y < ny,
            ;
            assert(board.propagation@[source_id as int]@.len() == nx * ny);
        }
        let column = x * board.map_size.1 + y;
        Some(board.propagation[source_id as usize][column])
    } else {
        None
    }
}

/// The neighbours that a packet of `source_id` at `pos` spreads to, in
/// direction order, each with the transparency rule of its tile.
pub fn step_candidates(board: &BoardData, source_id: u32, pos: BoardPosition) -> (r: Vec<
    StepCandidate,
>)
    requires
        board.wf(),
        i64::MIN < pos.x < i64::MAX,
        i64::MIN < pos.y < i64::MAX,
    ensures
        is_step_list(board, source_id, pos, r@),
{
    let mut out: Vec<StepCandidate> = Vec::new();
    let from_stair = source_id == STAIR_SOURCE_ID;
    let mask = match allowed_directions(board, source_id, pos) {
        Some(m) => m,
        None => {
            return out;
        },
    };
    let mut d: usize = 0;
    while d < 4
        invariant
            board.wf(),
            i64::MIN < pos.x < i64::MAX,
            i64::MIN < pos.y < i64::MAX,
            from_stair == (source_id == STAIR_SOURCE_ID),
            forall|e: int| 0 <= e < 4 ==> mask@[e] == direction_permitted(board, source_id, pos, e),
            d <= 4,
            forall|k: int|
                0 <= k < out@.len() ==> {
                    let c = #[trigger] out@[k];
                    let q = neighbor_of(pos, c.direction as int);
                    &&& c.direction < d
                    &&& is_step_candidate(board, source_id, pos, c.direction as int)
                    &&& c.position.x == q.0 && c.position.y == q.1 && c.position.z == q.2
                    &&& c.tile == tile_index(q.0, q.1, q.2, board.map_size)
                    &&& c.kind == transparency_of(
                        source_id == STAIR_SOURCE_ID,
                        board.collision@[c.tile as int],
                    )
                },
            forall|k: int, l: int| 0 <= k < l < out@.len() ==> out@[k].direction < out@[l].direction,
            forall|e: int|
                0 <= e < d && is_step_candidate(board, source_id, pos, e) ==> exists|k: int|
                    0 <= k < out@.len() && #[trigger] out@[k].direction == e,
        decreases 4 - d,
    {
        let ghost before = out@;
        if mask[d] {
            let (dx, dy) = direction_delta(d);
            let nx = pos.x + dx;
            let ny = pos.y + dy;
            let nz = pos.z;
            if is_in_bounds((nx, ny, nz), board.map_size) {
                let t = board.index_of(nx as usize, ny as usize, nz as usize);
                let same_source = match board.source_ids[t] {
                    Some(s) => s == source_id,
                    None => false,
                };
                if from_stair || !same_source {
                    let kind = transparency_kind(from_stair, &board.collision[t]);
                    let c = StepCandidate {
                        direction: d,
                        position: BoardPosition { x: nx, y: ny, z: nz },
                        tile: t,
                        kind,
                    };
                    out.push(c);
                }
            }
        }
        proof {
            assert forall|e: int|
                0 <= e < d + 1 && is_step_candidate(board, source_id, pos, e) implies exists|k: int|
                    0 <= k < out@.len() && #[trigger] out@[k].direction == e by {
                if e < d {
                    let k = choose|k: int| 0 <= k < before.len() && #[trigger] before[k].direction == e;
                    assert(out@[k] == before[k]);
                } else {
                    assert(out@[out@.len() - 1].direction == e);
                }
            }
        }
        d = d + 1;
    }
    out
}

} // verus!
