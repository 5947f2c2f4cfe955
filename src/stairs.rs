//! Stairs join floors: each stair tile passes light to the tile at the same
//! column on the floor its offset points to.

use crate::grid::{
    lemma_tile_index_bounds, lemma_tile_index_injective, lemma_tile_index_next, tile_count,
    tile_index, BoardPosition, BoardData,
};
use crate::propagation::lemma_increasing_unique;
use vstd::prelude::*;

verus! {

/// A stair tile and the tile on the floor that it leads to.
#[derive(Clone, Copy, Debug, PartialEq, Eq)]
pub struct StairLink {
    pub from: BoardPosition,
    /// Flat index of the stair tile.
    pub from_tile: usize,
    pub to: BoardPosition,
    /// Flat index of the destination tile.
    pub to_tile: usize,
}

/// The stair offset of the in-bounds tile (x, y, z).
pub open spec fn stair_offset_at(board: &BoardData, x: int, y: int, z: int) -> int {
    board.collision@[tile_index(x, y, z, board.map_size)].stair_offset as int
}

/// Whether (x, y, z) is a stair tile whose destination floor is on the board.
pub open spec fn leads_to_floor(board: &BoardData, x: int, y: int, z: int) -> bool {
    &&& 0 <= x < board.map_size.0
    &&& 0 <= y < board.map_size.1
    &&& 0 <= z < board.map_size.2
    &&& stair_offset_at(board, x, y, z) != 0
    &&& 0 <= z + stair_offset_at(board, x, y, z) < board.map_size.2
}

/// What a link from the stair tile (x, y, z) holds.
pub open spec fn link_of(board: &BoardData, l: StairLink) -> bool {
    let (x, y, z) = (l.from.x as int, l.from.y as int, l.from.z as int);
    let tz = z + stair_offset_at(board, x, y, z);
    &&& leads_to_floor(board, x, y, z)
    &&& l.from_tile == tile_index(x, y, z, board.map_size)
    &&& l.to.x == x && l.to.y == y && l.to.z == tz
    &&& l.to_tile == tile_index(x, y, tz, board.map_size)
}

/// A list of every stair link of the board, once each, in flat index order
/// of the stair tiles.
pub open spec fn is_link_list(board: &BoardData, r: Seq<StairLink>) -> bool {
    &&& forall|k: int| 0 <= k < r.len() ==> link_of(board, #[trigger] r[k])
    &&& forall|k: int, l: int| 0 <= k < l < r.len() ==> r[k].from_tile < r[l].from_tile
    &&& forall|x: int, y: int, z: int|
        #[trigger] leads_to_floor(board, x, y, z) ==> exists|k: int|
            0 <= k < r.len() && #[trigger] r[k].from_tile == tile_index(x, y, z, board.map_size)
}

/// The stair links are determined by the board: any two lists that meet the
/// description are the same list.
pub proof fn lemma_link_list_unique(board: &BoardData, a: Seq<StairLink>, b: Seq<StairLink>)
    requires
        board.wf(),
        is_link_list(board, a),
        is_link_list(board, b),
    ensures
        a == b,
{
    let ta = a.map_values(|l: StairLink| l.from_tile as int);
    let tb = b.map_values(|l: StairLink| l.from_tile as int);
    assert forall|v: int| ta.contains(v) <==> tb.contains(v) by {
        if ta.contains(v) {
            let k = choose|k: int| 0 <= k < ta.len() && ta[k] == v;
            let l = a[k];
            assert(link_of(board, l));
            assert(leads_to_floor(board, l.from.x as int, l.from.y as int, l.from.z as int));
            let m = choose|m: int|
                0 <= m < b.len() && #[trigger] b[m].from_tile == tile_index(
                    l.from.x as int,
                    l.from.y as int,
                    l.from.z as int,
                    board.map_size,
                );
            assert(tb[m] == v);
        }
        if tb.contains(v) {
            let k = choose|k: int| 0 <= k < tb.len() && tb[k] == v;
            let l = b[k];
            assert(link_of(board, l));
            assert(leads_to_floor(board, l.from.x as int, l.from.y as int, l.from.z as int));
            let m = choose|m: int|
                0 <= m < a.len() && #[trigger] a[m].from_tile == tile_index(
                    l.from.x as int,
                    l.from.y as int,
                    l.from.z as int,
                    board.map_size,
                );
            assert(ta[m] == v);
        }
    }
    lemma_increasing_unique(ta, tb);
    assert forall|k: int| 0 <= k < a.len() implies a[k] == b[k] by {
        assert(ta[k] == tb[k]);
        let (p, q) = (a[k], b[k]);
        assert(link_of(board, p));
        assert(link_of(board, q));
        lemma_tile_index_injective(
            p.from.x as int,
            p.from.y as int,
            p.from.z as int,
            q.from.x as int,
            q.from.y as int,
            q.from.z as int,
            board.map_size,
        );
    }
    assert(a =~= b);
}

/// The stair tile at (x, y, z) and its destination, when the destination
/// floor is on the board.
pub fn stair_target(board: &BoardData, x: usize, y: usize, z: usize) -> (r: Option<StairLink>)
    requires
        board.wf(),
        x < board.map_size.0,
        y < board.map_size.1,
        z < board.map_size.2,
    ensures
        r.is_some() <==> leads_to_floor(board, x as int, y as int, z as int),
        r matches Some(l) ==> link_of(board, l) && l.from.x == x && l.from.y == y && l.from.z == z,
{
    let t = board.index_of(x, y, z);
    let offset = board.collision[t].stair_offset;
    if offset == 0 {
        return None;
    }
    let target_z = z as i128 + offset as i128;
    if target_z < 0 || target_z >= board.map_size.2 as i128 {
        return None;
    }
    let to_tile = board.index_of(x, y, target_z as usize);
    Some(
        StairLink {
            from: BoardPosition { x: x as i64, y: y as i64, z: z as i64 },
            from_tile: t,
            to: BoardPosition { x: x as i64, y: y as i64, z: target_z as i64 },
            to_tile,
        },
    )
}

/// Every stair link of the board, in flat index order of the stair tiles.
pub fn stair_links(board: &BoardData) -> (r: Vec<StairLink>)
    requires
        board.wf(),
    ensures
        is_link_list(board, r@),
{
    let ghost size = board.map_size;
    let n = board.collision.len();
    let mut links: Vec<StairLink> = Vec::new();
    let mut x: usize = 0;
    let mut y: usize = 0;
    let mut z: usize = 0;
    let mut t: usize = 0;
    proof {
        if n > 0 {
            assert(size.0 > 0 && size.1 > 0 && size.2 > 0) by (nonlinear_arith)
                requires
                    size.0 * size.1 * size.2 > 0,
            ;
            assert(tile_index(0, 0, 0, size) == 0) by (nonlinear_arith);
        }
    }
    while t < n
        invariant
            board.wf(),
            size == board.map_size,
            n == tile_count(size),
            0 <= t <= n,
            t < n ==> x < size.0 && y < size.1 && z < size.2 && t == tile_index(
                x as int,
                y as int,
                z as int,
                size,
            ),
            forall|k: int|
                0 <= k < links@.len() ==> link_of(board, #[trigger] links@[k])
                    && links@[k].from_tile < t,
            forall|k: int, l: int| 0 <= k < l < links@.len() ==> links@[k].from_tile < links@[l].from_tile,
            forall|u: int, v: int, w: int|
                #[trigger] leads_to_floor(board, u, v, w) && tile_index(u, v, w, size) < t ==> exists|
                    k: int,
                |
                    0 <= k < links@.len() && #[trigger] links@[k].from_tile == tile_index(
                        u,
                        v,
                        w,
                        size,
                    ),
        decreases n - t,
    {
        proof {
            lemma_tile_index_bounds(x as int, y as int, z as int, size);
        }
        let ghost before = links@;
        match stair_target(board, x, y, z) {
            Some(l) => {
                links.push(l);
            },
            None => {},
        }
        proof {
            lemma_tile_index_next(x as int, y as int, z as int, size);
            assert forall|u: int, v: int, w: int|
                #[trigger] leads_to_floor(board, u, v, w) && tile_index(u, v, w, size) < t + 1
                    implies exists|k: int|
                    0 <= k < links@.len() && #[trigger] links@[k].from_tile == tile_index(
                        u,
                        v,
                        w,
                        size,
                    ) by {
                if tile_index(u, v, w, size) < t {
                    let k = choose|k: int|
                        0 <= k < before.len() && #[trigger] before[k].from_tile == tile_index(
                            u,
                            v,
                            w,
                            size,
                        );
                    assert(links@[k] == before[k]);
                } else {
                    lemma_tile_index_injective(
                        u,
                        v,
                        w,
                        x as int,
                        y as int,
                        z as int,
                        size,
                    );
                    assert(links@[links@.len() - 1].from_tile == t);
                }
            }
        }
        t = t + 1;
        if z + 1 < board.map_size.2 {
            z = z + 1;
        } else if y + 1 < board.map_size.1 {
            z = 0;
            y = y + 1;
        } else {
            z = 0;
            y = 0;
            x = x + 1;
        }
    }
    proof {
        assert forall|u: int, v: int, w: int| #[trigger]
            leads_to_floor(board, u, v, w) implies exists|k: int|
                0 <= k < links@.len() && #[trigger] links@[k].from_tile == tile_index(
                    u,
                    v,
                    w,
                    size,
                ) by {
            lemma_tile_index_bounds(u, v, w, size);
        }
    }
    links
}

} // verus!
