//! Which baked light sources are active, and what they light before any
//! runtime propagation: the baked contribution of each active source and the
//! wave-edge tiles from which propagation starts.

use crate::collections::{
    contains_source, door_states, emitter_state_at, emitter_states, insert_door, insert_source,
    new_door_map, new_source_set, source_set,
};
use crate::grid::{
    in_bounds, lemma_tile_index_bounds, lemma_tile_index_injective, lemma_tile_index_next, pos_tuple, tile_count, tile_index,
    BoardData, BoardPosition, TileKey,
};
use crate::propagation::lemma_increasing_unique;
use bevy_platform::collections::{HashMap, HashSet};
use vstd::prelude::*;

verus! {

/// A light source registered at bake time, with its state now.
#[derive(Clone, Copy, Debug, PartialEq, Eq)]
pub struct LightEmitter {
    /// The tile whose baked metadata names the source: (x, y, z).
    pub tile: (usize, usize, usize),
    /// Whether the emitter emits now; `None` once the emitter is gone.
    pub emitting: Option<bool>,
}

/// A baked wave-edge tile of an active source.
#[derive(Clone, Copy, Debug, PartialEq, Eq)]
pub struct WaveEdgeTile {
    pub position: BoardPosition,
    /// Flat index of the tile.
    pub tile: usize,
    pub source_id: u32,
}

pub open spec fn tile_on_board(t: (usize, usize, usize), size: (usize, usize, usize)) -> bool {
    t.0 < size.0 && t.1 < size.1 && t.2 < size.2
}

/// The source that an emitter makes active: the baked source of its tile,
/// when the emitter emits and its tile is on the board.
pub open spec fn emitter_source(board: &BoardData, e: LightEmitter) -> Option<u32> {
    if e.emitting == Some(true) && tile_on_board(e.tile, board.map_size) {
        board.source_at(tile_index(e.tile.0 as int, e.tile.1 as int, e.tile.2 as int, board.map_size))
    } else {
        None
    }
}

/// The sources made active by any of the listed emitters.
pub open spec fn active_source_set(board: &BoardData, emitters: Seq<LightEmitter>) -> Set<u32> {
    Set::new(|s: u32| exists|e: LightEmitter| emitters.contains(e) && emitter_source(board, e) == Some(s))
}

/// Whether the tile at flat index `t` is claimed by a source of `active`.
pub open spec fn lit_by(board: &BoardData, active: Set<u32>, t: int) -> bool {
    match board.source_at(t) {
        Some(s) => active.contains(s),
        None => false,
    }
}

/// Number of tiles below flat index `n` claimed by a source of `active`.
pub open spec fn lit_count(board: &BoardData, active: Set<u32>, n: int) -> nat
    decreases n,
{
    if n <= 0 {
        0
    } else {
        lit_count(board, active, n - 1) + if lit_by(board, active, n - 1) {
            1nat
        } else {
            0nat
        }
    }
}

/// Whether (x, y, z) is on the board and claimed by a source of `active`.
pub open spec fn lit_tile(board: &BoardData, active: Set<u32>, x: int, y: int, z: int) -> bool {
    &&& 0 <= x < board.map_size.0
    &&& 0 <= y < board.map_size.1
    &&& 0 <= z < board.map_size.2
    &&& lit_by(board, active, tile_index(x, y, z, board.map_size))
}

/// Whether the tile at flat index `t` is a baked wave edge of a source of `active`.
pub open spec fn is_active_wave_edge(board: &BoardData, active: Set<u32>, t: int) -> bool {
    board.wave_edges@[t] && lit_by(board, active, t)
}

/// The list of emitters may be given in any order: only which emitters it
/// holds decides the active sources.
pub proof fn lemma_active_sources_order_insensitive(
    board: &BoardData,
    a: Seq<LightEmitter>,
    b: Seq<LightEmitter>,
)
    requires
        a.to_multiset() == b.to_multiset(),
    ensures
        active_source_set(board, a) == active_source_set(board, b),
{
    a.to_multiset_ensures();
    b.to_multiset_ensures();
    assert forall|e: LightEmitter| a.contains(e) <==> b.contains(e) by {
        assert(a.contains(e) <==> a.to_multiset().count(e) > 0);
        assert(b.contains(e) <==> b.to_multiset().count(e) > 0);
    }
    assert(active_source_set(board, a) =~= active_source_set(board, b));
}

/// Finds the active light sources: a source is active when an emitter on
/// its baked tile emits now. Emitters that are gone, or whose tile is off the
/// board, are ignored.
pub fn identify_active_light_sources(board: &BoardData, light_sources: &Vec<LightEmitter>) -> (r:
    HashSet<u32>)
    requires
        board.wf(),
    ensures
        source_set(r) == active_source_set(board, light_sources@),
{
    let mut active = new_source_set();
    let mut k: usize = 0;
    while k < light_sources.len()
        invariant
            board.wf(),
            0 <= k <= light_sources@.len(),
            source_set(active) == active_source_set(board, light_sources@.take(k as int)),
        decreases light_sources@.len() - k,
    {
        let e = light_sources[k];
        if matches!(e.emitting, Some(true)) && e.tile.0 < board.map_size.0 && e.tile.1
            < board.map_size.1 && e.tile.2 < board.map_size.2 {
            let t = board.index_of(e.tile.0, e.tile.1, e.tile.2);
            if let Some(s) = board.source_ids[t] {
                insert_source(&mut active, s);
            }
        }
        proof {
            let prev = light_sources@.take(k as int);
            let next = light_sources@.take(k + 1);
            assert(next == prev.push(e));
            assert forall|s: u32| #[trigger]
                active_source_set(board, next).contains(s) == (active_source_set(
                    board,
                    prev,
                ).contains(s) || emitter_source(board, e) == Some(s)) by {
                if emitter_source(board, e) == Some(s) {
                    assert(next[k as int] == e);
                    assert(next.contains(e));
                }
                if active_source_set(board, prev).contains(s) {
                    let w = choose|w: LightEmitter|
                        prev.contains(w) && emitter_source(board, w) == Some(s);
                    let i = choose|i: int| 0 <= i < prev.len() && prev[i] == w;
                    assert(next[i] == w);
                    assert(next.contains(w));
                }
                if active_source_set(board, next).contains(s) {
                    let w = choose|w: LightEmitter|
                        next.contains(w) && emitter_source(board, w) == Some(s);
                    let i = choose|i: int| 0 <= i < next.len() && next[i] == w;
                    if i < k {
                        assert(prev[i] == w);
                        assert(prev.contains(w));
                    }
                }
            }
            assert(source_set(active) =~= active_source_set(board, next));
        }
        k = k + 1;
    }
    proof {
        assert(light_sources@.take(light_sources@.len() as int) == light_sources@);
    }
    active
}

/// The indices of the seeds whose source is in `active`, each once, in
/// increasing order.
pub open spec fn is_seed_selection(seeds: Seq<u32>, active: Set<u32>, r: Seq<usize>) -> bool {
    &&& forall|k: int|
        0 <= k < r.len() ==> #[trigger] r[k] < seeds.len() && active.contains(seeds[r[k] as int])
    &&& forall|k: int, l: int| 0 <= k < l < r.len() ==> r[k] < r[l]
    &&& forall|i: int|
        0 <= i < seeds.len() && active.contains(#[trigger] seeds[i]) ==> exists|k: int|
            0 <= k < r.len() && r[k] == i
}

/// The seeds that start the propagation are determined by the seed list and
/// the active sources.
pub proof fn lemma_seed_selection_unique(seeds: Seq<u32>, active: Set<u32>, a: Seq<usize>, b: Seq<usize>)
    requires
        is_seed_selection(seeds, active, a),
        is_seed_selection(seeds, active, b),
    ensures
        a == b,
{
    let ia = a.map_values(|i: usize| i as int);
    let ib = b.map_values(|i: usize| i as int);
    assert forall|v: int| ia.contains(v) <==> ib.contains(v) by {
        if ia.contains(v) {
            let k = choose|k: int| 0 <= k < ia.len() && ia[k] == v;
            assert(a[k] < seeds.len() && active.contains(seeds[a[k] as int]));
            let m = choose|m: int| 0 <= m < b.len() && b[m] == v;
            assert(ib[m] == v);
        }
        if ib.contains(v) {
            let k = choose|k: int| 0 <= k < ib.len() && ib[k] == v;
            assert(b[k] < seeds.len() && active.contains(seeds[b[k] as int]));
            let m = choose|m: int| 0 <= m < a.len() && a[m] == v;
            assert(ia[m] == v);
        }
    }
    lemma_increasing_unique(ia, ib);
    assert forall|k: int| 0 <= k < a.len() implies a[k] == b[k] by {
        assert(ia[k] == ib[k]);
    }
    assert(a =~= b);
}

/// Picks the baked wave-edge seeds whose source is active: the indices into
/// `seed_sources` (the source id of each seed), in order.
pub fn active_seed_indices(seed_sources: &Vec<u32>, active_source_ids: &HashSet<u32>) -> (r: Vec<
    usize,
>)
    ensures
        is_seed_selection(seed_sources@, source_set(*active_source_ids), r@),
{
    let ghost active = source_set(*active_source_ids);
    let mut picked: Vec<usize> = Vec::new();
    let mut i: usize = 0;
    while i < seed_sources.len()
        invariant
            active == source_set(*active_source_ids),
            0 <= i <= seed_sources@.len(),
            forall|k: int|
                0 <= k < picked@.len() ==> #[trigger] picked@[k] < i && active.contains(
                    seed_sources@[picked@[k] as int],
                ),
            forall|k: int, l: int| 0 <= k < l < picked@.len() ==> picked@[k] < picked@[l],
            forall|j: int|
                0 <= j < i && active.contains(#[trigger] seed_sources@[j]) ==> exists|k: int|
                    0 <= k < picked@.len() && picked@[k] == j,
        decreases seed_sources@.len() - i,
    {
        let ghost before = picked@;
        if contains_source(active_source_ids, seed_sources[i]) {
            picked.push(i);
        }
        proof {
            assert forall|j: int|
                0 <= j < i + 1 && active.contains(#[trigger] seed_sources@[j]) implies exists|k: int|
                    0 <= k < picked@.len() && picked@[k] == j by {
                if j < i {
                    let k = choose|k: int| 0 <= k < before.len() && before[k] == j;
                    assert(picked@[k] == before[k]);
                } else {
                    assert(picked@[picked@.len() - 1] == j);
                }
            }
        }
        i = i + 1;
    }
    picked
}

/// Whether the light at `pos` emits now; a position with no recorded state
/// is dark.
pub fn is_light_active(pos: &BoardPosition, behaviors: &HashMap<BoardPosition, bool>) -> (r: bool)
    ensures
        r == (emitter_states(*behaviors).contains_key(*pos) && emitter_states(*behaviors)[*pos]),
{
    match emitter_state_at(behaviors, pos) {
        Some(enabled) => enabled,
        None => false,
    }
}

/// The door states recorded by a list of observations, later observations of
/// a tile replacing earlier ones.
pub open spec fn door_map(doors: Seq<(TileKey, bool)>) -> Map<TileKey, bool>
    decreases doors.len(),
{
    if doors.len() == 0 {
        Map::empty()
    } else {
        door_map(doors.drop_last()).insert(doors.last().0, doors.last().1)
    }
}

/// Collects whether each door is open, by the tile it stands on.
pub fn collect_door_states(doors: &Vec<(TileKey, bool)>) -> (r: HashMap<TileKey, bool>)
    ensures
        door_states(r) == door_map(doors@),
{
    let mut states = new_door_map();
    let mut i: usize = 0;
    while i < doors.len()
        invariant
            0 <= i <= doors@.len(),
            door_states(states) == door_map(doors@.take(i as int)),
        decreases doors@.len() - i,
    {
        let (tile, is_open) = doors[i];
        insert_door(&mut states, tile, is_open);
        proof {
            let next = doors@.take(i + 1);
            assert(next.drop_last() == doors@.take(i as int));
            assert(next.last() == doors@[i as int]);
        }
        i = i + 1;
    }
    proof {
        assert(doors@.take(doors@.len() as int) == doors@);
    }
    states
}

/// Copies the baked light of every tile claimed by an active source into the
/// light field; other tiles keep their value. Returns the number of tiles lit.
pub fn apply_prebaked_contributions<T: Copy>(
    active_source_ids: &HashSet<u32>,
    board: &BoardData,
    baked: &Vec<T>,
    lfs: &mut Vec<T>,
) -> (r: usize)
    requires
        board.wf(),
        baked@.len() == tile_count(board.map_size),
        old(lfs)@.len() == tile_count(board.map_size),
    ensures
        final(lfs)@.len() == old(lfs)@.len(),
        forall|t: int|
            0 <= t < final(lfs)@.len() ==> #[trigger] final(lfs)@[t] == if lit_by(
                board,
                source_set(*active_source_ids),
                t,
            ) {
                baked@[t]
            } else {
                old(lfs)@[t]
            },
        r == lit_count(board, source_set(*active_source_ids), tile_count(board.map_size)),
{
    let ghost active = source_set(*active_source_ids);
    let mut tiles_lit: usize = 0;
    let mut t: usize = 0;
    let n = board.source_ids.len();
    while t < n
        invariant
            board.wf(),
            active == source_set(*active_source_ids),
            n == tile_count(board.map_size),
            baked@.len() == n,
            lfs@.len() == n,
            0 <= t <= n,
            tiles_lit <= t,
            tiles_lit == lit_count(board, active, t as int),
            forall|u: int|
                0 <= u < n ==> #[trigger] lfs@[u] == if u < t && lit_by(board, active, u) {
                    baked@[u]
                } else {
                    old(lfs)@[u]
                },
        decreases n - t,
    {
        if let Some(s) = board.source_ids[t] {
            if contains_source(active_source_ids, s) {
                let v = baked[t];
                lfs.set(t, v);
                tiles_lit = tiles_lit + 1;
            }
        }
        t = t + 1;
    }
    tiles_lit
}

/// The coordinate `c + d - 1`, for `d` in 0..3, when it lies in `0..n`.
fn neighbor_coord(c: usize, d: usize, n: usize) -> (r: Option<usize>)
    requires
        c < n,
        d < 3,
    ensures
        r == (if 0 <= c + d - 1 < n {
            Some((c + d - 1) as usize)
        } else {
            None
        }),
{
    if d == 0 {
        if c == 0 {
            None
        } else {
            Some(c - 1)
        }
    } else {
        let v = c + (d - 1);
        if v < n {
            Some(v)
        } else {
            None
        }
    }
}

/// Whether the tile (i, j, k) or one of its 26 surrounding tiles is claimed
/// by an active source.
pub fn has_active_light_nearby(
    board: &BoardData,
    active_source_ids: &HashSet<u32>,
    i: usize,
    j: usize,
    k: usize,
) -> (r: bool)
    requires
        board.wf(),
        i < board.map_size.0,
        j < board.map_size.1,
        k < board.map_size.2,
    ensures
        r == exists|dx: int, dy: int, dz: int|
            -1 <= dx <= 1 && -1 <= dy <= 1 && -1 <= dz <= 1 && #[trigger] lit_tile(
                board,
                source_set(*active_source_ids),
                i + dx,
                j + dy,
                k + dz,
            ),
{
    let ghost active = source_set(*active_source_ids);
    let mut a: usize = 0;
    while a < 3
        invariant
            board.wf(),
            active == source_set(*active_source_ids),
            i < board.map_size.0,
            j < board.map_size.1,
            k < board.map_size.2,
            a <= 3,
            forall|dx: int, dy: int, dz: int|
                -1 <= dx < a - 1 && -1 <= dy <= 1 && -1 <= dz <= 1 ==> !#[trigger] lit_tile(
                    board,
                    active,
                    i + dx,
                    j + dy,
                    k + dz,
                ),
        decreases 3 - a,
    {
        let mut b: usize = 0;
        while b < 3
            invariant
                board.wf(),
                active == source_set(*active_source_ids),
                i < board.map_size.0,
                j < board.map_size.1,
                k < board.map_size.2,
                a < 3,
                b <= 3,
                forall|dx: int, dy: int, dz: int|
                    -1 <= dx < a - 1 && -1 <= dy <= 1 && -1 <= dz <= 1 ==> !#[trigger] lit_tile(
                        board,
                        active,
                        i + dx,
                        j + dy,
                        k + dz,
                    ),
                forall|dy: int, dz: int|
                    -1 <= dy < b - 1 && -1 <= dz <= 1 ==> !#[trigger] lit_tile(
                        board,
                        active,
                        i + (a - 1),
                        j + dy,
                        k + dz,
                    ),
            decreases 3 - b,
        {
            let mut c: usize = 0;
            while c < 3
                invariant
                    board.wf(),
                    active == source_set(*active_source_ids),
                    i < board.map_size.0,
                    j < board.map_size.1,
                    k < board.map_size.2,
                    a < 3,
                    b < 3,
                    c <= 3,
                    forall|dx: int, dy: int, dz: int|
                        -1 <= dx < a - 1 && -1 <= dy <= 1 && -1 <= dz <= 1 ==> !#[trigger] lit_tile(
                            board,
                            active,
                            i + dx,
                            j + dy,
                            k + dz,
                        ),
                    forall|dy: int, dz: int|
                        -1 <= dy < b - 1 && -1 <= dz <= 1 ==> !#[trigger] lit_tile(
                            board,
                            active,
                            i + (a - 1),
                            j + dy,
                            k + dz,
                        ),
                    forall|dz: int|
                        -1 <= dz < c - 1 ==> !#[trigger] lit_tile(
                            board,
                            active,
                            i + (a - 1),
                            j + (b - 1),
                            k + dz,
                        ),
                decreases 3 - c,
            {
                let ox = neighbor_coord(i, a, board.map_size.0);
                let oy = neighbor_coord(j, b, board.map_size.1);
                let oz = neighbor_coord(k, c, board.map_size.2);
                let mut hit = false;
                if let Some(x) = ox {
                    if let Some(y) = oy {
                        if let Some(z) = oz {
                            let t = board.index_of(x, y, z);
                            if let Some(s) = board.source_ids[t] {
                                hit = contains_source(active_source_ids, s);
                            }
                        }
                    }
                }
                assert(hit == lit_tile(board, active, i + (a - 1), j + (b - 1), k + (c - 1)));
                if hit {
                    return true;
                }
                c = c + 1;
            }
            assert forall|dy: int, dz: int|
                -1 <= dy < b && -1 <= dz <= 1 implies !#[trigger] lit_tile(
                    board,
                    active,
                    i + (a - 1),
                    j + dy,
                    k + dz,
                ) by {
                if dy == b - 1 {
                    assert(!lit_tile(board, active, i + (a - 1), j + (b - 1), k + dz));
                }
            }
            b = b + 1;
        }
        assert forall|dx: int, dy: int, dz: int|
            -1 <= dx < a && -1 <= dy <= 1 && -1 <= dz <= 1 implies !#[trigger] lit_tile(
                board,
                active,
                i + dx,
                j + dy,
                k + dz,
            ) by {
            if dx == a - 1 {
                assert(!lit_tile(board, active, i + (a - 1), j + dy, k + dz));
            }
        }
        a = a + 1;
    }
    false
}

/// A list of the baked wave-edge tiles of the sources in `active`, each once,
/// in flat index order, with their position and source.
pub open spec fn is_wave_edge_list(board: &BoardData, active: Set<u32>, r: Seq<WaveEdgeTile>) -> bool {
    &&& forall|q: int|
        0 <= q < r.len() ==> {
            let w = #[trigger] r[q];
            &&& 0 <= w.tile < tile_count(board.map_size)
            &&& is_active_wave_edge(board, active, w.tile as int)
            &&& board.source_at(w.tile as int) == Some(w.source_id)
            &&& in_bounds(pos_tuple(w.position), board.map_size)
            &&& tile_index(w.position.x as int, w.position.y as int, w.position.z as int, board.map_size)
                == w.tile
        }
    &&& forall|p: int, q: int| 0 <= p < q < r.len() ==> r[p].tile < r[q].tile
    &&& forall|t: int|
        0 <= t < tile_count(board.map_size) && is_active_wave_edge(board, active, t) ==> exists|q: int|
            0 <= q < r.len() && #[trigger] r[q].tile == t
}

/// The wave-edge tiles are determined by the board and the active sources.
pub proof fn lemma_wave_edge_list_unique(
    board: &BoardData,
    active: Set<u32>,
    a: Seq<WaveEdgeTile>,
    b: Seq<WaveEdgeTile>,
)
    requires
        is_wave_edge_list(board, active, a),
        is_wave_edge_list(board, active, b),
    ensures
        a == b,
{
    let ta = a.map_values(|w: WaveEdgeTile| w.tile as int);
    let tb = b.map_values(|w: WaveEdgeTile| w.tile as int);
    assert forall|v: int| ta.contains(v) <==> tb.contains(v) by {
        if ta.contains(v) {
            let k = choose|k: int| 0 <= k < ta.len() && ta[k] == v;
            assert(a[k].tile == v);
            let m = choose|m: int| 0 <= m < b.len() && #[trigger] b[m].tile == v;
            assert(tb[m] == v);
        }
        if tb.contains(v) {
            let k = choose|k: int| 0 <= k < tb.len() && tb[k] == v;
            assert(b[k].tile == v);
            let m = choose|m: int| 0 <= m < a.len() && #[trigger] a[m].tile == v;
            assert(ta[m] == v);
        }
    }
    lemma_increasing_unique(ta, tb);
    assert forall|k: int| 0 <= k < a.len() implies a[k] == b[k] by {
        assert(ta[k] == tb[k]);
        let (p, q) = (a[k], b[k]);
        lemma_tile_index_injective(
            p.position.x as int,
            p.position.y as int,
            p.position.z as int,
            q.position.x as int,
            q.position.y as int,
            q.position.z as int,
            board.map_size,
        );
    }
    assert(a =~= b);
}

/// The baked wave-edge tiles of the active sources, in flat index order.
pub fn find_wave_edge_tiles(board: &BoardData, active_source_ids: &HashSet<u32>) -> (r: Vec<
    WaveEdgeTile,
>)
    requires
        board.wf(),
    ensures
        is_wave_edge_list(board, source_set(*active_source_ids), r@),
{
    let ghost active = source_set(*active_source_ids);
    let ghost size = board.map_size;
    let n = board.source_ids.len();
    let mut wave_edges: Vec<WaveEdgeTile> = Vec::new();
    let mut x: usize = 0;
    let mut y: usize = 0;
    let mut z: usize = 0;
    let mut t: usize = 0;
    proof {
        if n > 0 {
            assert(size.0 > 0 && size.1 > 0 && size.2 > 0) by (nonlinear_arith)
                requires
                    size.0 * size.1 * size.2 > 0,
            ;
            assert(tile_index(0, 0, 0, size) == 0) by (nonlinear_arith);
        }
    }
    while t < n
        invariant
            board.wf(),
            active == source_set(*active_source_ids),
            size == board.map_size,
            n == tile_count(size),
            0 <= t <= n,
            t < n ==> x < size.0 && y < size.1 && z < size.2 && t == tile_index(
                x as int,
                y as int,
                z as int,
                size,
            ),
            forall|q: int|
                0 <= q < wave_edges@.len() ==> {
                    let w = #[trigger] wave_edges@[q];
                    &&& 0 <= w.tile < t
                    &&& is_active_wave_edge(board, active, w.tile as int)
                    &&& board.source_at(w.tile as int) == Some(w.source_id)
                    &&& in_bounds(pos_tuple(w.position), size)
                    &&& tile_index(
                        w.position.x as int,
                        w.position.y as int,
                        w.position.z as int,
                        size,
                    ) == w.tile
                },
            forall|p: int, q: int|
                0 <= p < q < wave_edges@.len() ==> wave_edges@[p].tile < wave_edges@[q].tile,
            forall|u: int|
                0 <= u < t && is_active_wave_edge(board, active, u) ==> exists|q: int|
                    0 <= q < wave_edges@.len() && #[trigger] wave_edges@[q].tile == u,
        decreases n - t,
    {
        proof {
            lemma_tile_index_bounds(x as int, y as int, z as int, size);
        }
        let ghost found = wave_edges@;
        if board.wave_edges[t] {
            if let Some(s) = board.source_ids[t] {
                if contains_source(active_source_ids, s) {
                    let w = WaveEdgeTile {
                        position: BoardPosition { x: x as i64, y: y as i64, z: z as i64 },
                        tile: t,
                        source_id: s,
                    };
                    wave_edges.push(w);
                }
            }
        }
        proof {
            lemma_tile_index_next(x as int, y as int, z as int, size);
            assert forall|u: int|
                0 <= u < t + 1 && is_active_wave_edge(board, active, u) implies exists|q: int|
                    0 <= q < wave_edges@.len() && #[trigger] wave_edges@[q].tile == u by {
                if u < t {
                    let q = choose|q: int| 0 <= q < found.len() && #[trigger] found[q].tile == u;
                    assert(wave_edges@[q] == found[q]);
                } else {
                    assert(wave_edges@[wave_edges@.len() - 1].tile == u);
                }
            }
        }
        t = t + 1;
        if z + 1 < board.map_size.2 {
            z = z + 1;
        } else if y + 1 < board.map_size.1 {
            z = 0;
            y = y + 1;
        } else {
            z = 0;
            y = 0;
            x = x + 1;
        }
    }
    wave_edges
}

} // verus!
