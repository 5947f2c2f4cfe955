use bevy_platform::collections::{HashMap, HashSet};
use unlight::grid::{is_in_bounds, BoardPosition, CollisionInfo, BoardData};
use unlight::propagation::{
    allowed_directions, direction_delta, step_candidates, transparency_kind, TransparencyKind,
    STAIR_SOURCE_ID,
};
use unlight::sources::{
    active_seed_indices, apply_prebaked_contributions, collect_door_states, find_wave_edge_tiles,
    has_active_light_nearby, identify_active_light_sources, is_light_active, LightEmitter,
};
use unlight::stairs::{stair_links, stair_target};

fn floor() -> CollisionInfo {
    CollisionInfo { see_through: true, player_free: true, is_dynamic: false, stair_offset: 0 }
}

fn wall() -> CollisionInfo {
    CollisionInfo { see_through: false, player_free: false, is_dynamic: false, stair_offset: 0 }
}

fn door() -> CollisionInfo {
    CollisionInfo { see_through: true, player_free: true, is_dynamic: true, stair_offset: 0 }
}

fn open_board(size: (usize, usize, usize), sources: Vec<Option<u32>>) -> BoardData {
    let n = size.0 * size.1 * size.2;
    BoardData::new(size, vec![floor(); n], sources, vec![false; n], vec![]).unwrap()
}

fn set_of(ids: &[u32]) -> HashSet<u32> {
    let mut s = HashSet::new();
    for id in ids {
        s.insert(*id);
    }
    s
}

#[test]
fn bounds_checks() {
    assert!(is_in_bounds((0, 0, 0), (2, 3, 1)));
    assert!(is_in_bounds((1, 2, 0), (2, 3, 1)));
    assert!(!is_in_bounds((2, 0, 0), (2, 3, 1)));
    assert!(!is_in_bounds((0, 3, 0), (2, 3, 1)));
    assert!(!is_in_bounds((0, 0, 1), (2, 3, 1)));
    assert!(!is_in_bounds((-1, 0, 0), (2, 3, 1)));
    assert!(!is_in_bounds((0, 0, 0), (0, 0, 0)));
}

#[test]
fn board_rejects_mismatched_tables() {
    assert!(BoardData::new((2, 2, 1), vec![floor(); 3], vec![None; 4], vec![false; 4], vec![]).is_none());
    assert!(BoardData::new((2, 2, 1), vec![floor(); 4], vec![None; 4], vec![false; 4], vec![vec![[true; 4]; 3]]).is_none());
    assert!(BoardData::new((usize::MAX, 2, 1), vec![], vec![], vec![], vec![]).is_none());
    let b = BoardData::new((2, 2, 1), vec![floor(); 4], vec![None; 4], vec![false; 4], vec![vec![[true; 4]; 4]]).unwrap();
    assert_eq!(b.index_of(1, 1, 0), 3);
}

#[test]
fn row_major_index() {
    let b = open_board((2, 3, 4), vec![None; 24]);
    assert_eq!(b.index_of(0, 0, 0), 0);
    assert_eq!(b.index_of(0, 0, 3), 3);
    assert_eq!(b.index_of(0, 1, 0), 4);
    assert_eq!(b.index_of(1, 0, 0), 12);
    assert_eq!(b.index_of(1, 2, 3), 23);
}

#[test]
fn active_sources_need_emission_and_a_baked_source() {
    // 3x1x1 board: tile 0 baked for source 1, tile 1 for source 2, tile 2 unclaimed.
    let b = open_board((3, 1, 1), vec![Some(1), Some(2), None]);
    let emitters = vec![
        LightEmitter { tile: (0, 0, 0), emitting: Some(true) },
        LightEmitter { tile: (1, 0, 0), emitting: Some(false) },
        LightEmitter { tile: (2, 0, 0), emitting: Some(true) },
        LightEmitter { tile: (7, 0, 0), emitting: Some(true) },
    ];
    let active = identify_active_light_sources(&b, &emitters);
    assert_eq!(active.len(), 1);
    assert!(active.contains(&1));
    assert!(!active.contains(&2));
}

#[test]
fn despawned_emitter_is_inactive() {
    let b = open_board((2, 1, 1), vec![Some(1), Some(2)]);
    let emitters = vec![
        LightEmitter { tile: (0, 0, 0), emitting: None },
        LightEmitter { tile: (1, 0, 0), emitting: Some(true) },
    ];
    let active = identify_active_light_sources(&b, &emitters);
    assert!(!active.contains(&1));
    assert!(active.contains(&2));
}

#[test]
fn active_sources_ignore_emitter_order() {
    let b = open_board((3, 1, 1), vec![Some(1), Some(2), Some(3)]);
    let mut emitters = vec![
        LightEmitter { tile: (0, 0, 0), emitting: Some(true) },
        LightEmitter { tile: (1, 0, 0), emitting: Some(false) },
        LightEmitter { tile: (2, 0, 0), emitting: Some(true) },
    ];
    let a = identify_active_light_sources(&b, &emitters);
    emitters.reverse();
    let r = identify_active_light_sources(&b, &emitters);
    assert_eq!(a, r);
}

#[test]
fn light_activity_lookup() {
    let mut behaviors = HashMap::new();
    let p = BoardPosition { x: 1, y: 2, z: 0 };
    let q = BoardPosition { x: 3, y: 2, z: 0 };
    behaviors.insert(p, true);
    behaviors.insert(q, false);
    assert!(is_light_active(&p, &behaviors));
    assert!(!is_light_active(&q, &behaviors));
    assert!(!is_light_active(&BoardPosition { x: 0, y: 0, z: 0 }, &behaviors));
}

#[test]
fn prebaked_contributions_copy_active_tiles_only() {
    let b = open_board((4, 1, 1), vec![Some(1), Some(2), None, Some(1)]);
    let baked: Vec<(f32, (f32, f32, f32))> = vec![
        (10.0, (1.0, 0.5, 0.5)),
        (3.0, (0.2, 0.2, 1.0)),
        (7.0, (1.0, 1.0, 1.0)),
        (2.5, (1.0, 0.5, 0.5)),
    ];
    let mut field = vec![(0.0f32, (0.0f32, 0.0f32, 0.0f32)); 4];
    let lit = apply_prebaked_contributions(&set_of(&[1]), &b, &baked, &mut field);
    assert_eq!(lit, 2);
    assert_eq!(field[0], (10.0, (1.0, 0.5, 0.5)));
    assert_eq!(field[1], (0.0, (0.0, 0.0, 0.0)));
    assert_eq!(field[2], (0.0, (0.0, 0.0, 0.0)));
    assert_eq!(field[3], (2.5, (1.0, 0.5, 0.5)));
}

#[test]
fn no_active_sources_leave_field_dark() {
    let b = open_board((2, 2, 1), vec![Some(1), Some(2), Some(3), None]);
    let baked = vec![5.0f32; 4];
    let mut field = vec![0.0f32; 4];
    let lit = apply_prebaked_contributions(&set_of(&[]), &b, &baked, &mut field);
    assert_eq!(lit, 0);
    assert!(field.iter().all(|l| *l == 0.0));
}

#[test]
fn nearby_light_checks_the_surrounding_cube() {
    // 3x3x2 board, one tile of source 4 at (2, 2, 1).
    let mut sources = vec![None; 18];
    sources[(2 * 3 + 2) * 2 + 1] = Some(4);
    let b = open_board((3, 3, 2), sources);
    let active = set_of(&[4]);
    assert!(has_active_light_nearby(&b, &active, 1, 1, 0));
    assert!(has_active_light_nearby(&b, &active, 2, 2, 1));
    assert!(!has_active_light_nearby(&b, &active, 0, 0, 0));
    assert!(!has_active_light_nearby(&b, &active, 0, 2, 1));
    assert!(!has_active_light_nearby(&b, &set_of(&[5]), 1, 1, 0));
}

#[test]
fn wave_edge_tiles_of_active_sources() {
    let size = (2, 2, 1);
    let sources = vec![Some(1), Some(2), Some(1), None];
    let edges = vec![true, true, false, true];
    let b = BoardData::new(size, vec![floor(); 4], sources, edges, vec![]).unwrap();
    let found = find_wave_edge_tiles(&b, &set_of(&[1, 2]));
    assert_eq!(found.len(), 2);
    assert_eq!(found[0].tile, 0);
    assert_eq!(found[0].source_id, 1);
    assert_eq!(found[0].position, BoardPosition { x: 0, y: 0, z: 0 });
    assert_eq!(found[1].tile, 1);
    assert_eq!(found[1].source_id, 2);
    assert_eq!(found[1].position, BoardPosition { x: 0, y: 1, z: 0 });
    let only_two = find_wave_edge_tiles(&b, &set_of(&[2]));
    assert_eq!(only_two.len(), 1);
    assert_eq!(only_two[0].tile, 1);
}

#[test]
fn seeds_of_active_sources_keep_their_order() {
    let seeds = vec![3, 1, 0, 3, 2];
    assert_eq!(active_seed_indices(&seeds, &set_of(&[3, 0])), vec![0, 2, 3]);
    assert_eq!(active_seed_indices(&seeds, &set_of(&[])), Vec::<usize>::new());
}

#[test]
fn transparency_rules() {
    assert_eq!(transparency_kind(false, &floor()), TransparencyKind::Clear);
    assert_eq!(transparency_kind(false, &door()), TransparencyKind::Translucent);
    assert_eq!(transparency_kind(false, &wall()), TransparencyKind::Opaque);
    let table = CollisionInfo { see_through: true, player_free: false, is_dynamic: false, stair_offset: 0 };
    assert_eq!(transparency_kind(false, &table), TransparencyKind::Translucent);
    assert_eq!(transparency_kind(true, &floor()), TransparencyKind::StairOpen);
    assert_eq!(transparency_kind(true, &wall()), TransparencyKind::StairBlocked);
}

#[test]
fn direction_offsets() {
    assert_eq!(direction_delta(0), (0, -1));
    assert_eq!(direction_delta(1), (0, 1));
    assert_eq!(direction_delta(2), (-1, 0));
    assert_eq!(direction_delta(3), (1, 0));
}

#[test]
fn direction_masks() {
    let size = (2, 2, 1);
    let mask = vec![vec![[true; 4]; 4], vec![[true, false, true, false]; 4]];
    let b = BoardData::new(size, vec![floor(); 4], vec![None; 4], vec![false; 4], mask).unwrap();
    assert_eq!(allowed_directions(&b, 1, BoardPosition { x: 1, y: 0, z: 0 }), Some([true, false, true, false]));
    assert_eq!(allowed_directions(&b, 2, BoardPosition { x: 1, y: 0, z: 0 }), None);
    assert_eq!(allowed_directions(&b, 1, BoardPosition { x: 2, y: 0, z: 0 }), None);
    assert_eq!(allowed_directions(&b, STAIR_SOURCE_ID, BoardPosition { x: 9, y: 9, z: 0 }), Some([true; 4]));
}

#[test]
fn corner_source_spreads_in_bounds_only() {
    // A stair packet at the corner (0, 0) of a 3x3 floor: north and west are
    // off the board.
    let b = open_board((3, 3, 1), vec![None; 9]);
    let c = step_candidates(&b, STAIR_SOURCE_ID, BoardPosition { x: 0, y: 0, z: 0 });
    assert_eq!(c.len(), 2);
    assert_eq!(c[0].direction, 1);
    assert_eq!(c[0].position, BoardPosition { x: 0, y: 1, z: 0 });
    assert_eq!(c[0].tile, 1);
    assert_eq!(c[1].direction, 3);
    assert_eq!(c[1].position, BoardPosition { x: 1, y: 0, z: 0 });
    assert_eq!(c[1].tile, 3);
    // A 1x1 board leaves nowhere to go.
    let single = open_board((1, 1, 1), vec![None]);
    assert!(step_candidates(&single, STAIR_SOURCE_ID, BoardPosition { x: 0, y: 0, z: 0 }).is_empty());
}

#[test]
fn enclosed_source_reaches_walls_as_opaque() {
    // Source 1 at the centre of a 3x3 floor surrounded by walls.
    let mut collision = vec![wall(); 9];
    collision[4] = floor();
    let mut sources = vec![None; 9];
    sources[4] = Some(1);
    let mask = vec![vec![[true; 4]; 9], vec![[true; 4]; 9]];
    let b = BoardData::new((3, 3, 1), collision, sources, vec![false; 9], mask).unwrap();
    let c = step_candidates(&b, 1, BoardPosition { x: 1, y: 1, z: 0 });
    assert_eq!(c.len(), 4);
    assert!(c.iter().all(|s| s.kind == TransparencyKind::Opaque));
    let tiles: Vec<usize> = c.iter().map(|s| s.tile).collect();
    assert_eq!(tiles, vec![3, 5, 1, 7]);
}

#[test]
fn open_door_lets_light_into_dark_room() {
    // Row of tiles along x: lit tile of source 1, door, dark room tile.
    let collision = vec![floor(), door(), floor()];
    let sources = vec![Some(1), None, None];
    let mask = vec![vec![[true; 4]; 3], vec![[true; 4]; 3]];
    let b = BoardData::new((3, 1, 1), collision, sources, vec![true, false, false], mask).unwrap();
    let at_edge = step_candidates(&b, 1, BoardPosition { x: 0, y: 0, z: 0 });
    assert_eq!(at_edge.len(), 1);
    assert_eq!(at_edge[0].tile, 1);
    assert_eq!(at_edge[0].kind, TransparencyKind::Translucent);
    let past_door = step_candidates(&b, 1, BoardPosition { x: 1, y: 0, z: 0 });
    assert_eq!(past_door.len(), 1);
    assert_eq!(past_door[0].tile, 2);
    assert_eq!(past_door[0].kind, TransparencyKind::Clear);
}

#[test]
fn baked_tiles_of_same_source_are_skipped() {
    let sources = vec![Some(1), Some(1), Some(2)];
    let mask = vec![vec![[true; 4]; 3], vec![[true; 4]; 3], vec![[true; 4]; 3]];
    let b = BoardData::new((3, 1, 1), vec![floor(); 3], sources, vec![false; 3], mask).unwrap();
    let from_one = step_candidates(&b, 1, BoardPosition { x: 1, y: 0, z: 0 });
    assert_eq!(from_one.len(), 1);
    assert_eq!(from_one[0].tile, 2);
    // Stair packets are not held back by baked ownership.
    let from_stair = step_candidates(&b, STAIR_SOURCE_ID, BoardPosition { x: 1, y: 0, z: 0 });
    assert_eq!(from_stair.len(), 2);
}

#[test]
fn stairs_link_floors() {
    // 1x2x3 board: a stair up at (0, 0, 0), a stair down at (0, 1, 2), and a
    // stair at (0, 1, 0) that points below the board.
    let mut collision = vec![floor(); 6];
    collision[0].stair_offset = 1;
    collision[5].stair_offset = -2;
    collision[3].stair_offset = -1;
    let b = BoardData::new((1, 2, 3), collision, vec![None; 6], vec![false; 6], vec![]).unwrap();
    let links = stair_links(&b);
    assert_eq!(links.len(), 2);
    assert_eq!(links[0].from_tile, 0);
    assert_eq!(links[0].to_tile, 1);
    assert_eq!(links[0].to, BoardPosition { x: 0, y: 0, z: 1 });
    assert_eq!(links[1].from_tile, 5);
    assert_eq!(links[1].to_tile, 3);
    assert_eq!(links[1].to, BoardPosition { x: 0, y: 1, z: 0 });
    assert!(stair_target(&b, 0, 1, 0).is_none());
    assert!(stair_target(&b, 0, 0, 1).is_none());
}

#[test]
fn door_states_keep_the_latest_observation() {
    let doors = vec![((1, 2, 0), false), ((3, 0, 1), true), ((1, 2, 0), true)];
    let states = collect_door_states(&doors);
    assert_eq!(states.len(), 2);
    assert_eq!(states.get(&(1, 2, 0)), Some(&true));
    assert_eq!(states.get(&(3, 0, 1)), Some(&true));
    assert_eq!(states.get(&(0, 0, 0)), None);
    assert!(collect_door_states(&vec![]).is_empty());
}
