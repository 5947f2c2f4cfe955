use unlight::connectivity::TemperatureDiffusionConfig;
use unlight::grid::{BoardData, BoardPosition, CollisionInfo};

fn tile(see_through: bool, player_free: bool) -> CollisionInfo {
    CollisionInfo { see_through, player_free, is_dynamic: false, stair_offset: 0 }
}

fn open_floor(nx: usize, ny: usize) -> BoardData {
    let n = nx * ny;
    BoardData::new((nx, ny, 1), vec![tile(true, true); n], vec![None; n], vec![false; n], vec![])
        .unwrap()
}

#[test]
fn default_diffusion_config() {
    let c = TemperatureDiffusionConfig::default();
    assert_eq!(c.min_score, 1);
    assert_eq!(c.max_score, 32);
    assert_eq!(c.default_score, 16);
    assert_eq!(c.stair_score, 1);
    assert_eq!(c.door_score, 32);
}

#[test]
fn new_board_starts_with_score_eight() {
    let b = open_floor(2, 3);
    assert_eq!(b.connectivity_scores, vec![8u8; 6]);
    assert_eq!(b.temp_diffusion_config, TemperatureDiffusionConfig::default());
}

#[test]
fn passable_tiles() {
    let mut collision = vec![tile(true, true); 3];
    collision[1] = tile(false, false);
    collision[2] = tile(false, true);
    let b = BoardData::new((3, 1, 1), collision, vec![None; 3], vec![false; 3], vec![]).unwrap();
    assert!(b.is_position_passable(BoardPosition { x: 0, y: 0, z: 0 }));
    assert!(!b.is_position_passable(BoardPosition { x: 1, y: 0, z: 0 }));
    assert!(b.is_position_passable(BoardPosition { x: 2, y: 0, z: 0 }));
    assert!(!b.is_position_passable(BoardPosition { x: 3, y: 0, z: 0 }));
    assert!(!b.is_position_passable(BoardPosition { x: -1, y: 0, z: 0 }));
}

#[test]
fn scores_of_an_open_floor() {
    let b = open_floor(3, 3);
    // Centre: four passable neighbours, each with three passable neighbours.
    assert_eq!(b.calculate_connectivity_score(BoardPosition { x: 1, y: 1, z: 0 }), 4 + 4 * 3);
    // Corner: two neighbours (edge tiles), each with three passable neighbours.
    assert_eq!(b.calculate_connectivity_score(BoardPosition { x: 0, y: 0, z: 0 }), 2 + 2 * 3);
    // Off the board.
    assert_eq!(b.calculate_connectivity_score(BoardPosition { x: 5, y: 0, z: 0 }), 32);
}

#[test]
fn special_tiles_get_fixed_scores() {
    let mut collision = vec![tile(true, true); 4];
    collision[0].stair_offset = 1;
    collision[1].is_dynamic = true;
    collision[2] = tile(false, false);
    let b = BoardData::new((4, 1, 1), collision, vec![None; 4], vec![false; 4], vec![]).unwrap();
    assert_eq!(b.calculate_connectivity_score(BoardPosition { x: 0, y: 0, z: 0 }), 1);
    assert_eq!(b.calculate_connectivity_score(BoardPosition { x: 1, y: 0, z: 0 }), 32);
    assert_eq!(b.calculate_connectivity_score(BoardPosition { x: 2, y: 0, z: 0 }), 32);
    // Last tile: its only neighbour is the wall, which is not passable.
    assert_eq!(b.calculate_connectivity_score(BoardPosition { x: 3, y: 0, z: 0 }), 0);
}

#[test]
fn precomputed_scores_match_single_scores() {
    let mut b = open_floor(3, 2);
    b.precompute_connectivity_scores();
    for x in 0..3i64 {
        for y in 0..2i64 {
            let p = BoardPosition { x, y, z: 0 };
            let t = b.index_of(x as usize, y as usize, 0);
            assert_eq!(b.connectivity_scores[t], b.calculate_connectivity_score(p));
        }
    }
    // Corner (0, 0) of a 3x2 floor: neighbours (1, 0) with 3 passable
    // neighbours and (0, 1) with 2.
    assert_eq!(b.connectivity_scores[0], 2 + 3 + 2);
}
