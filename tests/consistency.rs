use bevy_platform::collections::HashSet;
use unlight::grid::{BoardPosition, CollisionInfo, BoardData};
use unlight::propagation::step_candidates;
use unlight::sources::{apply_prebaked_contributions, identify_active_light_sources, LightEmitter};
use unlight::stairs::stair_links;

fn board() -> BoardData {
    let open = CollisionInfo { see_through: true, player_free: true, is_dynamic: false, stair_offset: 0 };
    let mut collision = vec![open; 8];
    collision[0].stair_offset = 1;
    let sources = vec![Some(1), None, Some(2), None, Some(1), None, None, None];
    let mask = vec![vec![[true; 4]; 4], vec![[true; 4]; 4], vec![[true, false, true, false]; 4]];
    BoardData::new((2, 2, 2), collision, sources, vec![true; 8], mask).unwrap()
}

/// Repeated runs on identical inputs give identical results.
#[test]
fn test_system_consistency() {
    let emitters = vec![
        LightEmitter { tile: (0, 0, 0), emitting: Some(true) },
        LightEmitter { tile: (0, 1, 0), emitting: Some(true) },
    ];
    let baked: Vec<f32> = vec![10.0, 0.0, 4.0, 0.0, 2.5, 0.0, 0.0, 0.0];
    for _ in 0..10 {
        let b1 = board();
        let b2 = board();
        let a1: HashSet<u32> = identify_active_light_sources(&b1, &emitters);
        let a2: HashSet<u32> = identify_active_light_sources(&b2, &emitters);
        assert_eq!(a1, a2);
        let mut f1 = vec![0.0f32; 8];
        let mut f2 = vec![0.0f32; 8];
        assert_eq!(
            apply_prebaked_contributions(&a1, &b1, &baked, &mut f1),
            apply_prebaked_contributions(&a2, &b2, &baked, &mut f2)
        );
        assert_eq!(f1, f2);
        let p = BoardPosition { x: 1, y: 0, z: 1 };
        assert_eq!(step_candidates(&b1, 1, p), step_candidates(&b2, 1, p));
        assert_eq!(stair_links(&b1), stair_links(&b2));
    }
}
