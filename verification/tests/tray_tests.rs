use critters_core::config::{ShapeId, SHAPE_COUNT};
use critters_core::rng::{Rng, DRAW_RANGE};
use critters_core::tray::{all_shapes, flat_pool, flat_spec, new_spec, pick_with};

#[test]
fn weighted_pick_covers_the_whole_pool() {
    let mut rng = Rng::seeded(2024);
    let mut seen = std::collections::HashSet::new();
    for _ in 0..2000 {
        seen.insert(new_spec(&mut rng).def().name);
    }
    for s in all_shapes() {
        assert!(seen.contains(s.def().name), "{} never offered", s.def().name);
    }
    for _ in 0..200 {
        let f = flat_spec(&mut rng).def();
        assert!(!f.big);
        assert!(matches!(
            f.kind,
            critters_core::config::ShapeKind::Rect { .. } | critters_core::config::ShapeKind::Trap { .. }
        ));
    }
}

#[test]
fn draws_walk_down_the_cumulative_weights() {
    let all = all_shapes();
    assert_eq!(all.len(), SHAPE_COUNT);
    // total weight 158 tenths; the log takes the first 30/158 of the range
    assert_eq!(pick_with(0, &all), ShapeId::Log);
    let log_end = (30u128 * DRAW_RANGE as u128 / 158) as u64;
    assert_eq!(pick_with(log_end, &all), ShapeId::Log);
    assert_eq!(pick_with(log_end + 1, &all), ShapeId::Block);
    assert_eq!(pick_with(DRAW_RANGE - 1, &all), ShapeId::GreatStump);
    let flat = flat_pool();
    assert_eq!(flat, vec![ShapeId::Log, ShapeId::Block, ShapeId::Plank, ShapeId::Stump]);
    assert_eq!(pick_with(DRAW_RANGE - 1, &flat), ShapeId::Stump);
    assert_eq!(pick_with(DRAW_RANGE / 2, &flat), ShapeId::Block);
}
