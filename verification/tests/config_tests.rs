use critters_core::config::{
    hex_rgb8, palette, shapes, sky, slot_background, tier, tiers, Critter, ShapeId, ShapeKind,
    SHAPE_COUNT, SKY_COUNT, TIER_COUNT, TRAY_HEIGHT,
};

#[test]
fn shape_table_matches_original_points_and_pairings() {
    let expect = [
        ("log", Critter::Squirrel, 200),
        ("block", Critter::Bunny, 200),
        ("plank", Critter::Owl, 300),
        ("wedge", Critter::Fox, 400),
        ("stump", Critter::Frog, 300),
        ("log end", Critter::Raccoon, 300),
        ("round log", Critter::Hedgehog, 500),
        ("great log", Critter::Bear, 1000),
        ("trunk", Critter::Wolf, 800),
        ("great stump", Critter::Deer, 600),
    ];
    let table = shapes();
    for (shape, (name, critter, points)) in table.iter().zip(expect) {
        assert_eq!(shape.name, name);
        assert_eq!(shape.critter, critter);
        assert_eq!(shape.points, points);
    }
    assert_eq!(table.iter().filter(|s| s.big).count(), 3);
}

#[test]
fn hex_decodes_css_literals() {
    let (r, g, b) = hex_rgb8(0xa9744f);
    assert!((r as f32 / 255.0 - 0xa9 as f32 / 255.0).abs() < 1e-6);
    assert!((g as f32 / 255.0 - 0x74 as f32 / 255.0).abs() < 1e-6);
    assert!((b as f32 / 255.0 - 0x4f as f32 / 255.0).abs() < 1e-6);
    assert_eq!((r, g, b), (0xa9, 0x74, 0x4f));
}

#[test]
fn tiers_are_ascending() {
    let t = tiers();
    for pair in t.windows(2) {
        assert!(pair[0].at_m < pair[1].at_m);
    }
    assert_eq!(TRAY_HEIGHT, 137);
}

#[test]
fn tier_table_names_and_heights() {
    assert_eq!(TIER_COUNT, 6);
    assert_eq!(tier(0).name, "Forest Floor");
    assert_eq!(tier(1).at_m, 4);
    assert_eq!(tier(2).name, "Open Sky!");
    assert_eq!(tier(3).icon, "\u{2601}\u{FE0F}");
    assert_eq!(tier(5).at_m, 40);
    assert_eq!(tier(5).name, "Outer Space!");
}

#[test]
fn critter_names_are_lower_case() {
    assert_eq!(Critter::Bunny.name(), "bunny");
    assert_eq!(Critter::Hedgehog.name(), "hedgehog");
    assert_eq!(Critter::Deer.name(), "deer");
}

#[test]
fn shape_ids_follow_the_table_order() {
    for i in 0..SHAPE_COUNT {
        assert_eq!(ShapeId::at(i).index(), i);
    }
    let log = ShapeId::Log.def();
    assert_eq!(log.kind, ShapeKind::Rect { w: 120, h: 36 });
    assert_eq!(log.color, 0xa9744f);
    assert_eq!(ShapeId::LogEnd.def().weight_tenths, 15);
    assert_eq!(ShapeId::GreatStump.def().kind, ShapeKind::Trap { w: 150, top: 104, h: 66 });
    assert!(ShapeId::Stump.is_flat());
    assert!(!ShapeId::Wedge.is_flat());
    assert!(!ShapeId::Trunk.is_flat());
}

#[test]
fn palettes_keep_the_defaults_they_do_not_set() {
    let owl = palette(Critter::Owl);
    assert_eq!(owl.iris, Some(0xf2b632));
    assert_eq!(owl.ring, 0x5a4030);
    assert_eq!(owl.mask, 0x3a2718);
    let bunny = palette(Critter::Bunny);
    assert_eq!(bunny.iris, None);
    assert_eq!(bunny.body, 0xf4f1ea);
    assert_eq!(bunny.tail, 0x3a2718);
    assert_eq!(palette(Critter::Deer).antler, 0x7a5230);
}

#[test]
fn sky_stops_and_slot_colours() {
    assert_eq!(SKY_COUNT, 6);
    assert_eq!(sky(0), (0, 0x9fd3a8, 0xe6efc4));
    assert_eq!(sky(5).0, 45);
    assert_eq!(slot_background(false, true), 0x4a3527);
    assert_eq!(slot_background(true, false), 0x7a5a3a);
    assert_eq!(slot_background(false, false), 0x6b4b35);
}
