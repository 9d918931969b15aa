use critters_core::config::{Critter, ShapeId};
use critters_core::game::{
    current_tier, first_lost, wind_tier, AutoMove, FallReason, Flow, Progress, Reaction, Sound, State,
    INTRO_TEXT, INTRO_TITLE,
};
use critters_core::rng::Rng;

fn flow() -> Flow {
    Flow::new(0, false, &mut Rng::seeded(11))
}

#[test]
fn starts_on_the_intro_with_two_flat_slots() {
    let g = flow();
    assert_eq!(g.state, State::Start);
    assert!(g.overlay.visible && !g.overlay.over);
    assert_eq!(g.hint.text(), "Pick a critter below to start");
    for slot in &g.slots[..2] {
        let s = slot.unwrap().def();
        assert!(!s.big);
        assert!(matches!(
            s.kind,
            critters_core::config::ShapeKind::Rect { .. } | critters_core::config::ShapeKind::Trap { .. }
        ));
    }
    assert!(g.slots[2].is_some());
    assert_eq!(g.overlay.title, INTRO_TITLE);
    assert_eq!(g.overlay.text, INTRO_TEXT);
}

#[test]
fn selecting_a_slot_starts_play_and_empties_the_slot() {
    let mut g = flow();
    let r = g.select_slot(1);
    assert_eq!(g.state, State::Play);
    assert!(!g.overlay.visible);
    assert!(g.slots[1].is_none());
    assert_eq!(g.held_slot, Some(1));
    assert_eq!(r.sound, Some(Sound::Pick));
    // swapping with another slot refills that slot with the held critter
    let other = g.slots[0].unwrap();
    let held = g.held.unwrap();
    let r = g.select_slot(0);
    assert_eq!(g.slots[0].unwrap(), held);
    assert_eq!(g.held.unwrap(), other);
    assert_eq!(g.held_slot, Some(1));
    assert_eq!(r.sound, Some(Sound::Swap));
    assert_eq!(g.hint.text(), "Move it over the tower, then tap or release to drop");
}

#[test]
fn cannot_drop_while_the_tower_is_unsettled() {
    let mut g = flow();
    let mut rng = Rng::seeded(5);
    g.select_slot(0);
    let r = g.drop_piece(true, &mut rng);
    assert_eq!(r.sound, Some(Sound::Drop));
    assert_eq!(g.blocks, 1);
    assert!(g.slots[0].is_some(), "the slot refills after the drop");
    assert_eq!(g.hint.text(), "Pick the next critter");
    g.select_slot(1);
    let r = g.drop_piece(false, &mut rng);
    assert!(g.held.is_some(), "second drop must wait for the first to settle");
    assert_eq!(g.hint.text(), "Wait for the tower to settle\u{2026}");
    assert_eq!(r, Reaction { sound: Some(Sound::Wait), hint: Some(true) });
}

#[test]
fn piece_off_the_stump_ends_the_round_with_a_reason() {
    let mut g = flow();
    let mut rng = Rng::seeded(5);
    g.select_slot(0);
    g.drop_piece(true, &mut rng);
    let r = g.end_round(Critter::Fox, FallReason::HitTheGround, "0.00 m");
    assert_eq!(g.state, State::Over);
    assert!(g.overlay.visible && g.overlay.over);
    assert_eq!(g.overlay.title, "Timber!");
    assert!(g.overlay.text.starts_with("The fox "), "{}", g.overlay.text);
    assert!(g.overlay.text.contains("1 critter."));
    assert_eq!(r.sound, Some(Sound::Over));
    assert_eq!(
        g.overlay.text,
        "The fox hit the ground! Score 0 \u{B7} 0.00 m tall \u{B7} 1 critter."
    );
    // play again restarts straight into play
    g.init(true, &mut rng);
    assert_eq!(g.state, State::Play);
    assert_eq!(g.blocks, 0);
    assert!(g.held.is_none());
}

#[test]
fn game_over_card_reports_records() {
    let mut g = Flow::new(500, false, &mut Rng::seeded(1));
    g.begin_play();
    g.record_progress(700, 250);
    g.blocks = 3;
    g.game_over(None, "2.50 m");
    assert_eq!(
        g.overlay.text,
        "Score 700 \u{B7} 2.50 m tall \u{B7} 3 critters. New best!"
    );
    assert_eq!(g.hint.text(), "");
    assert_eq!(g.overlay.reason, "");
    let mut h = Flow::new(900, false, &mut Rng::seeded(1));
    h.begin_play();
    h.record_progress(700, 250);
    h.game_over(None, "2.50 m");
    assert_eq!(h.overlay.text, "Score 700 \u{B7} 2.50 m tall \u{B7} 0 critters.");
}

#[test]
fn tier_toast_and_wind_only_at_altitude() {
    let mut g = flow();
    g.begin_play();
    // a settled tower 8.5 m tall
    let p = g.record_progress(0, 850);
    assert_eq!(p.new_tier, Some(2));
    assert_eq!(g.tier_reached, 2);
    assert_eq!(current_tier(850), 2);
    assert!(wind_tier(2));
    // no repeat toast for the same tier
    assert_eq!(g.record_progress(0, 900).new_tier, None);
    // on the forest floor the gust never fires
    assert!(!wind_tier(current_tier(0)));
    assert!(!wind_tier(current_tier(4000)));
}

#[test]
fn best_score_fanfare_plays_once_per_round() {
    let mut g = Flow::new(100, false, &mut Rng::seeded(9));
    g.begin_play();
    assert_eq!(g.record_progress(50, 0), Progress { beat_best: false, new_tier: None });
    assert!(!g.settings_dirty);
    let p = g.record_progress(150, 0);
    assert!(p.beat_best);
    assert_eq!(g.best_score, 150);
    assert!(g.settings_dirty);
    assert!(!g.record_progress(300, 0).beat_best);
    assert_eq!(g.best_score, 300);
    // the round's best never drops when the tower loses score
    g.record_progress(10, 0);
    assert_eq!(g.round_best, 300);
    assert_eq!(g.score, 10);
    let saved = g.take_dirty_settings().unwrap();
    assert_eq!(saved.best_score, 300);
    assert!(g.take_dirty_settings().is_none());
    // with no earlier best there is no fanfare
    let mut first = Flow::new(0, false, &mut Rng::seeded(9));
    first.begin_play();
    assert!(!first.record_progress(200, 0).beat_best);
    assert_eq!(first.best_score, 200);
}

#[test]
fn mute_button_toggles_and_swallows_the_press() {
    let mut g = flow();
    let r = g.toggle_mute();
    assert!(g.muted);
    assert_eq!(r.sound, None);
    assert_eq!(g.state, State::Start, "the press never reached the stage");
    assert!(g.settings_dirty);
    let r = g.toggle_mute();
    assert!(!g.muted);
    assert_eq!(r.sound, Some(Sound::Pick));
}

#[test]
fn after_game_over_the_card_can_be_put_away() {
    let mut g = flow();
    g.begin_play();
    g.end_round(Critter::Owl, FallReason::WentOverTheSide, "1.00 m");
    let r = g.put_card_away();
    assert!(g.overlay.peek);
    assert_eq!(r.hint, Some(false));
    assert!(g.hint.text().contains("went over the side"), "{}", g.hint.text());
    assert_eq!(g.hint.text(), "The owl went over the side! Drag to look around");
    // a second tap does nothing more
    assert_eq!(g.put_card_away(), Reaction { sound: None, hint: None });
    // selecting a slot is ignored while the card is up
    assert_eq!(g.select_slot(0), Reaction { sound: None, hint: None });
}

#[test]
fn tapping_with_nothing_held_shakes_the_hint() {
    let mut g = flow();
    assert_eq!(g.remind_to_pick(), Reaction { sound: None, hint: None });
    g.begin_play();
    assert_eq!(g.remind_to_pick(), Reaction { sound: None, hint: Some(true) });
    assert_eq!(g.hint.text(), "Pick a critter from the tray first");
    g.select_slot(2);
    g.refresh_hint(false);
    assert_eq!(g.hint.text(), "Waiting for the tower to settle\u{2026}");
    g.refresh_hint(true);
    assert_eq!(g.hint.text(), "Move it over the tower, then tap or release to drop");
}

#[test]
fn autoplay_picks_then_drops() {
    let mut g = flow();
    assert_eq!(g.autoplay_move(true), AutoMove::BeginPlay);
    g.begin_play();
    assert_eq!(g.autoplay_move(true), AutoMove::Select(0));
    g.select_slot(0);
    assert_eq!(g.autoplay_move(false), AutoMove::Wait);
    assert_eq!(g.autoplay_move(true), AutoMove::Drop);
    g.game_over(None, "0.00 m");
    assert_eq!(g.autoplay_move(true), AutoMove::Restart);
}

#[test]
fn offering_is_kept_across_picks_and_swaps() {
    let mut g = flow();
    let mut before: Vec<ShapeId> = g.slots.iter().flatten().copied().collect();
    before.sort_by_key(|s| s.index());
    g.select_slot(0);
    g.select_slot(2);
    g.select_slot(1);
    let mut after: Vec<ShapeId> = g.slots.iter().flatten().copied().collect();
    after.push(g.held.unwrap());
    after.sort_by_key(|s| s.index());
    assert_eq!(before, after);
}

#[test]
fn tier_toasts_name_the_tier() {
    assert_eq!(critters_core::game::tier_toast(1), "\u{1F332} Above the Treetops!");
    assert_eq!(critters_core::game::tier_toast(5), "\u{1F680} Outer Space!");
}

#[test]
fn the_first_fallen_piece_ends_the_round() {
    assert_eq!(first_lost(&[]), None);
    assert_eq!(first_lost(&[(false, false), (false, false)]), None);
    assert_eq!(
        first_lost(&[(false, false), (false, true), (true, false)]),
        Some((1, FallReason::HitTheGround))
    );
}

#[test]
fn after_the_round_any_slot_number_is_ignored() {
    let mut g = flow();
    let mut rng = Rng::seeded(5);
    g.select_slot(0);
    g.drop_piece(true, &mut rng);
    g.game_over(None, "0.00 m");
    let slots = g.slots;
    let r = g.select_slot(7);
    assert_eq!(r, Reaction { sound: None, hint: None });
    assert_eq!(g.slots, slots);
    assert!(g.held.is_none());
    assert_eq!(g.state, State::Over);
}

#[test]
fn drop_with_nothing_held_changes_nothing() {
    let mut g = flow();
    let mut rng = Rng::seeded(5);
    g.begin_play();
    let before = rng.clone().next_bits();
    let r = g.drop_piece(true, &mut rng);
    assert_eq!(r, Reaction { sound: None, hint: None });
    assert_eq!(g.blocks, 0);
    assert_eq!(rng.next_bits(), before);
}
