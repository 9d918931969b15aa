use critters_core::game::{Flow, State};
use critters_core::input::{key_action, key_for_char, GameKey, KeyAction};
use critters_core::rng::Rng;

#[test]
fn keyboard_table() {
    let mut g = Flow::new(0, false, &mut Rng::seeded(4));
    let mut rng = Rng::seeded(8);
    assert_eq!(key_action(g.state, GameKey::Escape), KeyAction::BeginPlay);
    g.begin_play();
    assert_eq!(key_action(g.state, GameKey::Escape), KeyAction::Nothing);
    assert_eq!(key_action(g.state, GameKey::Digit(2)), KeyAction::Select(1));
    g.select_slot(1);
    assert!(g.held.is_some());
    assert_eq!(key_action(g.state, GameKey::Right), KeyAction::MoveHeld(12));
    assert_eq!(key_action(g.state, GameKey::Left), KeyAction::MoveHeld(-12));
    assert_eq!(key_action(g.state, GameKey::Down), KeyAction::Scroll(60));
    assert_eq!(key_action(g.state, GameKey::Up), KeyAction::Scroll(-60));
    assert_eq!(key_action(g.state, GameKey::Space), KeyAction::Drop);
    g.drop_piece(true, &mut rng);
    assert!(g.held.is_none());
    g.game_over(None, "0.00 m");
    assert_eq!(key_action(g.state, GameKey::Enter), KeyAction::Restart);
    g.init(true, &mut rng);
    assert_eq!(g.state, State::Play);
    assert_eq!(g.blocks, 0);
    assert_eq!(key_action(State::Start, GameKey::Space), KeyAction::BeginPlay);
    assert_eq!(key_action(State::Play, GameKey::Digit(0)), KeyAction::Nothing);
    assert_eq!(key_action(State::Play, GameKey::Digit(4)), KeyAction::Nothing);
}

#[test]
fn typed_characters_map_to_keys() {
    assert_eq!(key_for_char('3'), Some(GameKey::Digit(3)));
    assert_eq!(key_for_char(' '), Some(GameKey::Space));
    assert_eq!(key_for_char('x'), None);
}
