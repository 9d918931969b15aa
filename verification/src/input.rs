//! The keyboard table: which keys the game reacts to and what each does in
//! each state of the game.

use vstd::prelude::*;
use crate::game::State;

verus! {

/// Keys the game reacts to.
#[derive(Clone, Copy, Debug, PartialEq, Eq, Structural)]
pub enum GameKey {
    Digit(u8),
    Left,
    Right,
    Up,
    Down,
    Space,
    Enter,
    Escape,
}

/// What a key press does.
#[derive(Clone, Copy, Debug, PartialEq, Eq, Structural)]
pub enum KeyAction {
    /// Pick (or swap with) tray slot `i`.
    Select(usize),
    /// Move the held critter sideways by this many px.
    MoveHeld(i32),
    /// Scroll the view down the tower by this many px (negative: back up).
    Scroll(i32),
    /// Start a new round straight into play.
    Restart,
    /// Leave the intro card.
    BeginPlay,
    /// Drop the held critter.
    Drop,
    Nothing,
}

/// The keyboard table.
pub open spec fn key_action_spec(state: State, key: GameKey) -> KeyAction {
    match key {
        GameKey::Digit(d) => if 1 <= d <= 3 {
            KeyAction::Select((d - 1) as usize)
        } else {
            KeyAction::Nothing
        },
        GameKey::Left => KeyAction::MoveHeld(-12i32),
        GameKey::Right => KeyAction::MoveHeld(12i32),
        GameKey::Down => KeyAction::Scroll(60i32),
        GameKey::Up => KeyAction::Scroll(-60i32),
        GameKey::Space | GameKey::Enter => match state {
            State::Over => KeyAction::Restart,
            State::Start => KeyAction::BeginPlay,
            State::Play => KeyAction::Drop,
        },
        GameKey::Escape => if state == State::Start {
            KeyAction::BeginPlay
        } else {
            KeyAction::Nothing
        },
    }
}

/// The digit keys 1, 2 and 3 pick tray slots 0, 1 and 2 in every state;
/// other digits do nothing. So each slot has its key, and no two keys pick
/// the same slot.
pub proof fn lemma_digit_keys_pick_slots(state: State, d: u8)
    ensures
        1 <= d <= 3 ==> key_action_spec(state, GameKey::Digit(d)) == KeyAction::Select(
            (d - 1) as usize,
        ),
        !(1 <= d <= 3) ==> key_action_spec(state, GameKey::Digit(d)) == KeyAction::Nothing,
        forall|i: usize|
            i < 3 ==> key_action_spec(state, GameKey::Digit((i + 1) as u8)) == KeyAction::Select(i),
{
}

/// The rest of the table: ← and → move the held critter 12 px left and
/// right, ↑ and ↓ scroll 60 px back up and down the tower, Space and Enter
/// do the same thing (leave the intro, drop in play, restart after the round),
/// and Escape only ever leaves the intro card.
pub proof fn lemma_keys_move_scroll_and_confirm(state: State)
    ensures
        key_action_spec(state, GameKey::Left) == KeyAction::MoveHeld(-12i32),
        key_action_spec(state, GameKey::Right) == KeyAction::MoveHeld(12i32),
        key_action_spec(state, GameKey::Up) == KeyAction::Scroll(-60i32),
        key_action_spec(state, GameKey::Down) == KeyAction::Scroll(60i32),
        key_action_spec(state, GameKey::Space) == key_action_spec(state, GameKey::Enter),
        state == State::Start ==> key_action_spec(state, GameKey::Space) == KeyAction::BeginPlay,
        state == State::Play ==> key_action_spec(state, GameKey::Space) == KeyAction::Drop,
        state == State::Over ==> key_action_spec(state, GameKey::Space) == KeyAction::Restart,
        key_action_spec(state, GameKey::Escape) == (if state == State::Start {
            KeyAction::BeginPlay
        } else {
            KeyAction::Nothing
        }),
{
}

/// What `key` does in `state`: 1 / 2 / 3 pick a slot, ← → move the held
/// critter, ↑ ↓ scroll, Space or Enter drop (or start, or restart),
/// Escape leaves the intro card.
pub fn key_action(state: State, key: GameKey) -> (a: KeyAction)
    ensures
        a == key_action_spec(state, key),
        key matches GameKey::Digit(d) ==> a == (if 1 <= d <= 3 {
            KeyAction::Select((d - 1) as usize)
        } else {
            KeyAction::Nothing
        }),
{
    match key {
        GameKey::Digit(d) => if 1 <= d && d <= 3 {
            KeyAction::Select((d - 1) as usize)
        } else {
            KeyAction::Nothing
        },
        GameKey::Left => KeyAction::MoveHeld(-12i32),
        GameKey::Right => KeyAction::MoveHeld(12i32),
        GameKey::Down => KeyAction::Scroll(60i32),
        GameKey::Up => KeyAction::Scroll(-60i32),
        GameKey::Space | GameKey::Enter => match state {
            State::Over => KeyAction::Restart,
            State::Start => KeyAction::BeginPlay,
            State::Play => KeyAction::Drop,
        },
        GameKey::Escape => if state == State::Start {
            KeyAction::BeginPlay
        } else {
            KeyAction::Nothing
        },
    }
}

/// The key a typed character stands for: a decimal digit or the space bar.
pub fn key_for_char(c: char) -> (k: Option<GameKey>)
    ensures
        k == (if '0' <= c && c <= '9' {
            Some(GameKey::Digit(((c as u32) - ('0' as u32)) as u8))
        } else if c == ' ' {
            Some(GameKey::Space)
        } else {
            None
        }),
{
    if '0' <= c && c <= '9' {
        Some(GameKey::Digit(((c as u32) - ('0' as u32)) as u8))
    } else if c == ' ' {
        Some(GameKey::Space)
    } else {
        None
    }
}

} // verus!
