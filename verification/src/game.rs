//! The game flow: intro card, play and game over, the three tray slots and
//! the held critter, scores and records, altitude tiers, the hint line and
//! the overlay card. This is the part of the game that decides; the physics
//! world, the camera and the drawing act on what it decides. Measurements
//! that come from the physics world (the score of the settled tower, its
//! height in whole pixels, whether it has settled) are handed in.

use vstd::prelude::*;
use vstd::string::StringExecFns;
use vstd::multiset::Multiset;
use crate::config::{
    critter_name, tier_at_m, Critter, ShapeId, PX_PER_M, TIER_COUNT, WIND_MAX_TIER, WIND_MIN_TIER,
};
use crate::rng::{output_bits, xorshift, Rng};
use crate::text::{decimal, decimal_chars, empty_string, push_chars, trim, chars_of, trim_bounds};
use crate::tray::{flat_spec, new_spec};

verus! {

#[derive(Clone, Copy, Debug, PartialEq, Eq, Structural)]
pub enum State {
    Start,
    Play,
    Over,
}

/// A sound effect the flow asks for (the landing thud, whose strength comes
/// from the physics, is requested by the simulation itself).
#[derive(Clone, Copy, Debug, PartialEq, Eq, Structural)]
pub enum Sound {
    Pick,
    Swap,
    Drop,
    Tier,
    Best,
    Wait,
    Over,
    Wind,
}

/// Why a piece counts as lost.
#[derive(Clone, Copy, Debug, PartialEq, Eq, Structural)]
pub enum FallReason {
    /// It touched the forest floor.
    HitTheGround,
    /// Its centre went past the stump's edge.
    WentOverTheSide,
}

pub open spec fn fall_text(r: FallReason) -> Seq<char> {
    match r {
        FallReason::HitTheGround => "hit the ground"@,
        FallReason::WentOverTheSide => "went over the side"@,
    }
}

impl FallReason {
    pub fn text(self) -> (t: &'static str)
        ensures
            t@ == fall_text(self),
    {
        match self {
            FallReason::HitTheGround => "hit the ground",
            FallReason::WentOverTheSide => "went over the side",
        }
    }

    /// A piece is lost only when it hits the ground —
    /// reported by the floor contact, or (for a contact that began and
    /// ended inside one step) by its bounds reaching the floor.
    pub fn of(hit_ground: bool, reaches_floor: bool) -> (r: Option<FallReason>)
        ensures
            r == (if hit_ground || reaches_floor {
                Some(FallReason::HitTheGround)
            } else {
                None
            }),
    {
        if hit_ground || reaches_floor {
            Some(FallReason::HitTheGround)
        } else {
            None
        }
    }
}

/// The first piece (in drop order) that counts as lost, and why; `pieces`
/// holds, per piece, whether it touched the floor and whether its bounds
/// reach the floor.
pub fn first_lost(pieces: &[(bool, bool)]) -> (r: Option<(usize, FallReason)>)
    ensures
        match r {
            Some((i, why)) => {
                &&& i < pieces.len()
                &&& why == FallReason::HitTheGround
                &&& (pieces@[i as int].0 || pieces@[i as int].1)
                &&& forall|j: int| 0 <= j < i ==> !pieces@[j].0 && !pieces@[j].1
            },
            None => forall|j: int| 0 <= j < pieces.len() ==> !pieces@[j].0 && !pieces@[j].1,
        },
{
    let mut i: usize = 0;
    while i < pieces.len()
        invariant
            i <= pieces.len(),
            forall|j: int| 0 <= j < i ==> !pieces@[j].0 && !pieces@[j].1,
        decreases pieces.len() - i,
    {
        let (hit, floor) = pieces[i];
        if let Some(why) = FallReason::of(hit, floor) {
            return Some((i, why));
        }
        i = i + 1;
    }
    None
}

/// The hint line under the stage.
#[derive(Clone, Debug)]
pub enum Hint {
    PickToStart,
    PickBelow,
    MoveOverTower,
    WaitForSettle,
    PickNext,
    PickFromTrayFirst,
    WaitingToSettle,
    Blank,
    /// Game over, card put away: the reason and how to look around.
    Look(String),
}

impl Hint {
    pub fn text(&self) -> (t: &str)
        ensures
            t@ == hint_text(*self),
    {
        match self {
            Hint::PickToStart => "Pick a critter below to start",
            Hint::PickBelow => "Pick a critter below",
            Hint::MoveOverTower => "Move it over the tower, then tap or release to drop",
            Hint::WaitForSettle => "Wait for the tower to settle\u{2026}",
            Hint::PickNext => "Pick the next critter",
            Hint::PickFromTrayFirst => "Pick a critter from the tray first",
            Hint::WaitingToSettle => "Waiting for the tower to settle\u{2026}",
            Hint::Blank => "",
            Hint::Look(s) => s.as_str(),
        }
    }
}

pub open spec fn hint_text(h: Hint) -> Seq<char> {
    match h {
        Hint::PickToStart => "Pick a critter below to start"@,
        Hint::PickBelow => "Pick a critter below"@,
        Hint::MoveOverTower => "Move it over the tower, then tap or release to drop"@,
        Hint::WaitForSettle => "Wait for the tower to settle\u{2026}"@,
        Hint::PickNext => "Pick the next critter"@,
        Hint::PickFromTrayFirst => "Pick a critter from the tray first"@,
        Hint::WaitingToSettle => "Waiting for the tower to settle\u{2026}"@,
        Hint::Blank => ""@,
        Hint::Look(s) => s@,
    }
}

pub const INTRO_TITLE: &'static str = "Critter Stack";
pub const INTRO_TEXT: &'static str =
    "Stack the forest critters as high as you can without letting anyone fall off the stump.";

/// The small print of the intro card.
pub fn intro_small(i: usize) -> (t: &'static str)
    requires
        i < 3,
    ensures
        i == 0 ==> t@
            == "Each critter is worth points, multiplied by how high it sits. Bigger animals score more but need bigger shapes."@,
        i == 1 ==> t@ == "Tap a critter below, move it over the tower, then tap or release to drop."@,
        i == 2 ==> t@ == "Keyboard: 1 / 2 / 3 pick, \u{2190} \u{2192} move, Space drop."@,
{
    if i == 0 {
        "Each critter is worth points, multiplied by how high it sits. Bigger animals score more but need bigger shapes."
    } else if i == 1 {
        "Tap a critter below, move it over the tower, then tap or release to drop."
    } else {
        "Keyboard: 1 / 2 / 3 pick, \u{2190} \u{2192} move, Space drop."
    }
}

/// The card over the stage.
#[derive(Clone, Debug)]
pub struct Overlay {
    pub visible: bool,
    /// The game-over variant (button shown, dismiss line hidden).
    pub over: bool,
    pub title: String,
    pub text: String,
    /// Game over only: the card has been put away so the tower can be inspected.
    pub peek: bool,
    /// Game over only: the sentence naming the critter and the rule.
    pub reason: String,
}

/// What a flow operation asked for: a sound, and whether it set the hint
/// line (`Some(shake)`).
#[derive(Clone, Copy, Debug, PartialEq, Eq, Structural)]
pub struct Reaction {
    pub sound: Option<Sound>,
    pub hint: Option<bool>,
}

/// What a simulation step's records produced.
#[derive(Clone, Copy, Debug, PartialEq, Eq, Structural)]
pub struct Progress {
    /// This round just beat a previous best score (the fanfare plays once a round).
    pub beat_best: bool,
    /// A higher altitude tier was reached (its toast shows).
    pub new_tier: Option<usize>,
}

/// The highest altitude tier whose height a tower `height_px` tall reaches.
pub open spec fn tier_for(height_px: int) -> int {
    if height_px >= tier_at_m(5) * PX_PER_M {
        5
    } else if height_px >= tier_at_m(4) * PX_PER_M {
        4
    } else if height_px >= tier_at_m(3) * PX_PER_M {
        3
    } else if height_px >= tier_at_m(2) * PX_PER_M {
        2
    } else if height_px >= tier_at_m(1) * PX_PER_M {
        1
    } else {
        0
    }
}

/// The tier a tower `height_px` (whole pixels) tall stands in.
pub fn current_tier(height_px: u64) -> (t: usize)
    ensures
        t == tier_for(height_px as int),
        t < TIER_COUNT,
        height_px < 400 ==> t == 0,
        400 <= height_px < 800 ==> t == 1,
        800 <= height_px < 1500 ==> t == 2,
        1500 <= height_px < 2500 ==> t == 3,
        2500 <= height_px < 4000 ==> t == 4,
        4000 <= height_px ==> t == 5,
{
    if height_px >= 4000 {
        5
    } else if height_px >= 2500 {
        4
    } else if height_px >= 1500 {
        3
    } else if height_px >= 800 {
        2
    } else if height_px >= 400 {
        1
    } else {
        0
    }
}

/// The tier is the highest one whose height is reached.
pub proof fn lemma_tier_for(height_px: int)
    requires
        height_px >= 0,
    ensures
        0 <= tier_for(height_px) < TIER_COUNT,
        tier_at_m(tier_for(height_px)) * PX_PER_M <= height_px,
        forall|i: int|
            tier_for(height_px) < i < TIER_COUNT ==> tier_at_m(i) * PX_PER_M > height_px,
{
}

/// The tier bands in whole pixels (100 px to the metre): below 4 m the
/// forest floor, then above the treetops from 4 m, open sky from 8 m, cloud
/// country from 15 m, the stratosphere from 25 m and outer space from 40 m.
pub proof fn lemma_tier_bands(height_px: int)
    requires
        height_px >= 0,
    ensures
        tier_for(height_px) == 0 <==> height_px < 400,
        tier_for(height_px) == 1 <==> 400 <= height_px < 800,
        tier_for(height_px) == 2 <==> 800 <= height_px < 1500,
        tier_for(height_px) == 3 <==> 1500 <= height_px < 2500,
        tier_for(height_px) == 4 <==> 2500 <= height_px < 4000,
        tier_for(height_px) == 5 <==> 4000 <= height_px,
{
}

/// A taller tower never stands in a lower tier.
pub proof fn lemma_tier_monotone(a: int, b: int)
    requires
        a <= b,
    ensures
        tier_for(a) <= tier_for(b),
{
}

/// The toast shown on reaching tier `i`: its icon and name.
pub fn tier_toast(i: usize) -> (s: String)
    requires
        i < TIER_COUNT,
    ensures
        s@ == crate::config::tier_icon(i as int) + " "@ + crate::config::tier_name(i as int),
{
    let t = crate::config::tier(i);
    let mut s = empty_string();
    s.append(t.icon);
    s.append(" ");
    s.append(t.name);
    s
}

/// Gusts only blow in the Open Sky, Cloud Country and Stratosphere tiers.
pub fn wind_tier(tier: usize) -> (b: bool)
    ensures
        b == (WIND_MIN_TIER <= tier && tier <= WIND_MAX_TIER),
{
    WIND_MIN_TIER <= tier && tier <= WIND_MAX_TIER
}

/// The game-over card's text.
pub open spec fn game_over_text(
    reason: Option<Seq<char>>,
    round_best: u32,
    height: Seq<char>,
    blocks: u32,
    best_score: u32,
) -> Seq<char> {
    (match reason {
        Some(r) => r + " "@,
        None => seq![],
    }) + "Score "@ + decimal(round_best as nat) + " \u{B7} "@ + height + " tall \u{B7} "@ + decimal(
        blocks as nat,
    ) + " critter"@ + (if blocks == 1 {
        seq![]
    } else {
        "s"@
    }) + "."@ + (if round_best >= best_score && round_best > 0 {
        " New best!"@
    } else {
        seq![]
    })
}

/// The game-over card: a reason only puts itself and a space in front of
/// the card's text, and the text ends with " New best!" exactly when the
/// round's best is a positive score at least the all-time best (otherwise it
/// ends with the full stop after the critter count), whatever the reason.
pub proof fn lemma_game_over_text(
    reason: Option<Seq<char>>,
    round_best: u32,
    height: Seq<char>,
    blocks: u32,
    best_score: u32,
)
    ensures
        reason matches Some(r) ==> game_over_text(reason, round_best, height, blocks, best_score)
            == r + " "@ + game_over_text(None, round_best, height, blocks, best_score),
        ({
            let t = game_over_text(reason, round_best, height, blocks, best_score);
            &&& t.len() >= 10
            &&& (round_best >= best_score && round_best > 0) ==> t.subrange(
                t.len() - 10,
                t.len() as int,
            ) == " New best!"@
            &&& !(round_best >= best_score && round_best > 0) ==> t.last() == '.'
            &&& t.last() == '!' <==> (round_best >= best_score && round_best > 0)
        }),
{
    reveal_strlit(" ");
    reveal_strlit("Score ");
    reveal_strlit(" \u{B7} ");
    reveal_strlit(" tall \u{B7} ");
    reveal_strlit(" critter");
    reveal_strlit("s");
    reveal_strlit(".");
    reveal_strlit(" New best!");
    let nb = round_best >= best_score && round_best > 0;
    let body = "Score "@ + decimal(round_best as nat) + " \u{B7} "@ + height + " tall \u{B7} "@
        + decimal(blocks as nat) + " critter"@ + (if blocks == 1 {
        seq![]
    } else {
        "s"@
    }) + "."@;
    let tail = if nb {
        " New best!"@
    } else {
        seq![]
    };
    let none = game_over_text(None, round_best, height, blocks, best_score);
    assert(none =~= body + tail);
    if let Some(r) = reason {
        assert(game_over_text(reason, round_best, height, blocks, best_score) =~= r + " "@ + none);
    }
    let t = game_over_text(reason, round_best, height, blocks, best_score);
    let pre: Seq<char> = match reason {
        Some(r) => r + " "@,
        None => seq![],
    };
    assert(t =~= pre + body + tail);
    assert(body.last() == '.');
    if nb {
        assert(t.subrange(t.len() - 10, t.len() as int) =~= " New best!"@);
        assert(t.last() == " New best!"@.last());
    } else {
        assert(t =~= pre + body);
    }
}

/// The sentence naming the critter that was lost and how.
pub open spec fn end_reason(critter: Critter, why: FallReason) -> Seq<char> {
    "The "@ + critter_name(critter) + " "@ + fall_text(why) + "!"@
}

/// The autoplay driver's next move.
#[derive(Clone, Copy, Debug, PartialEq, Eq, Structural)]
pub enum AutoMove {
    BeginPlay,
    Restart,
    Select(usize),
    Drop,
    Wait,
}

/// A slot's or the hand's content as a multiset (empty or one shape).
pub open spec fn content(o: Option<ShapeId>) -> Multiset<ShapeId> {
    match o {
        Some(s) => Multiset::singleton(s),
        None => Multiset::empty(),
    }
}

pub struct Flow {
    pub state: State,
    pub slots: [Option<ShapeId>; 3],
    /// The critter being held, if any.
    pub held: Option<ShapeId>,
    /// Tray slot the held critter came from; it stays empty until the drop.
    pub held_slot: Option<usize>,
    pub score: u32,
    pub round_best: u32,
    /// Height (whole pixels) of the tallest settled tower of the round.
    pub best_height_px: u64,
    pub blocks: u32,
    pub tier_reached: usize,
    pub beat_best: bool,
    pub best_score: u32,
    pub muted: bool,
    /// Best score or mute changed since the last save.
    pub settings_dirty: bool,
    pub overlay: Overlay,
    pub hint: Hint,
}

impl Flow {
    /// The critters on offer: the three slots and the hand.
    pub open spec fn offered(&self) -> Multiset<ShapeId> {
        content(self.slots[0]).add(content(self.slots[1])).add(content(self.slots[2])).add(
            content(self.held),
        )
    }

    /// The round's and the all-time records are those of `o`.
    pub open spec fn same_records(self, o: Flow) -> bool {
        &&& self.score == o.score
        &&& self.round_best == o.round_best
        &&& self.best_height_px == o.best_height_px
        &&& self.blocks == o.blocks
        &&& self.tier_reached == o.tier_reached
        &&& self.beat_best == o.beat_best
        &&& self.best_score == o.best_score
    }

    /// The card over the stage is that of `o`.
    pub open spec fn same_card(self, o: Flow) -> bool {
        &&& self.overlay.visible == o.overlay.visible
        &&& self.overlay.over == o.overlay.over
        &&& self.overlay.title@ == o.overlay.title@
        &&& self.overlay.text@ == o.overlay.text@
        &&& self.overlay.peek == o.overlay.peek
        &&& self.overlay.reason@ == o.overlay.reason@
    }

    /// The tray and the held critter agree: a slot is empty exactly while
    /// its critter is held (or was held when the round ended), and outside
    /// the game-over card something is held exactly when a slot is empty.
    pub open spec fn wf(&self) -> bool {
        &&& forall|i: int|
            0 <= i < 3 ==> (self.slots[i] is None <==> self.held_slot == Some(i as usize))
        &&& self.held_slot matches Some(i) ==> i < 3
        &&& self.state != State::Over ==> (self.held is Some <==> self.held_slot is Some)
        &&& self.state == State::Over ==> self.held is None
        &&& self.tier_reached < TIER_COUNT
        &&& self.round_best <= self.best_score
    }

    /// A new game (intro card shown) with the saved records.
    pub fn new(best_score: u32, muted: bool, rng: &mut Rng) -> (f: Flow)
        ensures
            f.wf(),
            f.state == State::Start,
            f.best_score == best_score,
            f.muted == muted,
            !f.settings_dirty,
            f.score == 0 && f.round_best == 0 && f.blocks == 0,
            f.best_height_px == 0 && f.tier_reached == 0 && !f.beat_best,
            f.held is None,
            f.held_slot is None,
            f.overlay.visible && !f.overlay.over && !f.overlay.peek,
            f.overlay.title@ == INTRO_TITLE@,
            f.overlay.text@ == INTRO_TEXT@,
            hint_text(f.hint) == hint_text(Hint::PickToStart),
            f.slots[0] == Some(
                crate::tray::flat_shapes()[crate::tray::pick_index(
                    crate::tray::flat_shapes(),
                    output_bits(xorshift(old(rng)@)),
                )],
            ),
            f.slots[1] == Some(
                crate::tray::flat_shapes()[crate::tray::pick_index(
                    crate::tray::flat_shapes(),
                    output_bits(xorshift(xorshift(old(rng)@))),
                )],
            ),
            f.slots[2] == Some(
                crate::config::shape_at_spec(
                    crate::tray::pick_index(
                        crate::tray::all_shapes_spec(),
                        output_bits(xorshift(xorshift(xorshift(old(rng)@)))),
                    ),
                ),
            ),
            final(rng)@ == xorshift(xorshift(xorshift(old(rng)@))),
    {
        let mut f = Flow {
            state: State::Start,
            slots: [None, None, None],
            held: None,
            held_slot: None,
            score: 0,
            round_best: 0,
            best_height_px: 0,
            blocks: 0,
            tier_reached: 0,
            beat_best: false,
            best_score,
            muted,
            settings_dirty: false,
            overlay: Overlay {
                visible: true,
                over: false,
                title: String::from_str(INTRO_TITLE),
                text: String::from_str(INTRO_TEXT),
                peek: false,
                reason: empty_string(),
            },
            hint: Hint::PickToStart,
        };
        f.init(false, rng);
        f
    }

    /// A fresh round — empty tower, zeroed round records, two flat
    /// shapes and one from the whole table in the tray, the intro card
    /// (or, with `skip_intro`, straight into play).
    pub fn init(&mut self, skip_intro: bool, rng: &mut Rng) -> (r: Reaction)
        ensures
            final(self).wf(),
            final(self).state == (if skip_intro {
                State::Play
            } else {
                State::Start
            }),
            final(self).held is None,
            final(self).held_slot is None,
            final(self).slots[0] == Some(
                crate::tray::flat_shapes()[crate::tray::pick_index(
                    crate::tray::flat_shapes(),
                    output_bits(xorshift(old(rng)@)),
                )],
            ),
            final(self).slots[1] == Some(
                crate::tray::flat_shapes()[crate::tray::pick_index(
                    crate::tray::flat_shapes(),
                    output_bits(xorshift(xorshift(old(rng)@))),
                )],
            ),
            final(self).slots[2] == Some(
                crate::config::shape_at_spec(
                    crate::tray::pick_index(
                        crate::tray::all_shapes_spec(),
                        output_bits(xorshift(xorshift(xorshift(old(rng)@)))),
                    ),
                ),
            ),
            final(rng)@ == xorshift(xorshift(xorshift(old(rng)@))),
            final(self).score == 0,
            final(self).round_best == 0,
            final(self).best_height_px == 0,
            final(self).blocks == 0,
            final(self).tier_reached == 0,
            !final(self).beat_best,
            final(self).best_score == old(self).best_score,
            final(self).muted == old(self).muted,
            final(self).settings_dirty == old(self).settings_dirty,
            final(self).overlay.visible == !skip_intro,
            !final(self).overlay.over,
            !final(self).overlay.peek,
            final(self).overlay.title@ == INTRO_TITLE@,
            final(self).overlay.text@ == INTRO_TEXT@,
            hint_text(final(self).hint) == (if skip_intro {
                hint_text(Hint::PickBelow)
            } else {
                hint_text(Hint::PickToStart)
            }),
            r == (Reaction { sound: None, hint: Some(false) }),
    {
        self.held = None;
        self.blocks = 0;
        self.score = 0;
        self.round_best = 0;
        self.best_height_px = 0;
        self.tier_reached = 0;
        self.beat_best = false;
        self.held_slot = None;
        let a = flat_spec(rng);
        let b = flat_spec(rng);
        let c = new_spec(rng);
        self.slots = [Some(a), Some(b), Some(c)];
        self.state = State::Start;
        self.overlay = Overlay {
            visible: true,
            over: false,
            title: String::from_str(INTRO_TITLE),
            text: String::from_str(INTRO_TEXT),
            peek: false,
            reason: empty_string(),
        };
        self.hint = Hint::PickToStart;
        if skip_intro {
            self.begin_play();
        }
        Reaction { sound: None, hint: Some(false) }
    }

    /// Leave the intro card.
    pub fn begin_play(&mut self) -> (r: Reaction)
        ensures
            old(self).state == State::Start ==> {
                &&& final(self).state == State::Play
                &&& !final(self).overlay.visible
                &&& hint_text(final(self).hint) == hint_text(Hint::PickBelow)
                &&& r == Reaction { sound: None, hint: Some(false) }
            },
            old(self).state != State::Start ==> {
                &&& final(self).state == old(self).state
                &&& final(self).overlay.visible == old(self).overlay.visible
                &&& hint_text(final(self).hint) == hint_text(old(self).hint)
                &&& r == Reaction { sound: None, hint: None }
            },
            final(self).slots == old(self).slots,
            final(self).held == old(self).held,
            final(self).held_slot == old(self).held_slot,
            final(self).score == old(self).score,
            final(self).round_best == old(self).round_best,
            final(self).best_height_px == old(self).best_height_px,
            final(self).blocks == old(self).blocks,
            final(self).tier_reached == old(self).tier_reached,
            final(self).beat_best == old(self).beat_best,
            final(self).best_score == old(self).best_score,
            final(self).muted == old(self).muted,
            final(self).settings_dirty == old(self).settings_dirty,
            final(self).overlay.over == old(self).overlay.over,
            final(self).overlay.peek == old(self).overlay.peek,
            final(self).overlay.title@ == old(self).overlay.title@,
            final(self).overlay.text@ == old(self).overlay.text@,
            final(self).overlay.reason@ == old(self).overlay.reason@,
    {
        if self.state != State::Start {
            return Reaction { sound: None, hint: None };
        }
        self.state = State::Play;
        self.overlay.visible = false;
        self.hint = Hint::PickBelow;
        Reaction { sound: None, hint: Some(false) }
    }

    /// Pick up the critter in slot `i`, or swap it with the
    /// one held (the held critter goes back into that slot). The slot a
    /// critter was picked from stays empty until it is dropped, so the
    /// offering cannot be fished for easier shapes.
    pub fn select_slot(&mut self, i: usize) -> (r: Reaction)
        requires
            old(self).wf(),
            old(self).state == State::Over || i < 3,
        ensures
            final(self).wf(),
            final(self).offered() == old(self).offered(),
            old(self).state == State::Over || old(self).slots[i as int] is None ==> {
                &&& final(self).state == old(self).state
                &&& final(self).slots == old(self).slots
                &&& final(self).held == old(self).held
                &&& final(self).held_slot == old(self).held_slot
                &&& final(self).overlay.visible == old(self).overlay.visible
                &&& hint_text(final(self).hint) == hint_text(old(self).hint)
                &&& r == Reaction { sound: None, hint: None }
            },
            old(self).state != State::Over && old(self).slots[i as int] is Some ==> {
                &&& final(self).state == State::Play
                &&& final(self).held == old(self).slots[i as int]
                &&& final(self).overlay.visible == (old(self).state != State::Start
                    && old(self).overlay.visible)
                &&& hint_text(final(self).hint) == hint_text(Hint::MoveOverTower)
                &&& match old(self).held {
                    Some(h) => {
                        &&& final(self).slots[i as int] == Some(h)
                        &&& forall|j: int|
                            0 <= j < 3 && j != i ==> final(self).slots[j] == old(self).slots[j]
                        &&& final(self).held_slot == old(self).held_slot
                        &&& r == Reaction { sound: Some(Sound::Swap), hint: Some(false) }
                    },
                    None => {
                        &&& final(self).slots[i as int] is None
                        &&& forall|j: int|
                            0 <= j < 3 && j != i ==> final(self).slots[j] == old(self).slots[j]
                        &&& final(self).held_slot == Some(i)
                        &&& r == Reaction { sound: Some(Sound::Pick), hint: Some(false) }
                    },
                }
            },
            final(self).score == old(self).score,
            final(self).round_best == old(self).round_best,
            final(self).best_height_px == old(self).best_height_px,
            final(self).blocks == old(self).blocks,
            final(self).tier_reached == old(self).tier_reached,
            final(self).beat_best == old(self).beat_best,
            final(self).best_score == old(self).best_score,
            final(self).muted == old(self).muted,
            final(self).settings_dirty == old(self).settings_dirty,
            final(self).overlay.over == old(self).overlay.over,
            final(self).overlay.title@ == old(self).overlay.title@,
            final(self).overlay.text@ == old(self).overlay.text@,
            final(self).overlay.peek == old(self).overlay.peek,
            final(self).overlay.reason@ == old(self).overlay.reason@,
    {
        if self.state == State::Over {
            return Reaction { sound: None, hint: None };
        }
        let spec = match self.slots[i] {
            Some(s) => s,
            None => {
                return Reaction { sound: None, hint: None };
            },
        };
        self.begin_play();
        let sound = match self.held {
            Some(h) => {
                self.slots[i] = Some(h);
                Sound::Swap
            },
            None => {
                self.slots[i] = None;
                self.held_slot = Some(i);
                Sound::Pick
            },
        };
        self.held = Some(spec);
        self.hint = Hint::MoveOverTower;
        proof {
            broadcast use vstd::multiset::group_multiset_axioms;

            let o = old(self);
            assert(content(None).add(content(Some(spec))) =~= content(Some(spec)).add(
                content(None),
            ));
            assert(self.offered() =~= o.offered());
        }
        Reaction { sound: Some(sound), hint: Some(false) }
    }

    /// `drop()`: release the held critter onto the tower — only in play and
    /// only once the tower has settled (`can_drop`); otherwise the hint
    /// shakes and asks to wait. The emptied slot is refilled from the whole
    /// table.
    pub fn drop_piece(&mut self, can_drop: bool, rng: &mut Rng) -> (r: Reaction)
        requires
            old(self).wf(),
            old(self).held is Some && old(self).state == State::Play && can_drop
                ==> old(self).blocks < u32::MAX,
        ensures
            final(self).wf(),
            old(self).held is None || old(self).state != State::Play ==> {
                &&& final(self).slots == old(self).slots
                &&& final(self).held == old(self).held
                &&& final(self).held_slot == old(self).held_slot
                &&& final(self).blocks == old(self).blocks
                &&& hint_text(final(self).hint) == hint_text(old(self).hint)
                &&& final(rng)@ == old(rng)@
                &&& r == Reaction { sound: None, hint: None }
            },
            old(self).held is Some && old(self).state == State::Play && !can_drop ==> {
                &&& final(self).slots == old(self).slots
                &&& final(self).held == old(self).held
                &&& final(self).held_slot == old(self).held_slot
                &&& final(self).blocks == old(self).blocks
                &&& hint_text(final(self).hint) == hint_text(Hint::WaitForSettle)
                &&& final(rng)@ == old(rng)@
                &&& r == Reaction { sound: Some(Sound::Wait), hint: Some(true) }
            },
            old(self).held is Some && old(self).state == State::Play && can_drop ==> {
                &&& final(self).held is None
                &&& final(self).held_slot is None
                &&& final(self).blocks == old(self).blocks + 1
                &&& final(rng)@ == xorshift(old(rng)@)
                &&& final(self).slots[old(self).held_slot->0 as int] == Some(
                    crate::config::shape_at_spec(
                        crate::tray::pick_index(
                            crate::tray::all_shapes_spec(),
                            output_bits(final(rng)@),
                        ),
                    ),
                )
                &&& forall|j: int|
                    0 <= j < 3 && j != old(self).held_slot->0 ==> final(self).slots[j] == old(
                        self,
                    ).slots[j]
                &&& hint_text(final(self).hint) == hint_text(Hint::PickNext)
                &&& r == Reaction { sound: Some(Sound::Drop), hint: Some(false) }
            },
            final(self).state == old(self).state,
            final(self).score == old(self).score,
            final(self).round_best == old(self).round_best,
            final(self).best_height_px == old(self).best_height_px,
            final(self).tier_reached == old(self).tier_reached,
            final(self).beat_best == old(self).beat_best,
            final(self).best_score == old(self).best_score,
            final(self).muted == old(self).muted,
            final(self).settings_dirty == old(self).settings_dirty,
            final(self).overlay.visible == old(self).overlay.visible,
            final(self).same_card(*old(self)),
    {
        if self.held.is_none() || self.state != State::Play {
            return Reaction { sound: None, hint: None };
        }
        if !can_drop {
            self.hint = Hint::WaitForSettle;
            return Reaction { sound: Some(Sound::Wait), hint: Some(true) };
        }
        self.held = None;
        self.blocks = self.blocks + 1;
        if let Some(slot) = self.held_slot {
            self.held_slot = None;
            let spec = new_spec(rng);
            self.slots[slot] = Some(spec);
        }
        self.hint = Hint::PickNext;
        Reaction { sound: Some(Sound::Drop), hint: Some(false) }
    }

    /// Show the "Timber!" card with the round's score, the
    /// tower's height (`height`, as the stage prints it) and the number of
    /// critters, naming the reason when there is one.
    pub fn game_over(&mut self, reason: Option<String>, height: &str) -> (r: Reaction)
        requires
            old(self).wf(),
        ensures
            final(self).wf(),
            final(self).state == State::Over,
            final(self).held is None,
            final(self).slots == old(self).slots,
            final(self).held_slot == old(self).held_slot,
            final(self).overlay.visible,
            final(self).overlay.over,
            !final(self).overlay.peek,
            final(self).overlay.title@ == "Timber!"@,
            final(self).overlay.text@ == game_over_text(
                match reason {
                    Some(s) => Some(s@),
                    None => None,
                },
                old(self).round_best,
                height@,
                old(self).blocks,
                old(self).best_score,
            ),
            final(self).overlay.reason@ == (match reason {
                Some(s) => s@,
                None => seq![],
            }),
            hint_text(final(self).hint) == hint_text(Hint::Blank),
            r == (Reaction { sound: Some(Sound::Over), hint: Some(false) }),
            final(self).score == old(self).score,
            final(self).round_best == old(self).round_best,
            final(self).best_height_px == old(self).best_height_px,
            final(self).blocks == old(self).blocks,
            final(self).tier_reached == old(self).tier_reached,
            final(self).beat_best == old(self).beat_best,
            final(self).best_score == old(self).best_score,
            final(self).muted == old(self).muted,
            final(self).settings_dirty == old(self).settings_dirty,
    {
        self.state = State::Over;
        self.held = None;
        let mut text = empty_string();
        let reason_text = match reason {
            Some(r) => {
                text.append(r.as_str());
                text.append(" ");
                r
            },
            None => empty_string(),
        };
        text.append("Score ");
        push_chars(&mut text, &decimal_chars(self.round_best));
        text.append(" \u{B7} ");
        text.append(height);
        text.append(" tall \u{B7} ");
        push_chars(&mut text, &decimal_chars(self.blocks));
        text.append(" critter");
        if self.blocks != 1 {
            text.append("s");
        }
        text.append(".");
        if self.round_best >= self.best_score && self.round_best > 0 {
            text.append(" New best!");
        }
        assert(text@ =~= game_over_text(
            match reason {
                Some(s) => Some(s@),
                None => None,
            },
            self.round_best,
            height@,
            self.blocks,
            self.best_score,
        ));
        self.overlay = Overlay {
            visible: true,
            over: true,
            title: String::from_str("Timber!"),
            text,
            peek: false,
            reason: reason_text,
        };
        self.hint = Hint::Blank;
        Reaction { sound: Some(Sound::Over), hint: Some(false) }
    }

    /// End the round because `critter` was lost for reason `why`:
    /// "The <critter> <reason>!" on the game-over card.
    pub fn end_round(&mut self, critter: Critter, why: FallReason, height: &str) -> (r: Reaction)
        requires
            old(self).wf(),
        ensures
            final(self).wf(),
            final(self).state == State::Over,
            final(self).held is None,
            final(self).overlay.visible && final(self).overlay.over,
            final(self).overlay.reason@ == end_reason(critter, why),
            final(self).overlay.text@ == game_over_text(
                Some(end_reason(critter, why)),
                old(self).round_best,
                height@,
                old(self).blocks,
                old(self).best_score,
            ),
            final(self).overlay.title@ == "Timber!"@,
            !final(self).overlay.peek,
            hint_text(final(self).hint) == hint_text(Hint::Blank),
            r == (Reaction { sound: Some(Sound::Over), hint: Some(false) }),
            final(self).slots == old(self).slots,
            final(self).held_slot == old(self).held_slot,
            final(self).score == old(self).score,
            final(self).round_best == old(self).round_best,
            final(self).best_height_px == old(self).best_height_px,
            final(self).blocks == old(self).blocks,
            final(self).tier_reached == old(self).tier_reached,
            final(self).beat_best == old(self).beat_best,
            final(self).best_score == old(self).best_score,
            final(self).muted == old(self).muted,
            final(self).settings_dirty == old(self).settings_dirty,
    {
        let mut reason = empty_string();
        reason.append("The ");
        reason.append(critter.name());
        reason.append(" ");
        reason.append(why.text());
        reason.append("!");
        assert(reason@ =~= end_reason(critter, why));
        self.game_over(Some(reason), height)
    }

    /// The records kept after each simulation step: the tower's current
    /// score is shown; in play, the round's best score and height, the
    /// all-time best score (the fanfare plays the first time a round beats
    /// an earlier best) and the highest altitude tier reached (a toast each
    /// time a higher one is reached) are updated.
    pub fn record_progress(&mut self, score: u32, height_px: u64) -> (p: Progress)
        requires
            old(self).wf(),
        ensures
            final(self).wf(),
            final(self).score == score,
            final(self).best_score >= old(self).best_score,
            final(self).round_best >= old(self).round_best,
            final(self).tier_reached >= old(self).tier_reached,
            final(self).best_height_px >= old(self).best_height_px,
            old(self).state == State::Play ==> {
                let rb = if score > old(self).round_best {
                    score
                } else {
                    old(self).round_best
                };
                let bh = if height_px > old(self).best_height_px {
                    height_px
                } else {
                    old(self).best_height_px
                };
                let t = tier_for(bh as int);
                &&& final(self).round_best == rb
                &&& final(self).best_height_px == bh
                &&& rb > old(self).best_score ==> {
                    &&& final(self).best_score == rb
                    &&& final(self).settings_dirty
                    &&& final(self).beat_best == (old(self).beat_best || old(self).best_score > 0)
                    &&& p.beat_best == (old(self).best_score > 0 && !old(self).beat_best)
                }
                &&& rb <= old(self).best_score ==> {
                    &&& final(self).best_score == old(self).best_score
                    &&& final(self).settings_dirty == old(self).settings_dirty
                    &&& final(self).beat_best == old(self).beat_best
                    &&& !p.beat_best
                }
                &&& t > old(self).tier_reached ==> final(self).tier_reached == t && p.new_tier
                    == Some(t as usize)
                &&& t <= old(self).tier_reached ==> final(self).tier_reached == old(
                    self,
                ).tier_reached && p.new_tier is None
            },
            old(self).state != State::Play ==> {
                &&& final(self).round_best == old(self).round_best
                &&& final(self).best_height_px == old(self).best_height_px
                &&& final(self).best_score == old(self).best_score
                &&& final(self).settings_dirty == old(self).settings_dirty
                &&& final(self).beat_best == old(self).beat_best
                &&& final(self).tier_reached == old(self).tier_reached
                &&& p == Progress { beat_best: false, new_tier: None }
            },
            final(self).state == old(self).state,
            final(self).slots == old(self).slots,
            final(self).held == old(self).held,
            final(self).held_slot == old(self).held_slot,
            final(self).blocks == old(self).blocks,
            final(self).muted == old(self).muted,
            final(self).same_card(*old(self)),
            hint_text(final(self).hint) == hint_text(old(self).hint),
    {
        self.score = score;
        if self.state != State::Play {
            return Progress { beat_best: false, new_tier: None };
        }
        if height_px > self.best_height_px {
            self.best_height_px = height_px;
        }
        if score > self.round_best {
            self.round_best = score;
        }
        let mut beat = false;
        if self.round_best > self.best_score {
            if self.best_score > 0 && !self.beat_best {
                self.beat_best = true;
                beat = true;
            }
            self.best_score = self.round_best;
            self.settings_dirty = true;
        }
        let t = current_tier(self.best_height_px);
        let mut new_tier = None;
        if t > self.tier_reached {
            self.tier_reached = t;
            new_tier = Some(t);
        }
        Progress { beat_best: beat, new_tier }
    }

    /// While a critter is held the hint says whether it can be dropped yet.
    pub fn refresh_hint(&mut self, can_drop: bool) -> (r: Reaction)
        ensures
            old(self).held is Some ==> hint_text(final(self).hint) == (if can_drop {
                hint_text(Hint::MoveOverTower)
            } else {
                hint_text(Hint::WaitingToSettle)
            }) && r == (Reaction { sound: None, hint: Some(false) }),
            old(self).held is None ==> hint_text(final(self).hint) == hint_text(old(self).hint)
                && r == (Reaction { sound: None, hint: None }),
            final(self).state == old(self).state,
            final(self).slots == old(self).slots,
            final(self).held == old(self).held,
            final(self).held_slot == old(self).held_slot,
            final(self).tier_reached == old(self).tier_reached,
            final(self).round_best == old(self).round_best,
            final(self).best_score == old(self).best_score,
            final(self).same_records(*old(self)),
            final(self).same_card(*old(self)),
            final(self).muted == old(self).muted,
            final(self).settings_dirty == old(self).settings_dirty,
    {
        if self.held.is_none() {
            return Reaction { sound: None, hint: None };
        }
        self.hint = if can_drop {
            Hint::MoveOverTower
        } else {
            Hint::WaitingToSettle
        };
        Reaction { sound: None, hint: Some(false) }
    }

    pub fn set_muted(&mut self, muted: bool)
        ensures
            final(self).muted == muted,
            final(self).settings_dirty,
            final(self).state == old(self).state,
            final(self).slots == old(self).slots,
            final(self).held == old(self).held,
            final(self).held_slot == old(self).held_slot,
            final(self).tier_reached == old(self).tier_reached,
            final(self).round_best == old(self).round_best,
            final(self).best_score == old(self).best_score,
            final(self).same_records(*old(self)),
            final(self).same_card(*old(self)),
            hint_text(final(self).hint) == hint_text(old(self).hint),
    {
        self.muted = muted;
        self.settings_dirty = true;
    }

    /// The speaker button: toggle the sound; turning it back on plays a blip.
    pub fn toggle_mute(&mut self) -> (r: Reaction)
        ensures
            final(self).muted == !old(self).muted,
            final(self).settings_dirty,
            r == (Reaction {
                sound: if old(self).muted {
                    Some(Sound::Pick)
                } else {
                    None
                },
                hint: None,
            }),
            final(self).state == old(self).state,
            final(self).slots == old(self).slots,
            final(self).held == old(self).held,
            final(self).held_slot == old(self).held_slot,
            final(self).tier_reached == old(self).tier_reached,
            final(self).round_best == old(self).round_best,
            final(self).best_score == old(self).best_score,
            final(self).same_records(*old(self)),
            final(self).same_card(*old(self)),
            hint_text(final(self).hint) == hint_text(old(self).hint),
    {
        let muted = !self.muted;
        self.set_muted(muted);
        Reaction { sound: if muted { None } else { Some(Sound::Pick) }, hint: None }
    }

    /// A tap with nothing held during play: the hint shakes, asking to pick first.
    pub fn remind_to_pick(&mut self) -> (r: Reaction)
        ensures
            old(self).state == State::Play ==> hint_text(final(self).hint) == hint_text(
                Hint::PickFromTrayFirst,
            ) && r == (Reaction { sound: None, hint: Some(true) }),
            old(self).state != State::Play ==> hint_text(final(self).hint) == hint_text(
                old(self).hint,
            ) && r == (Reaction { sound: None, hint: None }),
            final(self).state == old(self).state,
            final(self).slots == old(self).slots,
            final(self).held == old(self).held,
            final(self).held_slot == old(self).held_slot,
            final(self).tier_reached == old(self).tier_reached,
            final(self).round_best == old(self).round_best,
            final(self).best_score == old(self).best_score,
            final(self).same_records(*old(self)),
            final(self).same_card(*old(self)),
            final(self).muted == old(self).muted,
            final(self).settings_dirty == old(self).settings_dirty,
    {
        if self.state != State::Play {
            return Reaction { sound: None, hint: None };
        }
        self.hint = Hint::PickFromTrayFirst;
        Reaction { sound: None, hint: Some(true) }
    }

    /// After the round, a tap off the card's button puts the card away so
    /// the tower can be looked at; the hint keeps the reason.
    pub fn put_card_away(&mut self) -> (r: Reaction)
        ensures
            old(self).state == State::Over && !old(self).overlay.peek ==> {
                &&& final(self).overlay.peek
                &&& hint_text(final(self).hint) == trim(
                    old(self).overlay.reason@ + " Drag to look around"@,
                )
                &&& r == Reaction { sound: None, hint: Some(false) }
            },
            !(old(self).state == State::Over && !old(self).overlay.peek) ==> {
                &&& final(self).overlay.peek == old(self).overlay.peek
                &&& hint_text(final(self).hint) == hint_text(old(self).hint)
                &&& r == Reaction { sound: None, hint: None }
            },
            final(self).state == old(self).state,
            final(self).slots == old(self).slots,
            final(self).held == old(self).held,
            final(self).held_slot == old(self).held_slot,
            final(self).tier_reached == old(self).tier_reached,
            final(self).round_best == old(self).round_best,
            final(self).best_score == old(self).best_score,
            final(self).overlay.visible == old(self).overlay.visible,
            final(self).overlay.reason@ == old(self).overlay.reason@,
            final(self).same_records(*old(self)),
            final(self).muted == old(self).muted,
            final(self).settings_dirty == old(self).settings_dirty,
            final(self).overlay.over == old(self).overlay.over,
            final(self).overlay.title@ == old(self).overlay.title@,
            final(self).overlay.text@ == old(self).overlay.text@,
    {
        if self.state != State::Over || self.overlay.peek {
            return Reaction { sound: None, hint: None };
        }
        self.overlay.peek = true;
        let mut line = empty_string();
        line.append(self.overlay.reason.as_str());
        line.append(" Drag to look around");
        let chars = chars_of(line.as_str());
        let (a, b) = trim_bounds(&chars, 0, chars.len());
        assert(chars@.subrange(0, chars.len() as int) =~= chars@);
        let mut out = empty_string();
        let mut k = a;
        while k < b
            invariant
                a <= k <= b <= chars.len(),
                out@ == chars@.subrange(a as int, k as int),
            decreases b - k,
        {
            crate::text::push_char(&mut out, chars[k]);
            k = k + 1;
            assert(out@ =~= chars@.subrange(a as int, k as int));
        }
        self.hint = Hint::Look(out);
        Reaction { sound: None, hint: Some(false) }
    }

    /// The autoplay driver: leave the intro, restart after a game over, pick
    /// the first filled slot when nothing is held, drop once allowed.
    pub fn autoplay_move(&self, can_drop: bool) -> (m: AutoMove)
        ensures
            self.state == State::Start ==> m == AutoMove::BeginPlay,
            self.state == State::Over ==> m == AutoMove::Restart,
            self.state == State::Play && self.held is Some ==> m == (if can_drop {
                AutoMove::Drop
            } else {
                AutoMove::Wait
            }),
            self.state == State::Play && self.held is None ==> match m {
                AutoMove::Select(i) => i < 3 && self.slots[i as int] is Some && forall|j: int|
                    0 <= j < i ==> self.slots[j] is None,
                AutoMove::Wait => forall|j: int| 0 <= j < 3 ==> self.slots[j] is None,
                _ => false,
            },
    {
        match self.state {
            State::Start => AutoMove::BeginPlay,
            State::Over => AutoMove::Restart,
            State::Play => {
                if self.held.is_none() {
                    let mut i: usize = 0;
                    while i < 3
                        invariant
                            i <= 3,
                            self.state == State::Play,
                            self.held is None,
                            forall|j: int| 0 <= j < i ==> self.slots[j] is None,
                        decreases 3 - i,
                    {
                        if self.slots[i].is_some() {
                            return AutoMove::Select(i);
                        }
                        i = i + 1;
                    }
                    AutoMove::Wait
                } else if can_drop {
                    AutoMove::Drop
                } else {
                    AutoMove::Wait
                }
            },
        }
    }

    /// The settings to keep between sessions.
    pub fn settings(&self) -> (s: crate::settings::Settings)
        ensures
            s.best_score == self.best_score,
            s.muted == self.muted,
    {
        crate::settings::Settings { best_score: self.best_score, muted: self.muted }
    }

    /// The settings to save, once, after they changed.
    pub fn take_dirty_settings(&mut self) -> (s: Option<crate::settings::Settings>)
        ensures
            !final(self).settings_dirty,
            s == (if old(self).settings_dirty {
                Some(crate::settings::Settings { best_score: old(self).best_score, muted: old(self).muted })
            } else {
                None
            }),
            final(self).best_score == old(self).best_score,
            final(self).muted == old(self).muted,
            final(self).state == old(self).state,
            final(self).slots == old(self).slots,
            final(self).held == old(self).held,
            final(self).held_slot == old(self).held_slot,
            final(self).tier_reached == old(self).tier_reached,
            final(self).round_best == old(self).round_best,
            final(self).same_records(*old(self)),
            final(self).same_card(*old(self)),
            hint_text(final(self).hint) == hint_text(old(self).hint),
    {
        if !self.settings_dirty {
            return None;
        }
        self.settings_dirty = false;
        Some(self.settings())
    }
}

} // verus!
