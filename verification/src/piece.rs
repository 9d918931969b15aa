//! The rules that act on a single critter piece: when it counts as resting,
//! when it locks in its place (and its score) and when it unlocks again,
//! and which face its critter makes. The measurements (speed, how far it
//! moved since it locked) come from the physics world as yes/no answers.

use vstd::prelude::*;
use crate::config::SETTLE_FRAMES;

verus! {

/// A nearly motionless step adds one to the run of still
/// frames, any motion resets it.
pub fn track_stillness(still_frames: u32, still: bool) -> (n: u32)
    requires
        still ==> still_frames < u32::MAX,
    ensures
        n == (if still {
            still_frames + 1
        } else {
            0
        }),
{
    if still {
        still_frames + 1
    } else {
        0
    }
}

/// Asleep, or still for `SETTLE_FRAMES` steps in a row, so the
/// top of a bounce does not register as a resting height.
pub fn is_settled(sleeping: bool, still_frames: u32) -> (b: bool)
    ensures
        b == (sleeping || still_frames >= SETTLE_FRAMES),
{
    sleeping || still_frames >= SETTLE_FRAMES
}

/// The outcome of `track_lock` for one step.
#[derive(Clone, Copy, Debug, PartialEq, Eq, Structural)]
pub struct LockUpdate {
    pub locked: bool,
    pub still_frames: u32,
    /// The piece (re)locked this step: its current place becomes its rest.
    pub record_rest: bool,
}

/// One step of the lock rule.
pub open spec fn lock_update(
    locked: bool,
    has_rest: bool,
    moved: bool,
    sleeping: bool,
    still_frames: u32,
) -> LockUpdate {
    let unlock = locked && has_rest && moved;
    let still: u32 = if unlock {
        0
    } else {
        still_frames
    };
    let stays = locked && !unlock;
    let relock = !stays && (sleeping || still >= SETTLE_FRAMES);
    LockUpdate { locked: stays || relock, still_frames: still, record_rest: relock }
}

/// Once a piece settles it locks and keeps counting toward
/// height and score even while a landing neighbour makes it twitch; it only
/// unlocks when it `moved` a meaningful amount from its rest (which also
/// restarts its stillness count). An unlocked piece that is settled locks.
pub fn track_lock(locked: bool, has_rest: bool, moved: bool, sleeping: bool, still_frames: u32) -> (u:
    LockUpdate)
    ensures
        u == lock_update(locked, has_rest, moved, sleeping, still_frames),
        !locked && !sleeping && still_frames < 30 ==> u == (LockUpdate {
            locked: false,
            still_frames,
            record_rest: false,
        }),
        !locked && (sleeping || still_frames >= 30) ==> u == (LockUpdate {
            locked: true,
            still_frames,
            record_rest: true,
        }),
        locked && !(has_rest && moved) ==> u == (LockUpdate {
            locked: true,
            still_frames,
            record_rest: false,
        }),
        locked && has_rest && moved ==> u == (LockUpdate {
            locked: sleeping,
            still_frames: 0,
            record_rest: sleeping,
        }),
{
    let mut l = locked;
    let mut still = still_frames;
    if locked && has_rest && moved {
        l = false;
        still = 0;
    }
    let mut record = false;
    if !l && is_settled(sleeping, still) {
        l = true;
        record = true;
    }
    LockUpdate { locked: l, still_frames: still, record_rest: record }
}

/// A locked piece stays locked (and keeps its rest and score) whatever its
/// neighbours do, as long as it does not itself move; an unlocked piece
/// locks, recording its rest, as soon as it has settled.
pub proof fn lemma_lock_rules(has_rest: bool, moved: bool, sleeping: bool, still_frames: u32)
    ensures
        !moved ==> lock_update(true, has_rest, moved, sleeping, still_frames) == (LockUpdate {
            locked: true,
            still_frames,
            record_rest: false,
        }),
        (sleeping || still_frames >= SETTLE_FRAMES) ==> lock_update(
            false,
            has_rest,
            moved,
            sleeping,
            still_frames,
        ) == (LockUpdate { locked: true, still_frames, record_rest: true }),
{
}

/// A piece locks only once it has settled (asleep, or still for 30 steps
/// in a row): an unlocked piece short of that, such as one at the top of a
/// bounce, stays unlocked and records no rest; one that has settled locks and
/// records its rest. A locked piece that has not moved stays locked without
/// a new rest; one that moved unlocks with its still count restarted, and
/// locks again at once only if it is asleep.
pub proof fn lemma_lock_only_when_settled(
    locked: bool,
    has_rest: bool,
    moved: bool,
    sleeping: bool,
    still_frames: u32,
)
    ensures
        !locked && !sleeping && still_frames < 30 ==> !lock_update(
            locked,
            has_rest,
            moved,
            sleeping,
            still_frames,
        ).locked && !lock_update(locked, has_rest, moved, sleeping, still_frames).record_rest,
        !locked && (sleeping || still_frames >= 30) ==> lock_update(
            locked,
            has_rest,
            moved,
            sleeping,
            still_frames,
        ) == (LockUpdate { locked: true, still_frames, record_rest: true }),
        locked && has_rest && moved ==> lock_update(locked, has_rest, moved, sleeping, still_frames)
            == (LockUpdate { locked: sleeping, still_frames: 0, record_rest: sleeping }),
        lock_update(locked, has_rest, moved, sleeping, still_frames).record_rest ==> lock_update(
            locked,
            has_rest,
            moved,
            sleeping,
            still_frames,
        ).locked,
{
}

/// Which face a critter makes.
#[derive(Clone, Copy, Debug, PartialEq, Eq, Hash, Structural)]
pub enum Expression {
    Happy,
    Curious,
    Scared,
    Worried,
    Relieved,
}

/// The face, by priority: curious while held; scared while falling or
/// being jostled; relieved just after landing; worried while unsettled or
/// in a strong gust; otherwise happy.
pub open spec fn expression_spec(
    held: bool,
    landed: bool,
    moving: bool,
    just_landed: bool,
    locked: bool,
    is_static: bool,
    gusty: bool,
) -> Expression {
    if held {
        Expression::Curious
    } else if !landed || moving {
        Expression::Scared
    } else if just_landed {
        Expression::Relieved
    } else if !locked && !is_static {
        Expression::Worried
    } else if gusty && !is_static {
        Expression::Worried
    } else {
        Expression::Happy
    }
}

/// The face priorities: a held critter is curious; any other critter that
/// is falling or moving is scared, whether or not it is locked, static or in
/// a gust; a critter that has just landed is relieved; after that it is
/// worried while it is neither locked nor static or while a gust blows on a
/// non-static one, and happy otherwise.
pub proof fn lemma_expression_priority(
    held: bool,
    landed: bool,
    moving: bool,
    just_landed: bool,
    locked: bool,
    is_static: bool,
    gusty: bool,
)
    ensures
        held ==> expression_spec(held, landed, moving, just_landed, locked, is_static, gusty)
            == Expression::Curious,
        !held && (!landed || moving) ==> expression_spec(
            held,
            landed,
            moving,
            just_landed,
            locked,
            is_static,
            gusty,
        ) == Expression::Scared,
        !held && landed && !moving && just_landed ==> expression_spec(
            held,
            landed,
            moving,
            just_landed,
            locked,
            is_static,
            gusty,
        ) == Expression::Relieved,
        !held && landed && !moving && !just_landed ==> expression_spec(
            held,
            landed,
            moving,
            just_landed,
            locked,
            is_static,
            gusty,
        ) == (if !is_static && (!locked || gusty) {
            Expression::Worried
        } else {
            Expression::Happy
        }),
{
}

/// The face a critter makes, by the priority of `expression_spec`.
pub fn expression_for(
    held: bool,
    landed: bool,
    moving: bool,
    just_landed: bool,
    locked: bool,
    is_static: bool,
    gusty: bool,
) -> (e: Expression)
    ensures
        e == expression_spec(held, landed, moving, just_landed, locked, is_static, gusty),
        held ==> e == Expression::Curious,
        !held && (!landed || moving) ==> e == Expression::Scared,
        !held && landed && !moving && just_landed ==> e == Expression::Relieved,
        !held && landed && !moving && !just_landed ==> e == (if !is_static && (!locked || gusty) {
            Expression::Worried
        } else {
            Expression::Happy
        }),
{
    if held {
        return Expression::Curious;
    }
    if !landed {
        return Expression::Scared;
    }
    if moving {
        return Expression::Scared;
    }
    if just_landed {
        return Expression::Relieved;
    }
    if landed && !locked && !is_static {
        return Expression::Worried;
    }
    if gusty && !is_static {
        return Expression::Worried;
    }
    Expression::Happy
}

} // verus!
