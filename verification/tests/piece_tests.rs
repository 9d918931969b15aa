use critters_core::config::SETTLE_FRAMES;
use critters_core::game::FallReason;
use critters_core::piece::{expression_for, is_settled, track_lock, track_stillness, Expression, LockUpdate};

#[test]
fn settle_requires_thirty_still_frames_or_sleep() {
    let mut still = 0;
    for _ in 0..SETTLE_FRAMES - 1 {
        still = track_stillness(still, true);
        assert!(!is_settled(false, still));
    }
    still = track_stillness(still, true);
    assert!(is_settled(false, still));
    still = track_stillness(still, false);
    assert_eq!(still, 0);
    assert!(is_settled(true, still));
}

#[test]
fn lock_records_rest_and_unlocks_on_real_movement() {
    // a sleeping piece locks and records its rest
    let u = track_lock(false, false, false, true, 0);
    assert_eq!(u, LockUpdate { locked: true, still_frames: 0, record_rest: true });
    // a twitch keeps the lock
    let u = track_lock(true, true, false, false, 0);
    assert_eq!(u, LockUpdate { locked: true, still_frames: 0, record_rest: false });
    // a real slide unlocks it (and, awake, it stays unlocked)
    let u = track_lock(true, true, true, false, 12);
    assert_eq!(u, LockUpdate { locked: false, still_frames: 0, record_rest: false });
    // asleep after the slide it locks again at its new place
    let u = track_lock(true, true, true, true, 12);
    assert_eq!(u, LockUpdate { locked: true, still_frames: 0, record_rest: true });
}

#[test]
fn only_the_ground_loses_the_round() {
    assert_eq!(FallReason::of(false, false), None);
    assert_eq!(FallReason::of(true, false), Some(FallReason::HitTheGround));
    assert_eq!(FallReason::of(false, true), Some(FallReason::HitTheGround));
    assert_eq!(FallReason::HitTheGround.text(), "hit the ground");
    assert_eq!(FallReason::WentOverTheSide.text(), "went over the side");
}

#[test]
fn expressions_follow_the_original_priority() {
    // held
    assert_eq!(expression_for(true, false, false, false, false, false, false), Expression::Curious);
    // not landed yet
    assert_eq!(expression_for(false, false, false, false, false, false, false), Expression::Scared);
    // landed half a second ago
    assert_eq!(expression_for(false, true, false, true, false, false, false), Expression::Relieved);
    // jostled
    assert_eq!(expression_for(false, true, true, true, false, false, false), Expression::Scared);
    // landed long ago, not locked
    assert_eq!(expression_for(false, true, false, false, false, false, false), Expression::Worried);
    // locked
    assert_eq!(expression_for(false, true, false, false, true, false, false), Expression::Happy);
    // a strong gust
    assert_eq!(expression_for(false, true, false, false, true, false, true), Expression::Worried);
    // frozen pieces do not mind the wind
    assert_eq!(expression_for(false, true, false, false, true, true, true), Expression::Happy);
}
