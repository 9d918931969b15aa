use critters_core::rng::{Rng, DRAW_RANGE};

fn random(rng: &mut Rng) -> f64 {
    rng.next_bits() as f64 / (1u64 << 53) as f64
}

#[test]
fn values_stay_in_unit_interval_and_vary() {
    let mut rng = Rng::seeded(42);
    let mut distinct = std::collections::HashSet::new();
    for _ in 0..1000 {
        let v = random(&mut rng);
        assert!((0.0..1.0).contains(&v), "out of range: {v}");
        distinct.insert(v.to_bits());
    }
    assert!(distinct.len() > 990);
}

#[test]
fn same_seed_same_sequence() {
    let mut a = Rng::seeded(7);
    let mut b = Rng::seeded(7);
    for _ in 0..50 {
        assert_eq!(random(&mut a).to_bits(), random(&mut b).to_bits());
    }
}

#[test]
fn zero_seed_is_valid() {
    let mut rng = Rng::seeded(0);
    assert!(random(&mut rng) < 1.0);
}

#[test]
fn draws_are_53_bits_and_sign_is_balanced() {
    let mut rng = Rng::seeded(3);
    let mut neg = 0;
    for _ in 0..2000 {
        assert!(rng.next_bits() < DRAW_RANGE);
        let s = rng.sign();
        assert!(s == -1 || s == 1);
        if s < 0 {
            neg += 1;
        }
    }
    assert!(neg > 800 && neg < 1200, "{neg}");
}

#[test]
fn nearby_seeds_diverge() {
    let mut a = Rng::seeded(1);
    let mut b = Rng::seeded(2);
    assert_ne!(a.next_bits(), b.next_bits());
    let mut c = a.clone();
    assert_eq!(a.next_bits(), c.next_bits());
}

#[test]
fn a_copy_continues_the_same_sequence() {
    let mut a = Rng::seeded(19);
    for _ in 0..10 {
        a.next_bits();
    }
    let mut b = a.clone();
    for _ in 0..20 {
        assert_eq!(a.next_bits(), b.next_bits());
    }
}
