//! The tray's shape offering: shapes are drawn from a pool with the table's
//! draw weights, and the first two slots of a round only offer flat, easy
//! shapes. A draw of 53 random bits `b` stands for the number `b / 2^53` in
//! `[0, 1)`; scaled by the pool's total weight it is walked down the pool,
//! and the first shape whose running weight reaches it is taken.

use vstd::prelude::*;
use crate::config::{shape_at_spec, shape_is_flat, shape_weight, ShapeId, SHAPE_COUNT};
use crate::rng::{output_bits, xorshift, Rng, DRAW_RANGE};

verus! {

/// Sum of the weights (tenths) of the first `n` shapes of `pool`.
pub open spec fn weight_prefix(pool: Seq<ShapeId>, n: int) -> nat
    decreases n,
{
    if n <= 0 || pool.len() == 0 {
        0
    } else if n > pool.len() {
        weight_prefix(pool, pool.len() as int)
    } else {
        weight_prefix(pool, n - 1) + shape_weight(pool[n - 1]) as nat
    }
}

/// Total weight of a pool.
pub open spec fn total_weight(pool: Seq<ShapeId>) -> nat {
    weight_prefix(pool, pool.len() as int)
}

/// The draw `bits` reaches the running weight after shape `i`:
/// `bits / 2^53 · total ≤ weight of shapes 0..=i`.
pub open spec fn draw_reaches(pool: Seq<ShapeId>, bits: u64, i: int) -> bool {
    bits * total_weight(pool) <= weight_prefix(pool, i + 1) * DRAW_RANGE
}

/// The first shape index at or after `i` that the draw reaches (0 if none).
pub open spec fn pick_from(pool: Seq<ShapeId>, bits: u64, i: int) -> int
    decreases pool.len() - i,
{
    if i < 0 || i >= pool.len() {
        0
    } else if draw_reaches(pool, bits, i) {
        i
    } else {
        pick_from(pool, bits, i + 1)
    }
}

/// The index of the shape a draw picks from a pool.
pub open spec fn pick_index(pool: Seq<ShapeId>, bits: u64) -> int {
    pick_from(pool, bits, 0)
}

proof fn lemma_pick_from_range(pool: Seq<ShapeId>, bits: u64, i: int)
    requires
        0 <= i,
    ensures
        pool.len() > 0 ==> 0 <= pick_from(pool, bits, i) < pool.len(),
    decreases pool.len() - i,
{
    if i < pool.len() && !draw_reaches(pool, bits, i) {
        lemma_pick_from_range(pool, bits, i + 1);
    }
}

proof fn lemma_weight_monotone(pool: Seq<ShapeId>, a: int, b: int)
    requires
        0 <= a <= b <= pool.len(),
    ensures
        weight_prefix(pool, a) <= weight_prefix(pool, b),
    decreases b - a,
{
    if a < b {
        lemma_weight_monotone(pool, a, b - 1);
    }
}

proof fn lemma_weight_bound(pool: Seq<ShapeId>, n: int)
    requires
        0 <= n <= pool.len(),
    ensures
        weight_prefix(pool, n) <= 30 * n,
    decreases n,
{
    if n > 0 {
        lemma_weight_bound(pool, n - 1);
    }
}

proof fn lemma_pick_walk(pool: Seq<ShapeId>, bits: u64, k: int, i: int)
    requires
        0 <= k <= i < pool.len(),
        draw_reaches(pool, bits, i),
        forall|j: int| k <= j < i ==> !draw_reaches(pool, bits, j),
    ensures
        pick_from(pool, bits, k) == i,
    decreases i - k,
{
    if k < i {
        lemma_pick_walk(pool, bits, k + 1, i);
    }
}

/// Every shape of a pool can be offered: some draw picks it (every shape of
/// the table has a positive weight). This needs the 53-bit draws to resolve
/// the smallest weight against the pool's total, which fails only for pools
/// of some 10^15 shapes; pools of up to 2^32 - 1 shapes are covered.
pub proof fn lemma_every_shape_can_be_drawn(pool: Seq<ShapeId>, i: int)
    requires
        0 <= i < pool.len(),
        pool.len() <= u32::MAX,
    ensures
        exists|bits: u64| bits < DRAW_RANGE && #[trigger] pick_index(pool, bits) == i,
{
    let d: int = DRAW_RANGE as int;
    let t: int = total_weight(pool) as int;
    let p: int = weight_prefix(pool, i) as int;
    let q: int = weight_prefix(pool, i + 1) as int;
    let w: int = shape_weight(pool[i]) as int;
    assert(q == p + w);
    assert(w >= 4);
    lemma_weight_bound(pool, pool.len() as int);
    lemma_weight_monotone(pool, i + 1, pool.len() as int);
    assert(t <= 30 * 0xffff_ffff);
    assert(q <= t);
    assert(t > 0);
    let b: int = if q == t {
        d - 1
    } else {
        (q * d) / t
    };
    assert(0 <= b < d && b * t <= q * d && b * t > p * d) by (nonlinear_arith)
        requires
            d == 0x20_0000_0000_0000,
            0 < t <= 30 * 0xffff_ffff,
            q == p + w,
            w >= 4,
            0 <= p,
            q <= t,
            b == (if q == t {
                d - 1
            } else {
                (q * d) / t
            }),
    ;
    let bits = b as u64;
    assert forall|j: int| 0 <= j < i implies !draw_reaches(pool, bits, j) by {
        lemma_weight_monotone(pool, j + 1, i);
        let r = weight_prefix(pool, j + 1) as int;
        assert(r * d <= p * d) by (nonlinear_arith)
            requires
                r <= p,
                d > 0,
        ;
    }
    lemma_pick_walk(pool, bits, 0, i);
    assert(pick_index(pool, bits) == i);
}

/// The shape a draw of 53 random bits picks from `pool`.
pub fn pick_with(bits: u64, pool: &[ShapeId]) -> (s: ShapeId)
    requires
        pool.len() > 0,
        bits < DRAW_RANGE,
    ensures
        0 <= pick_index(pool@, bits) < pool.len(),
        s == pool@[pick_index(pool@, bits)],
{
    let n = pool.len();
    let mut total: u128 = 0;
    let mut i: usize = 0;
    while i < n
        invariant
            n == pool.len(),
            i <= n,
            total == weight_prefix(pool@, i as int),
            total <= 30 * i,
        decreases n - i,
    {
        total = total + pool[i].weight_tenths() as u128;
        i = i + 1;
    }
    let ghost t = total as nat;
    assert(t == total_weight(pool@));
    let mut cum: u128 = 0;
    let mut j: usize = 0;
    while j < n
        invariant
            n == pool.len(),
            j <= n,
            total == total_weight(pool@),
            total <= 30 * n,
            bits < DRAW_RANGE,
            cum == weight_prefix(pool@, j as int),
            cum <= 30 * j,
            pick_index(pool@, bits) == pick_from(pool@, bits, j as int),
        decreases n - j,
    {
        cum = cum + pool[j].weight_tenths() as u128;
        assert(cum == weight_prefix(pool@, j + 1));
        proof {
            assert(bits * total <= 0x20_0000_0000_0000 * (30 * 0x1_0000_0000_0000_0000nat)) by (nonlinear_arith)
                requires
                    bits < 0x20_0000_0000_0000u64,
                    total <= 30 * 0x1_0000_0000_0000_0000nat,
            ;
            assert(cum * DRAW_RANGE <= (30 * 0x1_0000_0000_0000_0000nat) * 0x20_0000_0000_0000) by (nonlinear_arith)
                requires
                    cum <= 30 * 0x1_0000_0000_0000_0000nat,
                    DRAW_RANGE == 0x20_0000_0000_0000u64,
            ;
        }
        let lhs = (bits as u128) * total;
        let rhs = cum * (DRAW_RANGE as u128);
        if lhs <= rhs {
            proof {
                lemma_pick_from_range(pool@, bits, 0);
            }
            return pool[j];
        }
        j = j + 1;
    }
    proof {
        lemma_pick_from_range(pool@, bits, 0);
    }
    pool[0]
}

/// Draw a shape from `pool` with the table's weights.
pub fn pick_shape(rng: &mut Rng, pool: &[ShapeId]) -> (s: ShapeId)
    requires
        pool.len() > 0,
    ensures
        final(rng)@ == xorshift(old(rng)@),
        0 <= pick_index(pool@, output_bits(final(rng)@)) < pool.len(),
        s == pool@[pick_index(pool@, output_bits(final(rng)@))],
{
    let bits = rng.next_bits();
    pick_with(bits, pool)
}

/// All ten shapes, in table order.
pub fn all_shapes() -> (v: Vec<ShapeId>)
    ensures
        v.len() == SHAPE_COUNT,
        forall|i: int| 0 <= i < SHAPE_COUNT ==> #[trigger] v@[i] == shape_at_spec(i),
{
    let mut v: Vec<ShapeId> = Vec::new();
    let mut i: usize = 0;
    while i < SHAPE_COUNT
        invariant
            i <= SHAPE_COUNT,
            v.len() == i,
            forall|j: int| 0 <= j < i ==> #[trigger] v@[j] == shape_at_spec(j),
        decreases SHAPE_COUNT - i,
    {
        v.push(ShapeId::at(i));
        i = i + 1;
    }
    v
}

/// The easy shapes of the table (small rectangles and trapezoids), in order.
pub open spec fn flat_shapes() -> Seq<ShapeId> {
    seq![ShapeId::Log, ShapeId::Block, ShapeId::Plank, ShapeId::Stump]
}

/// The flat pool holds exactly the flat shapes.
pub proof fn lemma_flat_shapes(s: ShapeId)
    ensures
        flat_shapes().contains(s) <==> shape_is_flat(s),
{
    if shape_is_flat(s) {
        if s == ShapeId::Log {
            assert(flat_shapes()[0] == s);
        } else if s == ShapeId::Block {
            assert(flat_shapes()[1] == s);
        } else if s == ShapeId::Plank {
            assert(flat_shapes()[2] == s);
        } else {
            assert(flat_shapes()[3] == s);
        }
    }
}

/// The pool of flat shapes, in table order.
pub fn flat_pool() -> (v: Vec<ShapeId>)
    ensures
        v@ == flat_shapes(),
{
    let all = all_shapes();
    let mut v: Vec<ShapeId> = Vec::new();
    let mut i: usize = 0;
    while i < all.len()
        invariant
            all.len() == SHAPE_COUNT,
            forall|j: int| 0 <= j < SHAPE_COUNT ==> #[trigger] all@[j] == shape_at_spec(j),
            i <= SHAPE_COUNT,
            v@ == (if i <= 0 {
                seq![]
            } else if i <= 1 {
                seq![ShapeId::Log]
            } else if i <= 2 {
                seq![ShapeId::Log, ShapeId::Block]
            } else if i <= 4 {
                seq![ShapeId::Log, ShapeId::Block, ShapeId::Plank]
            } else {
                flat_shapes()
            }),
        decreases SHAPE_COUNT - i,
    {
        let s = all[i];
        if s.is_flat() {
            v.push(s);
        }
        i = i + 1;
        assert(v@ =~= (if i <= 0 {
            seq![]
        } else if i <= 1 {
            seq![ShapeId::Log]
        } else if i <= 2 {
            seq![ShapeId::Log, ShapeId::Block]
        } else if i <= 4 {
            seq![ShapeId::Log, ShapeId::Block, ShapeId::Plank]
        } else {
            flat_shapes()
        }));
    }
    v
}

/// A shape from the whole table.
pub fn new_spec(rng: &mut Rng) -> (s: ShapeId)
    ensures
        final(rng)@ == xorshift(old(rng)@),
        s == shape_at_spec(pick_index(all_shapes_spec(), output_bits(final(rng)@))),
{
    let pool = all_shapes();
    assert(pool@ =~= all_shapes_spec());
    pick_shape(rng, pool.as_slice())
}

/// A shape from the flat pool (the first two slots of a round).
pub fn flat_spec(rng: &mut Rng) -> (s: ShapeId)
    ensures
        final(rng)@ == xorshift(old(rng)@),
        s == flat_shapes()[pick_index(flat_shapes(), output_bits(final(rng)@))],
        shape_is_flat(s),
{
    let pool = flat_pool();
    let s = pick_shape(rng, pool.as_slice());
    proof {
        lemma_flat_shapes(s);
    }
    s
}

/// The whole table as a sequence.
pub open spec fn all_shapes_spec() -> Seq<ShapeId> {
    Seq::new(SHAPE_COUNT as nat, |i: int| shape_at_spec(i))
}

} // verus!
