//! Texture preparation for the sprite cache. Sprites are straight-alpha RGBA
//! images sampled with linear filtering; a fully transparent texel is black,
//! which would drag an edge sample toward black and outline every sprite
//! with a dark fringe. So transparent texels take the average colour of
//! their non-empty neighbours, in two dilation passes (the filter's
//! footprint), while their alpha stays 0.

use vstd::prelude::*;
use vstd::arithmetic::div_mod::{lemma_fundamental_div_mod, lemma_fundamental_div_mod_converse};

verus! {

/// Texel `t` (4 bytes from `4t`) holds anything: some channel is non-zero.
pub open spec fn filled(p: Seq<u8>, t: int) -> bool {
    p[4 * t] != 0 || p[4 * t + 1] != 0 || p[4 * t + 2] != 0 || p[4 * t + 3] != 0
}

/// The `k`-th neighbour (left, right, above, below) of texel `t` in a
/// `w`-wide, `h`-high image, if it lies inside the image.
pub open spec fn neighbour(w: int, h: int, t: int, k: int) -> Option<int> {
    let x = t % w;
    let y = t / w;
    if k == 0 {
        if x > 0 {
            Some(t - 1)
        } else {
            None
        }
    } else if k == 1 {
        if x + 1 < w {
            Some(t + 1)
        } else {
            None
        }
    } else if k == 2 {
        if y > 0 {
            Some(t - w)
        } else {
            None
        }
    } else {
        if y + 1 < h {
            Some(t + w)
        } else {
            None
        }
    }
}

/// The `k`-th neighbour exists and is filled.
pub open spec fn neighbour_counts(p: Seq<u8>, w: int, h: int, t: int, k: int) -> bool {
    match neighbour(w, h, t, k) {
        Some(u) => filled(p, u),
        None => false,
    }
}

/// Channel `c` of the `k`-th neighbour when it counts, else 0.
pub open spec fn neighbour_channel(p: Seq<u8>, w: int, h: int, t: int, k: int, c: int) -> int {
    if neighbour_counts(p, w, h, t, k) {
        p[4 * neighbour(w, h, t, k)->0 + c] as int
    } else {
        0
    }
}

/// Number of filled neighbours of texel `t`.
pub open spec fn neighbour_count(p: Seq<u8>, w: int, h: int, t: int) -> int {
    (if neighbour_counts(p, w, h, t, 0) { 1int } else { 0 }) + (if neighbour_counts(p, w, h, t, 1) {
        1int
    } else {
        0
    }) + (if neighbour_counts(p, w, h, t, 2) { 1int } else { 0 }) + (if neighbour_counts(
        p,
        w,
        h,
        t,
        3,
    ) {
        1int
    } else {
        0
    })
}

/// Sum of channel `c` over the filled neighbours of texel `t`.
pub open spec fn neighbour_sum(p: Seq<u8>, w: int, h: int, t: int, c: int) -> int {
    neighbour_channel(p, w, h, t, 0, c) + neighbour_channel(p, w, h, t, 1, c) + neighbour_channel(
        p,
        w,
        h,
        t,
        2,
        c,
    ) + neighbour_channel(p, w, h, t, 3, c)
}

/// Byte `j` after one bleeding pass over `p`: the colour bytes of an empty
/// texel with filled neighbours become their average; everything else stays.
pub open spec fn bleed_byte(p: Seq<u8>, w: int, h: int, j: int) -> u8 {
    let t = j / 4;
    let c = j % 4;
    if 0 <= t < w * h && c < 3 && !filled(p, t) && neighbour_count(p, w, h, t) > 0 {
        (neighbour_sum(p, w, h, t, c) / neighbour_count(p, w, h, t)) as u8
    } else {
        p[j]
    }
}

/// One dilation pass over a whole image.
pub open spec fn bleed_pass(p: Seq<u8>, w: int, h: int) -> Seq<u8> {
    Seq::new(p.len(), |j: int| bleed_byte(p, w, h, j))
}

fn copy_bytes(px: &[u8]) -> (v: Vec<u8>)
    ensures
        v@ == px@,
{
    let mut v: Vec<u8> = Vec::new();
    let mut i: usize = 0;
    while i < px.len()
        invariant
            i <= px.len(),
            v@ == px@.take(i as int),
        decreases px.len() - i,
    {
        v.push(px[i]);
        i = i + 1;
        assert(v@ =~= px@.take(i as int));
    }
    assert(px@.take(px.len() as int) =~= px@);
    v
}

fn texel_filled(p: &Vec<u8>, t: usize) -> (b: bool)
    requires
        4 * t + 3 < p.len(),
    ensures
        b == filled(p@, t as int),
{
    p[4 * t] != 0 || p[4 * t + 1] != 0 || p[4 * t + 2] != 0 || p[4 * t + 3] != 0
}

proof fn lemma_coords(t: int, w: int, h: int, x: int, y: int)
    requires
        0 < w,
        0 <= x < w,
        0 <= y < h,
        t == y * w + x,
    ensures
        t % w == x,
        t / w == y,
        0 <= t < w * h,
        y > 0 ==> t - w >= 0,
        y + 1 < h ==> t + w < w * h,
        x + 1 < w ==> t + 1 < w * h,
{
    lemma_fundamental_div_mod_converse(t, w, y, x);
    assert(0 <= t < w * h) by (nonlinear_arith)
        requires
            0 < w,
            0 <= x < w,
            0 <= y < h,
            t == y * w + x,
    ;
    assert(y > 0 ==> t - w >= 0) by (nonlinear_arith)
        requires
            0 < w,
            0 <= x,
            t == y * w + x,
    ;
    assert(x + 1 < w ==> t + 1 < w * h) by (nonlinear_arith)
        requires
            0 < w,
            0 <= x < w,
            0 <= y < h,
            t == y * w + x,
    ;
    assert(y + 1 < h ==> t + w < w * h) by (nonlinear_arith)
        requires
            0 < w,
            0 <= x < w,
            0 <= y,
            t == y * w + x,
    ;
}

proof fn lemma_byte_of_texel(j: int, t: int)
    requires
        4 * t <= j < 4 * t + 4,
    ensures
        j / 4 == t,
        j % 4 == j - 4 * t,
{
}

/// Whether the `k`-th neighbour of texel `t` (at column `x`, row `y`)
/// counts, and its colour channels.
fn neighbour_at(src: &Vec<u8>, w: usize, h: usize, t: usize, x: usize, y: usize, k: usize) -> (r: (
    bool,
    u32,
    u32,
    u32,
))
    requires
        4 * (w * h) <= src@.len(),
        x < w,
        y < h,
        t == y * w + x,
        k < 4,
    ensures
        r.0 == neighbour_counts(src@, w as int, h as int, t as int, k as int),
        r.1 == neighbour_channel(src@, w as int, h as int, t as int, k as int, 0),
        r.2 == neighbour_channel(src@, w as int, h as int, t as int, k as int, 1),
        r.3 == neighbour_channel(src@, w as int, h as int, t as int, k as int, 2),
{
    proof {
        lemma_coords(t as int, w as int, h as int, x as int, y as int);
    }
    let inside = if k == 0 {
        x > 0
    } else if k == 1 {
        x + 1 < w
    } else if k == 2 {
        y > 0
    } else {
        y + 1 < h
    };
    if !inside {
        return (false, 0, 0, 0);
    }
    let u = if k == 0 {
        t - 1
    } else if k == 1 {
        t + 1
    } else if k == 2 {
        t - w
    } else {
        t + w
    };
    assert(neighbour(w as int, h as int, t as int, k as int) == Some(u as int));
    assert(4 * u + 3 < src.len());
    if texel_filled(src, u) {
        (true, src[4 * u] as u32, src[4 * u + 1] as u32, src[4 * u + 2] as u32)
    } else {
        (false, 0, 0, 0)
    }
}

/// Bleed texel `t` (at column `x`, row `y`) of `src` into `px`.
#[verifier::rlimit(30)]
fn bleed_texel(px: &mut [u8], src: &Vec<u8>, w: usize, h: usize, t: usize, x: usize, y: usize)
    requires
        old(px)@.len() == src@.len(),
        4 * (w * h) <= src@.len(),
        x < w,
        y < h,
        t == y * w + x,
        forall|j: int| 4 * t <= j < 4 * t + 4 ==> #[trigger] old(px)@[j] == src@[j],
    ensures
        final(px)@.len() == old(px)@.len(),
        forall|j: int|
            4 * t <= j < 4 * t + 4 ==> #[trigger] final(px)@[j] == bleed_byte(
                src@,
                w as int,
                h as int,
                j,
            ),
        forall|j: int|
            0 <= j < final(px)@.len() && !(4 * t <= j < 4 * t + 4) ==> #[trigger] final(px)@[j]
                == old(px)@[j],
{
    let ghost s = src@;
    let ghost wi = w as int;
    let ghost hi = h as int;
    let ghost ti = t as int;
    proof {
        lemma_coords(t as int, wi, hi, x as int, y as int);
    }
    assert(4 * t + 3 < src.len());
    let empty = !texel_filled(src, t);
    let mut cnt: u32 = 0;
    let mut r: u32 = 0;
    let mut g: u32 = 0;
    let mut b: u32 = 0;
    if empty {
        let n0 = neighbour_at(src, w, h, t, x, y, 0);
        let n1 = neighbour_at(src, w, h, t, x, y, 1);
        let n2 = neighbour_at(src, w, h, t, x, y, 2);
        let n3 = neighbour_at(src, w, h, t, x, y, 3);
        cnt = (if n0.0 { 1u32 } else { 0 }) + (if n1.0 { 1u32 } else { 0 }) + (if n2.0 { 1u32 } else { 0 }) + (if n3.0 { 1u32 } else { 0 });
        r = n0.1 + n1.1 + n2.1 + n3.1;
        g = n0.2 + n1.2 + n2.2 + n3.2;
        b = n0.3 + n1.3 + n2.3 + n3.3;
        assert(cnt == neighbour_count(s, wi, hi, ti));
        assert(r == neighbour_sum(s, wi, hi, ti, 0));
        assert(g == neighbour_sum(s, wi, hi, ti, 1));
        assert(b == neighbour_sum(s, wi, hi, ti, 2));
    }
    let ghost before = px@;
    // alpha stays 0: only the colour bleeds
    if empty && cnt > 0 {
        assert(r / cnt <= 255 && g / cnt <= 255 && b / cnt <= 255) by (nonlinear_arith)
            requires
                r <= 255 * cnt,
                g <= 255 * cnt,
                b <= 255 * cnt,
                cnt > 0,
        ;
        px[4 * t] = (r / cnt) as u8;
        px[4 * t + 1] = (g / cnt) as u8;
        px[4 * t + 2] = (b / cnt) as u8;
    }
    proof {
        assert forall|j: int| 4 * ti <= j < 4 * ti + 4 implies #[trigger] px@[j] == bleed_byte(
            s,
            wi,
            hi,
            j,
        ) by {
            lemma_byte_of_texel(j, ti);
            assert(before[j] == s[j]);
            if !(empty && cnt > 0) {
                assert(px@[j] == s[j]);
            }
        }
    }
}

/// One dilation pass.
fn bleed_once(px: &mut [u8], w: usize, h: usize)
    requires
        w * h * 4 <= old(px).len(),
    ensures
        final(px)@ == bleed_pass(old(px)@, w as int, h as int),
{
    let src = copy_bytes(px);
    let ghost s = src@;
    let n: usize = w * h;
    let ghost wi = w as int;
    let ghost hi = h as int;
    let mut t: usize = 0;
    let mut x: usize = 0;
    let mut y: usize = 0;
    while t < n
        invariant
            s == src@,
            s == old(px)@,
            wi == w as int,
            hi == h as int,
            px@.len() == s.len(),
            n == w * h,
            4 * n <= s.len(),
            t <= n,
            t < n ==> (x < w && y < h && t == y * w + x),
            forall|j: int| 0 <= j < 4 * t ==> #[trigger] px@[j] == bleed_byte(s, wi, hi, j),
            forall|j: int| 4 * t <= j < s.len() ==> #[trigger] px@[j] == s[j],
        decreases n - t,
    {
        proof {
            assert(w > 0) by (nonlinear_arith)
                requires
                    t < n,
                    n == w * h,
            ;
            lemma_coords(t as int, wi, hi, x as int, y as int);
        }
        let ghost before = px@;
        assert(forall|j: int| 4 * t <= j < 4 * t + 4 ==> #[trigger] px@[j] == src@[j]);
        bleed_texel(px, &src, w, h, t, x, y);
        proof {
            let tt = t as int;
            assert forall|j: int| 0 <= j < 4 * tt + 4 implies #[trigger] px@[j] == bleed_byte(
                s,
                wi,
                hi,
                j,
            ) by {
                if j < 4 * tt {
                    assert(px@[j] == before[j]);
                }
            }
            assert forall|j: int| 4 * tt + 4 <= j < s.len() implies #[trigger] px@[j] == s[j] by {
                assert(px@[j] == before[j]);
            }
        }
        let ghost t0 = t as int;
        let ghost x0 = x as int;
        let ghost y0 = y as int;
        t = t + 1;
        if x + 1 < w {
            x = x + 1;
        } else {
            x = 0;
            y = y + 1;
        }
        proof {
            if t < n {
                assert(t == y * w + x) by (nonlinear_arith)
                    requires
                        t == t0 + 1,
                        t0 == y0 * w + x0,
                        x0 + 1 < w ==> (x == x0 + 1 && y == y0),
                        x0 + 1 >= w ==> (x == 0 && y == y0 + 1 && x0 + 1 == w),
                ;
                assert(y < h) by (nonlinear_arith)
                    requires
                        t == y * w + x,
                        t < w * h,
                        0 <= x,
                        0 < w,
                ;
            }
        }
    }
    proof {
        assert forall|j: int| 0 <= j < s.len() implies #[trigger] px@[j] == bleed_byte(
            s,
            wi,
            hi,
            j,
        ) by {
            if j >= 4 * n {
                assert(j / 4 >= n);
            }
        }
        assert(px@ =~= bleed_pass(s, wi, hi));
    }
}

/// A pass never changes alpha, a filled texel, or bytes past the image.
pub proof fn lemma_bleed_pass_keeps(p: Seq<u8>, w: int, h: int, j: int)
    requires
        0 <= j < p.len(),
        j % 4 == 3 || filled(p, j / 4) || j / 4 >= w * h,
    ensures
        bleed_pass(p, w, h)[j] == p[j],
{
}

/// Texel `u` is a neighbour (left, right, above or below) of texel `t`.
pub open spec fn one_step(w: int, h: int, t: int, u: int) -> bool {
    exists|k: int| 0 <= k < 4 && #[trigger] neighbour(w, h, t, k) == Some(u)
}

/// Texel `u` is `t` itself, a neighbour of `t`, or a neighbour of one.
pub open spec fn within_two_steps(w: int, h: int, t: int, u: int) -> bool {
    ||| u == t
    ||| one_step(w, h, t, u)
    ||| exists|v: int| #[trigger] one_step(w, h, t, v) && one_step(w, h, v, u)
}

proof fn lemma_neighbour_inside(w: int, h: int, t: int, k: int)
    requires
        0 < w,
        0 <= t < w * h,
        0 <= k < 4,
    ensures
        neighbour(w, h, t, k) matches Some(u) ==> 0 <= u < w * h,
{
    lemma_fundamental_div_mod(t, w);
    let x = t % w;
    let y = t / w;
    assert(0 <= y < h) by (nonlinear_arith)
        requires
            0 < w,
            0 <= x < w,
            t == w * y + x,
            0 <= t < w * h,
    ;
    assert(t == y * w + x) by (nonlinear_arith)
        requires
            t == w * y + x,
    ;
    lemma_coords(t, w, h, x, y);
}

/// One pass leaves an empty texel with no filled neighbour as it is.
proof fn lemma_quiet_texel(p: Seq<u8>, w: int, h: int, t: int)
    requires
        0 < w,
        0 <= t < w * h,
        4 * (w * h) <= p.len(),
        !filled(p, t),
        forall|k: int|
            0 <= k < 4 && #[trigger] neighbour(w, h, t, k) is Some ==> !filled(
                p,
                neighbour(w, h, t, k)->0,
            ),
    ensures
        forall|c: int| 0 <= c < 4 ==> #[trigger] bleed_pass(p, w, h)[4 * t + c] == p[4 * t + c],
        !filled(bleed_pass(p, w, h), t),
{
    assert(neighbour(w, h, t, 0) is Some ==> !filled(p, neighbour(w, h, t, 0)->0));
    assert(neighbour(w, h, t, 1) is Some ==> !filled(p, neighbour(w, h, t, 1)->0));
    assert(neighbour(w, h, t, 2) is Some ==> !filled(p, neighbour(w, h, t, 2)->0));
    assert(neighbour(w, h, t, 3) is Some ==> !filled(p, neighbour(w, h, t, 3)->0));
    assert(neighbour_count(p, w, h, t) == 0);
    assert(4 * t + 3 < 4 * (w * h)) by (nonlinear_arith)
        requires
            0 <= t < w * h,
    ;
    assert forall|c: int| 0 <= c < 4 implies #[trigger] bleed_pass(p, w, h)[4 * t + c] == p[4
        * t + c] by {
        lemma_byte_of_texel(4 * t + c, t);
    }
    assert(bleed_pass(p, w, h)[4 * t + 0] == p[4 * t + 0]);
    assert(bleed_pass(p, w, h)[4 * t + 1] == p[4 * t + 1]);
    assert(bleed_pass(p, w, h)[4 * t + 2] == p[4 * t + 2]);
    assert(bleed_pass(p, w, h)[4 * t + 3] == p[4 * t + 3]);
}

/// Two passes reach at most two texels: an empty texel with no filled texel
/// within two steps (left, right, up, down) is still untouched afterwards.
pub proof fn lemma_bleed_reaches_two_steps(p: Seq<u8>, w: int, h: int, t: int)
    requires
        0 < w,
        0 <= t < w * h,
        4 * (w * h) <= p.len(),
        forall|u: int| 0 <= u < w * h && #[trigger] within_two_steps(w, h, t, u) ==> !filled(p, u),
    ensures
        forall|c: int|
            0 <= c < 4 ==> #[trigger] bleed_pass(bleed_pass(p, w, h), w, h)[4 * t + c] == p[4 * t
                + c],
{
    let p1 = bleed_pass(p, w, h);
    assert(within_two_steps(w, h, t, t));
    assert forall|k: int|
        0 <= k < 4 && #[trigger] neighbour(w, h, t, k) is Some implies !filled(
        p,
        neighbour(w, h, t, k)->0,
    ) by {
        let u = neighbour(w, h, t, k)->0;
        lemma_neighbour_inside(w, h, t, k);
        assert(one_step(w, h, t, u));
        assert(within_two_steps(w, h, t, u));
    }
    lemma_quiet_texel(p, w, h, t);
    assert forall|k: int|
        0 <= k < 4 && #[trigger] neighbour(w, h, t, k) is Some implies !filled(
        p1,
        neighbour(w, h, t, k)->0,
    ) by {
        let u = neighbour(w, h, t, k)->0;
        lemma_neighbour_inside(w, h, t, k);
        assert(one_step(w, h, t, u));
        assert(within_two_steps(w, h, t, u));
        assert forall|k2: int|
            0 <= k2 < 4 && #[trigger] neighbour(w, h, u, k2) is Some implies !filled(
            p,
            neighbour(w, h, u, k2)->0,
        ) by {
            let v = neighbour(w, h, u, k2)->0;
            lemma_neighbour_inside(w, h, u, k2);
            assert(one_step(w, h, u, v));
            assert(within_two_steps(w, h, t, v));
        }
        lemma_quiet_texel(p, w, h, u);
    }
    lemma_quiet_texel(p1, w, h, t);
}

/// An image with no filled texel is left exactly as it is.
pub proof fn lemma_clear_image_stays_clear(p: Seq<u8>, w: int, h: int)
    requires
        0 < w,
        0 <= h,
        4 * (w * h) <= p.len(),
        forall|t: int| 0 <= t < w * h ==> !#[trigger] filled(p, t),
    ensures
        bleed_pass(p, w, h) == p,
        bleed_pass(bleed_pass(p, w, h), w, h) == p,
{
    assert forall|j: int| 0 <= j < p.len() implies #[trigger] bleed_pass(p, w, h)[j] == p[j] by {
        let t = j / 4;
        if t < w * h {
            assert forall|k: int|
                0 <= k < 4 && #[trigger] neighbour(w, h, t, k) is Some implies !filled(
                p,
                neighbour(w, h, t, k)->0,
            ) by {
                lemma_neighbour_inside(w, h, t, k);
            }
            lemma_quiet_texel(p, w, h, t);
            assert(j == 4 * t + j % 4);
        } else {
            lemma_bleed_pass_keeps(p, w, h, j);
        }
    }
    assert(bleed_pass(p, w, h) =~= p);
}

/// Give fully transparent texels the colour of their opaque neighbours: two
/// dilation passes over the `w × h` image `px`; alpha is never changed.
pub fn bleed_edge_colour(px: &mut [u8], w: usize, h: usize)
    requires
        w * h * 4 <= old(px).len(),
    ensures
        final(px)@ == bleed_pass(bleed_pass(old(px)@, w as int, h as int), w as int, h as int),
        final(px)@.len() == old(px)@.len(),
        forall|j: int|
            0 <= j < old(px)@.len() && (j % 4 == 3 || filled(old(px)@, j / 4) || j / 4 >= w * h)
                ==> #[trigger] final(px)@[j] == old(px)@[j],
{
    let ghost p0 = px@;
    bleed_once(px, w, h);
    let ghost p1 = px@;
    bleed_once(px, w, h);
    proof {
        let wi = w as int;
        let hi = h as int;
        assert forall|j: int|
            0 <= j < p0.len() && (j % 4 == 3 || filled(p0, j / 4) || j / 4 >= wi * hi)
                implies #[trigger] px@[j] == p0[j] by {
            lemma_bleed_pass_keeps(p0, wi, hi, j);
            if filled(p0, j / 4) && j / 4 < wi * hi {
                let t = j / 4;
                assert(0 <= 4 * t && 4 * t + 3 < p0.len());
                lemma_bleed_pass_keeps(p0, wi, hi, 4 * t);
                lemma_bleed_pass_keeps(p0, wi, hi, 4 * t + 1);
                lemma_bleed_pass_keeps(p0, wi, hi, 4 * t + 2);
                lemma_bleed_pass_keeps(p0, wi, hi, 4 * t + 3);
                assert((4 * t) / 4 == t && (4 * t + 1) / 4 == t && (4 * t + 2) / 4 == t && (4 * t
                    + 3) / 4 == t);
                assert(filled(p1, t));
            }
            lemma_bleed_pass_keeps(p1, wi, hi, j);
        }
    }
}

} // verus!
