//! The smooth-approach step used for every animated value.

use vstd::prelude::*;
use vstd::arithmetic::power2::{lemma2_to64, lemma_pow2_pos, lemma_pow2_unfold, pow2};

verus! {

/// Distance between two integers.
pub open spec fn dist(a: int, b: int) -> int {
    if a >= b { a - b } else { b - a }
}

/// The divisor applied to the remaining distance: the full distance when it is
/// at most 2, half of it when at most 4, a quarter otherwise.
pub open spec fn step_divisor(d: int) -> int {
    if d <= 2 { 1 } else if d <= 4 { 2 } else { 4 }
}

/// One step of `current` toward `target`: the remaining distance divided by
/// `step_divisor`, rounded toward zero, is covered.
pub open spec fn closer(current: int, target: int) -> int {
    let d = dist(current, target);
    let m = d / step_divisor(d);
    if current >= target { current - m } else { current + m }
}

/// `n` steps of `closer` from `current` toward `target`.
pub open spec fn approach(current: int, target: int, n: nat) -> int
    decreases n,
{
    if n == 0 { current } else { approach(closer(current, target), target, (n - 1) as nat) }
}

/// Moves `true_value` one step toward `target` (see `closer`).
pub fn closerize(true_value: i32, target: i32) -> (r: i32)
    ensures
        r == closer(true_value as int, target as int),
{
    let diff: i64 = true_value as i64 - target as i64;
    let d: i64 = if diff < 0 { -diff } else { diff };
    let div: i64 = if d <= 2 { 1 } else if d <= 4 { 2 } else { 4 };
    let m: i64 = d / div;
    assert(0 <= m <= d) by (nonlinear_arith)
        requires m == d / div, d >= 0, div >= 1;
    if diff >= 0 {
        (true_value as i64 - m) as i32
    } else {
        (true_value as i64 + m) as i32
    }
}

/// A step never passes the target, and it strictly shrinks a nonzero distance.
pub proof fn lemma_closer_step(current: int, target: int)
    ensures
        current >= target ==> target <= closer(current, target) <= current,
        current <= target ==> current <= closer(current, target) <= target,
        current != target ==> dist(closer(current, target), target) < dist(current, target),
{
    let d = dist(current, target);
    let k = step_divisor(d);
    let m = d / k;
    assert(0 <= m <= d) by (nonlinear_arith)
        requires m == d / k, d >= 0, k >= 1;
    if d > 0 {
        assert(m >= 1) by (nonlinear_arith)
            requires m == d / k, k >= 1, d >= k;
    }
}

/// Repeated steps converge: after `dist(current, target)` steps or more the
/// value equals `target`, no step ever overshoots it, and a value already at
/// `target` stays there.
pub proof fn lemma_closer_converges(current: int, target: int, n: nat)
    ensures
        closer(target, target) == target,
        n >= dist(current, target) ==> approach(current, target, n) == target,
        current >= target ==> target <= approach(current, target, n) <= current,
        current <= target ==> current <= approach(current, target, n) <= target,
    decreases n,
{
    lemma_closer_step(current, target);
    lemma_closer_step(target, target);
    if n > 0 {
        let next = closer(current, target);
        lemma_closer_converges(next, target, (n - 1) as nat);
    }
}

/// Outside the snapping range a step takes at least a quarter of the
/// distance less 3 away.
proof fn lemma_closer_shrinks(current: int, target: int)
    requires
        dist(current, target) >= 5,
    ensures
        4 * (dist(closer(current, target), target) - 3) <= 3 * (dist(current, target) - 3),
{
    let d = dist(current, target);
    let m = d / 4;
    assert(4 * m >= d - 3 && m <= d) by (nonlinear_arith)
        requires m == d / 4, d >= 5;
}

/// From a distance of at most `2^k + 3`, `3k + 3` steps reach the target.
proof fn lemma_converges_within(current: int, target: int, k: nat, n: nat)
    requires
        dist(current, target) <= pow2(k) + 3,
        n >= 3 * k + 3,
    ensures
        approach(current, target, n) == target,
    decreases k,
{
    let d = dist(current, target);
    let c1 = closer(current, target);
    lemma_closer_step(current, target);
    if d <= 4 {
        let m = d / step_divisor(d);
        assert(d - m <= 2);
        lemma_closer_converges(c1, target, (n - 1) as nat);
    } else {
        lemma2_to64();
        assert(k > 0);
        lemma_pow2_unfold(k);
        lemma_pow2_pos((k - 1) as nat);
        let c2 = closer(c1, target);
        let c3 = closer(c2, target);
        lemma_closer_step(c1, target);
        lemma_closer_step(c2, target);
        lemma_closer_shrinks(current, target);
        if dist(c1, target) >= 5 {
            lemma_closer_shrinks(c1, target);
            if dist(c2, target) >= 5 {
                lemma_closer_shrinks(c2, target);
            }
        }
        assert(dist(c3, target) <= pow2((k - 1) as nat) + 3);
        lemma_converges_within(c3, target, (k - 1) as nat, (n - 3) as nat);
        assert(approach(current, target, n) == approach(c1, target, (n - 1) as nat));
        assert(approach(c1, target, (n - 1) as nat) == approach(c2, target, (n - 2) as nat));
        assert(approach(c2, target, (n - 2) as nat) == approach(c3, target, (n - 3) as nat));
    }
}

/// Convergence is fast: between any two `i32` values 99 steps reach the
/// target, whatever the starting distance, and further steps stay there.
pub proof fn lemma_closer_converges_i32(current: int, target: int, n: nat)
    requires
        i32::MIN <= current <= i32::MAX,
        i32::MIN <= target <= i32::MAX,
        n >= 99,
    ensures
        approach(current, target, n) == target,
{
    lemma2_to64();
    lemma_converges_within(current, target, 32, n);
}

} // verus!
