//! Fixed-point arithmetic on thousandths of a world unit.

use vstd::prelude::*;
use vstd::arithmetic::power::{lemma_pow_positive, pow};

verus! {

/// Stored units per world unit.
pub const UNIT: i64 = 1000;

/// The value of `v` pinned to the range of `i64`.
pub open spec fn pin(v: int) -> int {
    if v < i64::MIN {
        i64::MIN as int
    } else if v > i64::MAX {
        i64::MAX as int
    } else {
        v
    }
}

/// Pins a wide intermediate result to the range of `i64`.
pub fn pin_wide(v: i128) -> (r: i64)
    ensures
        r == pin(v as int),
{
    if v < i64::MIN as i128 {
        i64::MIN
    } else if v > i64::MAX as i128 {
        i64::MAX
    } else {
        v as i64
    }
}

/// Sum of two quantities, pinned to the range of `i64`.
pub fn pinned_add(a: i64, b: i64) -> (r: i64)
    ensures
        r == pin(a + b),
{
    pin_wide(a as i128 + b as i128)
}

/// Difference of two quantities, pinned to the range of `i64`.
pub fn pinned_sub(a: i64, b: i64) -> (r: i64)
    ensures
        r == pin(a - b),
{
    pin_wide(a as i128 - b as i128)
}

/// The opposite of a quantity, pinned to the range of `i64`.
pub fn pinned_neg(a: i64) -> (r: i64)
    ensures
        r == pin(-a),
{
    pin_wide(0 - a as i128)
}

/// Half of a quantity, rounded down.
pub fn half(a: i64) -> (q: i64)
    ensures
        q == a / 2,
{
    let t: i64 = a / 2;
    if a % 2 < 0 {
        t - 1
    } else {
        t
    }
}

/// The value that lies a twentieth of the way from `current` to `goal`,
/// the step rounded down.
pub open spec fn eased(current: int, goal: int) -> int {
    current + (goal - current) / 20
}

/// Moves `current` a twentieth of the way towards `goal`.
pub fn ease(current: i64, goal: i64) -> (r: i64)
    ensures
        r == eased(current as int, goal as int),
{
    let gap: i128 = goal as i128 - current as i128;
    let t: i128 = gap / 20;
    let step: i128 = if gap % 20 < 0 {
        t - 1
    } else {
        t
    };
    (current as i128 + step) as i64
}

/// A value that is eased towards a goal above it never falls and never
/// reaches the goal, and it rises while the gap is 20 stored units or more.
/// Eased towards a goal below it, it falls and never passes the goal. At the
/// goal it stays. Each step takes the twentieth part, rounded down, off the
/// gap.
pub proof fn lemma_eased_approaches(current: int, goal: int)
    ensures
        current < goal ==> current <= eased(current, goal) < goal,
        current + 20 <= goal ==> current < eased(current, goal),
        current > goal ==> goal <= eased(current, goal) < current,
        current == goal ==> eased(current, goal) == goal,
        goal - eased(current, goal) == (goal - current) - (goal - current) / 20,
{
}

/// The value after `n` steps of easing from `current` towards `goal`.
pub open spec fn eased_times(current: int, goal: int, n: nat) -> int
    decreases n,
{
    if n == 0 {
        current
    } else {
        eased(eased_times(current, goal, (n - 1) as nat), goal)
    }
}

/// A value that is eased `n` times towards a goal above it stays below the
/// goal, and the gap that is left follows the powers of 19/20: it is at least
/// `(19/20)^n` of the first gap, and exceeds 19 stored units by at most
/// `(19/20)^n` of what the first gap exceeded them by. With a goal of `g`
/// world units and a start at 0, the value is therefore never above
/// `g * (1 - 0.95^n)` and less than 0.019 world units below it.
pub proof fn lemma_eased_times_follows_powers(current: int, goal: int, n: nat)
    requires
        current <= goal,
    ensures
        current <= eased_times(current, goal, n) <= goal,
        current < goal ==> eased_times(current, goal, n) < goal,
        (goal - eased_times(current, goal, n)) * pow(20, n) >= (goal - current) * pow(19, n),
        (goal - eased_times(current, goal, n) - 19) * pow(20, n) <= (goal - current - 19) * pow(
            19,
            n,
        ),
    decreases n,
{
    reveal(pow);
    if n > 0 {
        let m = (n - 1) as nat;
        lemma_eased_times_follows_powers(current, goal, m);
        lemma_pow_positive(20, m);
        lemma_pow_positive(19, m);
        let first = goal - current;
        let gap = goal - eased_times(current, goal, m);
        let next = goal - eased_times(current, goal, n);
        let p = pow(20, m);
        let q = pow(19, m);
        assert(next == gap - gap / 20);
        assert(20 * next >= 19 * gap);
        assert(20 * (next - 19) <= 19 * (gap - 19));
        assert(next * (20 * p) >= first * (19 * q)) by (nonlinear_arith)
            requires
                20 * next >= 19 * gap,
                gap * p >= first * q,
                p > 0,
        ;
        assert((next - 19) * (20 * p) <= (first - 19) * (19 * q)) by (nonlinear_arith)
            requires
                20 * (next - 19) <= 19 * (gap - 19),
                (gap - 19) * p <= (first - 19) * q,
                p > 0,
        ;
    }
}

/// The number of whole world units that cover `a` stored units: `a / UNIT`
/// rounded up.
pub open spec fn whole_units(a: int) -> int {
    if a % 1000 == 0 {
        a / 1000
    } else {
        a / 1000 + 1
    }
}

/// Rounds a quantity up to whole world units.
pub fn to_whole_units(a: i64) -> (q: i64)
    ensures
        q == whole_units(a as int),
{
    let t: i64 = a / 1000;
    if a % 1000 > 0 {
        t + 1
    } else {
        t
    }
}

} // verus!
