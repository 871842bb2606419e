//! Cartesian distance and the random generators used by the spawn controller.
//!
//! Distances are integer: the distance between two points is the floor of the
//! square root of the squared cartesian distance.  Random direction factors
//! are scaled by [`DIRECTION_UNIT`]: a component of 100 stands for a full
//! unit of direction.

use vstd::prelude::*;
use rand::Rng;

verus! {

/// Scale of direction factors: a component equal to `DIRECTION_UNIT` stands
/// for a direction factor of one full unit.
pub const DIRECTION_UNIT: i64 = 100;

/// Largest coordinate magnitude the distance computation accepts; keeps the
/// squared distance within `i64` range.
pub const COORD_LIMIT: i64 = 1_000_000;

/// The absolute value of an integer.
pub open spec fn abs_val(x: int) -> int {
    if x < 0 {
        -x
    } else {
        x
    }
}

/// The squared cartesian distance between two points.
pub open spec fn dist_sq(a: (i64, i64), b: (i64, i64)) -> int {
    (a.0 - b.0) * (a.0 - b.0) + (a.1 - b.1) * (a.1 - b.1)
}

/// The floor of the square root of a non-negative integer, defined by
/// counting up from zero.
pub open spec fn sqrt_floor(n: int) -> int
    decreases n,
{
    if n <= 0 {
        0
    } else {
        let r = sqrt_floor(n - 1);
        if (r + 1) * (r + 1) <= n {
            r + 1
        } else {
            r
        }
    }
}

/// The integer cartesian distance between two points: the floor of the exact
/// euclidean distance.
pub open spec fn cartesian_distance(a: (i64, i64), b: (i64, i64)) -> int {
    sqrt_floor(dist_sq(a, b))
}

/// Both coordinates of a point are at most `COORD_LIMIT` in magnitude.
pub open spec fn in_coord_range(p: (i64, i64)) -> bool {
    abs_val(p.0 as int) <= COORD_LIMIT && abs_val(p.1 as int) <= COORD_LIMIT
}

/// `sqrt_floor(n)` really is the floor of the square root of `n`.
pub proof fn lemma_sqrt_floor_bounds(n: int)
    requires
        n >= 0,
    ensures
        0 <= sqrt_floor(n),
        sqrt_floor(n) * sqrt_floor(n) <= n,
        n < (sqrt_floor(n) + 1) * (sqrt_floor(n) + 1),
    decreases n,
{
    if n == 0 {
    } else {
        lemma_sqrt_floor_bounds(n - 1);
        let r = sqrt_floor(n - 1);
        if (r + 1) * (r + 1) <= n {
            assert(n - 1 < (r + 1) * (r + 1));
            assert(n == (r + 1) * (r + 1));
            assert((r + 1 + 1) * (r + 1 + 1) > (r + 1) * (r + 1)) by (nonlinear_arith)
                requires r >= 0;
        }
    }
}

/// The floor square root is unique: any `r` bracketing `n` between `r*r` and
/// `(r+1)*(r+1)` equals `sqrt_floor(n)`.
pub proof fn lemma_sqrt_floor_unique(n: int, r: int)
    requires
        n >= 0,
        r >= 0,
        r * r <= n,
        n < (r + 1) * (r + 1),
    ensures
        r == sqrt_floor(n),
{
    lemma_sqrt_floor_bounds(n);
    let s = sqrt_floor(n);
    if r < s {
        assert((r + 1) * (r + 1) <= s * s) by (nonlinear_arith)
            requires 0 <= r, r < s;
        assert(false);
    }
    if s < r {
        assert((s + 1) * (s + 1) <= r * r) by (nonlinear_arith)
            requires 0 <= s, s < r;
        assert(false);
    }
}

/// Cartesian distance is symmetric in its two arguments.
pub proof fn lemma_distance_symmetric(a: (i64, i64), b: (i64, i64))
    ensures
        cartesian_distance(a, b) == cartesian_distance(b, a),
{
    assert(dist_sq(a, b) == dist_sq(b, a)) by (nonlinear_arith);
}

/// The cartesian distance from any point to itself is zero.
pub proof fn lemma_distance_self_zero(a: (i64, i64))
    ensures
        cartesian_distance(a, a) == 0,
{
    assert(dist_sq(a, a) == 0);
}

/// The floor square root of a non-negative `i64`, by binary search.
fn isqrt(n: i64) -> (r: i64)
    requires
        0 <= n < 9_000_000_000_000,
    ensures
        r == sqrt_floor(n as int),
{
    let mut lo: i64 = 0;
    let mut hi: i64 = 3_000_000;
    assert(3_000_000i64 * 3_000_000i64 == 9_000_000_000_000) by (nonlinear_arith);
    while lo + 1 < hi
        invariant
            0 <= lo < hi <= 3_000_000,
            lo * lo <= n,
            n < hi * hi,
        decreases hi - lo,
    {
        let mid = lo + (hi - lo) / 2;
        assert(lo < mid < hi);
        assert(mid * mid <= 9_000_000_000_000) by (nonlinear_arith)
            requires 0 <= mid <= 3_000_000;
        if mid * mid <= n {
            lo = mid;
        } else {
            hi = mid;
        }
    }
    proof {
        lemma_sqrt_floor_unique(n as int, lo as int);
    }
    lo
}

/// Calculate the distance between two points in a cartesian referential,
/// from the first point to the second point.  The result is the floor of the
/// exact euclidean distance.
pub fn calculate_cartesian_distance(from_coord: (i64, i64), to_coord: (i64, i64)) -> (r: i64)
    requires
        in_coord_range(from_coord),
        in_coord_range(to_coord),
    ensures
        r == cartesian_distance(from_coord, to_coord),
        r >= 0,
{
    let dx = from_coord.0 - to_coord.0;
    let dy = from_coord.1 - to_coord.1;
    assert(dx * dx + dy * dy < 9_000_000_000_000) by (nonlinear_arith)
        requires -2_000_000 <= dx <= 2_000_000, -2_000_000 <= dy <= 2_000_000;
    assert(dx * dx >= 0) by (nonlinear_arith);
    assert(dy * dy >= 0) by (nonlinear_arith);
    let r = isqrt(dx * dx + dy * dy);
    proof {
        lemma_sqrt_floor_bounds((dx * dx + dy * dy) as int);
    }
    r
}

/// Relies on `rand::Rng::gen_range` (through `rand::thread_rng`): for a
/// half-open integer range it returns a uniform value in `[low, high)` and
/// panics only when the range is empty.
#[verifier::external_body]
pub(crate) fn gen_range_i64(low: i64, high: i64) -> (r: i64)
    requires
        low < high,
    ensures
        low <= r < high,
{
    rand::thread_rng().gen_range(low..high)
}

/// Generate a random direction factor as a tuple `(x, y)`, each component in
/// `[-DIRECTION_UNIT, DIRECTION_UNIT)` (the absolute values need not sum to
/// one unit).
pub fn generate_random_direction_factor() -> (r: (i64, i64))
    ensures
        -DIRECTION_UNIT <= r.0 < DIRECTION_UNIT,
        -DIRECTION_UNIT <= r.1 < DIRECTION_UNIT,
{
    let x = gen_range_i64(-DIRECTION_UNIT, DIRECTION_UNIT);
    let y = gen_range_i64(-DIRECTION_UNIT, DIRECTION_UNIT);
    (x, y)
}

/// Generate a random direction factor whose component absolute values sum to
/// exactly one unit of direction, with all four sign combinations possible.
pub fn generate_random_direction_factor_strict() -> (r: (i64, i64))
    ensures
        abs_val(r.0 as int) + abs_val(r.1 as int) == DIRECTION_UNIT,
{
    let x_abs = gen_range_i64(0, DIRECTION_UNIT);
    let y_abs = DIRECTION_UNIT - x_abs;

    let sign_selector = gen_range_i64(0, 4);
    if sign_selector == 0 {
        (x_abs, y_abs)
    } else if sign_selector == 1 {
        (x_abs, -y_abs)
    } else if sign_selector == 2 {
        (-x_abs, y_abs)
    } else {
        (-x_abs, -y_abs)
    }
}

/// Generate a random position in the square
/// `[-absolute_max_x, absolute_max_x) x [-absolute_max_y, absolute_max_y)`.
pub fn generate_random_position(absolute_max_x: i64, absolute_max_y: i64) -> (r: (i64, i64))
    requires
        0 < absolute_max_x <= COORD_LIMIT,
        0 < absolute_max_y <= COORD_LIMIT,
    ensures
        -absolute_max_x <= r.0 < absolute_max_x,
        -absolute_max_y <= r.1 < absolute_max_y,
        in_coord_range(r),
{
    let x = gen_range_i64(-absolute_max_x, absolute_max_x);
    let y = gen_range_i64(-absolute_max_y, absolute_max_y);
    (x, y)
}

} // verus!
