//! Decimal fixed-point quantities and the rounding arithmetic on them.

use vstd::arithmetic::div_mod::{
    lemma_div_is_ordered, lemma_fundamental_div_mod, lemma_fundamental_div_mod_converse,
    lemma_mod_bound,
};
use vstd::prelude::*;

verus! {

/// How many units make one whole: a quantity counts billionths.
pub const SCALE: i64 = 1_000_000_000;

/// A decimal fixed-point number: `units` billionths.
///
/// Angles are in radians or degrees, times in days or seconds, as each
/// function says; the scale is the same everywhere.
#[derive(Clone, Copy, Debug, PartialEq, Eq, Structural)]
pub struct Nano {
    pub units: i64,
}

/// Below zero the floor quotient and remainder mirror those of `-(a + 1)`.
pub proof fn lemma_floor_of_negative(a: int, b: int)
    requires
        a < 0,
        b > 0,
    ensures
        a / b == -((-(a + 1)) / b) - 1,
        a % b == b - 1 - (-(a + 1)) % b,
        0 <= (-(a + 1)) % b < b,
{
    let m: int = -(a + 1);
    let q: int = m / b;
    let r: int = m % b;
    lemma_fundamental_div_mod(m, b);
    lemma_mod_bound(m, b);
    assert(a == (-q - 1) * b + (b - 1 - r)) by (nonlinear_arith)
        requires
            m == b * q + r,
            m == -(a + 1),
    ;
    lemma_fundamental_div_mod_converse(a, b, -q - 1, b - 1 - r);
}

/// A floor quotient by a positive number is no larger in size than what
/// was divided.
pub proof fn lemma_quotient_bounds(a: int, b: int)
    requires
        b > 0,
    ensures
        a >= 0 ==> 0 <= a / b <= a,
        a < 0 ==> a <= a / b < 0,
{
    lemma_fundamental_div_mod(a, b);
    lemma_mod_bound(a, b);
    let q: int = a / b;
    let r: int = a % b;
    assert(a >= 0 ==> 0 <= q <= a) by (nonlinear_arith)
        requires
            a == b * q + r,
            0 <= r < b,
            b > 0,
    ;
    assert(a < 0 ==> a <= q < 0) by (nonlinear_arith)
        requires
            a == b * q + r,
            0 <= r < b,
            b > 0,
    ;
}

/// Dividing by `c` and then by `d`, rounding down each time, divides by
/// their product.
pub proof fn lemma_div_nested(x: int, c: int, d: int)
    requires
        c > 0,
        d > 0,
    ensures
        c * d > 0,
        (x / c) / d == x / (c * d),
{
    let q: int = (x / c) / d;
    let r: int = (x / c) % d;
    lemma_fundamental_div_mod(x, c);
    lemma_mod_bound(x, c);
    lemma_fundamental_div_mod(x / c, d);
    lemma_mod_bound(x / c, d);
    assert(c * d > 0) by (nonlinear_arith)
        requires
            c > 0,
            d > 0,
    ;
    assert(x == q * (c * d) + (c * r + x % c) && 0 <= c * r + x % c < c * d)
        by (nonlinear_arith)
        requires
            x == c * (x / c) + x % c,
            x / c == d * q + r,
            0 <= x % c < c,
            0 <= r < d,
    ;
    lemma_fundamental_div_mod_converse(x, c * d, q, c * r + x % c);
}

/// The quotient of `a` by a positive `b`, rounded toward negative
/// infinity.
pub fn div_floor(a: i128, b: i128) -> (q: i128)
    requires
        b > 0,
    ensures
        q == a / b,
{
    if a >= 0 {
        a / b
    } else {
        // Truncation rounds a negative quotient up; step down unless exact.
        let t: i128 = (a + 1) / b;
        proof {
            lemma_floor_of_negative(a as int, b as int);
        }
        t - 1
    }
}

/// The remainder of `a` by a positive `b` that goes with [`div_floor`]:
/// never negative.
pub fn rem_floor(a: i128, b: i128) -> (r: i128)
    requires
        b > 0,
    ensures
        r == a % b,
        0 <= r < b,
{
    if a >= 0 {
        proof {
            lemma_mod_bound(a as int, b as int);
        }
        a % b
    } else {
        let x: i128 = a + 1;
        let t: i128 = x % b;
        proof {
            lemma_floor_of_negative(a as int, b as int);
            assert(t == -((-x) % (b as int)));
        }
        b - 1 + t
    }
}

/// Whether `r` is the square root of `n` rounded down.
pub open spec fn is_floor_root(r: int, n: int) -> bool {
    0 <= r && r * r <= n < (r + 1) * (r + 1)
}

/// The square root of `n`, rounded down.
pub open spec fn floor_root(n: int) -> int {
    choose|r: int| is_floor_root(r, n)
}

/// A number has one rounded-down square root at most.
pub proof fn lemma_floor_root_is_unique(r: int, s: int, n: int)
    requires
        is_floor_root(r, n),
        is_floor_root(s, n),
    ensures
        r == s,
{
    assert(r < s + 1) by (nonlinear_arith)
        requires
            0 <= r,
            0 <= s,
            r * r < (s + 1) * (s + 1),
    ;
    assert(s < r + 1) by (nonlinear_arith)
        requires
            0 <= r,
            0 <= s,
            s * s < (r + 1) * (r + 1),
    ;
}

/// The square root of `n`, rounded down, found by bisection.
pub fn sqrt_floor(n: u128) -> (r: u64)
    ensures
        is_floor_root(r as int, n as int),
        r == floor_root(n as int),
{
    let mut low: u128 = 0;
    let mut high: u128 = 0x1_0000_0000_0000_0000;
    assert(0x1_0000_0000_0000_0000 * 0x1_0000_0000_0000_0000 > u128::MAX) by (nonlinear_arith);
    while high - low > 1
        invariant
            low < high <= 0x1_0000_0000_0000_0000,
            low * low <= n < high * high,
        decreases high - low,
    {
        let middle: u128 = low + (high - low) / 2;
        assert(middle * middle < 0x1_0000_0000_0000_0000 * 0x1_0000_0000_0000_0000)
            by (nonlinear_arith)
            requires
                0 <= middle < 0x1_0000_0000_0000_0000,
        ;
        if middle * middle <= n {
            low = middle;
        } else {
            high = middle;
        }
    }
    proof {
        assert(high == low + 1);
        assert(is_floor_root(low as int, n as int));
        lemma_floor_root_is_unique(low as int, floor_root(n as int), n as int);
    }
    low as u64
}

/// The size of a number, whatever its sign.
pub open spec fn size(n: int) -> int {
    if n < 0 {
        -n
    } else {
        n
    }
}

/// The product of two quantities, in billionths, rounded down.
pub open spec fn times(a: int, b: int) -> int {
    a * b / (SCALE as int)
}

/// The product of two quantities, in billionths, rounded toward zero: the
/// product of their sizes, rounded down, with the sign of the product.
pub open spec fn scaled(a: int, b: int) -> int {
    if (a < 0) == (b < 0) {
        times(size(a), size(b))
    } else {
        -times(size(a), size(b))
    }
}

/// The product rounded toward zero is odd in each factor.
pub proof fn lemma_scaled_is_odd(a: int, b: int)
    ensures
        scaled(a, -b) == -scaled(a, b),
        scaled(-a, b) == -scaled(a, b),
{
    assert(size(a) * 0 == 0 && 0 * size(b) == 0) by (nonlinear_arith);
    assert(0int / (SCALE as int) == 0);
}

/// Half a number, rounded toward zero.
pub open spec fn halved(a: int) -> int {
    if a < 0 {
        -(size(a) / 2)
    } else {
        a / 2
    }
}

/// The product with a factor between 0 and 1 lies between zero and what
/// was multiplied.
pub proof fn lemma_times_shortens(a: int, factor: int)
    requires
        0 <= factor <= SCALE,
    ensures
        a >= 0 ==> 0 <= times(a, factor) <= a,
        a < 0 ==> a <= times(a, factor) <= 0,
{
    let one: int = SCALE as int;
    assert(a >= 0 ==> 0 <= a * factor <= a * one) by (nonlinear_arith)
        requires
            0 <= factor <= one,
    ;
    assert(a < 0 ==> a * one <= a * factor <= 0) by (nonlinear_arith)
        requires
            0 <= factor <= one,
    ;
    assert(a * one / one == a) by (nonlinear_arith)
        requires
            one > 0,
    ;
    assert(0int / one == 0);
    if a >= 0 {
        lemma_div_is_ordered(0, a * factor, one);
        lemma_div_is_ordered(a * factor, a * one, one);
    } else {
        lemma_div_is_ordered(a * one, a * factor, one);
        lemma_div_is_ordered(a * factor, 0, one);
    }
}

/// Whether `units` billionths are a quantity with a representable
/// opposite.
pub open spec fn representable(units: int) -> bool {
    -(i64::MAX as int) <= units <= i64::MAX as int
}

impl Nano {
    /// Whether the number has a representable opposite.
    pub open spec fn wf(self) -> bool {
        self.units > i64::MIN
    }

    /// The absolute value, as a count of billionths.
    pub open spec fn magnitude(self) -> int {
        size(self.units as int)
    }

    /// The largest whole number not above the quantity.
    pub open spec fn floor(self) -> int {
        self.units as int / SCALE as int
    }

    /// The quantity of `units` billionths.
    pub fn new(units: i64) -> (r: Nano)
        ensures
            r.units == units,
    {
        Nano { units }
    }

    /// The whole part, rounded toward negative infinity.
    pub fn whole(self) -> (w: i64)
        ensures
            w == self.floor(),
    {
        let q: i128 = div_floor(self.units as i128, SCALE as i128);
        proof {
            lemma_fundamental_div_mod(self.units as int, SCALE as int);
        }
        q as i64
    }
}

} // verus!
