//! Two-dimensional vector arithmetic in fixed point.
//!
//! A world unit is `SCALE` milli-units; an angle of one degree is
//! `1000` milli-degrees.  All operations are exact integer computations,
//! and each carries a contract that pins its result down.

use vstd::prelude::*;

verus! {

/// Milli-units per world unit.
pub const SCALE: i64 = 1000;

/// Milli-degrees in a full turn.
pub const DEG_FULL: i64 = 360_000;

/// Milli-degrees in a half turn.
pub const DEG_HALF: i64 = 180_000;

/// Largest coordinate whose square, doubled, still fits in `i64`.
pub const MAX_COORD: i64 = 2_000_000_000;

/// Truncating division, the way the machine divides signed integers.
/// (The `/` of specifications is Euclidean division, which differs on
/// negative dividends.)
pub open spec fn tdiv(a: int, b: int) -> int {
    if a >= 0 {
        a / b
    } else {
        -((-a) / b)
    }
}

/// The floor of the square root of a non-negative integer.
pub open spec fn sqrt_floor(n: int) -> int {
    choose|r: int| 0 <= r && #[trigger] (r * r) <= n && n < (r + 1) * (r + 1)
}

/// The square root floor exists for every non-negative integer.
pub proof fn lemma_sqrt_floor_exists(n: int)
    requires
        n >= 0,
    ensures
        0 <= sqrt_floor(n),
        sqrt_floor(n) * sqrt_floor(n) <= n,
        n < (sqrt_floor(n) + 1) * (sqrt_floor(n) + 1),
    decreases n,
{
    if n == 0 {
        assert(0 <= 0 && 0 * 0 <= n && n < (0 + 1) * (0 + 1));
    } else {
        lemma_sqrt_floor_exists(n - 1);
        let r = sqrt_floor(n - 1);
        if (r + 1) * (r + 1) <= n {
            assert(n < (r + 1 + 1) * (r + 1 + 1)) by (nonlinear_arith)
                requires
                    0 <= r,
                    n - 1 < (r + 1) * (r + 1),
            ;
            assert(0 <= r + 1 && (r + 1) * (r + 1) <= n && n < (r + 1 + 1) * (r + 1 + 1));
        } else {
            assert(0 <= r && r * r <= n && n < (r + 1) * (r + 1));
        }
    }
}

/// Any two integers satisfying the square-root-floor property are equal.
pub proof fn lemma_sqrt_floor_unique(n: int, a: int, b: int)
    by (nonlinear_arith)
    requires
        0 <= a,
        a * a <= n,
        n < (a + 1) * (a + 1),
        0 <= b,
        b * b <= n,
        n < (b + 1) * (b + 1),
    ensures
        a == b,
{
}

/// Floor of the square root, by binary search.
pub fn isqrt(n: i64) -> (r: i64)
    requires
        n >= 0,
    ensures
        r == sqrt_floor(n as int),
        0 <= r,
        r * r <= n,
        n < (r + 1) * (r + 1),
{
    let mut lo: i64 = 0;
    let mut hi: i64 = if n < 3_037_000_499 {
        n
    } else {
        3_037_000_499
    };
    proof {
        assert((hi + 1) * (hi + 1) > n) by (nonlinear_arith)
            requires
                n >= 0,
                hi == if n < 3_037_000_499 { n as int } else { 3_037_000_499 },
        ;
    }
    while lo < hi
        invariant
            0 <= lo <= hi <= 3_037_000_499,
            lo * lo <= n,
            n < (hi + 1) * (hi + 1),
        decreases hi - lo,
    {
        let mid = lo + (hi - lo + 1) / 2;
        assert(lo < mid <= hi);
        proof {
            assert(mid * mid <= i64::MAX) by (nonlinear_arith)
                requires
                    0 <= mid <= 3_037_000_499,
            ;
        }
        let sq = mid * mid;
        if sq <= n {
            lo = mid;
        } else {
            hi = mid - 1;
        }
    }
    proof {
        lemma_sqrt_floor_exists(n as int);
        lemma_sqrt_floor_unique(n as int, lo as int, sqrt_floor(n as int));
    }
    lo
}

/// Division by a non-zero divisor never grows the magnitude of a
/// non-negative dividend.
pub proof fn lemma_div_magnitude(a: int, b: int)
    by (nonlinear_arith)
    requires
        b != 0,
        0 <= a,
    ensures
        -a <= a / b <= a,
        b > 0 ==> 0 <= a / b,
        b < 0 ==> a / b <= 0,
{
}

/// The truncating quotient keeps within the dividend's magnitude.
pub proof fn lemma_tdiv_magnitude(a: int, b: int)
    requires
        b != 0,
    ensures
        a >= 0 ==> -a <= tdiv(a, b) <= a,
        a < 0 ==> a <= tdiv(a, b) <= -a,
{
    if a >= 0 {
        lemma_div_magnitude(a, b);
    } else {
        lemma_div_magnitude(-a, b);
    }
}

/// `b * b * tdiv(a, b)^2 <= a * a` for positive `b`: squaring the
/// truncated quotient stays under the square of the exact ratio.
pub proof fn lemma_div_sq(a: int, b: int)
    by (nonlinear_arith)
    requires
        0 <= a,
        0 < b,
    ensures
        0 <= a / b,
        b * (a / b) <= a,
        b * b * (a / b) * (a / b) <= a * a,
{
}

pub proof fn lemma_tdiv_sq(a: int, b: int)
    requires
        0 < b,
    ensures
        b * b * tdiv(a, b) * tdiv(a, b) <= a * a,
{
    if a >= 0 {
        lemma_div_sq(a, b);
    } else {
        lemma_div_sq(-a, b);
        let q = (-a) / b;
        assert(b * b * (-q) * (-q) == b * b * q * q && (-a) * (-a) == a * a) by (nonlinear_arith);
    }
}

/// A square below `(m + 1)^2` bounds the absolute value by `m`.
pub proof fn lemma_abs_le_of_sq(x: int, m: int)
    by (nonlinear_arith)
    requires
        0 <= m,
        x * x < (m + 1) * (m + 1),
    ensures
        -m <= x <= m,
{
}

/// `(x * k) / m` stays within `[0, k]` when `0 <= x <= m`.
pub proof fn lemma_div_le_factor(x: int, k: int, m: int)
    requires
        m >= 1,
        0 <= x <= m,
        k >= 0,
    ensures
        0 <= (x * k) / m <= k,
{
    assert(0 <= x * k && x * k <= m * k) by (nonlinear_arith)
        requires
            0 <= x <= m,
            k >= 0,
    ;
    vstd::arithmetic::div_mod::lemma_div_pos_is_pos(x * k, m);
    vstd::arithmetic::div_mod::lemma_div_is_ordered(x * k, m * k, m);
    vstd::arithmetic::div_mod::lemma_div_multiples_vanish(k, m);
}

/// The truncating version: `tdiv(x * k, m)` stays within `[-k, k]`
/// when `-m <= x <= m`.
pub proof fn lemma_tdiv_le_factor(x: int, k: int, m: int)
    requires
        m >= 1,
        -m <= x <= m,
        k >= 0,
    ensures
        -k <= tdiv(x * k, m) <= k,
{
    if x * k >= 0 {
        if x >= 0 {
            lemma_div_le_factor(x, k, m);
        } else {
            assert(x * k == 0 && 0 * k == 0) by (nonlinear_arith)
                requires
                    x < 0,
                    k >= 0,
                    x * k >= 0,
            ;
            lemma_div_le_factor(0, k, m);
        }
    } else {
        assert(-(x * k) == (-x) * k) by (nonlinear_arith);
        lemma_div_le_factor(-x, k, m);
    }
}

/// A rotation built from any `s` and `c` scales the squared norm by
/// exactly `s^2 + c^2`.
pub proof fn lemma_rotation_identity(s: int, c: int, x: int, y: int)
    ensures
        (c * x - s * y) * (c * x - s * y) + (s * x + c * y) * (s * x + c * y) == (s * s + c * c) * (
        x * x + y * y),
{
    let a = c * x;
    let b = s * y;
    let d = s * x;
    let e = c * y;
    assert((a - b) * (a - b) == a * a - 2 * (a * b) + b * b) by (nonlinear_arith);
    assert((d + e) * (d + e) == d * d + 2 * (d * e) + e * e) by (nonlinear_arith);
    assert((c * x) * (s * y) == (s * x) * (c * y)) by (nonlinear_arith);
    assert((c * x) * (c * x) == (c * c) * (x * x)) by (nonlinear_arith);
    assert((s * y) * (s * y) == (s * s) * (y * y)) by (nonlinear_arith);
    assert((s * x) * (s * x) == (s * s) * (x * x)) by (nonlinear_arith);
    assert((c * y) * (c * y) == (c * c) * (y * y)) by (nonlinear_arith);
    assert((c * c) * (x * x) + (s * s) * (y * y) + (s * s) * (x * x) + (c * c) * (y * y) == (s * s
        + c * c) * (x * x + y * y)) by (nonlinear_arith);
}

/// The rescale step of `limit`: a quotient pair built from a vector
/// of magnitude just over `m` lands within the `max` speed cap.
pub proof fn lemma_limit_norm(qx: int, qy: int, ax: int, ay: int, m: int, max: int)
    requires
        m > max > 0,
        m * m * qx * qx <= (ax * max) * (ax * max),
        m * m * qy * qy <= (ay * max) * (ay * max),
        ax * ax + ay * ay < (m + 1) * (m + 1),
    ensures
        qx * qx + qy * qy <= max * max + 2 * max,
{
    assert(ax * ax + ay * ay <= m * m + 2 * m) by (nonlinear_arith)
        requires
            ax * ax + ay * ay < (m + 1) * (m + 1),
    ;
    assert((ax * max) * (ax * max) + (ay * max) * (ay * max) <= (max * max) * (m * m + 2 * m))
        by (nonlinear_arith)
        requires
            ax * ax + ay * ay <= m * m + 2 * m,
            max > 0,
    ;
    assert((max * max) * (m * m + 2 * m) <= (m * m) * (max * max + 2 * max)) by (nonlinear_arith)
        requires
            0 < max < m,
    ;
    assert(qx * qx + qy * qy <= max * max + 2 * max) by (nonlinear_arith)
        requires
            m * m * qx * qx + m * m * qy * qy <= (m * m) * (max * max + 2 * max),
            m > 0,
    ;
}

/// A value bounded by `b` in magnitude has its square bounded by `b^2`.
pub proof fn lemma_sq_le_abs(x: int, b: int)
    by (nonlinear_arith)
    requires
        -b <= x <= b,
    ensures
        x * x <= b * b,
{
}

/// Comparing a rounded-down root against a bound is the same as
/// comparing the radicand against the bound's square.
pub proof fn lemma_sqrt_lt(n: int, s: int)
    requires
        n >= 0,
        s >= 0,
    ensures
        (sqrt_floor(n) < s) <==> (n < s * s),
{
    lemma_sqrt_floor_exists(n);
    let r = sqrt_floor(n);
    assert((r < s) <==> (n < s * s)) by (nonlinear_arith)
        requires
            0 <= r,
            r * r <= n,
            n < (r + 1) * (r + 1),
            s >= 0,
    ;
}

/// Dividing an exact multiple is exact, also under truncation.
pub proof fn lemma_tdiv_exact(q: int, b: int)
    requires
        b > 0,
    ensures
        tdiv(q * b, b) == q,
{
    if q >= 0 {
        vstd::arithmetic::div_mod::lemma_div_multiples_vanish(q, b);
        assert(q * b == b * q && q * b >= 0) by (nonlinear_arith)
            requires
                q >= 0,
                b > 0,
        ;
    } else {
        vstd::arithmetic::div_mod::lemma_div_multiples_vanish(-q, b);
        assert(-(q * b) == b * (-q) && q * b < 0) by (nonlinear_arith)
            requires
                q < 0,
                b > 0,
        ;
    }
}

/// Truncating division by one changes nothing.
pub proof fn lemma_tdiv_one(a: int)
    ensures
        tdiv(a, 1) == a,
{
    if a >= 0 {
        vstd::arithmetic::div_mod::lemma_div_multiples_vanish(a, 1);
    } else {
        vstd::arithmetic::div_mod::lemma_div_multiples_vanish(-a, 1);
    }
}

/// Scaling numerator and denominator by the same thousand changes
/// nothing: `tdiv(a * 1000, d * 1000) == tdiv(a, d)`.
pub proof fn lemma_tdiv_thousandfold(a: int, d: int)
    requires
        d > 0,
    ensures
        tdiv(a * 1000, d * 1000) == tdiv(a, d),
{
    if a >= 0 {
        assert(a * 1000 >= 0 && a * 1000 == 1000 * a && d * 1000 == 1000 * d) by (nonlinear_arith)
            requires
                a >= 0,
        ;
        vstd::arithmetic::div_mod::lemma_div_denominator(1000 * a, 1000, d);
        vstd::arithmetic::div_mod::lemma_div_multiples_vanish(a, 1000);
    } else {
        assert((-a) * 1000 == -(a * 1000) && -(a * 1000) >= 0 && (-a) * 1000 == 1000 * (-a) && d
            * 1000 == 1000 * d) by (nonlinear_arith)
            requires
                a < 0,
        ;
        vstd::arithmetic::div_mod::lemma_div_denominator(1000 * (-a), 1000, d);
        vstd::arithmetic::div_mod::lemma_div_multiples_vanish(-a, 1000);
    }
}

/// The sine of an angle in the first half turn, in milli-units:
/// a rational approximation that is exact at 0, 90 and 180 degrees
/// and within two milli-units elsewhere.  `a` is in milli-degrees,
/// `0 <= a <= 180_000`.
pub open spec fn sin_half(a: int) -> int {
    let t = a * (180_000 - a);
    4000 * t / (40_500_000_000 - t)
}

/// The sine of any angle in milli-degrees, in milli-units.
pub open spec fn sin_milli_spec(mdeg: int) -> int {
    let a = mdeg % (DEG_FULL as int);
    if a <= 180_000 {
        sin_half(a)
    } else {
        -sin_half(a - 180_000)
    }
}

/// The cosine of any angle in milli-degrees, in milli-units: the
/// rounded-down root of `10^6 - sin^2`, negated in the second and
/// third quarter turns.  With this choice `sin^2 + cos^2 <= 10^6`
/// holds exactly, so rotation never grows a vector.
pub open spec fn cos_milli_spec(mdeg: int) -> int {
    let a = mdeg % (DEG_FULL as int);
    let s = sin_milli_spec(mdeg);
    let m = sqrt_floor(1_000_000 - s * s);
    if a <= 90_000 || a >= 270_000 {
        m
    } else {
        -m
    }
}

/// The horizontal component of `v` rotated by `mdeg` milli-degrees.
pub open spec fn rot_x(v: Vec2, mdeg: int) -> int {
    tdiv(cos_milli_spec(mdeg) * v.x - sin_milli_spec(mdeg) * v.y, SCALE as int)
}

/// The vertical component of `v` rotated by `mdeg` milli-degrees.
pub open spec fn rot_y(v: Vec2, mdeg: int) -> int {
    tdiv(sin_milli_spec(mdeg) * v.x + cos_milli_spec(mdeg) * v.y, SCALE as int)
}

/// `v` is no faster than `max` milli-units per tick: its rounded-down
/// magnitude is at most `max` (see `lemma_speed_magnitude`).
pub open spec fn speed_at_most(v: Vec2, max: int) -> bool {
    v.norm_sq() <= max * max + 2 * max
}

pub proof fn lemma_norm_sq_nonneg(v: Vec2)
    by (nonlinear_arith)
    ensures
        v.norm_sq() >= 0,
        v.x * v.x <= v.norm_sq(),
        v.y * v.y <= v.norm_sq(),
{
}

/// `speed_at_most` says exactly that the rounded-down magnitude is
/// within the cap.
pub proof fn lemma_speed_magnitude(v: Vec2, max: int)
    requires
        max >= 0,
    ensures
        speed_at_most(v, max) <==> sqrt_floor(v.norm_sq()) <= max,
{
    lemma_norm_sq_nonneg(v);
    lemma_sqrt_floor_exists(v.norm_sq());
    let r = sqrt_floor(v.norm_sq());
    assert((v.norm_sq() <= max * max + 2 * max) <==> (r <= max)) by (nonlinear_arith)
        requires
            max >= 0,
            0 <= r,
            r * r <= v.norm_sq(),
            v.norm_sq() < (r + 1) * (r + 1),
    ;
}

/// Reduce an angle to `[0, 360_000)` milli-degrees; the result is the
/// Euclidean remainder, whatever the sign of the argument.
pub fn norm_angle(mdeg: i64) -> (a: i64)
    ensures
        a == (mdeg as int) % (DEG_FULL as int),
        0 <= a < DEG_FULL,
{
    let r1 = mdeg % DEG_FULL;
    let a = (r1 + DEG_FULL) % DEG_FULL;
    proof {
        vstd::arithmetic::div_mod::lemma_fundamental_div_mod(mdeg as int, DEG_FULL as int);
        if mdeg >= 0 {
            assert(a == (mdeg as int) % (DEG_FULL as int)) by (nonlinear_arith)
                requires
                    mdeg >= 0,
                    r1 == (mdeg as int) % (DEG_FULL as int),
                    0 <= r1 < DEG_FULL,
                    a == (r1 + DEG_FULL) % (DEG_FULL as int),
            ;
        } else {
            let m = (-mdeg) as int % (DEG_FULL as int);
            vstd::arithmetic::div_mod::lemma_fundamental_div_mod(-mdeg as int, DEG_FULL as int);
            let q = (-mdeg) as int / (DEG_FULL as int);
            if m == 0 {
                vstd::arithmetic::div_mod::lemma_fundamental_div_mod_converse_mod(
                    mdeg as int,
                    DEG_FULL as int,
                    -q,
                    0,
                );
            } else {
                vstd::arithmetic::div_mod::lemma_fundamental_div_mod_converse_mod(
                    mdeg as int,
                    DEG_FULL as int,
                    -q - 1,
                    DEG_FULL - m,
                );
            }
            assert(a == (mdeg as int) % (DEG_FULL as int)) by (nonlinear_arith)
                requires
                    mdeg < 0,
                    r1 == -m,
                    0 <= m < DEG_FULL,
                    a == (r1 + DEG_FULL) % (DEG_FULL as int),
                    (mdeg as int) % (DEG_FULL as int) == if m == 0 { 0int } else { DEG_FULL - m },
            ;
        }
    }
    a
}

/// The sine, in milli-units, of an angle in milli-degrees.
pub fn sin_milli(mdeg: i64) -> (s: i64)
    ensures
        s == sin_milli_spec(mdeg as int),
        -1000 <= s <= 1000,
{
    let a = norm_angle(mdeg);
    let (half, neg) = if a <= DEG_HALF {
        (a, false)
    } else {
        (a - DEG_HALF, true)
    };
    proof {
        assert(0 <= half * (180_000 - half) <= 8_100_000_000int) by (nonlinear_arith)
            requires
                0 <= half <= 180_000,
        ;
    }
    let t = half * (180_000 - half);
    let s = 4000 * t / (40_500_000_000 - t);
    proof {
        assert(0 <= 4000 * t / (40_500_000_000 - t) <= 1000) by (nonlinear_arith)
            requires
                0 <= t <= 8_100_000_000int,
        ;
    }
    if neg {
        -s
    } else {
        s
    }
}

/// The cosine, in milli-units, of an angle in milli-degrees.
pub fn cos_milli(mdeg: i64) -> (c: i64)
    ensures
        c == cos_milli_spec(mdeg as int),
        -1000 <= c <= 1000,
        sin_milli_spec(mdeg as int) * sin_milli_spec(mdeg as int) + c * c <= 1_000_000,
{
    let a = norm_angle(mdeg);
    let s = sin_milli(mdeg);
    proof {
        assert(0 <= s * s <= 1_000_000) by (nonlinear_arith)
            requires
                -1000 <= s <= 1000,
        ;
    }
    let m = isqrt(1_000_000 - s * s);
    proof {
        assert(m <= 1000 && s * s + m * m <= 1_000_000) by (nonlinear_arith)
            requires
                0 <= m,
                m * m <= 1_000_000 - s * s,
                0 <= s * s <= 1_000_000,
        ;
    }
    if a <= 90_000 || a >= 270_000 {
        m
    } else {
        proof {
            assert((-m) * (-m) == m * m) by (nonlinear_arith);
        }
        -m
    }
}

/// Halve a window size into the screen translation every entity
/// carries: the centre of the screen, component by component.
pub fn half_window(window_size: &Vec2) -> (t: Vec2)
    requires
        2 <= window_size.x <= 8_000_000,
        2 <= window_size.y <= 8_000_000,
    ensures
        t.x == window_size.x / 2,
        t.y == window_size.y / 2,
        0 < t.x <= 4_000_000,
        0 < t.y <= 4_000_000,
{
    let t = window_size.divide(2 * SCALE);
    proof {
        vstd::arithmetic::div_mod::lemma_div_denominator(window_size.x * 1000, 1000, 2);
        vstd::arithmetic::div_mod::lemma_div_denominator(window_size.y * 1000, 1000, 2);
        lemma_tdiv_exact(window_size.x as int, 1000);
        lemma_tdiv_exact(window_size.y as int, 1000);
        assert(window_size.x / 2 >= 1 && window_size.y / 2 >= 1 && window_size.x / 2 <= 4_000_000
            && window_size.y / 2 <= 4_000_000);
    }
    t
}

/// A point or displacement of the plane, in milli-units.
#[derive(Clone, Copy, Debug, PartialEq, Eq, Structural)]
pub struct Vec2 {
    pub x: i64,
    pub y: i64,
}

impl Vec2 {
    /// The squared length, an exact integer.
    pub open spec fn norm_sq(self) -> int {
        self.x * self.x + self.y * self.y
    }

    /// Both components within `b` of zero.
    pub open spec fn bounded(self, b: int) -> bool {
        -b <= self.x <= b && -b <= self.y <= b
    }

    pub fn new(x: i64, y: i64) -> (v: Vec2)
        ensures
            v.x == x,
            v.y == y,
    {
        Vec2 { x, y }
    }

    pub fn zero() -> (v: Vec2)
        ensures
            v.x == 0,
            v.y == 0,
    {
        Vec2 { x: 0, y: 0 }
    }

    /// Componentwise sum.
    pub fn plus(self, other: Vec2) -> (r: Vec2)
        requires
            i64::MIN <= self.x + other.x <= i64::MAX,
            i64::MIN <= self.y + other.y <= i64::MAX,
        ensures
            r.x == self.x + other.x,
            r.y == self.y + other.y,
    {
        Vec2 { x: self.x + other.x, y: self.y + other.y }
    }

    /// Componentwise difference.
    pub fn minus(self, other: Vec2) -> (r: Vec2)
        requires
            i64::MIN <= self.x - other.x <= i64::MAX,
            i64::MIN <= self.y - other.y <= i64::MAX,
        ensures
            r.x == self.x - other.x,
            r.y == self.y - other.y,
    {
        Vec2 { x: self.x - other.x, y: self.y - other.y }
    }

    /// Scale by `k` milli-units per unit: each component becomes
    /// `c * k / SCALE`, truncated as the machine truncates.
    pub fn multiply(self, k: i64) -> (r: Vec2)
        requires
            i64::MIN <= self.x * k <= i64::MAX,
            i64::MIN <= self.y * k <= i64::MAX,
        ensures
            r.x == tdiv(self.x * k, SCALE as int),
            r.y == tdiv(self.y * k, SCALE as int),
    {
        Vec2 { x: self.x * k / SCALE, y: self.y * k / SCALE }
    }

    /// Divide by `k` milli-units per unit: each component becomes
    /// `c * SCALE / k`, truncated.  Division by zero is the caller's
    /// responsibility, as the contract shows.
    pub fn divide(self, k: i64) -> (r: Vec2)
        requires
            k != 0,
            -i64::MAX <= self.x * SCALE <= i64::MAX,
            -i64::MAX <= self.y * SCALE <= i64::MAX,
        ensures
            r.x == tdiv(self.x * SCALE, k as int),
            r.y == tdiv(self.y * SCALE, k as int),
    {
        proof {
            lemma_tdiv_magnitude(self.x * SCALE, k as int);
            lemma_tdiv_magnitude(self.y * SCALE, k as int);
        }
        Vec2 { x: self.x * SCALE / k, y: self.y * SCALE / k }
    }

    /// The length, rounded down to a whole milli-unit.
    pub fn magnitude(self) -> (r: i64)
        requires
            self.bounded(MAX_COORD as int),
        ensures
            r == sqrt_floor(self.norm_sq()),
            0 <= r,
            r * r <= self.norm_sq(),
            self.norm_sq() < (r + 1) * (r + 1),
    {
        proof {
            assert(0 <= self.x * self.x <= MAX_COORD * MAX_COORD && 0 <= self.y * self.y
                <= MAX_COORD * MAX_COORD) by (nonlinear_arith)
                requires
                    -MAX_COORD <= self.x <= MAX_COORD,
                    -MAX_COORD <= self.y <= MAX_COORD,
            ;
        }
        let sq = self.x * self.x + self.y * self.y;
        isqrt(sq)
    }

    /// Rotate counter-clockwise by `mdeg` milli-degrees.  The result is
    /// exact over the fixed-point sine and cosine, and never longer than
    /// the argument.
    pub fn rotate(self, mdeg: i64) -> (r: Vec2)
        requires
            self.bounded(1_000_000_000_000),
        ensures
            r.x == rot_x(self, mdeg as int),
            r.y == rot_y(self, mdeg as int),
            r.norm_sq() <= self.norm_sq(),
    {
        let s = sin_milli(mdeg);
        let c = cos_milli(mdeg);
        proof {
            assert(-2_000_000_000_000_000 <= c * self.x <= 2_000_000_000_000_000
                && -2_000_000_000_000_000 <= s * self.y <= 2_000_000_000_000_000
                && -2_000_000_000_000_000 <= s * self.x <= 2_000_000_000_000_000
                && -2_000_000_000_000_000 <= c * self.y <= 2_000_000_000_000_000)
                by (nonlinear_arith)
                requires
                    -1000 <= s <= 1000,
                    -1000 <= c <= 1000,
                    -1_000_000_000_000 <= self.x <= 1_000_000_000_000,
                    -1_000_000_000_000 <= self.y <= 1_000_000_000_000,
            ;
        }
        let dx = c * self.x - s * self.y;
        let dy = s * self.x + c * self.y;
        proof {
            lemma_tdiv_magnitude(dx as int, SCALE as int);
            lemma_tdiv_magnitude(dy as int, SCALE as int);
        }
        let r = Vec2 { x: dx / SCALE, y: dy / SCALE };
        proof {
            lemma_rotation_identity(s as int, c as int, self.x as int, self.y as int);
            assert((s * s + c * c) * (self.x * self.x + self.y * self.y) <= 1_000_000 * (self.x
                * self.x + self.y * self.y)) by (nonlinear_arith)
                requires
                    s * s + c * c <= 1_000_000,
            ;
            lemma_tdiv_sq(dx as int, SCALE as int);
            lemma_tdiv_sq(dy as int, SCALE as int);
            assert(r.x * r.x + r.y * r.y <= self.x * self.x + self.y * self.y)
                by (nonlinear_arith)
                requires
                    1_000_000 * r.x * r.x <= dx * dx,
                    1_000_000 * r.y * r.y <= dy * dy,
                    dx * dx + dy * dy <= 1_000_000 * (self.x * self.x + self.y * self.y),
            ;
        }
        r
    }

    /// Scale to (almost) unit length: each component becomes
    /// `c * SCALE / magnitude`, so the result's components lie in
    /// `[-SCALE, SCALE]`.  The zero vector has no direction and is
    /// excluded; see `Player::get_direction` for the guarded use.
    pub fn normalize(self) -> (r: Vec2)
        requires
            self.bounded(MAX_COORD as int),
            !(self.x == 0 && self.y == 0),
        ensures
            r.x == tdiv(self.x * SCALE, sqrt_floor(self.norm_sq())),
            r.y == tdiv(self.y * SCALE, sqrt_floor(self.norm_sq())),
            r.bounded(SCALE as int),
    {
        proof {
            lemma_norm_sq_nonneg(self);
            assert(self.norm_sq() >= 1) by (nonlinear_arith)
                requires
                    !(self.x == 0 && self.y == 0),
            ;
        }
        let m = self.magnitude();
        proof {
            assert(m >= 1) by (nonlinear_arith)
                requires
                    0 <= m,
                    self.norm_sq() >= 1,
                    self.norm_sq() < (m + 1) * (m + 1),
            ;
        }
        let r = self.divide(m);
        proof {
            lemma_abs_le_of_sq(self.x as int, m as int);
            lemma_abs_le_of_sq(self.y as int, m as int);
            lemma_tdiv_le_factor(self.x as int, SCALE as int, m as int);
            lemma_tdiv_le_factor(self.y as int, SCALE as int, m as int);
        }
        r
    }

    /// Clamp to at most `max` milli-units of length: a vector whose
    /// rounded-down magnitude exceeds `max` is rescaled onto the cap;
    /// a slower one comes back unchanged.  Either way the result
    /// satisfies `speed_at_most(r, max)`.
    pub fn limit(self, max: i64) -> (r: Vec2)
        requires
            0 < max <= 1_000_000_000,
            self.bounded(MAX_COORD as int),
        ensures
            sqrt_floor(self.norm_sq()) <= max ==> r == self,
            sqrt_floor(self.norm_sq()) > max ==> r.x == tdiv(
                self.x * max,
                sqrt_floor(self.norm_sq()),
            ) && r.y == tdiv(self.y * max, sqrt_floor(self.norm_sq())),
            speed_at_most(r, max as int),
            r.bounded(max as int),
    {
        proof {
            lemma_norm_sq_nonneg(self);
        }
        let m = self.magnitude();
        if m > max {
            proof {
                assert(i64::MIN <= self.x * max <= i64::MAX && i64::MIN <= self.y * max
                    <= i64::MAX) by (nonlinear_arith)
                    requires
                        self.bounded(MAX_COORD as int),
                        MAX_COORD == 2_000_000_000,
                        0 < max <= 1_000_000_000,
                ;
                lemma_tdiv_magnitude(self.x * max, m as int);
                lemma_tdiv_magnitude(self.y * max, m as int);
            }
            let r = Vec2 { x: self.x * max / m, y: self.y * max / m };
            proof {
                lemma_tdiv_sq(self.x * max, m as int);
                lemma_tdiv_sq(self.y * max, m as int);
                lemma_limit_norm(
                    r.x as int,
                    r.y as int,
                    self.x as int,
                    self.y as int,
                    m as int,
                    max as int,
                );
                lemma_abs_le_of_sq(self.x as int, m as int);
                lemma_abs_le_of_sq(self.y as int, m as int);
                lemma_tdiv_le_factor(self.x as int, max as int, m as int);
                lemma_tdiv_le_factor(self.y as int, max as int, m as int);
            }
            r
        } else {
            proof {
                assert((m + 1) * (m + 1) <= (max + 1) * (max + 1) && (max + 1) * (max + 1) == max
                    * max + 2 * max + 1) by (nonlinear_arith)
                    requires
                        0 <= m <= max,
                ;
                lemma_abs_le_of_sq(self.x as int, max as int);
                lemma_abs_le_of_sq(self.y as int, max as int);
            }
            self
        }
    }
}

} // verus!
