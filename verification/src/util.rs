//! Vectors of the plane and the three helpers the actors share: a heading
//! from an angle, a random vector, and the speed limit.

use crate::fixed::{
    div_trunc, is_sqrt_ceil, isqrt_ceil, lemma_div_trunc_bounds, lemma_div_trunc_within,
    lemma_square_monotonic, magnitude, mul_div, sqrt_ceil, REACH, UNIT,
};
use crate::trig::{cosine, lemma_sine_cosine_unit, near_unit, sin_cos, sine};
use vstd::prelude::*;

verus! {

/// A vector of the plane. Its components are thousandths of a pixel for a
/// position, thousandths of a pixel per second for a velocity, and
/// thousandths for a heading.
#[derive(Clone, Copy, Debug, PartialEq, Eq, Structural)]
pub struct Vector2 {
    pub x: i64,
    pub y: i64,
}

/// A place in the world: the vector that leads to it from the origin.
pub type Point2 = Vector2;

/// The allowance for rounding when a heading is stretched to length `len`:
/// one thousandth of the length, and two units.
pub open spec fn slack(len: int) -> int {
    (len + 999) / 1000 + 2
}

impl Vector2 {
    /// The square of the vector's length.
    pub open spec fn norm_sq(self) -> int {
        self.x * self.x + self.y * self.y
    }

    /// Neither component exceeds `bound` in magnitude.
    pub open spec fn within(self, bound: int) -> bool {
        &&& -bound <= self.x <= bound
        &&& -bound <= self.y <= bound
    }

    /// Both components are small enough for any step of the simulation to
    /// be added to them.
    pub open spec fn in_reach(self) -> bool {
        self.within(REACH as int)
    }

    /// The sum of two vectors, where it can be represented.
    pub open spec fn sum(self, other: Vector2) -> Vector2 {
        Vector2 { x: (self.x + other.x) as i64, y: (self.y + other.y) as i64 }
    }

    /// The sum of two vectors can be represented.
    pub open spec fn sum_fits(self, other: Vector2) -> bool {
        &&& i64::MIN <= self.x + other.x <= i64::MAX
        &&& i64::MIN <= self.y + other.y <= i64::MAX
    }

    /// The vector times `num / den`, each component rounded toward zero,
    /// where it can be represented.
    pub open spec fn scale(self, num: int, den: int) -> Vector2 {
        Vector2 {
            x: div_trunc(self.x * num, den) as i64,
            y: div_trunc(self.y * num, den) as i64,
        }
    }

    /// The vector times `num / den` can be represented.
    pub open spec fn scale_fits(self, num: int, den: int) -> bool {
        &&& i64::MIN <= div_trunc(self.x * num, den) <= i64::MAX
        &&& i64::MIN <= div_trunc(self.y * num, den) <= i64::MAX
    }

    /// The vector's length differs from `len` by no more than the allowance
    /// for rounding.
    pub open spec fn length_near(self, len: int) -> bool {
        &&& self.norm_sq() <= (len + slack(len)) * (len + slack(len))
        &&& len >= slack(len) ==> self.norm_sq() >= (len - slack(len)) * (len - slack(len))
    }

    pub fn new(x: i64, y: i64) -> (v: Vector2)
        ensures
            v == (Vector2 { x, y }),
    {
        Vector2 { x, y }
    }

    /// The vector without length.
    pub fn zero() -> (v: Vector2)
        ensures
            v == (Vector2 { x: 0, y: 0 }),
    {
        Vector2 { x: 0, y: 0 }
    }

    /// Whether neither component exceeds `bound` in magnitude.
    pub fn is_within(self, bound: i64) -> (within: bool)
        ensures
            within == self.within(bound as int),
    {
        bound >= 0 && -bound <= self.x && self.x <= bound && -bound <= self.y && self.y <= bound
    }

    /// The sum of this vector and `other`.
    pub fn plus(self, other: Vector2) -> (v: Vector2)
        requires
            self.sum_fits(other),
        ensures
            v == self.sum(other),
    {
        Vector2 { x: self.x + other.x, y: self.y + other.y }
    }

    /// This vector times `num / den`.
    pub fn scaled(self, num: i64, den: u64) -> (v: Vector2)
        requires
            den > 0,
            self.scale_fits(num as int, den as int),
        ensures
            v == self.scale(num as int, den as int),
    {
        Vector2 { x: mul_div(self.x, num, den), y: mul_div(self.y, num, den) }
    }

    /// The square of the vector's length. It fits whatever the components.
    pub fn norm_squared(self) -> (n: u128)
        ensures
            n == self.norm_sq(),
            n <= 0x8000_0000_0000_0000_0000_0000_0000_0000,
    {
        let wide_x: i128 = self.x as i128;
        let wide_y: i128 = self.y as i128;
        assert(0 <= wide_x * wide_x <= 0x4000_0000_0000_0000_0000_0000_0000_0000)
            by (nonlinear_arith)
            requires
                -0x8000_0000_0000_0000 <= wide_x < 0x8000_0000_0000_0000,
        ;
        assert(0 <= wide_y * wide_y <= 0x4000_0000_0000_0000_0000_0000_0000_0000)
            by (nonlinear_arith)
            requires
                -0x8000_0000_0000_0000 <= wide_y < 0x8000_0000_0000_0000,
        ;
        let square_x: u128 = (wide_x * wide_x) as u128;
        let square_y: u128 = (wide_y * wide_y) as u128;
        square_x + square_y
    }
}

/// The heading that belongs to `angle`, as a vector of length 1 in
/// thousandths: sine first, cosine second. Angle 0 therefore points along +Y
/// and a quarter turn along +X.
pub open spec fn heading(angle: u16) -> Vector2 {
    Vector2 { x: sine(angle) as i64, y: cosine(angle) as i64 }
}

/// The heading that belongs to `angle`.
pub fn vec_from_angle(angle: u16) -> (v: Vector2)
    ensures
        v == heading(angle),
{
    proof {
        lemma_sine_cosine_unit(angle);
    }
    let (vx, vy) = sin_cos(angle);
    Vector2::new(vx, vy)
}

/// The heading of any angle has length 1 to within one thousandth, and
/// its components are the sine and the cosine of the angle.
pub proof fn lemma_heading_unit(angle: u16)
    ensures
        near_unit(heading(angle).x as int, heading(angle).y as int),
        heading(angle).within(1000),
        heading(angle).x == sine(angle),
        heading(angle).y == cosine(angle),
{
    lemma_sine_cosine_unit(angle);
}

/// The angle that a random word stands for: its upper sixteen bits, so that
/// every angle of the turn is as likely as any other.
pub open spec fn drawn_angle(draw: u32) -> u16 {
    (draw / 65536) as u16
}

/// The length that a random word stands for: the fraction `draw / 2^32`,
/// taken to 24 binary places, of `max_magnitude`.
pub open spec fn drawn_length(draw: u32, max_magnitude: u32) -> int {
    max_magnitude * (draw / 256) / 0x100_0000
}

/// The vector that two random words stand for: the heading of the first
/// word's angle, stretched to the second word's length, and held to
/// `max_magnitude`, which a table heading slightly longer than 1 could
/// otherwise take it beyond.
pub open spec fn drawn_vec(angle_draw: u32, length_draw: u32, max_magnitude: u32) -> Vector2 {
    limited(
        heading(drawn_angle(angle_draw)).scale(drawn_length(length_draw, max_magnitude), 1000),
        max_magnitude,
    )
}

/// A uniformly distributed 32-bit word from `rand::random`, which draws it
/// from the thread's generator. Nothing is claimed of the value.
#[verifier::external_body]
pub(crate) fn random_word() -> (r: u32) {
    rand::random::<u32>()
}

/// The length that `draw` stands for, out of `max_magnitude`.
pub fn length_from_draw(draw: u32, max_magnitude: u32) -> (len: u32)
    ensures
        len == drawn_length(draw, max_magnitude),
        len <= max_magnitude,
        max_magnitude > 0 ==> len < max_magnitude,
{
    let fraction: u64 = (draw / 256) as u64;
    assert(0 <= max_magnitude * fraction <= max_magnitude * 0xff_ffff) by (nonlinear_arith)
        requires
            0 <= fraction <= 0xff_ffff,
            0 <= max_magnitude,
    ;
    let product: u64 = (max_magnitude as u64) * fraction;
    (product / 0x100_0000) as u32
}

/// The heading of `angle` stretched to length `len`.
pub fn stretch_heading(angle: u16, len: u32) -> (v: Vector2)
    ensures
        v == heading(angle).scale(len as int, 1000),
        v.length_near(len as int),
        magnitude(v.x as int) <= len,
        magnitude(v.y as int) <= len,
{
    let direction = vec_from_angle(angle);
    proof {
        lemma_heading_unit(angle);
        lemma_stretched_length(direction, len as int);
    }
    direction.scaled(len as i64, UNIT)
}

/// The vector that two random words stand for. It is no longer than
/// `max_magnitude`.
pub fn vec_from_draws(angle_draw: u32, length_draw: u32, max_magnitude: u32) -> (v: Vector2)
    ensures
        v == drawn_vec(angle_draw, length_draw, max_magnitude),
        v.norm_sq() <= max_magnitude * max_magnitude,
{
    let angle: u16 = (angle_draw / 65536) as u16;
    let len: u32 = length_from_draw(length_draw, max_magnitude);
    limit_velocity(stretch_heading(angle, len), max_magnitude)
}

/// A vector of random direction, every angle being equally likely, and of
/// random length, no longer than `max_magnitude`.
pub fn random_vec(max_magnitude: u32) -> (v: Vector2)
    ensures
        exists|angle_draw: u32, length_draw: u32|
            v == drawn_vec(angle_draw, length_draw, max_magnitude),
        v.norm_sq() <= max_magnitude * max_magnitude,
{
    let angle_draw: u32 = random_word();
    let length_draw: u32 = random_word();
    vec_from_draws(angle_draw, length_draw, max_magnitude)
}

/// A heading stretched to `len` can be represented, neither component
/// exceeds `len`, and its length is `len` to within the allowance.
pub proof fn lemma_stretched_length(heading: Vector2, len: int)
    requires
        near_unit(heading.x as int, heading.y as int),
        -1000 <= heading.x <= 1000,
        -1000 <= heading.y <= 1000,
        0 <= len <= 0x100_0000_0000,
    ensures
        heading.scale_fits(len, 1000),
        magnitude(heading.scale(len, 1000).x as int) <= len,
        magnitude(heading.scale(len, 1000).y as int) <= len,
        heading.scale(len, 1000).length_near(len),
{
    let hx = heading.x as int;
    let hy = heading.y as int;
    let a = hx * len;
    let b = hy * len;
    assert(magnitude(a) <= len * 1000 && magnitude(b) <= len * 1000) by (nonlinear_arith)
        requires
            a == hx * len,
            b == hy * len,
            -1000 <= hx <= 1000,
            -1000 <= hy <= 1000,
            0 <= len,
    ;
    lemma_div_trunc_within(a, 1000, len);
    lemma_div_trunc_within(b, 1000, len);
    lemma_div_trunc_bounds(a, 1000);
    lemma_div_trunc_bounds(b, 1000);
    let v = heading.scale(len, 1000);
    let p = magnitude(v.x as int);
    let q = magnitude(v.y as int);
    assert(p == magnitude(div_trunc(a, 1000)));
    assert(q == magnitude(div_trunc(b, 1000)));
    assert(v.norm_sq() == p * p + q * q) by (nonlinear_arith)
        requires
            v.norm_sq() == v.x * v.x + v.y * v.y,
            p == magnitude(v.x as int),
            q == magnitude(v.y as int),
    ;
    let ma = magnitude(a);
    let mb = magnitude(b);
    // The squares of the two products add up to the squared length of the
    // heading times the square of `len`.
    assert(ma * ma + mb * mb == (hx * hx + hy * hy) * (len * len)) by (nonlinear_arith)
        requires
            a == hx * len,
            b == hy * len,
            ma == magnitude(a),
            mb == magnitude(b),
    ;
    let s = slack(len);
    let unit_sq = hx * hx + hy * hy;
    // Upper bound.
    assert(1000000 * (p * p + q * q) <= ma * ma + mb * mb) by (nonlinear_arith)
        requires
            0 <= p,
            0 <= q,
            p * 1000 <= ma,
            q * 1000 <= mb,
    ;
    assert(unit_sq * (len * len) <= 1002001 * (len * len)) by (nonlinear_arith)
        requires
            unit_sq <= 1002001,
    ;
    assert(1000 * (len + s) >= 1001 * len);
    assert(1000000 * ((len + s) * (len + s)) >= 1002001 * (len * len)) by (nonlinear_arith)
        requires
            1000 * (len + s) >= 1001 * len,
            len >= 0,
            s >= 0,
    ;
    // Lower bound.
    if len >= s {
        let low = len - s;
        if p * p + q * q < low * low {
            assert(low > 0) by (nonlinear_arith)
                requires
                    p * p + q * q < low * low,
                    low >= 0,
            ;
            assert((p + q) * (p + q) <= 2 * (p * p + q * q)) by (nonlinear_arith);
            assert(2 * (p + q) < 3 * low) by (nonlinear_arith)
                requires
                    (p + q) * (p + q) < 2 * (low * low),
                    p + q >= 0,
                    low > 0,
            ;
            assert(1000000 * ((p + 1) * (p + 1) + (q + 1) * (q + 1)) > ma * ma + mb * mb)
                by (nonlinear_arith)
                requires
                    0 <= ma < (p + 1) * 1000,
                    0 <= mb < (q + 1) * 1000,
                    p >= 0,
                    q >= 0,
            ;
            assert(unit_sq * (len * len) >= 998001 * (len * len)) by (nonlinear_arith)
                requires
                    unit_sq >= 998001,
            ;
            assert((p + 1) * (p + 1) + (q + 1) * (q + 1) == p * p + q * q + 2 * (p + q) + 2)
                by (nonlinear_arith);
            assert(1000 * (low + 2) <= 999 * len);
            assert(1000000 * ((low + 1) * (low + 2)) <= 998001 * (len * len)) by (nonlinear_arith)
                requires
                    0 <= 1000 * (low + 2) <= 999 * len,
                    low >= 0,
            ;
            assert((low + 1) * (low + 2) == low * low + 3 * low + 2) by (nonlinear_arith);
            assert(false);
        }
    }
}

/// The velocity of speed `max` that points where `v` points: each component
/// times `max`, divided by the length of `v` rounded up, so that rounding
/// never takes the speed above `max`.
pub open spec fn rescaled(v: Vector2, max: u32) -> Vector2 {
    v.scale(max as int, sqrt_ceil(v.norm_sq()))
}

/// Holds the speed of `velocity` to `max`: a velocity that is faster comes
/// back rescaled to that speed, one that is not is left alone, which `None`
/// says. The test compares squares, and no root is taken unless needed.
pub fn clamp_velocity(velocity: Vector2, max: u32) -> (r: Option<Vector2>)
    ensures
        velocity.norm_sq() <= max * max ==> r is None,
        velocity.norm_sq() > max * max ==> r == Some(rescaled(velocity, max)),
{
    let norm_sq: u128 = velocity.norm_squared();
    let cap: u128 = max as u128;
    assert(cap * cap <= 0xffff_ffff * 0xffff_ffff) by (nonlinear_arith)
        requires
            0 <= cap <= 0xffff_ffff,
    ;
    if norm_sq > cap * cap {
        let norm: u128 = isqrt_ceil(norm_sq);
        proof {
            lemma_rescaled_fits(velocity, max);
        }
        let divisor: u64 = norm as u64;
        Some(velocity.scaled(max as i64, divisor))
    } else {
        None
    }
}

/// The velocity after the speed limit `max` was applied to it.
pub open spec fn limited(velocity: Vector2, max: u32) -> Vector2 {
    if velocity.norm_sq() > max * max {
        rescaled(velocity, max)
    } else {
        velocity
    }
}

/// The velocity held to the speed `max`.
pub fn limit_velocity(velocity: Vector2, max: u32) -> (v: Vector2)
    ensures
        v == limited(velocity, max),
        v.norm_sq() <= max * max,
{
    proof {
        lemma_limited_within(velocity, max);
    }
    match clamp_velocity(velocity, max) {
        Some(clamped) => clamped,
        None => velocity,
    }
}

/// The speed limit leaves a velocity within the limit.
pub proof fn lemma_limited_within(velocity: Vector2, max: u32)
    ensures
        limited(velocity, max).norm_sq() <= max * max,
{
    if velocity.norm_sq() > max * max {
        lemma_clamp_keeps_direction(velocity, max);
    }
}

/// A velocity can always be rescaled: the rounded-up length is positive and
/// fits in 64 bits, and no component of the result exceeds `max`.
pub proof fn lemma_rescaled_fits(v: Vector2, max: u32)
    requires
        v.norm_sq() > max * max,
    ensures
        0 < sqrt_ceil(v.norm_sq()) <= u64::MAX,
        v.scale_fits(max as int, sqrt_ceil(v.norm_sq())),
        magnitude(rescaled(v, max).x as int) <= max,
        magnitude(rescaled(v, max).y as int) <= max,
{
    let n = v.norm_sq();
    let r = sqrt_ceil(n);
    let x = v.x as int;
    let y = v.y as int;
    assert(0 <= x * x <= 0x4000_0000_0000_0000_0000_0000_0000_0000) by (nonlinear_arith)
        requires
            -0x8000_0000_0000_0000 <= x < 0x8000_0000_0000_0000,
    ;
    assert(0 <= y * y <= 0x4000_0000_0000_0000_0000_0000_0000_0000) by (nonlinear_arith)
        requires
            -0x8000_0000_0000_0000 <= y < 0x8000_0000_0000_0000,
    ;
    assert(max * max >= 0) by (nonlinear_arith);
    lemma_sqrt_exists(n);
    assert(is_sqrt_ceil(n, r));
    if r > u64::MAX {
        lemma_square_monotonic(0xffff_ffff_ffff_ffff, r - 1);
        assert(false);
    }
    let mx = magnitude(x);
    let my = magnitude(y);
    assert(mx * mx == x * x && my * my == y * y) by (nonlinear_arith)
        requires
            mx == magnitude(x),
            my == magnitude(y),
    ;
    if mx > r {
        lemma_square_monotonic(r, mx);
    }
    if my > r {
        lemma_square_monotonic(r, my);
    }
    assert(magnitude(x * max) <= max * r && magnitude(y * max) <= max * r) by (nonlinear_arith)
        requires
            mx == magnitude(x),
            my == magnitude(y),
            0 <= mx <= r,
            0 <= my <= r,
            0 <= max,
    ;
    lemma_div_trunc_within(x * max, r, max as int);
    lemma_div_trunc_within(y * max, r, max as int);
}

/// The speed limit neither speeds a velocity up nor turns it. A velocity
/// within `max` is not rescaled. One beyond it comes back with a speed of
/// at most `max` and no less than `max` less three units, which is all that
/// rounding can take; each component keeps its sign; and the result is
/// parallel to the velocity, the cross product of the two being no longer
/// than rounding one component by one unit accounts for.
pub proof fn lemma_clamp_keeps_direction(v: Vector2, max: u32)
    requires
        v.norm_sq() > max * max,
    ensures
        rescaled(v, max).norm_sq() <= max * max,
        max >= 3 ==> rescaled(v, max).norm_sq() >= (max - 3) * (max - 3),
        v.x >= 0 ==> rescaled(v, max).x >= 0,
        v.x <= 0 ==> rescaled(v, max).x <= 0,
        v.y >= 0 ==> rescaled(v, max).y >= 0,
        v.y <= 0 ==> rescaled(v, max).y <= 0,
        magnitude(rescaled(v, max).x * v.y - rescaled(v, max).y * v.x) <= magnitude(v.x as int)
            + magnitude(v.y as int),
{
    lemma_rescaled_fits(v, max);
    let x = v.x as int;
    let y = v.y as int;
    let big = v.norm_sq();
    let n = sqrt_ceil(big);
    let m = max as int;
    let r = rescaled(v, max);
    assert(m * m >= 0) by (nonlinear_arith);
    lemma_sqrt_exists(big);
    lemma_div_trunc_bounds(x * m, n);
    lemma_div_trunc_bounds(y * m, n);
    assert((x >= 0 ==> x * m >= 0) && (x <= 0 ==> x * m <= 0)) by (nonlinear_arith)
        requires
            m >= 0,
    ;
    assert((y >= 0 ==> y * m >= 0) && (y <= 0 ==> y * m <= 0)) by (nonlinear_arith)
        requires
            m >= 0,
    ;
    let a = magnitude(x);
    let b = magnitude(y);
    let p = magnitude(r.x as int);
    let q = magnitude(r.y as int);
    assert(magnitude(x * m) == a * m && magnitude(y * m) == b * m) by (nonlinear_arith)
        requires
            a == magnitude(x),
            b == magnitude(y),
            m >= 0,
    ;
    assert(a * a + b * b == big) by (nonlinear_arith)
        requires
            a == magnitude(x),
            b == magnitude(y),
            big == x * x + y * y,
    ;
    assert(r.norm_sq() == p * p + q * q) by (nonlinear_arith)
        requires
            r.norm_sq() == r.x * r.x + r.y * r.y,
            p == magnitude(r.x as int),
            q == magnitude(r.y as int),
    ;
    if m >= n {
        lemma_square_monotonic(n, m);
    }
    // No faster than `max`.
    assert((n * n) * (p * p + q * q) <= (m * m) * (a * a + b * b)) by (nonlinear_arith)
        requires
            0 <= p * n <= a * m,
            0 <= q * n <= b * m,
            0 <= p,
            0 <= q,
            0 < n,
    ;
    assert(p * p + q * q <= m * m) by (nonlinear_arith)
        requires
            (n * n) * (p * p + q * q) <= (m * m) * big,
            big <= n * n,
            0 < n,
            0 <= m,
    ;
    // No slower than `max` less three.
    if m >= 3 && p * p + q * q < (m - 3) * (m - 3) {
        let low = m - 3;
        assert(low > 0) by (nonlinear_arith)
            requires
                p * p + q * q < low * low,
                low >= 0,
        ;
        assert((p + q) * (p + q) <= 2 * (p * p + q * q)) by (nonlinear_arith);
        assert(2 * (p + q) < 3 * low) by (nonlinear_arith)
            requires
                (p + q) * (p + q) < 2 * (low * low),
                p + q >= 0,
                low > 0,
        ;
        assert((p + 1) * (p + 1) + (q + 1) * (q + 1) == p * p + q * q + 2 * (p + q) + 2)
            by (nonlinear_arith);
        assert((low + 1) * (low + 2) == low * low + 3 * low + 2) by (nonlinear_arith);
        let reach = (p + 1) * (p + 1) + (q + 1) * (q + 1);
        assert(reach < (m - 2) * (m - 1));
        lemma_square_monotonic(a * m, (p + 1) * n);
        lemma_square_monotonic(b * m, (q + 1) * n);
        assert(((p + 1) * n) * ((p + 1) * n) == (n * n) * ((p + 1) * (p + 1))) by (nonlinear_arith);
        assert(((q + 1) * n) * ((q + 1) * n) == (n * n) * ((q + 1) * (q + 1))) by (nonlinear_arith);
        assert((a * m) * (a * m) == (m * m) * (a * a)) by (nonlinear_arith);
        assert((b * m) * (b * m) == (m * m) * (b * b)) by (nonlinear_arith);
        assert((n * n) * reach == (n * n) * ((p + 1) * (p + 1)) + (n * n) * ((q + 1) * (q + 1)))
            by (nonlinear_arith)
            requires
                reach == (p + 1) * (p + 1) + (q + 1) * (q + 1),
        ;
        assert((m * m) * (a * a + b * b) == (m * m) * (a * a) + (m * m) * (b * b))
            by (nonlinear_arith);
        assert((n * n) * reach > (m * m) * (a * a + b * b));
        assert((m * m) * big >= (m * m) * ((n - 1) * (n - 1))) by (nonlinear_arith)
            requires
                big > (n - 1) * (n - 1),
                m >= 0,
        ;
        assert((n * n) * ((m - 2) * (m - 1)) <= (m * m) * ((n - 1) * (n - 1))) by (nonlinear_arith)
            requires
                3 <= m < n,
        ;
        assert((n * n) * reach < (n * n) * ((m - 2) * (m - 1))) by (nonlinear_arith)
            requires
                reach < (m - 2) * (m - 1),
                0 < n,
        ;
        assert(false);
    }
    // Parallel to the velocity.
    let ea = a * m - p * n;
    let eb = b * m - q * n;
    assert(0 <= ea < n && 0 <= eb < n) by (nonlinear_arith)
        requires
            ea == a * m - p * n,
            eb == b * m - q * n,
            p * n <= a * m < (p + 1) * n,
            q * n <= b * m < (q + 1) * n,
    ;
    let cross = r.x * v.y - r.y * v.x;
    assert(n * (p * b - q * a) == eb * a - ea * b) by (nonlinear_arith)
        requires
            ea == a * m - p * n,
            eb == b * m - q * n,
    ;
    assert(magnitude(p * b - q * a) <= a + b) by (nonlinear_arith)
        requires
            n * (p * b - q * a) == eb * a - ea * b,
            0 <= ea < n,
            0 <= eb < n,
            0 <= a,
            0 <= b,
    ;
    assert(magnitude(cross) == magnitude(p * b - q * a)) by (nonlinear_arith)
        requires
            cross == r.x * y - r.y * x,
            a == magnitude(x),
            b == magnitude(y),
            p == magnitude(r.x as int),
            q == magnitude(r.y as int),
            x >= 0 ==> r.x >= 0,
            x <= 0 ==> r.x <= 0,
            y >= 0 ==> r.y >= 0,
            y <= 0 ==> r.y <= 0,
    ;
}

/// Every natural number has a rounded-up square root.
pub proof fn lemma_sqrt_exists(n: int)
    requires
        n >= 0,
    ensures
        is_sqrt_ceil(n, sqrt_ceil(n)),
    decreases n,
{
    if n == 0 {
        assert(is_sqrt_ceil(0, 0));
    } else {
        lemma_sqrt_exists(n - 1);
        let r = sqrt_ceil(n - 1);
        if r * r >= n {
            assert(is_sqrt_ceil(n, r));
        } else {
            assert(r * r == n - 1);
            assert((r + 1) * (r + 1) >= n) by (nonlinear_arith)
                requires
                    r * r == n - 1,
                    r >= 0,
            ;
            assert(is_sqrt_ceil(n, r + 1));
        }
    }
}

} // verus!
