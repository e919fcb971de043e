//! Fixed-point numbers and vectors.
//!
//! A length, a speed or a multiplier is a whole number of millionths: the
//! value one is [`UNIT`]. Products are rounded toward zero.

use vstd::prelude::*;
use vstd::arithmetic::div_mod::{lemma_fundamental_div_mod, lemma_fundamental_div_mod_converse};

verus! {

/// The fixed-point value of one.
pub const UNIT: i64 = 1_000_000;

/// Division rounded toward zero.
pub open spec fn trunc_div(a: int, b: int) -> int {
    if a >= 0 {
        a / b
    } else {
        -((-a) / b)
    }
}

/// Division rounded down; the divisor is not zero.
pub open spec fn floor_div(a: int, b: int) -> int {
    if b > 0 {
        a / b
    } else {
        (-a) / (-b)
    }
}

/// Division rounded down.
pub fn div_floor(a: i64, b: i64) -> (r: i128)
    requires
        b != 0,
    ensures
        r == floor_div(a as int, b as int),
{
    let (n, d): (i128, i128) = if b > 0 {
        (a as i128, b as i128)
    } else {
        (-(a as i128), -(b as i128))
    };
    if n >= 0 {
        n / d
    } else {
        let up: i128 = (-n + d - 1) / d;
        proof {
            let m = -n + d - 1;
            lemma_fundamental_div_mod(m as int, d as int);
            let rest = (m as int) % (d as int);
            assert((-up) * d == -(d * up)) by (nonlinear_arith);
            lemma_fundamental_div_mod_converse(n as int, d as int, -up as int, d - 1 - rest);
        }
        -up
    }
}

/// The fixed-point product of a value and a multiplier.
pub open spec fn scaled(v: int, m: int) -> int {
    trunc_div(v * m, UNIT as int)
}

/// The product of a value and the multiplier one is the value.
pub proof fn lemma_scaled_by_one(v: int)
    ensures
        scaled(v, UNIT as int) == v,
{
    if v >= 0 {
        assert((v * 1_000_000) / 1_000_000 == v) by (nonlinear_arith)
            requires
                v >= 0,
        ;
    } else {
        assert(-(v * 1_000_000) == (-v) * 1_000_000) by (nonlinear_arith);
        assert(((-v) * 1_000_000) / 1_000_000 == -v) by (nonlinear_arith)
            requires
                v < 0,
        ;
    }
}

/// Whether `r` is the whole part of the square root of `n`.
pub open spec fn is_sqrt(r: nat, n: nat) -> bool {
    r * r <= n < (r + 1) * (r + 1)
}

/// The whole part of the square root of `n`.
pub open spec fn sqrt_floor(n: nat) -> nat {
    choose|r: nat| is_sqrt(r, n)
}

/// At most one number is the whole part of the square root of `n`.
pub proof fn lemma_sqrt_unique(a: nat, b: nat, n: nat)
    requires
        is_sqrt(a, n),
        is_sqrt(b, n),
    ensures
        a == b,
{
    if a < b {
        assert((a + 1) * (a + 1) <= b * b) by (nonlinear_arith)
            requires
                a + 1 <= b,
        ;
    } else if b < a {
        assert((b + 1) * (b + 1) <= a * a) by (nonlinear_arith)
            requires
                b + 1 <= a,
        ;
    }
}

/// A number with the defining property is the square root's whole part.
pub proof fn lemma_sqrt_floor_is(r: nat, n: nat)
    requires
        is_sqrt(r, n),
    ensures
        sqrt_floor(n) == r,
{
    lemma_sqrt_unique(r, sqrt_floor(n), n);
}

/// The square root of a square is the number that was squared.
pub proof fn lemma_sqrt_floor_of_square(r: nat)
    ensures
        sqrt_floor(r * r) == r,
{
    assert(r * r < (r + 1) * (r + 1)) by (nonlinear_arith);
    lemma_sqrt_floor_is(r, r * r);
}

/// Every number has a square root, whose whole part `sqrt_floor` gives.
pub proof fn lemma_sqrt_exists(n: nat)
    ensures
        is_sqrt(sqrt_floor(n), n),
    decreases n,
{
    if n == 0 {
        assert(0nat * 0nat <= 0 < (0nat + 1) * (0nat + 1)) by (nonlinear_arith);
        assert(is_sqrt(0, 0));
    } else {
        let less = (n - 1) as nat;
        lemma_sqrt_exists(less);
        let r = sqrt_floor(less);
        if (r + 1) * (r + 1) <= n {
            assert(n < (r + 2) * (r + 2)) by (nonlinear_arith)
                requires
                    (r + 1) * (r + 1) <= n,
                    n - 1 < (r + 1) * (r + 1),
            ;
            assert(is_sqrt(r + 1, n));
        } else {
            assert(is_sqrt(r, n));
        }
    }
}

/// The whole part of the square root of `n`.
pub fn isqrt(n: u128) -> (r: u64)
    ensures
        r == sqrt_floor(n as nat),
        is_sqrt(r as nat, n as nat),
{
    let mut lo: u128 = 0;
    let mut hi: u128 = 0x1_0000_0000_0000_0000;
    assert(0x1_0000_0000_0000_0000 * 0x1_0000_0000_0000_0000
        == 0x1_0000_0000_0000_0000_0000_0000_0000_0000) by (nonlinear_arith);
    while hi - lo > 1
        invariant
            lo < hi <= 0x1_0000_0000_0000_0000,
            lo * lo <= n < hi * hi,
        decreases hi - lo,
    {
        let mid: u128 = lo + (hi - lo) / 2;
        assert(mid * mid < 0x1_0000_0000_0000_0000_0000_0000_0000_0000) by (nonlinear_arith)
            requires
                0 <= mid < 0x1_0000_0000_0000_0000,
        ;
        let square: u128 = mid * mid;
        if square <= n {
            lo = mid;
        } else {
            hi = mid;
        }
    }
    proof {
        lemma_sqrt_floor_is(lo as nat, n as nat);
    }
    lo as u64
}

/// Whether `v` lies between `-limit` and `limit`.
pub open spec fn within(v: int, limit: int) -> bool {
    -limit <= v <= limit
}

/// A quotient is as near to zero as its dividend allows.
pub proof fn lemma_trunc_div_within(p: int, d: int, limit: int)
    requires
        d > 0,
        limit >= 0,
        within(p, limit * d),
    ensures
        within(trunc_div(p, d), limit),
        p >= 0 ==> trunc_div(p, d) >= 0,
        p <= 0 ==> trunc_div(p, d) <= 0,
{
    if p >= 0 {
        assert(0 <= p / d <= limit) by (nonlinear_arith)
            requires
                d > 0,
                0 <= p <= limit * d,
        ;
    } else {
        assert(0 <= (-p) / d <= limit) by (nonlinear_arith)
            requires
                d > 0,
                0 <= -p <= limit * d,
        ;
    }
}

/// The magnitude of an integer.
pub open spec fn absolute(v: int) -> int {
    if v >= 0 {
        v
    } else {
        -v
    }
}

/// The product over time of a rate `v` per second and `dt` nanoseconds.
pub open spec fn over_time(v: int, dt: int) -> int {
    trunc_div(v * dt, 1_000_000_000)
}

/// The fixed-point product of `v` and the multiplier `m`, rounded toward zero.
pub fn scale(v: i128, m: i128) -> (r: i128)
    requires
        within(v as int, 0x400_0000_0000_0000_0000_0000),
        within(m as int, 0x1_0000_0000),
    ensures
        r == scaled(v as int, m as int),
        within(r as int, absolute(v as int) * 4295),
        v >= 0 && m >= 0 ==> r >= 0,
{
    proof {
        let a = absolute(v as int);
        assert(within(v * m, a * 0x1_0000_0000)) by (nonlinear_arith)
            requires
                a == absolute(v as int),
                within(m as int, 0x1_0000_0000),
        ;
        assert(a * 0x1_0000_0000 <= (a * 4295) * 1_000_000);
        lemma_trunc_div_within(v * m, 1_000_000, a * 4295);
        assert(v >= 0 && m >= 0 ==> v * m >= 0) by (nonlinear_arith);
    }
    (v * m) / 1_000_000
}

/// The product of the rate `v` per second and `dt` nanoseconds, rounded toward zero.
pub fn times_nanos(v: i128, dt: u64) -> (r: i128)
    requires
        within(v as int, 0x400_0000_0000_0000_0000_0000),
        dt <= 1_000_000_000,
    ensures
        r == over_time(v as int, dt as int),
        within(r as int, absolute(v as int)),
{
    proof {
        let a = absolute(v as int);
        assert(within(v * dt, a * 1_000_000_000)) by (nonlinear_arith)
            requires
                a == absolute(v as int),
                0 <= dt <= 1_000_000_000,
        ;
        lemma_trunc_div_within(v * dt, 1_000_000_000, a);
    }
    (v * (dt as i128)) / 1_000_000_000
}

/// The square of a coordinate is bounded.
pub proof fn lemma_square_bound(v: int)
    requires
        fits(v),
    ensures
        0 <= v * v <= 0x4000_0000_0000_0000_0000_0000_0000_0000,
{
    assert(0 <= v * v <= 0x4000_0000_0000_0000_0000_0000_0000_0000) by (nonlinear_arith)
        requires
            -0x8000_0000_0000_0000 <= v <= 0x8000_0000_0000_0000,
    ;
}

/// Whether a wide integer can be stored as a coordinate.
pub open spec fn fits(v: int) -> bool {
    i64::MIN <= v <= i64::MAX
}

/// The coordinate that holds `v`, or `None` where `v` does not fit.
pub fn narrow(v: i128) -> (r: Option<i64>)
    ensures
        r == (if fits(v as int) { Some(v as i64) } else { None }),
{
    if v < -0x8000_0000_0000_0000 || v > 0x7fff_ffff_ffff_ffff {
        None
    } else {
        Some(v as i64)
    }
}

/// A share `part / whole` of a whole.
#[derive(Clone, Copy, Debug, PartialEq, Eq, Structural)]
pub struct Fraction {
    pub part: u64,
    pub whole: u64,
}

impl Fraction {
    /// Whether this is a share between nothing and all of a whole that is not nothing.
    pub open spec fn wf(self) -> bool {
        self.part <= self.whole && self.whole > 0
    }
}

/// A vector in the plane, in fixed-point coordinates.
#[derive(Clone, Copy, Debug, PartialEq, Eq, Structural)]
pub struct Vec2 {
    pub x: i64,
    pub y: i64,
}

/// A vector in space, in fixed-point coordinates; `y` points up.
#[derive(Clone, Copy, Debug, PartialEq, Eq, Structural)]
pub struct Vec3 {
    pub x: i64,
    pub y: i64,
    pub z: i64,
}

/// A rotation, as the four fixed-point parts of a unit quaternion.
#[derive(Clone, Copy, Debug, PartialEq, Eq, Structural)]
pub struct Quat {
    pub x: i64,
    pub y: i64,
    pub z: i64,
    pub w: i64,
}

/// A point of a grid in the plane.
#[derive(Clone, Copy, Debug, PartialEq, Eq, Structural)]
pub struct IVec2 {
    pub x: i32,
    pub y: i32,
}

/// A point of a grid in space.
#[derive(Clone, Copy, Debug, PartialEq, Eq, Structural)]
pub struct IVec3 {
    pub x: i32,
    pub y: i32,
    pub z: i32,
}

impl Vec2 {
    /// The vector with the given coordinates.
    pub fn new(x: i64, y: i64) -> (r: Self)
        ensures
            r == (Vec2 { x, y }),
    {
        Vec2 { x, y }
    }

    /// The zero vector.
    pub open spec fn spec_zero() -> Vec2 {
        Vec2 { x: 0, y: 0 }
    }

    /// The zero vector.
    #[verifier::when_used_as_spec(spec_zero)]
    pub fn zero() -> (r: Self)
        ensures
            r == Self::spec_zero(),
    {
        Vec2 { x: 0, y: 0 }
    }
}

impl Vec2 {
    /// The length, rounded down.
    pub open spec fn spec_length(self) -> nat {
        sqrt_floor((self.x * self.x + self.y * self.y) as nat)
    }

    /// The length, rounded down.
    pub fn length(self) -> (r: u64)
        ensures
            r == self.spec_length(),
            is_sqrt(r as nat, (self.x * self.x + self.y * self.y) as nat),
    {
        let x: u128 = square(self.x);
        let y: u128 = square(self.y);
        isqrt(x + y)
    }

    /// The vector of length one that points the same way, or zero for a
    /// vector shorter than one millionth.
    pub open spec fn spec_normalize_or_zero(self) -> Vec2 {
        let length = self.spec_length();
        if length == 0 {
            Vec2 { x: 0, y: 0 }
        } else {
            Vec2 {
                x: trunc_div(self.x * UNIT, length as int) as i64,
                y: trunc_div(self.y * UNIT, length as int) as i64,
            }
        }
    }

    /// The vector of length one that points the same way, or zero for a
    /// vector shorter than one millionth.
    pub fn normalize_or_zero(self) -> (r: Self)
        ensures
            r == self.spec_normalize_or_zero(),
            within(r.x as int, UNIT as int),
            within(r.y as int, UNIT as int),
    {
        let length: u64 = self.length();
        if length == 0 {
            return Vec2 { x: 0, y: 0 };
        }
        proof {
            let n = (self.x * self.x + self.y * self.y) as nat;
            assert(self.x * self.x >= 0 && self.y * self.y >= 0) by (nonlinear_arith);
            lemma_root_bounds_part(self.x as int, n, length as nat);
            lemma_root_bounds_part(self.y as int, n, length as nat);
            lemma_trunc_div_within(self.x * UNIT, length as int, UNIT as int);
            lemma_trunc_div_within(self.y * UNIT, length as int, UNIT as int);
        }
        let x: i128 = (self.x as i128 * UNIT as i128) / (length as i128);
        let y: i128 = (self.y as i128 * UNIT as i128) / (length as i128);
        Vec2 { x: x as i64, y: y as i64 }
    }
}

/// A number whose square is within `n` is within the square root of `n`.
pub proof fn lemma_root_bounds_part(a: int, n: nat, root: nat)
    requires
        is_sqrt(root, n),
        a * a <= n,
    ensures
        within(a, root as int),
{
    if a > root {
        assert(a * a >= (root + 1) * (root + 1)) by (nonlinear_arith)
            requires
                a >= root + 1,
                root >= 0,
        ;
    } else if -a > root {
        assert(a * a >= (root + 1) * (root + 1)) by (nonlinear_arith)
            requires
                -a >= root + 1,
                root >= 0,
        ;
    }
}

impl Vec3 {
    /// The vector with the given coordinates.
    pub fn new(x: i64, y: i64, z: i64) -> (r: Self)
        ensures
            r == (Vec3 { x, y, z }),
    {
        Vec3 { x, y, z }
    }

    /// The zero vector.
    pub open spec fn spec_zero() -> Vec3 {
        Vec3 { x: 0, y: 0, z: 0 }
    }

    /// The zero vector.
    #[verifier::when_used_as_spec(spec_zero)]
    pub fn zero() -> (r: Self)
        ensures
            r == Self::spec_zero(),
    {
        Vec3 { x: 0, y: 0, z: 0 }
    }

    /// The length of the horizontal part, rounded down.
    pub open spec fn spec_length_xz(self) -> nat {
        sqrt_floor((self.x * self.x + self.z * self.z) as nat)
    }

    /// The length of the horizontal part, rounded down.
    pub fn length_xz(self) -> (r: u64)
        ensures
            r == self.spec_length_xz(),
            is_sqrt(r as nat, (self.x * self.x + self.z * self.z) as nat),
    {
        let x: u128 = square(self.x);
        let z: u128 = square(self.z);
        isqrt(x + z)
    }
}

impl Quat {
    /// The rotation that turns nothing.
    pub open spec fn spec_identity() -> Quat {
        Quat { x: 0, y: 0, z: 0, w: 1_000_000 }
    }

    /// The rotation that turns nothing.
    #[verifier::when_used_as_spec(spec_identity)]
    pub fn identity() -> (r: Self)
        ensures
            r == Self::spec_identity(),
    {
        Quat { x: 0, y: 0, z: 0, w: 1_000_000 }
    }
}

impl IVec2 {
    /// The point with the given coordinates.
    pub fn new(x: i32, y: i32) -> (r: Self)
        ensures
            r == (IVec2 { x, y }),
    {
        IVec2 { x, y }
    }
}

/// Whether an integer can be stored as a grid coordinate.
pub open spec fn fits_i32(v: int) -> bool {
    i32::MIN <= v <= i32::MAX
}

impl IVec3 {
    /// The point with the given coordinates.
    pub fn new(x: i32, y: i32, z: i32) -> (r: Self)
        ensures
            r == (IVec3 { x, y, z }),
    {
        IVec3 { x, y, z }
    }

    /// Whether the point `by` times as far from the origin can be stored.
    pub open spec fn can_scale(self, by: i32) -> bool {
        fits_i32(self.x * by) && fits_i32(self.y * by) && fits_i32(self.z * by)
    }

    /// The point `by` times as far from the origin.
    pub open spec fn spec_times(self, by: i32) -> IVec3 {
        IVec3 { x: (self.x * by) as i32, y: (self.y * by) as i32, z: (self.z * by) as i32 }
    }

    /// The point `by` times as far from the origin.
    pub fn times(self, by: i32) -> (r: Self)
        requires
            self.can_scale(by),
        ensures
            r == self.spec_times(by),
    {
        IVec3 { x: self.x * by, y: self.y * by, z: self.z * by }
    }
}

/// The square of a coordinate.
pub fn square(v: i64) -> (r: u128)
    ensures
        r == v * v,
        r <= 0x4000_0000_0000_0000_0000_0000_0000_0000,
{
    let wide: i128 = v as i128;
    assert(0 <= wide * wide <= 0x4000_0000_0000_0000_0000_0000_0000_0000) by (nonlinear_arith)
        requires
            -0x8000_0000_0000_0000 <= wide <= 0x8000_0000_0000_0000,
    ;
    (wide * wide) as u128
}

} // verus!
