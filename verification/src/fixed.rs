//! Fixed-point arithmetic.
//!
//! Every real-valued quantity of the simulation (a length, a speed, an angle,
//! a number of health points) is held as a whole number of millionths, and
//! every span of time as a whole number of microseconds. Quotients round
//! toward zero.
use vstd::prelude::*;

verus! {

/// The fixed-point representation of 1.0.
pub const ONE: i64 = 1_000_000;

/// Microseconds in one second.
pub const SECOND: i64 = 1_000_000;

/// Largest magnitude of a coordinate or of a velocity component: 2^40
/// millionths. Free-flying objects saturate here.
pub const COORD_LIMIT: i64 = 0x100_0000_0000;

/// A point or a direction in space, in millionths.
#[derive(Clone, Copy, Debug, PartialEq, Eq, Structural)]
pub struct Vec3 {
    pub x: i64,
    pub y: i64,
    pub z: i64,
}

/// The square of `a`.
pub open spec fn sq(a: int) -> int {
    a * a
}

/// `a / d` rounded toward zero, for a positive `d`.
pub open spec fn trunc_div(a: int, d: int) -> int {
    if a >= 0 {
        a / d
    } else {
        -((-a) / d)
    }
}

/// `v` cut to the range from `lo` to `hi`.
pub open spec fn clamp_int(v: int, lo: int, hi: int) -> int {
    if v < lo {
        lo
    } else if v > hi {
        hi
    } else {
        v
    }
}

/// `v` cut to the range of a coordinate.
pub open spec fn saturated(v: int) -> int {
    clamp_int(v, -COORD_LIMIT, COORD_LIMIT as int)
}

/// `r` is the integer square root of `n`, rounded down.
pub open spec fn is_sqrt_floor(n: int, r: int) -> bool {
    0 <= r && r * r <= n && n < (r + 1) * (r + 1)
}

/// The integer square root of `n`, rounded down; 0 for a negative `n`.
pub open spec fn sqrt_floor(n: int) -> int {
    if n < 0 {
        0
    } else {
        choose|r: int| is_sqrt_floor(n, r)
    }
}

/// The product of two numbers no larger than `a` and `b` is no larger than `a * b`.
pub proof fn lemma_mul_bound(x: int, y: int, a: int, b: int)
    by (nonlinear_arith)
    requires
        -a <= x <= a,
        -b <= y <= b,
    ensures
        -(a * b) <= x * y <= a * b,
{
}

/// Of two numbers that are not negative, the larger has the larger square.
pub proof fn lemma_sq_monotone(a: int, b: int)
    by (nonlinear_arith)
    requires
        0 <= a <= b,
    ensures
        a * a <= b * b,
{
}

/// A number has at most one floor square root.
pub proof fn lemma_sqrt_unique(n: int, r: int, s: int)
    requires
        is_sqrt_floor(n, r),
        is_sqrt_floor(n, s),
    ensures
        r == s,
{
    if r < s {
        lemma_sq_monotone(r + 1, s);
    } else if s < r {
        lemma_sq_monotone(s + 1, r);
    }
}

/// Whatever satisfies `is_sqrt_floor` is the value of `sqrt_floor`.
pub proof fn lemma_sqrt_floor_is(n: int, r: int)
    requires
        is_sqrt_floor(n, r),
    ensures
        sqrt_floor(n) == r,
{
    assert(0 <= r * r) by (nonlinear_arith);
    let c = choose|c: int| is_sqrt_floor(n, c);
    lemma_sqrt_unique(n, r, c);
}

/// The floor square root stays below any bound whose square exceeds `n`.
pub proof fn lemma_sqrt_floor_below(n: int, bound: int)
    requires
        0 <= n < bound * bound,
        0 <= bound,
    ensures
        0 <= sqrt_floor(n) < bound,
        is_sqrt_floor(n, sqrt_floor(n)),
{
    lemma_sqrt_exists(n);
    let r = sqrt_floor(n);
    if r >= bound {
        lemma_sq_monotone(bound, r);
    }
}

/// Every natural number has a floor square root.
pub proof fn lemma_sqrt_exists(n: int)
    requires
        0 <= n,
    ensures
        is_sqrt_floor(n, sqrt_floor(n)),
    decreases n,
{
    if n == 0 {
        assert(is_sqrt_floor(0, 0));
    } else {
        lemma_sqrt_exists(n - 1);
        let r = sqrt_floor(n - 1);
        assert(is_sqrt_floor(n - 1, r));
        if n < (r + 1) * (r + 1) {
            assert(is_sqrt_floor(n, r));
        } else {
            assert((r + 2) * (r + 2) == (r + 1) * (r + 1) + 2 * r + 3) by (nonlinear_arith);
            assert(is_sqrt_floor(n, r + 1));
        }
    }
}

/// The floor square root of `n` is at least `a` when `n` is at least `a * a`.
pub proof fn lemma_sqrt_floor_at_least(n: int, a: int)
    requires
        0 <= a,
        a * a <= n,
    ensures
        a <= sqrt_floor(n),
        is_sqrt_floor(n, sqrt_floor(n)),
{
    assert(0 <= a * a) by (nonlinear_arith);
    lemma_sqrt_exists(n);
    let r = sqrt_floor(n);
    if r + 1 <= a {
        lemma_sq_monotone(r + 1, a);
    }
}

/// Rounding toward zero keeps a quotient between zero and the exact value.
pub proof fn lemma_trunc_div_bound(a: int, d: int, b: int)
    by (nonlinear_arith)
    requires
        d > 0,
        b >= 0,
        -(b * d) <= a <= b * d,
    ensures
        -b <= trunc_div(a, d) <= b,
        a >= 0 ==> trunc_div(a, d) >= 0,
        a <= 0 ==> trunc_div(a, d) <= 0,
{
}

impl Vec3 {
    /// Every component is within the limit of a coordinate.
    pub open spec fn wf(self) -> bool {
        &&& -COORD_LIMIT <= self.x <= COORD_LIMIT
        &&& -COORD_LIMIT <= self.y <= COORD_LIMIT
        &&& -COORD_LIMIT <= self.z <= COORD_LIMIT
    }

    /// Every component is within twice the limit of a coordinate, as the
    /// difference of two points is.
    pub open spec fn spans(self) -> bool {
        &&& -2 * COORD_LIMIT <= self.x <= 2 * COORD_LIMIT
        &&& -2 * COORD_LIMIT <= self.y <= 2 * COORD_LIMIT
        &&& -2 * COORD_LIMIT <= self.z <= 2 * COORD_LIMIT
    }

    /// The squared distance to `other`.
    pub open spec fn spec_dist_sq(self, other: Vec3) -> int {
        sq(self.x - other.x) + sq(self.y - other.y) + sq(self.z - other.z)
    }

    /// The squared distance to `other` on the ground plane, heights left out.
    pub open spec fn spec_flat_dist_sq(self, other: Vec3) -> int {
        sq(self.x - other.x) + sq(self.z - other.z)
    }

    /// The length, rounded down.
    pub open spec fn spec_length(self) -> int {
        sqrt_floor(sq(self.x as int) + sq(self.y as int) + sq(self.z as int))
    }

    /// The vector scaled to length 1.0, each component rounded toward zero;
    /// a vector shorter than one millionth has no direction and gives zero.
    pub open spec fn spec_normalized(self) -> Vec3 {
        let len = self.spec_length();
        if len == 0 {
            Vec3 { x: 0, y: 0, z: 0 }
        } else {
            Vec3 {
                x: trunc_div(self.x * ONE, len) as i64,
                y: trunc_div(self.y * ONE, len) as i64,
                z: trunc_div(self.z * ONE, len) as i64,
            }
        }
    }

    /// Every component is between -1.0 and 1.0.
    pub open spec fn is_direction(self) -> bool {
        &&& -ONE <= self.x <= ONE
        &&& -ONE <= self.y <= ONE
        &&& -ONE <= self.z <= ONE
    }

    /// Whether every component is within the limit of a coordinate.
    pub fn is_valid(&self) -> (b: bool)
        ensures
            b == self.wf(),
    {
        -COORD_LIMIT <= self.x && self.x <= COORD_LIMIT && -COORD_LIMIT <= self.y && self.y
            <= COORD_LIMIT && -COORD_LIMIT <= self.z && self.z <= COORD_LIMIT
    }

    /// Whether every component is between -1.0 and 1.0.
    pub fn is_unit_box(&self) -> (b: bool)
        ensures
            b == self.is_direction(),
    {
        -ONE <= self.x && self.x <= ONE && -ONE <= self.y && self.y <= ONE && -ONE <= self.z
            && self.z <= ONE
    }

    /// The point with every coordinate cut to the range of a coordinate.
    pub open spec fn spec_confined(&self) -> Vec3 {
        Vec3 {
            x: saturated(self.x as int) as i64,
            y: saturated(self.y as int) as i64,
            z: saturated(self.z as int) as i64,
        }
    }

    #[verifier::when_used_as_spec(spec_confined)]
    pub fn confined(&self) -> (p: Vec3)
        ensures
            p == self.spec_confined(),
            p.wf(),
            self.wf() ==> p == *self,
    {
        Vec3 { x: saturate(self.x as i128), y: saturate(self.y as i128), z: saturate(self.z as i128) }
    }

    /// The squared distance to `other`.
    pub fn dist_sq(&self, other: &Vec3) -> (d: i128)
        requires
            self.spans(),
            other.spans(),
        ensures
            d == self.spec_dist_sq(*other),
            0 <= d <= 3 * sq(4 * COORD_LIMIT),
    {
        let dx: i128 = self.x as i128 - other.x as i128;
        let dy: i128 = self.y as i128 - other.y as i128;
        let dz: i128 = self.z as i128 - other.z as i128;
        proof {
            lemma_sq_range(dx as int, 4 * COORD_LIMIT);
            lemma_sq_range(dy as int, 4 * COORD_LIMIT);
            lemma_sq_range(dz as int, 4 * COORD_LIMIT);
            assert(sq(4 * COORD_LIMIT) == 0x10_0000_0000_0000_0000_0000int);
        }
        dx * dx + dy * dy + dz * dz
    }

    /// The squared distance to `other` on the ground plane.
    pub fn flat_dist_sq(&self, other: &Vec3) -> (d: i128)
        requires
            self.spans(),
            other.spans(),
        ensures
            d == self.spec_flat_dist_sq(*other),
            0 <= d <= 2 * sq(4 * COORD_LIMIT),
    {
        let dx: i128 = self.x as i128 - other.x as i128;
        let dz: i128 = self.z as i128 - other.z as i128;
        proof {
            lemma_sq_range(dx as int, 4 * COORD_LIMIT);
            lemma_sq_range(dz as int, 4 * COORD_LIMIT);
            assert(sq(4 * COORD_LIMIT) == 0x10_0000_0000_0000_0000_0000int);
        }
        dx * dx + dz * dz
    }

    /// The length, rounded down. No component is longer than it.
    pub fn length(&self) -> (len: i64)
        requires
            self.spans(),
        ensures
            len == self.spec_length(),
            0 <= len <= 4 * COORD_LIMIT,
            self.x <= len && -self.x <= len,
            self.y <= len && -self.y <= len,
            self.z <= len && -self.z <= len,
    {
        let x: i128 = self.x as i128;
        let y: i128 = self.y as i128;
        let z: i128 = self.z as i128;
        proof {
            lemma_sq_range(x as int, 2 * COORD_LIMIT);
            lemma_sq_range(y as int, 2 * COORD_LIMIT);
            lemma_sq_range(z as int, 2 * COORD_LIMIT);
            assert(0x200_0000_0000int * 0x200_0000_0000int == 0x4_0000_0000_0000_0000_0000int);
        }
        let n: i128 = x * x + y * y + z * z;
        let len = isqrt(n as u128);
        proof {
            assert(0x400_0000_0001int * 0x400_0000_0001int > 0x10_0000_0000_0000_0000_0000int);
            lemma_sqrt_floor_below(n as int, 4 * COORD_LIMIT + 1);
            lemma_abs_below_sqrt(x as int, n as int);
            lemma_abs_below_sqrt(y as int, n as int);
            lemma_abs_below_sqrt(z as int, n as int);
        }
        len as i64
    }

    /// The vector scaled to length 1.0; zero for the zero vector.
    pub fn normalized(&self) -> (n: Vec3)
        requires
            self.spans(),
        ensures
            n == self.spec_normalized(),
            n.is_direction(),
    {
        let len = self.length();
        if len == 0 {
            Vec3 { x: 0, y: 0, z: 0 }
        } else {
            Vec3 { x: unit_part(self.x, len), y: unit_part(self.y, len), z: unit_part(self.z, len) }
        }
    }
}

/// `c / len` for a component `c` of a vector of length `len`.
fn unit_part(c: i64, len: i64) -> (r: i64)
    requires
        0 < len,
        -len <= c <= len,
    ensures
        r == trunc_div(c * ONE, len as int),
        -ONE <= r <= ONE,
{
    proof {
        assert(c * ONE == c * 1_000_000);
        assert(-(ONE * len) <= c * ONE <= ONE * len) by (nonlinear_arith)
            requires
                -len <= c <= len,
        ;
        lemma_trunc_div_bound(c * ONE, len as int, ONE as int);
    }
    (((c as i128) * 1_000_000) / (len as i128)) as i64
}

/// A square is not negative, and not above the square of a bound on its root.
pub proof fn lemma_sq_range(a: int, bound: int)
    by (nonlinear_arith)
    requires
        -bound <= a <= bound,
    ensures
        0 <= a * a <= bound * bound,
        sq(a) == a * a,
        sq(bound) == bound * bound,
{
}

/// No component of a vector is longer than the vector.
pub proof fn lemma_abs_below_sqrt(a: int, n: int)
    requires
        a * a <= n,
    ensures
        a <= sqrt_floor(n),
        -a <= sqrt_floor(n),
{
    if a >= 0 {
        lemma_sqrt_floor_at_least(n, a);
        assert(0 <= sqrt_floor(n));
    } else {
        assert((-a) * (-a) == a * a) by (nonlinear_arith);
        lemma_sqrt_floor_at_least(n, -a);
    }
}

/// `a + b`, counted in 32 bits and stopping at the ends of their range.
pub open spec fn spec_add_capped(a: i32, b: i32) -> i32 {
    clamp_int(a + b, i32::MIN as int, i32::MAX as int) as i32
}

#[verifier::when_used_as_spec(spec_add_capped)]
pub fn add_capped(a: i32, b: i32) -> (r: i32)
    ensures
        r == spec_add_capped(a, b),
{
    let sum: i64 = a as i64 + b as i64;
    if sum > i32::MAX as i64 {
        i32::MAX
    } else if sum < i32::MIN as i64 {
        i32::MIN
    } else {
        sum as i32
    }
}

/// The way covered in `dt` microseconds at `v` per second.
pub open spec fn spec_travel(v: int, dt: int) -> int {
    trunc_div(v * dt, SECOND as int)
}

/// The way covered in `dt` microseconds at `v` per second.
pub fn travel(v: i64, dt: u32) -> (d: i64)
    requires
        -0x4000_0000_0000 <= v <= 0x4000_0000_0000,
    ensures
        d == spec_travel(v as int, dt as int),
        -0x4000_0000_0000 * 0x1_0000 <= d <= 0x4000_0000_0000 * 0x1_0000,
{
    proof {
        lemma_mul_bound(v as int, dt as int, 0x4000_0000_0000, 0x1_0000_0000);
        assert(0x4000_0000_0000int * 0x1_0000_0000 == 0x4000_0000_0000_0000_0000int);
        lemma_trunc_div_bound(v * dt, 1_000_000, 0x4000_0000_0000int * 0x1_0000);
    }
    (((v as i128) * (dt as i128)) / 1_000_000) as i64
}

/// `v` cut to the range from `lo` to `hi`.
pub fn clamp(v: i64, lo: i64, hi: i64) -> (r: i64)
    requires
        lo <= hi,
    ensures
        r == clamp_int(v as int, lo as int, hi as int),
{
    if v < lo {
        lo
    } else if v > hi {
        hi
    } else {
        v
    }
}

/// Cuts a wide intermediate result to the range of a coordinate.
pub fn saturate(v: i128) -> (r: i64)
    ensures
        r == saturated(v as int),
        -COORD_LIMIT <= r <= COORD_LIMIT,
{
    if v < -(COORD_LIMIT as i128) {
        -COORD_LIMIT
    } else if v > COORD_LIMIT as i128 {
        COORD_LIMIT
    } else {
        v as i64
    }
}

/// Integer square root, rounded down, by bisection.
pub fn isqrt(n: u128) -> (r: u64)
    ensures
        r == sqrt_floor(n as int),
        is_sqrt_floor(n as int, r as int),
{
    let mut lo: u128 = 0;
    let mut hi: u128 = 0x1_0000_0000_0000_0000;
    assert(0x1_0000_0000_0000_0000int * 0x1_0000_0000_0000_0000int > u128::MAX);
    while hi - lo > 1
        invariant
            lo < hi <= 0x1_0000_0000_0000_0000,
            lo * lo <= n,
            n < hi * hi,
        decreases hi - lo,
    {
        let mid: u128 = lo + (hi - lo) / 2;
        proof {
            lemma_sq_monotone(mid as int, 0xffff_ffff_ffff_ffffint);
            assert(0xffff_ffff_ffff_ffffint * 0xffff_ffff_ffff_ffffint <= u128::MAX);
        }
        let square: u128 = mid * mid;
        if square <= n {
            lo = mid;
        } else {
            hi = mid;
        }
    }
    proof {
        lemma_sqrt_floor_is(n as int, lo as int);
    }
    lo as u64
}

} // verus!
