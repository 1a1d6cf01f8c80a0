//! Fixed-point 3-vectors: exact integer sums, differences, dot and cross
//! products, and truncated-quotient unit directions.

use vstd::prelude::*;

verus! {

/// Scale of a cached unit direction: a unit vector has magnitude within
/// one of `UNIT`.
pub const UNIT: i64 = 65536;

/// Largest coordinate magnitude the polyhedron geometry works with.
pub const MAX_COORD: i64 = 0x100000000;

/// Largest operand magnitude `dot` accepts; keeps the sum of products
/// inside `i128`.
pub const MAX_DOT_OPERAND: i64 = 0x4000000000000000;

/// Largest operand magnitude `add` and `sub` accept; keeps each
/// component inside `i64`.
pub const MAX_ADD_OPERAND: i64 = 0x3fffffffffffffff;

/// Largest operand magnitude `cross` accepts; keeps each component
/// inside `i64`.
pub const MAX_CROSS_OPERAND: i64 = 0x40000000;

/// Largest plane-direction magnitude the signed-distance test accepts:
/// the cross product of two unit directions stays within `2·UNIT²`.
pub const MAX_PLANE_DIR: i64 = 0x200000000;

/// Whether `x` lies within `±b`.
pub open spec fn in_range(x: int, b: int) -> bool {
    -b <= x <= b
}

/// `x` with its sign dropped.
pub open spec fn abs1(x: int) -> int {
    if x < 0 { -x } else { x }
}

/// Whether `r` is the integer square root of `n`: the largest integer
/// whose square does not exceed `n`.
pub open spec fn is_isqrt(n: int, r: int) -> bool {
    &&& 0 <= r
    &&& r * r <= n
    &&& n < (r + 1) * (r + 1)
}

/// The integer square root of `n`.
pub open spec fn isqrt(n: int) -> int {
    choose|r: int| is_isqrt(n, r)
}

/// Two integer square roots of the same number are the same root.
pub proof fn lemma_isqrt_unique(n: int, r1: int, r2: int)
    requires
        is_isqrt(n, r1),
        is_isqrt(n, r2),
    ensures
        r1 == r2,
{
    assert(r1 <= r2 && r2 <= r1) by (nonlinear_arith)
        requires
            0 <= r1,
            0 <= r2,
            r1 * r1 <= n,
            n < (r1 + 1) * (r1 + 1),
            r2 * r2 <= n,
            n < (r2 + 1) * (r2 + 1),
    ;
}

/// A witness pins `isqrt` down.
pub proof fn lemma_isqrt_eq(n: int, r: int)
    requires
        is_isqrt(n, r),
    ensures
        isqrt(n) == r,
{
    assert(is_isqrt(n, isqrt(n))) by {
        assert(exists|q: int| is_isqrt(n, q));
    }
    lemma_isqrt_unique(n, isqrt(n), r);
}

/// The integer square root, by bisection.
pub fn isqrt_u128(n: u128) -> (r: u128)
    ensures
        is_isqrt(n as int, r as int),
        r == isqrt(n as int),
        r <= 0xffffffffffffffff,
{
    let mut lo: u128 = 0;
    let mut hi: u128 = 0xffffffffffffffff;
    if n < hi {
        hi = n;
    }
    proof {
        assert(n < (hi + 1) * (hi + 1)) by (nonlinear_arith)
            requires
                hi == if n < 0xffffffffffffffff { n as int } else { 0xffffffffffffffff as int },
                0 <= n <= 0xffffffffffffffffffffffffffffffff,
        ;
    }
    while lo < hi
        invariant
            0 <= lo <= hi <= 0xffffffffffffffff,
            lo * lo <= n,
            n < (hi + 1) * (hi + 1),
        decreases hi - lo,
    {
        let mid = lo + (hi - lo + 1) / 2;
        proof {
            assert(lo < mid <= hi);
            assert(mid * mid <= 0xffffffffffffffffffffffffffffffff) by (nonlinear_arith)
                requires
                    0 <= mid <= 0xffffffffffffffff,
            ;
        }
        if mid * mid <= n {
            lo = mid;
        } else {
            hi = mid - 1;
        }
    }
    proof {
        lemma_isqrt_eq(n as int, lo as int);
    }
    lo
}

/// A fixed-point 3-vector.
#[derive(Clone, Copy, PartialEq, Eq, Structural, Debug)]
pub struct Vector3d {
    pub x: i64,
    pub y: i64,
    pub z: i64,
}

/// The vector with the given components, narrowed to the coordinate
/// type.
pub open spec fn vec3(x: int, y: int, z: int) -> Vector3d {
    Vector3d { x: x as i64, y: y as i64, z: z as i64 }
}

/// The cross product as a vector, exact while its components stay in
/// the coordinate range.
pub open spec fn cross_vec(a: Vector3d, b: Vector3d) -> Vector3d {
    vec3(
        a.y * b.z - a.z * b.y,
        a.z * b.x - a.x * b.z,
        a.x * b.y - a.y * b.x,
    )
}

/// The componentwise negation.
pub open spec fn neg_vec(a: Vector3d) -> Vector3d {
    vec3(-(a.x as int), -(a.y as int), -(a.z as int))
}

/// The dot product, exactly.
pub open spec fn dot_spec(a: Vector3d, b: Vector3d) -> int {
    a.x * b.x + a.y * b.y + a.z * b.z
}

/// The squared magnitude, exactly.
pub open spec fn mag_sq_spec(a: Vector3d) -> int {
    dot_spec(a, a)
}

/// One component of the unit direction of a delta whose magnitude's
/// integer square root is `mag`: scaled by `UNIT`, quotient truncated
/// toward zero.
pub open spec fn scaled_unit(c: int, mag: int) -> int {
    let q = abs1(c) * UNIT / mag;
    if c < 0 { -q } else { q }
}

/// The unit direction of `d`, for a non-zero `d`: each component scaled
/// by `UNIT` and divided by the magnitude's integer square root.
pub open spec fn dir_spec(d: Vector3d) -> Vector3d {
    let m = isqrt(mag_sq_spec(d));
    Vector3d {
        x: scaled_unit(d.x as int, m) as i64,
        y: scaled_unit(d.y as int, m) as i64,
        z: scaled_unit(d.z as int, m) as i64,
    }
}

impl Vector3d {
    /// Whether every component lies within `±b`.
    pub open spec fn bounded(self, b: int) -> bool {
        &&& in_range(self.x as int, b)
        &&& in_range(self.y as int, b)
        &&& in_range(self.z as int, b)
    }

    pub fn new(x: i64, y: i64, z: i64) -> (r: Self)
        ensures
            r == (Vector3d { x, y, z }),
    {
        Vector3d { x, y, z }
    }

    /// The zero vector.
    pub fn zero() -> (r: Self)
        ensures
            r == (Vector3d { x: 0, y: 0, z: 0 }),
    {
        Vector3d { x: 0, y: 0, z: 0 }
    }

    /// Component-wise sum, exactly.
    pub fn add(&self, other: &Vector3d) -> (r: Vector3d)
        requires
            self.bounded(MAX_ADD_OPERAND as int),
            other.bounded(MAX_ADD_OPERAND as int),
        ensures
            r.x == self.x + other.x,
            r.y == self.y + other.y,
            r.z == self.z + other.z,
    {
        Vector3d { x: self.x + other.x, y: self.y + other.y, z: self.z + other.z }
    }

    /// Component-wise difference, exactly.
    pub fn sub(&self, other: &Vector3d) -> (r: Vector3d)
        requires
            self.bounded(MAX_ADD_OPERAND as int),
            other.bounded(MAX_ADD_OPERAND as int),
        ensures
            r.x == self.x - other.x,
            r.y == self.y - other.y,
            r.z == self.z - other.z,
    {
        Vector3d { x: self.x - other.x, y: self.y - other.y, z: self.z - other.z }
    }

    /// The dot product, exactly.
    pub fn dot(&self, other: &Vector3d) -> (r: i128)
        requires
            self.bounded(MAX_DOT_OPERAND as int),
            other.bounded(MAX_DOT_OPERAND as int),
        ensures
            r == dot_spec(*self, *other),
    {
        proof {
            lemma_mul_in_range(self.x as int, other.x as int, MAX_DOT_OPERAND as int);
            lemma_mul_in_range(self.y as int, other.y as int, MAX_DOT_OPERAND as int);
            lemma_mul_in_range(self.z as int, other.z as int, MAX_DOT_OPERAND as int);
        }
        (self.x as i128) * (other.x as i128)
            + (self.y as i128) * (other.y as i128)
            + (self.z as i128) * (other.z as i128)
    }

    /// The cross product, exactly.
    pub fn cross(&self, other: &Vector3d) -> (r: Vector3d)
        requires
            self.bounded(MAX_CROSS_OPERAND as int),
            other.bounded(MAX_CROSS_OPERAND as int),
        ensures
            r.x == self.y * other.z - self.z * other.y,
            r.y == self.z * other.x - self.x * other.z,
            r.z == self.x * other.y - self.y * other.x,
            r == cross_vec(*self, *other),
            r.bounded(2 * MAX_CROSS_OPERAND * MAX_CROSS_OPERAND),
    {
        proof {
            lemma_mul_in_range(self.y as int, other.z as int, MAX_CROSS_OPERAND as int);
            lemma_mul_in_range(self.z as int, other.y as int, MAX_CROSS_OPERAND as int);
            lemma_mul_in_range(self.z as int, other.x as int, MAX_CROSS_OPERAND as int);
            lemma_mul_in_range(self.x as int, other.z as int, MAX_CROSS_OPERAND as int);
            lemma_mul_in_range(self.x as int, other.y as int, MAX_CROSS_OPERAND as int);
            lemma_mul_in_range(self.y as int, other.x as int, MAX_CROSS_OPERAND as int);
        }
        let xx = (self.y as i128) * (other.z as i128) - (self.z as i128) * (other.y as i128);
        let yy = (self.z as i128) * (other.x as i128) - (self.x as i128) * (other.z as i128);
        let zz = (self.x as i128) * (other.y as i128) - (self.y as i128) * (other.x as i128);
        Vector3d { x: xx as i64, y: yy as i64, z: zz as i64 }
    }

    /// Whether this is the zero vector.
    pub fn is_zero(&self) -> (r: bool)
        ensures
            r == (self.x == 0 && self.y == 0 && self.z == 0),
    {
        self.x == 0 && self.y == 0 && self.z == 0
    }

    /// The unit direction, or `None` for the zero vector. Components of
    /// the result lie within `±UNIT`.
    pub fn dir(&self) -> (r: Option<Vector3d>)
        requires
            self.bounded(2 * MAX_COORD as int),
        ensures
            match r {
                Some(v) => {
                    &&& mag_sq_spec(*self) > 0
                    &&& v == dir_spec(*self)
                    &&& v.bounded(UNIT as int)
                },
                None => mag_sq_spec(*self) == 0 && *self == (Vector3d { x: 0, y: 0, z: 0 }),
            },
    {
        if self.x == 0 && self.y == 0 && self.z == 0 {
            proof {
                assert(mag_sq_spec(*self) == 0) by (nonlinear_arith)
                    requires
                        self.x == 0,
                        self.y == 0,
                        self.z == 0,
                ;
            }
            return None;
        }
        let ax = abs_i64(self.x);
        let ay = abs_i64(self.y);
        let az = abs_i64(self.z);
        proof {
            assert(ax * ax == self.x * self.x && ay * ay == self.y * self.y
                && az * az == self.z * self.z) by (nonlinear_arith)
                requires
                    ax == abs1(self.x as int),
                    ay == abs1(self.y as int),
                    az == abs1(self.z as int),
            ;
            assert(ax * ax + ay * ay + az * az <= 0xffffffffffffffffffffffffffffffff
                && mag_sq_spec(*self) > 0) by (nonlinear_arith)
                requires
                    0 <= ax <= 2 * MAX_COORD,
                    0 <= ay <= 2 * MAX_COORD,
                    0 <= az <= 2 * MAX_COORD,
                    ax * ax == self.x * self.x,
                    ay * ay == self.y * self.y,
                    az * az == self.z * self.z,
                    !(ax == 0 && ay == 0 && az == 0),
            ;
        }
        let mag_sq: u128 = (ax as u128) * (ax as u128) + (ay as u128) * (ay as u128)
            + (az as u128) * (az as u128);
        let mag = isqrt_u128(mag_sq);
        proof {
            assert(mag_sq == mag_sq_spec(*self));
            assert(0 < mag && ax <= mag && ay <= mag && az <= mag) by (nonlinear_arith)
                requires
                    is_isqrt(mag_sq as int, mag as int),
                    mag_sq == ax * ax + ay * ay + az * az,
                    mag_sq > 0,
                    0 <= ax,
                    0 <= ay,
                    0 <= az,
            ;
        }
        let sx = Self::scaled_unit_exec(self.x, ax, mag);
        let sy = Self::scaled_unit_exec(self.y, ay, mag);
        let sz = Self::scaled_unit_exec(self.z, az, mag);
        let v = Vector3d { x: sx, y: sy, z: sz };
        proof {
            assert(mag as int == isqrt(mag_sq_spec(*self)));
            assert(v == dir_spec(*self));
        }
        Some(v)
    }

    /// One component of the unit direction: `|c| · UNIT / mag`, the sign
    /// of `c` reapplied.
    fn scaled_unit_exec(c: i64, a: u64, mag: u128) -> (r: i64)
        requires
            a == abs1(c as int),
            0 < mag <= 0xffffffffffffffff,
            a <= mag,
        ensures
            r == scaled_unit(c as int, mag as int),
            in_range(r as int, UNIT as int),
    {
        proof {
            assert((a as int) * (UNIT as int) <= mag * UNIT
                && mag * UNIT <= 0xffffffffffffffffffffffffffffffff) by (nonlinear_arith)
                requires
                    a <= mag,
                    0 < mag <= 0xffffffffffffffff,
            ;
            vstd::arithmetic::div_mod::lemma_multiply_divide_le(
                a as int * UNIT as int,
                mag as int,
                UNIT as int,
            );
        }
        let q = (a as u128) * (UNIT as u128) / mag;
        if c < 0 {
            -(q as i64)
        } else {
            q as i64
        }
    }
}

/// `|c|`, for any `c` above `i64::MIN`.
fn abs_i64(c: i64) -> (r: u64)
    requires
        c != i64::MIN,
    ensures
        r == abs1(c as int),
{
    if c < 0 {
        (-c) as u64
    } else {
        c as u64
    }
}

/// Bounded factors give a bounded product: `|a| ≤ ma` and `|b| ≤ mb`
/// force `|a·b| ≤ ma·mb`.
pub proof fn lemma_mul_bounds(a: int, b: int, ma: int, mb: int)
    requires
        in_range(a, ma),
        in_range(b, mb),
        0 <= ma,
        0 <= mb,
    ensures
        in_range(a * b, ma * mb),
{
    assert(in_range(a * b, ma * mb)) by (nonlinear_arith)
        requires
            -ma <= a <= ma,
            -mb <= b <= mb,
            0 <= ma,
            0 <= mb,
    ;
}

/// Bounded factors give a bounded product: `|a|,|b| ≤ m` forces
/// `|a·b| ≤ m²`.
pub proof fn lemma_mul_in_range(a: int, b: int, m: int)
    requires
        in_range(a, m),
        in_range(b, m),
        0 <= m,
    ensures
        in_range(a * b, m * m),
{
    lemma_mul_bounds(a, b, m, m);
}

/// A cross product of vectors bounded by `m` has components bounded by
/// `2·m²`.
pub proof fn lemma_cross_vec_bound(a: Vector3d, b: Vector3d, m: int)
    requires
        a.bounded(m),
        b.bounded(m),
        0 <= m,
    ensures
        in_range(a.y * b.z - a.z * b.y, 2 * (m * m)),
        in_range(a.z * b.x - a.x * b.z, 2 * (m * m)),
        in_range(a.x * b.y - a.y * b.x, 2 * (m * m)),
{
    lemma_mul_bounds(a.y as int, b.z as int, m, m);
    lemma_mul_bounds(a.z as int, b.y as int, m, m);
    lemma_mul_bounds(a.z as int, b.x as int, m, m);
    lemma_mul_bounds(a.x as int, b.z as int, m, m);
    lemma_mul_bounds(a.x as int, b.y as int, m, m);
    lemma_mul_bounds(a.y as int, b.x as int, m, m);
}


} // verus!
