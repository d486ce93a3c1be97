use vstd::prelude::*;

verus! {

/// The fixed-point representation of the number one.
pub const ONE: i64 = 4294967296;

/// The largest magnitude of a scalar on which the generators work: the sum or
/// difference of two such scalars still fits an `i64`.
pub const LIMIT: i64 = 4611686018427387903;

/// Whether a scalar lies within [`LIMIT`] of zero.
pub open spec fn bounded(v: i64) -> bool {
    -LIMIT <= v <= LIMIT
}

/// A position, by its three fixed-point coordinates.
#[derive(Clone, Copy, Debug, PartialEq, Eq, Structural)]
pub struct Point {
    pub x: i64,
    pub y: i64,
    pub z: i64,
}

/// A displacement or a direction, by its three fixed-point components.
#[derive(Clone, Copy, Debug, PartialEq, Eq, Structural)]
pub struct Vector {
    pub x: i64,
    pub y: i64,
    pub z: i64,
}

/// The square of an `i64`, which always fits a `u128`.
pub fn square(v: i64) -> (r: u128)
    ensures
        r == v * v,
        r <= 0x4000_0000_0000_0000_0000_0000_0000_0000u128,
{
    let w: i128 = v as i128;
    assert(0 <= w * w <= 0x4000_0000_0000_0000_0000_0000_0000_0000) by (nonlinear_arith)
        requires
            -0x8000_0000_0000_0000 <= w <= 0x7fff_ffff_ffff_ffff,
    ;
    let s: i128 = w * w;
    s as u128
}

impl Point {
    /// The squared distance of the point from the origin, in squared units.
    pub open spec fn sq_len(self) -> int {
        self.x * self.x + self.y * self.y + self.z * self.z
    }

    /// Whether each coordinate lies within [`LIMIT`] of zero.
    pub open spec fn bounded(self) -> bool {
        bounded(self.x) && bounded(self.y) && bounded(self.z)
    }

    pub fn new(x: i64, y: i64, z: i64) -> (p: Point)
        ensures
            p == (Point { x, y, z }),
    {
        Point { x, y, z }
    }

    pub fn origin() -> (p: Point)
        ensures
            p == (Point { x: 0, y: 0, z: 0 }),
    {
        Point { x: 0, y: 0, z: 0 }
    }

    pub fn norm_squared(&self) -> (r: u128)
        ensures
            r == self.sq_len(),
    {
        square(self.x) + square(self.y) + square(self.z)
    }
}

impl Vector {
    /// Whether each component lies within [`LIMIT`] of zero.
    pub open spec fn bounded(self) -> bool {
        bounded(self.x) && bounded(self.y) && bounded(self.z)
    }

    /// The opposite vector.
    pub open spec fn opposite(self) -> Vector
        recommends
            self.bounded(),
    {
        Vector { x: (-self.x) as i64, y: (-self.y) as i64, z: (-self.z) as i64 }
    }

    pub fn new(x: i64, y: i64, z: i64) -> (v: Vector)
        ensures
            v == (Vector { x, y, z }),
    {
        Vector { x, y, z }
    }

    pub fn negated(&self) -> (v: Vector)
        requires
            self.bounded(),
        ensures
            v == self.opposite(),
            v.bounded(),
            v.x == -self.x,
            v.y == -self.y,
            v.z == -self.z,
    {
        Vector { x: -self.x, y: -self.y, z: -self.z }
    }
}


/// The product of a direction component `n` and a length `r`, in fixed point:
/// `n * r / ONE`, rounded towards zero.
pub open spec fn scaled(n: i64, r: i64) -> int {
    if n * r >= 0 {
        (n * r) / (ONE as int)
    } else {
        -((-(n * r)) / (ONE as int))
    }
}

pub fn scale(n: i64, r: i64) -> (s: i64)
    requires
        -ONE <= n <= ONE,
        bounded(r),
    ensures
        s == scaled(n, r),
        bounded(s),
{
    let a: i128 = n as i128;
    let b: i128 = r as i128;
    assert(-(ONE * LIMIT) <= a * b <= ONE * LIMIT) by (nonlinear_arith)
        requires
            -ONE <= a <= ONE,
            -LIMIT <= b <= LIMIT,
    ;
    let p: i128 = a * b;
    if p >= 0 {
        let q: i128 = p / (ONE as i128);
        assert(q <= LIMIT) by (nonlinear_arith)
            requires
                q == (p as int) / (ONE as int),
                0 <= p <= ONE * LIMIT,
        ;
        q as i64
    } else {
        let m: i128 = -p;
        let q: i128 = m / (ONE as i128);
        assert(q <= LIMIT) by (nonlinear_arith)
            requires
                q == (m as int) / (ONE as int),
                0 <= m <= ONE * LIMIT,
        ;
        (-q) as i64
    }
}

/// Whether each component of `v` lies between minus one and one.
pub open spec fn is_direction(v: Vector) -> bool {
    &&& -ONE <= v.x <= ONE
    &&& -ONE <= v.y <= ONE
    &&& -ONE <= v.z <= ONE
}

/// A length scaled by a direction component is no longer than the length.
pub proof fn scaled_is_bounded(n: i64, r: i64)
    requires
        -ONE <= n <= ONE,
        bounded(r),
    ensures
        -LIMIT <= scaled(n, r) <= LIMIT,
{
    let p: int = n * r;
    let one: int = ONE as int;
    let lim: int = LIMIT as int;
    assert(-(one * lim) <= p <= one * lim) by (nonlinear_arith)
        requires
            p == n * r,
            -one <= n <= one,
            -lim <= r <= lim,
            one > 0,
            lim > 0,
    ;
    if p >= 0 {
        assert(p / one <= lim && p / one >= 0) by (nonlinear_arith)
            requires
                0 <= p <= one * lim,
                one > 0,
        ;
    } else {
        assert((-p) / one <= lim && (-p) / one >= 0) by (nonlinear_arith)
            requires
                0 <= -p <= one * lim,
                one > 0,
        ;
    }
}

} // verus!
