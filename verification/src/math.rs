//! Fixed-point scalars and vectors.
//!
//! Every length, position and direction component is a whole number of
//! thousandths of a world unit, so `1000` stands for `1.0`. Arithmetic on
//! these values is exact and gives the same answer on every machine.

use vstd::prelude::*;
use vstd::arithmetic::div_mod::lemma_fundamental_div_mod_converse;

verus! {

/// How many fixed-point steps make one world unit.
pub const UNIT: i64 = 1000;

/// The mathematical vector that a [`Vec3`] stands for.
pub ghost struct V3 {
    pub x: int,
    pub y: int,
    pub z: int,
}

/// A vector of three fixed-point components.
#[derive(Clone, Copy, Debug, PartialEq, Eq, Structural)]
pub struct Vec3 {
    pub x: i32,
    pub y: i32,
    pub z: i32,
}

impl View for Vec3 {
    type V = V3;

    open spec fn view(&self) -> V3 {
        V3 { x: self.x as int, y: self.y as int, z: self.z as int }
    }
}

/// The value in the `i32` range that lies nearest to `v`.
pub open spec fn clamp_i32(v: int) -> int {
    if v < i32::MIN {
        i32::MIN as int
    } else if v > i32::MAX {
        i32::MAX as int
    } else {
        v
    }
}

/// Narrows `v` to `i32`, stopping at the ends of the range.
pub fn saturate_i32(v: i64) -> (r: i32)
    ensures
        r as int == clamp_i32(v as int),
{
    if v < -2147483648 {
        -2147483648
    } else if v > 2147483647 {
        2147483647
    } else {
        v as i32
    }
}

impl Vec3 {
    /// The zero vector.
    pub fn zero() -> (r: Vec3)
        ensures
            r == (Vec3 { x: 0, y: 0, z: 0 }),
    {
        Vec3 { x: 0, y: 0, z: 0 }
    }

    /// One unit straight down: the direction of every grounding probe.
    pub fn neg_y() -> (r: Vec3)
        ensures
            r == (Vec3 { x: 0, y: -1000i32, z: 0 }),
            r@ == down(),
    {
        Vec3 { x: 0, y: -1000, z: 0 }
    }

    /// Builds a vector from its three components.
    pub fn new(x: i32, y: i32, z: i32) -> (r: Vec3)
        ensures
            r == (Vec3 { x, y, z }),
    {
        Vec3 { x, y, z }
    }
}

/// The unit vector that points straight down.
pub open spec fn down() -> V3 {
    V3 { x: 0, y: -1000, z: 0 }
}

/// The parameter at which a ray that starts `n` before a plane and advances
/// by `d` per unit of distance reaches that plane, in fixed-point steps and
/// rounded down. `d` is not zero.
pub open spec fn plane_distance(n: int, d: int) -> int {
    if d > 0 {
        (n * UNIT) / d
    } else {
        (-(n * UNIT)) / (-d)
    }
}

/// A ray reaches a plane at a negative parameter exactly when the plane
/// lies behind its origin.
pub proof fn lemma_plane_distance_sign(n: int, d: int)
    requires
        d != 0,
    ensures
        d > 0 ==> (plane_distance(n, d) < 0 <==> n < 0),
        d < 0 ==> (plane_distance(n, d) < 0 <==> n > 0),
{
    let x = if d > 0 { n * UNIT } else { -(n * UNIT) };
    let m = if d > 0 { d } else { -d };
    vstd::arithmetic::div_mod::lemma_fundamental_div_mod(x, m);
    let q = x / m;
    let r = x % m;
    assert(0 <= r < m);
    assert(q < 0 <==> x < 0) by (nonlinear_arith)
        requires
            x == m * q + r,
            0 <= r < m,
    ;
}

/// The parameter at which a ray reaches a plane is the last whole step at
/// which it has not passed it.
pub proof fn lemma_plane_distance_bounds(n: int, d: int)
    requires
        d != 0,
    ensures
        d > 0 ==> plane_distance(n, d) * d <= n * UNIT < (plane_distance(n, d) + 1) * d,
        d < 0 ==> plane_distance(n, d) * (-d) <= -(n * UNIT) < (plane_distance(n, d) + 1) * (-d),
{
    let x = if d > 0 { n * UNIT } else { -(n * UNIT) };
    let m = if d > 0 { d } else { -d };
    vstd::arithmetic::div_mod::lemma_fundamental_div_mod(x, m);
    let q = x / m;
    let r = x % m;
    assert(0 <= r < m);
    assert(q * m <= x < (q + 1) * m) by (nonlinear_arith)
        requires
            x == m * q + r,
            0 <= r < m,
    ;
}

/// Division that rounds toward negative infinity.
pub fn floor_div(n: i64, d: i64) -> (q: i64)
    requires
        d > 0,
        n > i64::MIN,
    ensures
        q as int == (n as int) / (d as int),
{
    if n >= 0 {
        n / d
    } else {
        let m: i64 = -n - 1;
        let k: i64 = m / d;
        proof {
            let r = (m as int) % (d as int);
            assert(m as int == (d as int) * (k as int) + r) by {
                vstd::arithmetic::div_mod::lemma_fundamental_div_mod(m as int, d as int);
            }
            assert(0 <= r < d);
            assert(n as int == (-(k as int) - 1) * (d as int) + (d as int - r - 1)) by (nonlinear_arith)
                requires
                    m as int == (d as int) * (k as int) + r,
                    m as int == -(n as int) - 1,
            ;
            lemma_fundamental_div_mod_converse(
                n as int,
                d as int,
                -(k as int) - 1,
                d as int - r - 1,
            );
        }
        -k - 1
    }
}

/// Computes [`plane_distance`] for operands small enough that the scaled
/// numerator fits.
pub fn scaled_quotient(n: i64, d: i32) -> (q: i64)
    requires
        d != 0,
        -0x4_0000_0000 <= n <= 0x4_0000_0000,
    ensures
        q as int == plane_distance(n as int, d as int),
{
    let wide: i64 = d as i64;
    if d > 0 {
        floor_div(n * 1000, wide)
    } else {
        floor_div(-(n * 1000), -wide)
    }
}

} // verus!
