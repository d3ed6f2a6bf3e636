//! Fixed-point world geometry.
//!
//! Positions are integer millimetres (one world unit is 1000 mm). Directions are unit
//! vectors stored in thousandths, so a direction scaled by `k` world units is, in
//! millimetres, just the direction's components times `k`.
use vstd::prelude::*;

verus! {

/// A point or offset in world space, in millimetres.
#[derive(Clone, Copy, Debug, PartialEq, Eq, Structural)]
pub struct Vec3i {
    pub x: i32,
    pub y: i32,
    pub z: i32,
}

/// A unit direction with components in thousandths.
#[derive(Clone, Copy, Debug, PartialEq, Eq, Structural)]
pub struct Dir3i {
    pub x: i32,
    pub y: i32,
    pub z: i32,
}

/// An exact integer vector, used in specifications.
pub type V3 = (int, int, int);

pub open spec fn dot(a: V3, b: V3) -> int {
    a.0 * b.0 + a.1 * b.1 + a.2 * b.2
}

pub open spec fn norm_sq(a: V3) -> int {
    dot(a, a)
}

pub open spec fn diff(a: V3, b: V3) -> V3 {
    (a.0 - b.0, a.1 - b.1, a.2 - b.2)
}

/// Whether the angle between two vectors whose dot product is `d` and whose squared
/// lengths are `a_sq` and `b_sq` has a cosine strictly above `num / den`
/// (for `0 < num < den`): `d > (num / den) * |a| * |b|`, squared out so that it is exact.
pub open spec fn cos_above(d: int, a_sq: int, b_sq: int, num: int, den: int) -> bool {
    d > 0 && den * den * d * d > num * num * a_sq * b_sq
}

impl Vec3i {
    pub open spec fn v(self) -> V3 {
        (self.x as int, self.y as int, self.z as int)
    }

    pub fn new(x: i32, y: i32, z: i32) -> (r: Vec3i)
        ensures
            r == (Vec3i { x, y, z }),
    {
        Vec3i { x, y, z }
    }
}

impl Dir3i {
    /// Every component of a unit vector lies in [-1, 1].
    pub open spec fn wf(self) -> bool {
        -1000 <= self.x <= 1000 && -1000 <= self.y <= 1000 && -1000 <= self.z <= 1000
    }

    pub open spec fn v(self) -> V3 {
        (self.x as int, self.y as int, self.z as int)
    }

    pub fn new(x: i32, y: i32, z: i32) -> (r: Dir3i)
        requires
            -1000 <= x <= 1000,
            -1000 <= y <= 1000,
            -1000 <= z <= 1000,
        ensures
            r == (Dir3i { x, y, z }),
            r.wf(),
    {
        Dir3i { x, y, z }
    }
}

/// Squared distance between two points, in square millimetres.
pub open spec fn dist_sq(a: Vec3i, b: Vec3i) -> int {
    norm_sq(diff(a.v(), b.v()))
}

pub(crate) proof fn lemma_square_bound(a: int, m: int)
    requires
        -m <= a <= m,
    ensures
        0 <= a * a <= m * m,
{
    assert(0 <= a * a <= m * m) by (nonlinear_arith)
        requires
            -m <= a <= m,
    ;
}

pub(crate) proof fn lemma_mul_bound(a: int, b: int, ma: int, mb: int)
    requires
        -ma <= a <= ma,
        -mb <= b <= mb,
    ensures
        -(ma * mb) <= a * b <= ma * mb,
{
    assert(-(ma * mb) <= a * b <= ma * mb) by (nonlinear_arith)
        requires
            -ma <= a <= ma,
            -mb <= b <= mb,
    ;
}

/// Squared distance between two points; exact, since coordinates are 32-bit.
pub fn distance_squared(a: Vec3i, b: Vec3i) -> (r: i128)
    ensures
        r == dist_sq(a, b),
{
    let dx: i128 = a.x as i128 - b.x as i128;
    let dy: i128 = a.y as i128 - b.y as i128;
    let dz: i128 = a.z as i128 - b.z as i128;
    proof {
        lemma_square_bound(dx as int, 0x1_0000_0000);
        lemma_square_bound(dy as int, 0x1_0000_0000);
        lemma_square_bound(dz as int, 0x1_0000_0000);
    }
    dx * dx + dy * dy + dz * dz
}

/// Decides `cos_above(d, a_sq, b_sq, num, den)`, for values small enough to square
/// exactly in 128 bits.
pub fn exceeds_cos(d: i128, a_sq: i128, b_sq: i128, num: i128, den: i128) -> (r: bool)
    requires
        -0x80_0000_0000_0000 < d < 0x80_0000_0000_0000,
        0 <= a_sq,
        0 <= b_sq,
        a_sq * b_sq < 0x4000_0000_0000_0000_0000_0000_0000,
        0 < num <= den <= 100,
    ensures
        r == cos_above(d as int, a_sq as int, b_sq as int, num as int, den as int),
{
    if d <= 0 {
        return false;
    }
    let ab: i128 = a_sq * b_sq;
    proof {
        assert(0 < d * d < 0x4000_0000_0000_0000_0000_0000_0000) by (nonlinear_arith)
            requires
                0 < d < 0x80_0000_0000_0000,
        ;
        assert(0 < den * den <= 10000 && 0 < num * num <= 10000) by (nonlinear_arith)
            requires
                0 < num <= den <= 100,
        ;
    }
    let d2: i128 = d * d;
    let den2: i128 = den * den;
    let num2: i128 = num * num;
    proof {
        assert(0 <= den2 * d2 <= 10000 * 0x4000_0000_0000_0000_0000_0000_0000) by (nonlinear_arith)
            requires
                0 < den2 <= 10000,
                0 < d2 < 0x4000_0000_0000_0000_0000_0000_0000,
        ;
        assert(0 <= num2 * ab <= 10000 * 0x4000_0000_0000_0000_0000_0000_0000) by (nonlinear_arith)
            requires
                0 < num2 <= 10000,
                0 <= ab < 0x4000_0000_0000_0000_0000_0000_0000,
        ;
        assert(den2 * d2 == den * den * d * d) by (nonlinear_arith)
            requires
                den2 == den * den,
                d2 == d * d,
        ;
        assert(num2 * ab == num * num * a_sq * b_sq) by (nonlinear_arith)
            requires
                num2 == num * num,
                ab == a_sq * b_sq,
        ;
    }
    den2 * d2 > num2 * ab
}

} // verus!
