//! Integer plane geometry: 2-D points, the floor square root, and the
//! Euclidean distance (rounded down) that damage resolution measures with.

use vstd::prelude::*;

verus! {

/// Coordinates handled by the distance computation stay within this bound,
/// so squared distances fit in a `u64`.
pub const COORD_LIMIT: i64 = 1_000_000_000;

/// A point (or extent) in the arena plane, in world units.
#[derive(Clone, Copy, Debug, PartialEq, Eq, Structural)]
pub struct Vec2 {
    pub x: i64,
    pub y: i64,
}

impl Vec2 {
    pub fn new(x: i64, y: i64) -> (r: Vec2)
        ensures
            r.x == x && r.y == y,
    {
        Vec2 { x, y }
    }

    pub open spec fn in_coord_range(self) -> bool {
        -COORD_LIMIT <= self.x <= COORD_LIMIT && -COORD_LIMIT <= self.y <= COORD_LIMIT
    }
}

/// The width and height of an entity's rectangle, in world units.
#[derive(Clone, Copy, Debug, PartialEq, Eq, Structural)]
pub struct EntitySize {
    pub vec: Vec2,
}

impl EntitySize {
    pub fn new(x: i64, y: i64) -> (r: EntitySize)
        ensures
            r.vec.x == x && r.vec.y == y,
    {
        EntitySize { vec: Vec2 { x, y } }
    }
}

/// The largest `r` with `r * r <= n`.
pub open spec fn sqrt_floor(n: nat) -> nat
    decreases n,
{
    if n == 0 {
        0
    } else {
        let r = sqrt_floor((n - 1) as nat);
        if (r + 1) * (r + 1) <= n {
            r + 1
        } else {
            r
        }
    }
}

/// `sqrt_floor(n)` is the unique value squeezed between the squares around `n`.
pub proof fn lemma_sqrt_floor_bounds(n: nat)
    ensures
        sqrt_floor(n) * sqrt_floor(n) <= n,
        n < (sqrt_floor(n) + 1) * (sqrt_floor(n) + 1),
    decreases n,
{
    if n == 0 {
        assert(sqrt_floor(n) == 0);
        assert(n < (sqrt_floor(n) + 1) * (sqrt_floor(n) + 1)) by (nonlinear_arith)
            requires n == 0, sqrt_floor(n) == 0;
    } else {
        lemma_sqrt_floor_bounds((n - 1) as nat);
        let r = sqrt_floor((n - 1) as nat);
        if (r + 1) * (r + 1) <= n {
            assert(sqrt_floor(n) == r + 1);
            assert(n - 1 < (r + 1) * (r + 1));
            assert(n < (r + 2) * (r + 2)) by (nonlinear_arith)
                requires n <= (r + 1) * (r + 1), r >= 0;
            assert(sqrt_floor(n) * sqrt_floor(n) <= n);
            assert(n < (sqrt_floor(n) + 1) * (sqrt_floor(n) + 1));
        } else {
            assert(sqrt_floor(n) == r);
            assert(sqrt_floor(n) * sqrt_floor(n) <= n);
            assert(n < (sqrt_floor(n) + 1) * (sqrt_floor(n) + 1));
        }
    }
}

/// Any value squeezed between the squares around `n` is `sqrt_floor(n)`.
pub proof fn lemma_sqrt_floor_unique(n: nat, r: nat)
    requires
        r * r <= n,
        n < (r + 1) * (r + 1),
    ensures
        r == sqrt_floor(n),
{
    lemma_sqrt_floor_bounds(n);
    let s = sqrt_floor(n);
    assert(r == s) by (nonlinear_arith)
        requires
            r * r <= n,
            n < (r + 1) * (r + 1),
            s * s <= n,
            n < (s + 1) * (s + 1);
}

/// Floor square root by bisection on the answer.
pub fn isqrt(n: u64) -> (r: u64)
    ensures
        r == sqrt_floor(n as nat),
{
    let mut lo: u64 = 0;
    let mut hi: u64 = 4_294_967_296;
    while lo + 1 < hi
        invariant
            0 <= lo < hi <= 4_294_967_296,
            lo * lo <= n,
            n < hi * hi,
        decreases hi - lo,
    {
        let mid: u64 = lo + (hi - lo) / 2;
        proof {
            assert(mid < hi);
            assert(mid * mid <= 18_446_744_065_119_617_025) by (nonlinear_arith)
                requires 0 <= mid <= 4_294_967_295u64;
        }
        if mid * mid <= n {
            lo = mid;
        } else {
            hi = mid;
        }
    }
    proof {
        lemma_sqrt_floor_unique(n as nat, lo as nat);
    }
    lo
}

/// A value at most `r * r` has floor square root at most `r`.
pub proof fn lemma_sqrt_floor_le(n: nat, r: nat)
    requires
        n <= r * r,
    ensures
        sqrt_floor(n) <= r,
{
    lemma_sqrt_floor_bounds(n);
    if sqrt_floor(n) > r {
        assert(sqrt_floor(n) * sqrt_floor(n) > r * r) by (nonlinear_arith)
            requires sqrt_floor(n) > r >= 0;
    }
}

/// The floor square root of a perfect square.
pub proof fn lemma_sqrt_floor_square(r: nat)
    ensures
        sqrt_floor(r * r) == r,
{
    assert(r * r < (r + 1) * (r + 1)) by (nonlinear_arith);
    lemma_sqrt_floor_unique(r * r, r);
}

/// Squared Euclidean distance between two points.
pub open spec fn dist_sq(a: Vec2, b: Vec2) -> int {
    (a.x - b.x) * (a.x - b.x) + (a.y - b.y) * (a.y - b.y)
}

/// Euclidean distance between two points, rounded down to whole units.
pub open spec fn dist(a: Vec2, b: Vec2) -> int {
    sqrt_floor(dist_sq(a, b) as nat) as int
}

/// Distance between two in-range points, exact per [`dist`].
pub fn distance(a: Vec2, b: Vec2) -> (r: i64)
    requires
        a.in_coord_range(),
        b.in_coord_range(),
    ensures
        r == dist(a, b),
        0 <= r <= 3_000_000_000,
{
    let dx: i64 = a.x - b.x;
    let dy: i64 = a.y - b.y;
    proof {
        lemma_square_bound(dx as int);
        lemma_square_bound(dy as int);
    }
    let sq: u64 = (dx * dx) as u64 + (dy * dy) as u64;
    let r = isqrt(sq);
    proof {
        lemma_sqrt_floor_bounds(sq as nat);
        assert(sqrt_floor(sq as nat) <= 3_000_000_000) by {
            if sqrt_floor(sq as nat) > 3_000_000_000 {
                assert(sqrt_floor(sq as nat) * sqrt_floor(sq as nat) > 8_000_000_000_000_000_000)
                    by (nonlinear_arith)
                    requires sqrt_floor(sq as nat) > 3_000_000_000;
            }
        }
    }
    r as i64
}

/// Squared distance between two in-range points, exact per [`dist_sq`]:
/// the exact integer form of a Euclidean range test.
pub fn distance_sq(a: Vec2, b: Vec2) -> (r: i64)
    requires
        a.in_coord_range(),
        b.in_coord_range(),
    ensures
        r == dist_sq(a, b),
        0 <= r <= 8_000_000_000_000_000_000,
{
    let dx: i64 = a.x - b.x;
    let dy: i64 = a.y - b.y;
    proof {
        lemma_square_bound(dx as int);
        lemma_square_bound(dy as int);
    }
    dx * dx + dy * dy
}

proof fn lemma_square_bound(d: int)
    requires
        -2_000_000_000 <= d <= 2_000_000_000,
    ensures
        0 <= d * d <= 4_000_000_000_000_000_000,
{
    assert(0 <= d * d <= 4_000_000_000_000_000_000) by (nonlinear_arith)
        requires -2_000_000_000 <= d <= 2_000_000_000;
}

} // verus!
