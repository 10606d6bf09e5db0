//! Fixed-point plane geometry: positions, velocities and the arena.
//!
//! Every length, position and speed is an integer number of thousandths
//! of a pixel, so one pixel is `UNITS_PER_PIXEL` units.
use vstd::prelude::*;

verus! {

/// Number of fixed-point units in one pixel (and in one unit of speed or density).
pub const UNITS_PER_PIXEL: i64 = 1000;

/// Largest magnitude a coordinate handed to this library may have.
pub const COORD_LIMIT: i64 = 1_000_000_000;

/// Number of directions a fragment ring can be split into.
pub const MAX_RING_POINTS: usize = 4;

/// Quotient of integer division rounded toward zero, as machine division computes it.
pub open spec fn quot(a: int, b: int) -> int {
    if a >= 0 {
        a / b
    } else {
        -((-a) / b)
    }
}

/// A 2D vector (position, velocity or force) in fixed-point units.
#[derive(Clone, Copy, Debug, PartialEq, Eq, Structural)]
pub struct Vec2 {
    pub x: i64,
    pub y: i64,
}

impl Vec2 {
    pub fn new(x: i64, y: i64) -> (r: Vec2)
        ensures
            r.x == x,
            r.y == y,
    {
        Vec2 { x, y }
    }
}

/// An orientation, as its cosine and sine in thousandths.
#[derive(Clone, Copy, Debug, PartialEq, Eq, Structural)]
pub struct Rotation {
    pub cos: i64,
    pub sin: i64,
}

impl Rotation {
    pub open spec fn wf(self) -> bool {
        -1000 <= self.cos <= 1000 && -1000 <= self.sin <= 1000
    }
}

/// The rectangular play area `[0, width) x [0, height)`.
#[derive(Clone, Copy, Debug, PartialEq, Eq, Structural)]
pub struct Arena {
    pub width: i64,
    pub height: i64,
}

impl Arena {
    /// Both sides are positive, at least two pixels wide, and within the coordinate bound.
    pub open spec fn wf(self) -> bool {
        2 * UNITS_PER_PIXEL <= self.width <= COORD_LIMIT && 2 * UNITS_PER_PIXEL <= self.height
            <= COORD_LIMIT
    }

    pub open spec fn contains(self, p: Vec2) -> bool {
        0 <= p.x < self.width && 0 <= p.y < self.height
    }

    pub fn new(width: i64, height: i64) -> (r: Arena)
        ensures
            r.width == width,
            r.height == height,
    {
        Arena { width, height }
    }

    /// Whether `p` lies inside the arena.
    pub fn contains_point(&self, p: Vec2) -> (r: bool)
        ensures
            r == self.contains(p),
    {
        0 <= p.x && p.x < self.width && 0 <= p.y && p.y < self.height
    }
}

/// Cosine, in thousandths, of the `i`-th of `n` equal turns around a circle.
pub open spec fn ring_cos(n: int, i: int) -> int {
    if i == 0 {
        1000
    } else if n == 2 {
        -1000
    } else if n == 3 {
        -500
    } else if i == 2 {
        -1000
    } else {
        0
    }
}

/// Sine, in thousandths, of the `i`-th of `n` equal turns around a circle.
pub open spec fn ring_sin(n: int, i: int) -> int {
    if i == 0 || n == 2 {
        0
    } else if n == 3 {
        if i == 1 {
            866
        } else {
            -866
        }
    } else if i == 1 {
        1000
    } else if i == 2 {
        0
    } else {
        -1000
    }
}

/// The direction of angle `2 * pi * i / n`, as a vector of length about 1000.
pub fn ring_direction(n: usize, i: usize) -> (r: Vec2)
    requires
        1 <= n <= MAX_RING_POINTS,
        i < n,
    ensures
        r.x == ring_cos(n as int, i as int),
        r.y == ring_sin(n as int, i as int),
{
    if i == 0 {
        Vec2 { x: 1000, y: 0 }
    } else if n == 2 {
        Vec2 { x: -1000, y: 0 }
    } else if n == 3 {
        if i == 1 {
            Vec2 { x: -500, y: 866 }
        } else {
            Vec2 { x: -500, y: -866 }
        }
    } else if i == 1 {
        Vec2 { x: 0, y: 1000 }
    } else if i == 2 {
        Vec2 { x: -1000, y: 0 }
    } else {
        Vec2 { x: 0, y: -1000 }
    }
}

/// Every ring direction has length 1000 up to rounding of the table (squared length
/// within 0.01% of 1000^2), and each step from one direction to the next turns by the
/// same angle: consecutive directions (cyclically) have equal dot products up to 50.
pub proof fn lemma_ring_is_equiangular(n: int, i: int)
    requires
        1 <= n <= MAX_RING_POINTS,
        0 <= i < n,
    ensures
        999_900 <= ring_cos(n, i) * ring_cos(n, i) + ring_sin(n, i) * ring_sin(n, i)
            <= 1_000_000,
        ({
            let j = (i + 1) % n;
            let d = ring_cos(n, i) * ring_cos(n, j) + ring_sin(n, i) * ring_sin(n, j);
            let d0 = ring_cos(n, 0) * ring_cos(n, 1int % n) + ring_sin(n, 0) * ring_sin(n, 1int % n);
            -50 <= d - d0 <= 50
        }),
{
    assert(1int % 1 == 0 && 1int % 2 == 1 && 1int % 3 == 1 && 1int % 4 == 1);
    assert(2int % 2 == 0 && 3int % 3 == 0 && 4int % 4 == 0);
    assert(2int % 3 == 2 && 2int % 4 == 2 && 3int % 4 == 3);
    if n == 1 {
        assert((i + 1) % n == 0);
    } else if n == 2 {
        if i == 0 {
            assert((i + 1) % n == 1);
        } else {
            assert((i + 1) % n == 0);
        }
    } else if n == 3 {
        if i == 0 {
            assert((i + 1) % n == 1);
        } else if i == 1 {
            assert((i + 1) % n == 2);
        } else {
            assert((i + 1) % n == 0);
        }
    } else {
        if i == 0 {
            assert((i + 1) % n == 1);
        } else if i == 1 {
            assert((i + 1) % n == 2);
        } else if i == 2 {
            assert((i + 1) % n == 3);
        } else {
            assert((i + 1) % n == 0);
        }
    }
}

/// Whether `r` is the integer square root of `n`: the largest integer whose square
/// is at most `n`.
pub open spec fn is_isqrt(n: int, r: int) -> bool {
    0 <= r && r * r <= n < (r + 1) * (r + 1)
}

/// The integer square root of `n`, found by bisection.
pub fn isqrt(n: u64) -> (r: u64)
    ensures
        is_isqrt(n as int, r as int),
{
    let mut lo: u64 = 0;
    let mut hi: u64 = 4_294_967_296;
    assert(hi * hi > u64::MAX) by (nonlinear_arith)
        requires
            hi == 4_294_967_296u64,
    ;
    while hi - lo > 1
        invariant
            lo < hi <= 4_294_967_296,
            lo * lo <= n,
            hi * hi > n,
        decreases hi - lo,
    {
        let mid = lo + (hi - lo) / 2;
        assert(mid * mid <= 4_294_967_296 * 4_294_967_296) by (nonlinear_arith)
            requires
                mid <= 4_294_967_296,
        ;
        let m = mid as u128;
        if m * m <= n as u128 {
            lo = mid;
        } else {
            hi = mid;
        }
    }
    assert(hi == lo + 1);
    lo
}

} // verus!
