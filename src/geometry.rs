//! Integer plane geometry.
//!
//! Positions are in thousandths of a pixel, velocities in thousandths of a
//! pixel per second, durations in microseconds. The world is the square of
//! half-side `COORD_LIMIT` around the origin.

use vstd::prelude::*;

verus! {

/// Half the side of the world square.
pub const COORD_LIMIT: i64 = 0x100_0000_0000;

/// The largest length a scaled vector may be given.
pub const MAX_MAGNITUDE: i64 = 0x100_0000_0000;

/// A point or a vector.
#[derive(Clone, Copy, Debug, PartialEq, Eq, Structural)]
pub struct Vec2 {
    pub x: i64,
    pub y: i64,
}

/// `v` lies in the world square.
pub open spec fn in_world(v: Vec2) -> bool {
    -COORD_LIMIT <= v.x <= COORD_LIMIT && -COORD_LIMIT <= v.y <= COORD_LIMIT
}

/// `v` is no longer than `MAX_MAGNITUDE` along either axis.
pub open spec fn bounded(v: Vec2) -> bool {
    -MAX_MAGNITUDE <= v.x <= MAX_MAGNITUDE && -MAX_MAGNITUDE <= v.y <= MAX_MAGNITUDE
}

/// The squared distance between two points.
pub open spec fn dist_sq_spec(a: Vec2, b: Vec2) -> int {
    (a.x - b.x) * (a.x - b.x) + (a.y - b.y) * (a.y - b.y)
}

/// `r` is the integer square root of `n`.
pub open spec fn is_isqrt(n: int, r: int) -> bool {
    0 <= r && r * r <= n < (r + 1) * (r + 1)
}

pub open spec fn abs(x: int) -> int {
    if x < 0 {
        -x
    } else {
        x
    }
}

/// `c * len / m`, rounded toward zero.
pub open spec fn scaled(c: int, len: int, m: int) -> int {
    if c < 0 {
        -((-c) * len / m)
    } else {
        c * len / m
    }
}

/// The vector from the origin along `v` of length `len`, each coordinate
/// rounded toward zero, given the integer length `m` of `v`; the zero
/// vector stays zero.
pub open spec fn scale_spec(v: Vec2, len: int, m: int) -> Vec2 {
    if v.x == 0 && v.y == 0 {
        Vec2 { x: 0, y: 0 }
    } else {
        Vec2 { x: scaled(v.x as int, len, m) as i64, y: scaled(v.y as int, len, m) as i64 }
    }
}

/// The vector between two world points.
pub open spec fn sub_spec(a: Vec2, b: Vec2) -> Vec2 {
    Vec2 { x: (a.x - b.x) as i64, y: (a.y - b.y) as i64 }
}

/// The integer square root of the squared length of `v`.
pub open spec fn length_spec(v: Vec2) -> int {
    choose|r: int| #[trigger] is_isqrt(v.x * v.x + v.y * v.y, r)
}

/// A step of length `len` from `from` toward `to`; zero where they coincide.
pub open spec fn toward_spec(from: Vec2, to: Vec2, len: int) -> Vec2 {
    let d = sub_spec(to, from);
    scale_spec(d, len, length_spec(d))
}

/// Clamps a coordinate into the world.
pub open spec fn clamp_coord(v: int) -> int {
    if v < -COORD_LIMIT {
        -COORD_LIMIT as int
    } else if v > COORD_LIMIT {
        COORD_LIMIT as int
    } else {
        v
    }
}

/// The squared distance between two world points.
pub fn dist_sq(a: Vec2, b: Vec2) -> (r: u128)
    requires
        in_world(a),
        in_world(b),
    ensures
        r == dist_sq_spec(a, b),
{
    let dx = (a.x - b.x) as i128;
    let dy = (a.y - b.y) as i128;
    assert(dx * dx <= 0x10_0000_0000_0000_0000_0000) by (nonlinear_arith)
        requires
            -0x200_0000_0000 <= dx <= 0x200_0000_0000,
    ;
    assert(dy * dy <= 0x10_0000_0000_0000_0000_0000) by (nonlinear_arith)
        requires
            -0x200_0000_0000 <= dy <= 0x200_0000_0000,
    ;
    assert(dx * dx >= 0 && dy * dy >= 0) by (nonlinear_arith);
    (dx * dx + dy * dy) as u128
}

/// The integer square root, by bisection.
pub fn isqrt(n: u128) -> (r: u64)
    ensures
        is_isqrt(n as int, r as int),
{
    let mut lo: u128 = 0;
    let mut hi: u128 = 0x1_0000_0000_0000_0000;
    assert(n < hi * hi) by (nonlinear_arith)
        requires
            hi == 0x1_0000_0000_0000_0000u128,
            n <= u128::MAX,
    ;
    while hi - lo > 1
        invariant
            lo < hi <= 0x1_0000_0000_0000_0000,
            lo * lo <= n,
            n < hi * hi,
        decreases hi - lo,
    {
        let mid = lo + (hi - lo) / 2;
        assert(mid * mid <= 0xFFFF_FFFF_FFFF_FFFF * 0xFFFF_FFFF_FFFF_FFFFu128) by (nonlinear_arith)
            requires
                mid < 0x1_0000_0000_0000_0000,
        ;
        if mid * mid <= n {
            lo = mid;
        } else {
            hi = mid;
        }
    }
    assert(hi == lo + 1);
    lo as u64
}

proof fn lemma_isqrt_covers(c: int, d: int, m: int)
    requires
        is_isqrt(c * c + d * d, m),
    ensures
        abs(c) <= m,
{
    if abs(c) > m {
        assert(abs(c) * abs(c) >= (m + 1) * (m + 1)) by (nonlinear_arith)
            requires
                abs(c) >= m + 1,
                m >= 0,
        ;
        assert(abs(c) * abs(c) == c * c) by (nonlinear_arith)
            requires
                abs(c) == c || abs(c) == -c,
        ;
        assert(d * d >= 0) by (nonlinear_arith);
    }
}

proof fn lemma_scaled_bound(c: int, len: int, m: int)
    requires
        abs(c) <= m,
        0 < m,
        0 <= len,
    ensures
        abs(scaled(c, len, m)) <= len,
{
    let a = abs(c);
    assert(a * len <= m * len) by (nonlinear_arith)
        requires
            a <= m,
            0 <= len,
    ;
    assert(a * len / m <= len) by (nonlinear_arith)
        requires
            a * len <= m * len,
            0 < m,
    ;
    assert(a * len / m >= 0) by (nonlinear_arith)
        requires
            a >= 0,
            len >= 0,
            m > 0,
    ;
}

fn scale_coord(c: i64, len: i64, m: u64) -> (r: i64)
    requires
        abs(c as int) <= m,
        0 < m,
        0 <= len <= MAX_MAGNITUDE,
        -0x200_0000_0000 <= c <= 0x200_0000_0000,
    ensures
        r == scaled(c as int, len as int, m as int),
        -len <= r <= len,
{
    proof {
        lemma_scaled_bound(c as int, len as int, m as int);
    }
    let a: u128 = if c < 0 {
        (-(c as i128)) as u128
    } else {
        c as u128
    };
    assert(a * (len as u128) <= 0x200_0000_0000 * 0x100_0000_0000) by (nonlinear_arith)
        requires
            a <= 0x200_0000_0000,
            0 <= len <= 0x100_0000_0000,
    ;
    let q = a * (len as u128) / (m as u128);
    if c < 0 {
        -(q as i64)
    } else {
        q as i64
    }
}

/// The vector between two world points.
pub fn offset(a: Vec2, b: Vec2) -> (r: Vec2)
    requires
        in_world(a),
        in_world(b),
    ensures
        r == sub_spec(a, b),
{
    Vec2 { x: a.x - b.x, y: a.y - b.y }
}

/// A step of length `len` from `from` toward `to`, each coordinate rounded
/// toward zero; the zero vector where the points coincide.
pub fn toward(from: Vec2, to: Vec2, len: i64) -> (r: Vec2)
    requires
        in_world(from),
        in_world(to),
        0 <= len <= MAX_MAGNITUDE,
    ensures
        r == toward_spec(from, to, len as int),
        -len <= r.x <= len,
        -len <= r.y <= len,
{
    let d = offset(to, from);
    let n = dist_sq(to, from);
    let m = isqrt(n);
    proof {
        assert(n == d.x * d.x + d.y * d.y);
        assert(is_isqrt(d.x * d.x + d.y * d.y, length_spec(d)));
        lemma_isqrt_unique(d.x * d.x + d.y * d.y, m as int, length_spec(d));
    }
    if d.x == 0 && d.y == 0 {
        return Vec2 { x: 0, y: 0 };
    }
    proof {
        lemma_isqrt_covers(d.x as int, d.y as int, m as int);
        lemma_isqrt_covers(d.y as int, d.x as int, m as int);
        assert(d.y * d.y + d.x * d.x == d.x * d.x + d.y * d.y);
    }
    let x = scale_coord(d.x, len, m);
    let y = scale_coord(d.y, len, m);
    Vec2 { x, y }
}

proof fn lemma_isqrt_unique(n: int, a: int, b: int)
    requires
        is_isqrt(n, a),
        is_isqrt(n, b),
    ensures
        a == b,
{
    if a < b {
        assert((a + 1) * (a + 1) <= b * b) by (nonlinear_arith)
            requires
                a + 1 <= b,
                a >= 0,
        ;
    } else if b < a {
        assert((b + 1) * (b + 1) <= a * a) by (nonlinear_arith)
            requires
                b + 1 <= a,
                b >= 0,
        ;
    }
}

/// The point `p` moved by `v`, clamped into the world.
pub fn add_clamped(p: Vec2, v: Vec2) -> (r: Vec2)
    requires
        in_world(p),
        bounded(v),
    ensures
        r.x == clamp_coord(p.x + v.x),
        r.y == clamp_coord(p.y + v.y),
        in_world(r),
{
    let x = clamp_i64(p.x + v.x);
    let y = clamp_i64(p.y + v.y);
    Vec2 { x, y }
}

fn clamp_i64(v: i64) -> (r: i64)
    ensures
        r == clamp_coord(v as int),
{
    if v < -COORD_LIMIT {
        -COORD_LIMIT
    } else if v > COORD_LIMIT {
        COORD_LIMIT
    } else {
        v
    }
}

} // verus!
