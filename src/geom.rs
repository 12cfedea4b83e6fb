use vstd::prelude::*;

verus! {

/// Lengths are fixed-point: one tile is `UNIT` length units.
pub const UNIT: i64 = 1000;

/// Largest coordinate magnitude that `length` and `scale_to` accept.
pub const COORD_LIMIT: i64 = 0x8000_0000;

/// A point or a vector in length units.
#[derive(Copy, Clone, Debug, PartialEq, Eq, Structural)]
pub struct Vec2 {
    pub x: i64,
    pub y: i64,
}

pub open spec fn abs(a: int) -> int {
    if a < 0 { -a } else { a }
}

/// Integer division rounding toward zero.
pub open spec fn tdiv(n: int, d: int) -> int {
    if n >= 0 { n / d } else { -((-n) / d) }
}

pub open spec fn in_limit(v: Vec2, lim: int) -> bool {
    abs(v.x as int) <= lim && abs(v.y as int) <= lim
}

pub open spec fn norm_sq(v: Vec2) -> int {
    v.x * v.x + v.y * v.y
}

/// `r` is the length of `v`, rounded down.
pub open spec fn is_length(v: Vec2, r: int) -> bool {
    0 <= r && r * r <= norm_sq(v) < (r + 1) * (r + 1)
}

/// The integer square root, rounded down.
pub fn isqrt(n: u64) -> (r: u64)
    ensures
        r * r <= n < (r + 1) * (r + 1),
{
    let mut lo: u64 = 0;
    let mut hi: u64 = 0x1_0000_0000;
    assert(hi * hi > n) by (nonlinear_arith)
        requires hi == 0x1_0000_0000u64, n <= u64::MAX;
    while hi - lo > 1
        invariant
            lo < hi <= 0x1_0000_0000,
            lo * lo <= n,
            n < hi * hi,
        decreases hi - lo,
    {
        let mid: u64 = lo + (hi - lo) / 2;
        assert((mid as u128) * (mid as u128) <= 0x1_0000_0000_0000_0000u128) by (nonlinear_arith)
            requires mid <= 0x1_0000_0000u64;
        let sq: u128 = (mid as u128) * (mid as u128);
        if sq <= n as u128 {
            lo = mid;
        } else {
            hi = mid;
        }
    }
    lo
}

pub fn vsub(a: Vec2, b: Vec2) -> (r: Vec2)
    requires
        in_limit(a, 0x2000_0000_0000_0000),
        in_limit(b, 0x2000_0000_0000_0000),
    ensures
        r.x == a.x - b.x,
        r.y == a.y - b.y,
{
    Vec2 { x: a.x - b.x, y: a.y - b.y }
}

/// The length of `v`, rounded down.
pub fn length(v: Vec2) -> (r: i64)
    requires
        in_limit(v, COORD_LIMIT as int),
    ensures
        is_length(v, r as int),
        r <= 2 * COORD_LIMIT,
        r == 0 <==> (v.x == 0 && v.y == 0),
{
    let ax: u64 = if v.x < 0 { (-v.x) as u64 } else { v.x as u64 };
    let ay: u64 = if v.y < 0 { (-v.y) as u64 } else { v.y as u64 };
    assert(ax * ax <= 0x4000_0000_0000_0000) by (nonlinear_arith)
        requires ax <= 0x8000_0000u64;
    assert(ay * ay <= 0x4000_0000_0000_0000) by (nonlinear_arith)
        requires ay <= 0x8000_0000u64;
    let n: u64 = ax * ax + ay * ay;
    assert(n == norm_sq(v)) by (nonlinear_arith)
        requires
            n == ax * ax + ay * ay,
            ax == abs(v.x as int),
            ay == abs(v.y as int);
    let r = isqrt(n);
    assert(r <= 2 * COORD_LIMIT) by (nonlinear_arith)
        requires r * r <= n, n <= 0x8000_0000_0000_0000u64;
    assert(r == 0 <==> n == 0) by (nonlinear_arith)
        requires r * r <= n < (r + 1) * (r + 1);
    assert(n == 0 <==> (v.x == 0 && v.y == 0)) by (nonlinear_arith)
        requires n == ax * ax + ay * ay, ax == abs(v.x as int), ay == abs(v.y as int);
    r as i64
}

/// `a * b / c`, rounded toward zero.
pub fn mul_div(a: i64, b: i64, c: i64) -> (r: i64)
    requires
        c > 0,
        abs(a as int) <= COORD_LIMIT,
        abs(b as int) <= COORD_LIMIT,
    ensures
        r == tdiv(a * b, c as int),
        abs(r as int) <= abs(a * b),
{
    let neg = (a < 0) != (b < 0);
    let ua: u64 = if a < 0 { (-a) as u64 } else { a as u64 };
    let ub: u64 = if b < 0 { (-b) as u64 } else { b as u64 };
    assert(ua * ub <= 0x4000_0000_0000_0000) by (nonlinear_arith)
        requires ua <= 0x8000_0000u64, ub <= 0x8000_0000u64;
    let p: u64 = ua * ub;
    let q: u64 = p / (c as u64);
    assert(q <= p) by (nonlinear_arith)
        requires q == p / (c as u64), c > 0;
    assert(p == abs(a * b)) by (nonlinear_arith)
        requires p == ua * ub, ua == abs(a as int), ub == abs(b as int);
    assert(neg ==> a * b <= 0) by (nonlinear_arith)
        requires neg == ((a < 0) != (b < 0));
    assert(!neg ==> a * b >= 0) by (nonlinear_arith)
        requires neg == ((a < 0) != (b < 0));
    if neg {
        -(q as i64)
    } else {
        q as i64
    }
}

/// `v` scaled by `num / den`, each coordinate rounded toward zero.
pub open spec fn scaled(v: Vec2, num: int, den: int) -> (int, int) {
    (tdiv(v.x * num, den), tdiv(v.y * num, den))
}

/// Scales `v` by `num / den`; with `den` the length of `v` the result has
/// length `num` (up to rounding) and points the same way.
pub fn scale(v: Vec2, num: i64, den: i64) -> (r: Vec2)
    requires
        den > 0,
        in_limit(v, COORD_LIMIT as int),
        abs(num as int) <= COORD_LIMIT,
    ensures
        (r.x as int, r.y as int) == scaled(v, num as int, den as int),
{
    Vec2 { x: mul_div(v.x, num, den), y: mul_div(v.y, num, den) }
}

/// A coordinate of a vector is no longer than the vector.
pub proof fn lemma_coord_le_length(v: Vec2, r: int)
    requires
        is_length(v, r),
    ensures
        abs(v.x as int) <= r,
        abs(v.y as int) <= r,
{
    let ax = abs(v.x as int);
    let ay = abs(v.y as int);
    assert(ax * ax <= norm_sq(v)) by (nonlinear_arith)
        requires ax == abs(v.x as int), ay == abs(v.y as int);
    assert(ay * ay <= norm_sq(v)) by (nonlinear_arith)
        requires ax == abs(v.x as int), ay == abs(v.y as int);
    assert(ax <= r) by (nonlinear_arith)
        requires ax * ax < (r + 1) * (r + 1), ax >= 0, r >= 0;
    assert(ay <= r) by (nonlinear_arith)
        requires ay * ay < (r + 1) * (r + 1), ay >= 0, r >= 0;
}

/// Scaling by `num / len`, with `len` no shorter than each coordinate,
/// gives coordinates no longer than `num`.
pub proof fn lemma_scaled_bound(a: int, num: int, len: int)
    requires
        len > 0,
        num >= 0,
        abs(a) <= len,
    ensures
        abs(tdiv(a * num, len)) <= num,
{
    let p = abs(a) * num;
    assert(p <= len * num) by (nonlinear_arith)
        requires abs(a) <= len, num >= 0, p == abs(a) * num, abs(a) >= 0;
    assert(p / len <= num) by (nonlinear_arith)
        requires p <= len * num, len > 0, p >= 0;
    assert(abs(a * num) == p) by (nonlinear_arith)
        requires num >= 0, p == abs(a) * num;
}

} // verus!
