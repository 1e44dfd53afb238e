use vstd::prelude::*;

verus! {

/// The fixed-point value of 1.0: lengths and coordinates are held in
/// millionths.
pub const UNIT: i64 = 1_000_000;

/// A 2-D point or vector of fixed-point coordinates.
#[derive(Clone, Copy, Debug, PartialEq, Eq, Structural)]
pub struct Point {
    pub x: i64,
    pub y: i64,
}

/// The square of a vector's Euclidean length.
pub open spec fn norm_sq(x: int, y: int) -> int {
    x * x + y * y
}

/// `r` is the square root of `s`, rounded down.
pub open spec fn is_floor_sqrt(r: int, s: int) -> bool {
    0 <= r && r * r <= s < (r + 1) * (r + 1)
}

/// The largest integer whose square is at most `s`.
pub fn floor_sqrt(s: u64) -> (r: u64)
    ensures
        is_floor_sqrt(r as int, s as int),
{
    // lo * lo <= s < hi * hi
    let mut lo: u64 = 0;
    let mut hi: u64 = 0x1_0000_0000;
    assert(s < hi * hi) by (nonlinear_arith)
        requires
            hi == 0x1_0000_0000,
            s <= u64::MAX,
    ;
    while hi - lo > 1
        invariant
            lo < hi <= 0x1_0000_0000,
            lo * lo <= s,
            s < hi * hi,
        decreases hi - lo,
    {
        let mid: u64 = lo + (hi - lo) / 2;
        assert(mid < 0x1_0000_0000);
        assert(mid * mid <= 0xFFFF_FFFF * 0xFFFF_FFFFu64) by (nonlinear_arith)
            requires
                mid < 0x1_0000_0000,
        ;
        if mid * mid <= s {
            lo = mid;
        } else {
            hi = mid;
        }
    }
    assert(hi == lo + 1);
    lo
}

/// The Euclidean length of (`x`, `y`), rounded down.
pub fn hypot_floor(x: i64, y: i64) -> (r: u64)
    requires
        -0x8000_0000 < x < 0x8000_0000,
        -0x8000_0000 < y < 0x8000_0000,
    ensures
        is_floor_sqrt(r as int, norm_sq(x as int, y as int)),
{
    let ax: u64 = if x < 0 { (-x) as u64 } else { x as u64 };
    let ay: u64 = if y < 0 { (-y) as u64 } else { y as u64 };
    assert(ax * ax <= 0x7FFF_FFFF * 0x7FFF_FFFFu64) by (nonlinear_arith)
        requires ax < 0x8000_0000,
    ;
    assert(ay * ay <= 0x7FFF_FFFF * 0x7FFF_FFFFu64) by (nonlinear_arith)
        requires ay < 0x8000_0000,
    ;
    assert(ax * ax == x * x && ay * ay == y * y) by (nonlinear_arith)
        requires
            ax == x || ax == -x,
            ay == y || ay == -y,
    ;
    floor_sqrt(ax * ax + ay * ay)
}

} // verus!
