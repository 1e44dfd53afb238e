use vstd::prelude::*;
use crate::fixed::UNIT;

verus! {

/// Height of the first-person screen, in pixels.
pub const SCREEN_HEIGHT: i64 = 600;

/// Gap above a strip at distance zero, in pixels.
pub const TOP_MARGIN: i64 = 30;

/// The brightest shade.
pub const FULL_SHADE: u64 = 255;

/// `255 / (2 / 100)` in fixed point: the shade at a distance of one unit.
pub const SHADE_SCALE: u64 = 12_750_000_000;

/// The largest wall distance a strip is computed for (fixed-point).
pub const MAX_DISTANCE: u64 = 0x1_0000_0000;

/// One vertical strip of the first-person view. `start` and `length` are
/// fixed-point pixels; `shade` is the grey level of the strip.
#[derive(Clone, Copy, Debug, PartialEq, Eq, Structural)]
pub struct Strip {
    pub column: u32,
    /// The wall distance the strip was drawn for (fixed-point).
    pub distance: u64,
    pub start: i64,
    pub length: i64,
    pub shade: u8,
}

/// Top of a strip for wall distance `d`: `30 + d`.
pub open spec fn draw_start(d: int) -> int {
    TOP_MARGIN * UNIT + d
}

/// Height of a strip for wall distance `d`: `(600 - start) - start`.
pub open spec fn strip_length(d: int) -> int {
    (SCREEN_HEIGHT * UNIT - draw_start(d)) - draw_start(d)
}

/// Grey level for wall distance `d`: `255 / (2 * d / 100)`, rounded down and
/// held to at most 255 (so a distance of zero is full brightness).
pub open spec fn shade_of(d: int) -> int {
    if d <= 0 {
        FULL_SHADE as int
    } else {
        let s = SHADE_SCALE as int / d;
        if s > FULL_SHADE {
            FULL_SHADE as int
        } else {
            s
        }
    }
}

/// The strip of screen column `column` for wall distance `distance`.
pub open spec fn strip_of(column: u32, distance: u64) -> Strip {
    Strip {
        column,
        distance,
        start: draw_start(distance as int) as i64,
        length: strip_length(distance as int) as i64,
        shade: shade_of(distance as int) as u8,
    }
}

/// Projects the wall distance seen from screen column `column` into a strip.
pub fn project_strip(column: u32, distance: u64) -> (r: Strip)
    requires
        distance <= MAX_DISTANCE,
    ensures
        r == strip_of(column, distance),
        r.start == draw_start(distance as int),
        r.length == strip_length(distance as int),
        r.shade == shade_of(distance as int),
{
    let d = distance as i64;
    let start: i64 = TOP_MARGIN * UNIT + d;
    let end: i64 = SCREEN_HEIGHT * UNIT - start;
    let shade: u64 = if distance == 0 {
        FULL_SHADE
    } else {
        let s = SHADE_SCALE / distance;
        if s > FULL_SHADE {
            FULL_SHADE
        } else {
            s
        }
    };
    Strip { column, distance, start, length: end - start, shade: shade as u8 }
}

/// For every positive wall distance `d` a strip starts at `30 + d` and is
/// `540 - 2d` long, so a farther wall always gives a strictly shorter strip.
pub proof fn strip_length_decreases(d1: int, d2: int)
    requires
        0 < d1 < d2,
    ensures
        draw_start(d1) == 30 * UNIT + d1,
        strip_length(d1) == (600 * UNIT - draw_start(d1)) - draw_start(d1),
        strip_length(d1) == 540 * UNIT - 2 * d1,
        strip_length(d2) < strip_length(d1),
{
}

} // verus!
