use vstd::prelude::*;
use vstd::arithmetic::div_mod::{lemma_div_by_multiple, lemma_div_is_ordered};
use crate::fixed::{Point, UNIT};
use crate::grid::{cell_at, in_grid, Cell, Grid, RaycastError, GRID_SIZE};

verus! {

/// How a ray position is turned into a cell index.
#[derive(Clone, Copy, Debug, PartialEq, Eq, Structural)]
pub enum CellRounding {
    /// To the nearest cell, halves away from zero (the first-person view).
    Nearest,
    /// Toward zero (the top-down view).
    TowardZero,
}

/// A ray may march at most this many cells' worth of steps before it is
/// given up: more than the diagonal of the grid.
pub const MARCH_CELL_LIMIT: u64 = 16;

/// The largest step divisor a march accepts.
pub const MAX_DIVISOR: i64 = 100;

/// Origins farther than this from zero on either axis lie outside the grid.
pub const MAX_ORIGIN: i64 = 0x100_0000_0000;

/// The cell index of a coordinate `v`, where one cell is `size` units long.
pub open spec fn cell_index_of(v: int, size: int, mode: CellRounding) -> int {
    match mode {
        CellRounding::Nearest => if v >= 0 {
            (v + size / 2) / size
        } else {
            -((-v + size / 2) / size)
        },
        CellRounding::TowardZero => if v >= 0 {
            v / size
        } else {
            -((-v) / size)
        },
    }
}

/// The length of one cell in a march's position units: the position moves by
/// `step / divisor` per iteration, so a cell is `divisor * UNIT` units.
pub open spec fn cell_size(divisor: int) -> int {
    divisor * UNIT
}

/// How many iterations a march may take.
pub open spec fn march_limit(divisor: int) -> int {
    MARCH_CELL_LIMIT * divisor
}

/// The position of a ray after `n` iterations.
pub open spec fn pos_after(origin: Point, step: Point, n: int) -> (int, int) {
    (origin.x + n * step.x, origin.y + n * step.y)
}

/// The (row, column) of the cell that the ray stands in after `n` iterations.
pub open spec fn cell_after(
    origin: Point,
    step: Point,
    divisor: int,
    mode: CellRounding,
    n: int,
) -> (int, int) {
    let p = pos_after(origin, step, n);
    (
        cell_index_of(p.1, cell_size(divisor), mode),
        cell_index_of(p.0, cell_size(divisor), mode),
    )
}

/// The iteration, from `n` on, at which the ray stands in a wall cell, or
/// `None` where it first leaves the grid or reaches `limit`.
pub open spec fn march_outcome(
    g: Seq<Cell>,
    origin: Point,
    step: Point,
    divisor: int,
    mode: CellRounding,
    n: nat,
    limit: nat,
) -> Option<nat>
    decreases limit - n,
{
    if n >= limit {
        None
    } else {
        let c = cell_after(origin, step, divisor, mode, n as int);
        if !in_grid(c.0, c.1) {
            None
        } else if cell_at(g, c.0, c.1) == Cell::Wall {
            Some(n)
        } else {
            march_outcome(g, origin, step, divisor, mode, n + 1, limit)
        }
    }
}

/// Where a march stopped.
#[derive(Clone, Copy, Debug, PartialEq, Eq, Structural)]
pub struct MarchHit {
    /// Iterations taken before the ray stood in a wall cell.
    pub steps: u64,
    /// The ray's position then, in position units.
    pub pos: Point,
    /// The sum of the full step vectors over those iterations.
    pub wall_dist: Point,
}

/// The march's admissible inputs.
pub open spec fn march_args_ok(origin: Point, step: Point, divisor: int) -> bool {
    &&& 1 <= divisor <= MAX_DIVISOR
    &&& -UNIT <= step.x <= UNIT
    &&& -UNIT <= step.y <= UNIT
}

/// The cell index of coordinate `v`, where one cell is `size` units long.
pub fn cell_index(v: i64, size: i64, mode: CellRounding) -> (r: i64)
    requires
        0 < size <= MAX_DIVISOR * UNIT,
        -2 * MAX_ORIGIN <= v <= 2 * MAX_ORIGIN,
    ensures
        r == cell_index_of(v as int, size as int, mode),
{
    match mode {
        CellRounding::Nearest => if v >= 0 {
            (v + size / 2) / size
        } else {
            -((-v + size / 2) / size)
        },
        CellRounding::TowardZero => if v >= 0 {
            v / size
        } else {
            -((-v) / size)
        },
    }
}

proof fn lemma_scaled_step_bounds(n: int, s: int, limit: int)
    requires
        0 <= n <= limit,
        -UNIT <= s <= UNIT,
    ensures
        -limit * UNIT <= n * s <= limit * UNIT,
        (n + 1) * s == n * s + s,
{
    assert(-limit * UNIT <= n * s <= limit * UNIT) by (nonlinear_arith)
        requires
            0 <= n <= limit,
            -UNIT <= s <= UNIT,
    ;
    assert((n + 1) * s == n * s + s) by (nonlinear_arith);
}

proof fn lemma_far_is_outside(v: int, size: int, mode: CellRounding)
    requires
        0 < size <= MAX_DIVISOR * UNIT,
        v > MAX_ORIGIN || v < -MAX_ORIGIN,
    ensures
        !(0 <= cell_index_of(v, size, mode) < GRID_SIZE),
{
    let a: int = if v >= 0 { v } else { -v };
    lemma_div_by_multiple(8, size);
    lemma_div_is_ordered(8 * size, a, size);
    lemma_div_is_ordered(a, a + size / 2, size);
}

/// Marches a ray from `origin`, moving it by `step / divisor` (a cell being
/// `divisor * UNIT` position units) per iteration, until it stands in a wall
/// cell. Fails with `RayEscapedBounds` where the ray first leaves the grid,
/// or takes `MARCH_CELL_LIMIT * divisor` iterations without a hit.
pub fn march(grid: &Grid, origin: Point, step: Point, divisor: i64, mode: CellRounding) -> (r:
    Result<MarchHit, RaycastError>)
    requires
        grid.wf(),
        march_args_ok(origin, step, divisor as int),
    ensures
        ({
            let outcome = march_outcome(
                grid@,
                origin,
                step,
                divisor as int,
                mode,
                0,
                march_limit(divisor as int) as nat,
            );
            &&& r is Ok <==> outcome is Some
            &&& r matches Ok(h) ==> {
                &&& outcome == Some(h.steps as nat)
                &&& h.steps < march_limit(divisor as int)
                &&& (h.pos.x as int, h.pos.y as int) == pos_after(origin, step, h.steps as int)
                &&& h.wall_dist.x == h.steps * step.x
                &&& h.wall_dist.y == h.steps * step.y
            }
            &&& r matches Err(e) ==> e == RaycastError::RayEscapedBounds
        }),
        ({
            let c = cell_after(origin, step, divisor as int, mode, 0);
            in_grid(c.0, c.1) && cell_at(grid@, c.0, c.1) == Cell::Wall ==> r == Ok::<
                MarchHit,
                RaycastError,
            >(MarchHit { steps: 0, pos: origin, wall_dist: Point { x: 0, y: 0 } })
        }),
{
    let size: i64 = divisor * UNIT;
    let limit: u64 = MARCH_CELL_LIMIT * divisor as u64;
    let ghost outcome = march_outcome(grid@, origin, step, divisor as int, mode, 0, limit as nat);
    if origin.x < -MAX_ORIGIN || origin.x > MAX_ORIGIN || origin.y < -MAX_ORIGIN || origin.y
        > MAX_ORIGIN {
        proof {
            if origin.x < -MAX_ORIGIN || origin.x > MAX_ORIGIN {
                lemma_far_is_outside(origin.x as int, size as int, mode);
            } else {
                lemma_far_is_outside(origin.y as int, size as int, mode);
            }
            assert(pos_after(origin, step, 0) == (origin.x as int, origin.y as int));
        }
        return Err(RaycastError::RayEscapedBounds);
    }
    let mut n: u64 = 0;
    let mut pos = origin;
    let mut dist = Point { x: 0, y: 0 };
    assert(pos_after(origin, step, 0) == (origin.x as int, origin.y as int));
    while n < limit
        invariant
            grid.wf(),
            march_args_ok(origin, step, divisor as int),
            -MAX_ORIGIN <= origin.x <= MAX_ORIGIN,
            -MAX_ORIGIN <= origin.y <= MAX_ORIGIN,
            size == cell_size(divisor as int),
            limit == march_limit(divisor as int),
            n <= limit,
            (pos.x as int, pos.y as int) == pos_after(origin, step, n as int),
            dist.x == n * step.x,
            dist.y == n * step.y,
            outcome == march_outcome(grid@, origin, step, divisor as int, mode, 0, limit as nat),
            outcome == march_outcome(grid@, origin, step, divisor as int, mode, n as nat, limit as nat),
        decreases limit - n,
    {
        proof {
            lemma_scaled_step_bounds(n as int, step.x as int, limit as int);
            lemma_scaled_step_bounds(n as int, step.y as int, limit as int);
        }
        let row = cell_index(pos.y, size, mode);
        let col = cell_index(pos.x, size, mode);
        if row < 0 || row >= GRID_SIZE as i64 || col < 0 || col >= GRID_SIZE as i64 {
            return Err(RaycastError::RayEscapedBounds);
        }
        if grid.cell(row as usize, col as usize) == Cell::Wall {
            return Ok(MarchHit { steps: n, pos, wall_dist: dist });
        }
        pos = Point { x: pos.x + step.x, y: pos.y + step.y };
        dist = Point { x: dist.x + step.x, y: dist.y + step.y };
        n = n + 1;
    }
    Err(RaycastError::RayEscapedBounds)
}

} // verus!
