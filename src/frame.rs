use vstd::prelude::*;
use crate::fixed::{hypot_floor, is_floor_sqrt, norm_sq, Point, UNIT};
use crate::grid::{cells_of_map, Cell, Grid, RaycastError, MAP_LEN};
use crate::march::{march, march_limit, march_outcome, CellRounding};
use crate::project::{project_strip, strip_of, Strip, MAX_DISTANCE};

verus! {

/// Field of view of the first-person screen, in millionths of a degree.
pub const FOV: i64 = 32_000_000;

/// Width of the first-person screen: one ray per column.
pub const SCREEN_WIDTH: u32 = 800;

/// Step divisor of first-person rays.
pub const FIRST_PERSON_DIVISOR: i64 = 50;

/// A column origin that would be negative on an axis is put here instead
/// (1.5 cells).
pub const RESCUE_COORD: i64 = 1_500_000;

/// Headings beyond this many millionths of a degree are not accepted.
pub const MAX_HEADING: i64 = 0x1000_0000_0000_0000;

/// The angle of screen column `column` for heading `heading`, both in
/// millionths of a degree: `heading - FOV/2 + column * (FOV/2) / width`.
pub open spec fn column_angle_of(heading: int, column: int) -> int {
    heading + (-(FOV / 2) + column * (FOV / 2) / SCREEN_WIDTH as int)
}

pub fn column_angle(heading: i64, column: u32) -> (r: i64)
    requires
        -MAX_HEADING <= heading <= MAX_HEADING,
        column < SCREEN_WIDTH,
    ensures
        r == column_angle_of(heading as int, column as int),
{
    heading + (-(FOV / 2) + column as i64 * (FOV / 2) / SCREEN_WIDTH as i64)
}

/// One axis of a column's origin: the player's cell coordinate plus the
/// column's offset, moved to 1.5 cells where that is negative.
pub open spec fn origin_coord(player: int, offset: int) -> int {
    let c = player * UNIT + offset;
    if c < 0 {
        RESCUE_COORD as int
    } else {
        c
    }
}

/// A direction or offset vector of length at most one on each axis.
pub open spec fn unit_bounded(p: Point) -> bool {
    -UNIT <= p.x <= UNIT && -UNIT <= p.y <= UNIT
}

/// The fixed-point origin of the ray of a column whose offset from the
/// player is `offset` (the cosine and sine of the column's angle).
pub fn column_origin(player_x: i32, player_y: i32, offset: Point) -> (r: Point)
    requires
        unit_bounded(offset),
    ensures
        r.x == origin_coord(player_x as int, offset.x as int),
        r.y == origin_coord(player_y as int, offset.y as int),
{
    let mut x: i64 = player_x as i64 * UNIT + offset.x;
    let mut y: i64 = player_y as i64 * UNIT + offset.y;
    if x < 0 {
        x = RESCUE_COORD;
    }
    if y < 0 {
        y = RESCUE_COORD;
    }
    Point { x, y }
}

/// Which direction the first-person rays march in.
#[derive(Clone, Copy, Debug, PartialEq, Eq, Structural)]
pub enum ColumnDirection {
    /// Every column marches along the player's heading; the column's angle
    /// only moves its origin.
    Shared,
    /// Each column marches along its own angle.
    PerColumn,
}

/// The marching direction of a column whose offset is `offset`.
pub open spec fn column_dir(mode: ColumnDirection, heading_dir: Point, offset: Point) -> Point {
    match mode {
        ColumnDirection::Shared => heading_dir,
        ColumnDirection::PerColumn => offset,
    }
}

/// Where the ray of a column stops: the iterations it takes, or `None` where
/// it escapes.
pub open spec fn column_hit(
    g: Seq<Cell>,
    player_x: int,
    player_y: int,
    dir: Point,
    offset: Point,
) -> Option<nat> {
    let o = Point {
        x: (origin_coord(player_x, offset.x as int) * FIRST_PERSON_DIVISOR) as i64,
        y: (origin_coord(player_y, offset.y as int) * FIRST_PERSON_DIVISOR) as i64,
    };
    march_outcome(
        g,
        o,
        dir,
        FIRST_PERSON_DIVISOR as int,
        CellRounding::Nearest,
        0,
        march_limit(FIRST_PERSON_DIVISOR as int) as nat,
    )
}

proof fn lemma_wall_dist_bounds(n: int, dir: Point)
    requires
        0 <= n < march_limit(FIRST_PERSON_DIVISOR as int),
        unit_bounded(dir),
    ensures
        -800 * UNIT <= n * dir.x <= 800 * UNIT,
        -800 * UNIT <= n * dir.y <= 800 * UNIT,
{
    assert(-800 * UNIT <= n * dir.x <= 800 * UNIT) by (nonlinear_arith)
        requires
            0 <= n < 800,
            -UNIT <= dir.x <= UNIT,
    ;
    assert(-800 * UNIT <= n * dir.y <= 800 * UNIT) by (nonlinear_arith)
        requires
            0 <= n < 800,
            -UNIT <= dir.y <= UNIT,
    ;
}

proof fn lemma_distance_bound(n: int, dir: Point, d: int)
    requires
        0 <= n < march_limit(FIRST_PERSON_DIVISOR as int),
        unit_bounded(dir),
        is_floor_sqrt(d, norm_sq(n * dir.x, n * dir.y)),
    ensures
        d <= MAX_DISTANCE,
{
    lemma_wall_dist_bounds(n, dir);
    let a = n * dir.x;
    let b = n * dir.y;
    assert(a * a + b * b <= 2 * (800 * UNIT) * (800 * UNIT)) by (nonlinear_arith)
        requires
            -800 * UNIT <= a <= 800 * UNIT,
            -800 * UNIT <= b <= 800 * UNIT,
    ;
    assert(d <= MAX_DISTANCE) by (nonlinear_arith)
        requires
            0 <= d,
            d * d <= 2 * (800 * UNIT) * (800 * UNIT),
    ;
}

/// Casts the first-person frame of map `map`, seen by a player standing at
/// cell (`player_x`, `player_y`) and facing along `dir`. Column `i`'s ray
/// starts at the player plus `offsets[i]` (see `column_origin`) and marches
/// along `dir`, or along `offsets[i]` where `mode` is `PerColumn`; its wall
/// distance becomes the column's strip. Fails with
/// `InvalidMapSize` before any casting where the map is not 64 characters,
/// and with `RayEscapedBounds` where some column's ray escapes.
pub fn first_person_strips(
    map: &str,
    player_x: i32,
    player_y: i32,
    dir: Point,
    offsets: &Vec<Point>,
    mode: ColumnDirection,
) -> (r: Result<Vec<Strip>, RaycastError>)
    requires
        offsets@.len() == SCREEN_WIDTH,
        unit_bounded(dir),
        forall|i: int| 0 <= i < offsets@.len() ==> unit_bounded(#[trigger] offsets@[i]),
    ensures
        map@.len() != MAP_LEN ==> r == Err::<Vec<Strip>, RaycastError>(
            RaycastError::InvalidMapSize,
        ),
        map@.len() == MAP_LEN ==> (r is Ok <==> forall|i: int|
            0 <= i < SCREEN_WIDTH ==> #[trigger] column_hit(
                cells_of_map(map@),
                player_x as int,
                player_y as int,
                column_dir(mode, dir, offsets@[i]),
                offsets@[i],
            ) is Some),
        map@.len() == MAP_LEN && r is Err ==> r == Err::<Vec<Strip>, RaycastError>(
            RaycastError::RayEscapedBounds,
        ),
        r matches Ok(strips) ==> {
            &&& strips@.len() == SCREEN_WIDTH
            &&& forall|i: int|
                0 <= i < SCREEN_WIDTH ==> {
                    let d = column_dir(mode, dir, offsets@[i]);
                    let n = column_hit(
                        cells_of_map(map@),
                        player_x as int,
                        player_y as int,
                        d,
                        offsets@[i],
                    )->0;
                    &&& #[trigger] strips@[i] == strip_of(i as u32, strips@[i].distance)
                    &&& is_floor_sqrt(strips@[i].distance as int, norm_sq(n * d.x, n * d.y))
                }
        },
{
    let grid = Grid::parse(map)?;
    let ghost g = cells_of_map(map@);
    let mut strips: Vec<Strip> = Vec::new();
    let mut i: u32 = 0;
    while i < SCREEN_WIDTH
        invariant
            grid.wf(),
            grid@ == g,
            g == cells_of_map(map@),
            map@.len() == MAP_LEN,
            i <= SCREEN_WIDTH,
            strips@.len() == i,
            offsets@.len() == SCREEN_WIDTH,
            unit_bounded(dir),
            forall|k: int| 0 <= k < offsets@.len() ==> unit_bounded(#[trigger] offsets@[k]),
            forall|k: int|
                0 <= k < i ==> #[trigger] column_hit(
                    g,
                    player_x as int,
                    player_y as int,
                    column_dir(mode, dir, offsets@[k]),
                    offsets@[k],
                ) is Some,
            forall|k: int|
                0 <= k < i ==> {
                    let d = column_dir(mode, dir, offsets@[k]);
                    let n = column_hit(g, player_x as int, player_y as int, d, offsets@[k])->0;
                    &&& #[trigger] strips@[k] == strip_of(k as u32, strips@[k].distance)
                    &&& is_floor_sqrt(strips@[k].distance as int, norm_sq(n * d.x, n * d.y))
                },
        decreases SCREEN_WIDTH - i,
    {
        let offset = offsets[i as usize];
        let o = column_origin(player_x, player_y, offset);
        let start = Point { x: o.x * FIRST_PERSON_DIVISOR, y: o.y * FIRST_PERSON_DIVISOR };
        let d = match mode {
            ColumnDirection::Shared => dir,
            ColumnDirection::PerColumn => offset,
        };
        assert(d == column_dir(mode, dir, offsets@[i as int]));
        let hit = match march(&grid, start, d, FIRST_PERSON_DIVISOR, CellRounding::Nearest) {
            Ok(h) => h,
            Err(e) => {
                assert(column_hit(g, player_x as int, player_y as int, d, offsets@[i as int])
                    is None);
                return Err(e);
            },
        };
        proof {
            lemma_wall_dist_bounds(hit.steps as int, d);
        }
        let dist = hypot_floor(hit.wall_dist.x, hit.wall_dist.y);
        proof {
            lemma_distance_bound(hit.steps as int, d, dist as int);
        }
        strips.push(project_strip(i, dist));
        i = i + 1;
    }
    Ok(strips)
}

/// Step divisor of the top-down ray.
pub const TOP_DOWN_DIVISOR: i64 = 25;

/// Side of a cell on the top-down map, in pixels.
pub const CELL_PIXELS: i64 = 25;

/// The largest absolute player coordinate (fixed-point) of the top-down view.
pub const MAX_PLAYER_COORD: i64 = 0x10_0000_0000;

/// The top-down picture: the map, the player's marker and the ray's trail.
pub struct TopDownView {
    pub grid: Grid,
    /// The player's position in fixed-point pixels.
    pub start: Point,
    /// The end of each stroked segment, in fixed-point pixels; every segment
    /// begins at the player's marker.
    pub trail: Vec<Point>,
}

/// Iterations of the top-down ray from `player` along `dir`, or `None` where
/// it escapes.
pub open spec fn top_down_hit(g: Seq<Cell>, player: Point, dir: Point) -> Option<nat> {
    march_outcome(
        g,
        Point {
            x: (player.x * TOP_DOWN_DIVISOR) as i64,
            y: (player.y * TOP_DOWN_DIVISOR) as i64,
        },
        dir,
        TOP_DOWN_DIVISOR as int,
        CellRounding::TowardZero,
        0,
        march_limit(TOP_DOWN_DIVISOR as int) as nat,
    )
}

/// The end of segment `j` of a trail of a ray that hit after `n` iterations:
/// one segment is stroked per iteration, to the distance summed so far.
pub open spec fn trail_end(start: Point, dir: Point, n: int, j: int) -> Point {
    let m = if j + 1 < n {
        j + 1
    } else {
        n
    };
    Point { x: (start.x + m * dir.x) as i64, y: (start.y + m * dir.y) as i64 }
}

proof fn lemma_trail_bounds(m: int, dir: Point)
    requires
        0 <= m <= march_limit(TOP_DOWN_DIVISOR as int),
        unit_bounded(dir),
    ensures
        -400 * UNIT <= m * dir.x <= 400 * UNIT,
        -400 * UNIT <= m * dir.y <= 400 * UNIT,
{
    assert(-400 * UNIT <= m * dir.x <= 400 * UNIT) by (nonlinear_arith)
        requires
            0 <= m <= 400,
            -UNIT <= dir.x <= UNIT,
    ;
    assert(-400 * UNIT <= m * dir.y <= 400 * UNIT) by (nonlinear_arith)
        requires
            0 <= m <= 400,
            -UNIT <= dir.y <= UNIT,
    ;
}

/// Casts the single top-down ray of map `map` from `player` (fixed-point
/// cells) along `dir`, truncating positions to cells. Fails with
/// `InvalidMapSize` where the map is not 64 characters, and with
/// `RayEscapedBounds` where the ray escapes.
pub fn top_down_view(map: &str, player: Point, dir: Point) -> (r: Result<TopDownView, RaycastError>)
    requires
        -MAX_PLAYER_COORD <= player.x <= MAX_PLAYER_COORD,
        -MAX_PLAYER_COORD <= player.y <= MAX_PLAYER_COORD,
        unit_bounded(dir),
    ensures
        map@.len() != MAP_LEN ==> r == Err::<TopDownView, RaycastError>(
            RaycastError::InvalidMapSize,
        ),
        map@.len() == MAP_LEN ==> (r is Ok <==> top_down_hit(cells_of_map(map@), player, dir) is Some),
        map@.len() == MAP_LEN && r is Err ==> r == Err::<TopDownView, RaycastError>(
            RaycastError::RayEscapedBounds,
        ),
        r matches Ok(v) ==> {
            let n = top_down_hit(cells_of_map(map@), player, dir)->0;
            &&& v.grid.wf()
            &&& v.grid@ == cells_of_map(map@)
            &&& v.start.x == player.x * CELL_PIXELS
            &&& v.start.y == player.y * CELL_PIXELS
            &&& v.trail@.len() == n + 1
            &&& forall|j: int| 0 <= j <= n ==> #[trigger] v.trail@[j] == trail_end(v.start, dir, n as int, j)
        },
{
    let grid = Grid::parse(map)?;
    let origin = Point { x: player.x * TOP_DOWN_DIVISOR, y: player.y * TOP_DOWN_DIVISOR };
    let hit = march(&grid, origin, dir, TOP_DOWN_DIVISOR, CellRounding::TowardZero)?;
    let n = hit.steps;
    let start = Point { x: player.x * CELL_PIXELS, y: player.y * CELL_PIXELS };
    let mut trail: Vec<Point> = Vec::new();
    let mut j: u64 = 0;
    while j <= n
        invariant
            n < march_limit(TOP_DOWN_DIVISOR as int),
            j <= n + 1,
            trail@.len() == j,
            unit_bounded(dir),
            start.x == player.x * CELL_PIXELS,
            start.y == player.y * CELL_PIXELS,
            -MAX_PLAYER_COORD <= player.x <= MAX_PLAYER_COORD,
            -MAX_PLAYER_COORD <= player.y <= MAX_PLAYER_COORD,
            forall|k: int| 0 <= k < j ==> #[trigger] trail@[k] == trail_end(start, dir, n as int, k),
        decreases n + 1 - j,
    {
        let m: i64 = if j + 1 < n {
            (j + 1) as i64
        } else {
            n as i64
        };
        proof {
            lemma_trail_bounds(m as int, dir);
        }
        trail.push(Point { x: start.x + m * dir.x, y: start.y + m * dir.y });
        j = j + 1;
    }
    Ok(TopDownView { grid, start, trail })
}

} // verus!
