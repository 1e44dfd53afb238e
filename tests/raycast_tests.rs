use raycast::dice::roll_dice;
use raycast::fixed::{floor_sqrt, hypot_floor, Point, UNIT};
use raycast::frame::{
    column_angle, column_origin, first_person_strips, ColumnDirection, top_down_view, RESCUE_COORD, SCREEN_WIDTH,
};
use raycast::grid::{cell_from_char, Cell, Grid, RaycastError};
use raycast::march::{cell_index, march, CellRounding};
use raycast::project::{project_strip, Strip};

fn enclosed_map() -> String {
    let mut s = String::new();
    s.push_str("11111111");
    for _ in 0..6 {
        s.push_str("10000001");
    }
    s.push_str("11111111");
    s
}

fn to_fixed(v: f64) -> i64 {
    (v * UNIT as f64).round() as i64
}

fn column_offsets(heading_microdeg: i64) -> Vec<Point> {
    let mut offsets = Vec::new();
    for i in 0..SCREEN_WIDTH {
        let a = column_angle(heading_microdeg, i) as f64 / 1_000_000.0 * (3.14 / 180.0);
        offsets.push(Point { x: to_fixed(a.cos()), y: to_fixed(a.sin()) });
    }
    offsets
}

#[test]
fn map_walls_follow_ones() {
    let map = "1x0110100000000011111111abcdefgh0101010110101010000000001111111z";
    let g = Grid::parse(map).unwrap();
    let chars: Vec<char> = map.chars().collect();
    for r in 0..8 {
        for c in 0..8 {
            assert_eq!(g.cell(r, c) == Cell::Wall, chars[8 * r + c] == '1');
        }
    }
    assert_eq!(g.cell(0, 1), Cell::Invalid);
    assert_eq!(g.cell(0, 2), Cell::Empty);
}

#[test]
fn char_classification() {
    assert_eq!(cell_from_char('1'), Cell::Wall);
    assert_eq!(cell_from_char('0'), Cell::Empty);
    assert_eq!(cell_from_char('#'), Cell::Invalid);
}

#[test]
fn short_map_is_rejected() {
    let map = "1".repeat(63);
    assert_eq!(Grid::parse(&map).err(), Some(RaycastError::InvalidMapSize));
    let offsets = column_offsets(0);
    let r = first_person_strips(&map, 1, 1, Point { x: UNIT, y: 0 }, &offsets, ColumnDirection::Shared);
    assert_eq!(r.err(), Some(RaycastError::InvalidMapSize));
}

#[test]
fn long_map_is_rejected() {
    let map = "0".repeat(65);
    assert_eq!(Grid::parse(&map).err(), Some(RaycastError::InvalidMapSize));
    assert_eq!(Grid::parse("").err(), Some(RaycastError::InvalidMapSize));
}

#[test]
fn square_roots_round_down() {
    assert_eq!(floor_sqrt(0), 0);
    assert_eq!(floor_sqrt(15), 3);
    assert_eq!(floor_sqrt(16), 4);
    assert_eq!(floor_sqrt(u64::MAX), 4_294_967_295);
    assert_eq!(hypot_floor(3, -4), 5);
    assert_eq!(hypot_floor(-UNIT, 0), UNIT as u64);
}

#[test]
fn strip_formula_is_exact() {
    let s = project_strip(7, 10 * UNIT as u64);
    assert_eq!(s.column, 7);
    assert_eq!(s.start, 40 * UNIT);
    assert_eq!(s.length, 520 * UNIT);
    assert_eq!(s.shade, 255);
    let far = project_strip(0, 100 * UNIT as u64);
    assert_eq!(far.start, 130 * UNIT);
    assert_eq!(far.length, 340 * UNIT);
    assert_eq!(far.shade, 127);
    let beyond = project_strip(0, 300 * UNIT as u64);
    assert_eq!(beyond.length, -60 * UNIT);
    assert_eq!(beyond.shade, 42);
}

#[test]
fn farther_walls_give_shorter_strips() {
    let mut last = project_strip(0, 1).length;
    for d in [2u64, 1_000, 1_000_000, 50_000_000, 300_000_000] {
        let l = project_strip(0, d).length;
        assert!(l < last);
        assert_eq!(l, 540 * UNIT - 2 * d as i64);
        last = l;
    }
}

#[test]
fn zero_distance_is_full_shade() {
    assert_eq!(project_strip(3, 0), Strip { column: 3, distance: 0, start: 30 * UNIT, length: 540 * UNIT, shade: 255 });
}

#[test]
fn rounding_modes() {
    let size = 50 * UNIT;
    assert_eq!(cell_index(size / 2, size, CellRounding::Nearest), 1);
    assert_eq!(cell_index(size / 2 - 1, size, CellRounding::Nearest), 0);
    assert_eq!(cell_index(-size / 2, size, CellRounding::Nearest), -1);
    assert_eq!(cell_index(-size / 2 + 1, size, CellRounding::Nearest), 0);
    assert_eq!(cell_index(size - 1, size, CellRounding::TowardZero), 0);
    assert_eq!(cell_index(-size + 1, size, CellRounding::TowardZero), 0);
    assert_eq!(cell_index(-size, size, CellRounding::TowardZero), -1);
}

#[test]
fn march_from_inside_a_wall_stops_at_once() {
    let g = Grid::parse(&enclosed_map()).unwrap();
    let origin = Point { x: 0, y: 3 * 50 * UNIT };
    let h = march(&g, origin, Point { x: UNIT, y: 0 }, 50, CellRounding::Nearest).unwrap();
    assert_eq!(h.steps, 0);
    assert_eq!(h.pos, origin);
    assert_eq!(h.wall_dist, Point { x: 0, y: 0 });
}

#[test]
fn march_reaches_the_east_wall() {
    let g = Grid::parse(&enclosed_map()).unwrap();
    // From the centre of cell (3, 3) eastward: x reaches 6.5 cells after 175 steps.
    let origin = Point { x: 3 * 50 * UNIT, y: 3 * 50 * UNIT };
    let h = march(&g, origin, Point { x: UNIT, y: 0 }, 50, CellRounding::Nearest).unwrap();
    assert_eq!(h.steps, 175);
    assert_eq!(h.wall_dist, Point { x: 175 * UNIT, y: 0 });
    assert_eq!(h.pos, Point { x: 3 * 50 * UNIT + 175 * UNIT, y: 3 * 50 * UNIT });
}

#[test]
fn march_without_motion_gives_up() {
    let g = Grid::parse(&enclosed_map()).unwrap();
    let origin = Point { x: 3 * 50 * UNIT, y: 3 * 50 * UNIT };
    let r = march(&g, origin, Point { x: 0, y: 0 }, 50, CellRounding::Nearest);
    assert_eq!(r.err(), Some(RaycastError::RayEscapedBounds));
}

#[test]
fn far_origin_escapes() {
    let g = Grid::parse(&"1".repeat(64)).unwrap();
    let r = march(&g, Point { x: i64::MAX, y: 0 }, Point { x: UNIT, y: 0 }, 50, CellRounding::Nearest);
    assert_eq!(r.err(), Some(RaycastError::RayEscapedBounds));
}

#[test]
fn column_angles_span_half_the_fov() {
    assert_eq!(column_angle(0, 0), -16_000_000);
    assert_eq!(column_angle(90_000_000, 400), 82_000_000);
    assert_eq!(column_angle(0, 799), -16_000_000 + 799 * 20_000);
}

#[test]
fn negative_origins_are_rescued() {
    let o = column_origin(0, 2, Point { x: -UNIT / 2, y: -UNIT / 2 });
    assert_eq!(o, Point { x: RESCUE_COORD, y: 2 * UNIT - UNIT / 2 });
    let o = column_origin(-3, 0, Point { x: UNIT, y: 0 });
    assert_eq!(o, Point { x: RESCUE_COORD, y: 0 });
}

#[test]
fn all_walls_give_identical_strips() {
    let map = "11111111".repeat(8);
    let offsets = column_offsets(0);
    let strips = first_person_strips(&map, 1, 1, Point { x: UNIT, y: 0 }, &offsets, ColumnDirection::Shared).unwrap();
    assert_eq!(strips.len(), 800);
    for (i, s) in strips.iter().enumerate() {
        assert_eq!(s.column as usize, i);
        assert_eq!(s.distance, 0);
        assert_eq!(s.length, strips[0].length);
        assert_eq!(s.length, 540 * UNIT);
    }
}

#[test]
fn open_map_escapes() {
    let map = "0".repeat(64);
    let offsets = column_offsets(0);
    let r = first_person_strips(&map, 1, 1, Point { x: UNIT, y: 0 }, &offsets, ColumnDirection::Shared);
    assert_eq!(r.err(), Some(RaycastError::RayEscapedBounds));
    let t = top_down_view(&map, Point { x: 3 * UNIT, y: 3 * UNIT }, Point { x: UNIT, y: 0 });
    assert_eq!(t.err(), Some(RaycastError::RayEscapedBounds));
}

#[test]
fn enclosed_frame_has_distances() {
    let offsets = column_offsets(0);
    let strips = first_person_strips(&enclosed_map(), 3, 3, Point { x: UNIT, y: 0 }, &offsets, ColumnDirection::Shared).unwrap();
    // Every column starts near x = 4 and marches east to x = 6.5.
    for s in &strips {
        assert!(s.distance > 100 * UNIT as u64 && s.distance < 130 * UNIT as u64);
        assert_eq!(s.length, 540 * UNIT - 2 * s.distance as i64);
    }
    // Column 0 starts at x = 3 + cos(-16 degrees) = 3.9613: 127 steps to 6.5.
    assert_eq!(strips[0].distance, 127 * UNIT as u64);
}

#[test]
fn top_down_trail() {
    let v = top_down_view(&enclosed_map(), Point { x: 5 * UNIT, y: 3 * UNIT }, Point { x: UNIT, y: 0 }).unwrap();
    // Truncation: x reaches 7 cells after 50 steps.
    assert_eq!(v.start, Point { x: 125 * UNIT, y: 75 * UNIT });
    assert_eq!(v.trail.len(), 51);
    assert_eq!(v.trail[0], Point { x: 126 * UNIT, y: 75 * UNIT });
    assert_eq!(v.trail[48], Point { x: 174 * UNIT, y: 75 * UNIT });
    assert_eq!(v.trail[49], Point { x: 175 * UNIT, y: 75 * UNIT });
    assert_eq!(v.trail[50], Point { x: 175 * UNIT, y: 75 * UNIT });
    assert_eq!(v.grid.cell(0, 0), Cell::Wall);
    assert_eq!(v.grid.cell(3, 3), Cell::Empty);
}

#[test]
fn top_down_inside_wall() {
    let v = top_down_view(&enclosed_map(), Point { x: UNIT / 2, y: UNIT / 2 }, Point { x: 0, y: UNIT }).unwrap();
    assert_eq!(v.trail, vec![Point { x: UNIT / 2 * 25, y: UNIT / 2 * 25 }]);
}

#[test]
fn dice_stay_in_range_and_reach_both_ends() {
    let mut seen = [false; 7];
    for _ in 0..2000 {
        let r = roll_dice(6);
        assert!((1..=6).contains(&r));
        seen[r as usize] = true;
    }
    assert!(seen[1] && seen[6]);
    assert_eq!(roll_dice(1), 1);
}

#[test]
fn per_column_rays_follow_their_own_angle() {
    let offsets = column_offsets(0);
    let shared = first_person_strips(&enclosed_map(), 3, 3, Point { x: UNIT, y: 0 }, &offsets, ColumnDirection::Shared).unwrap();
    let own = first_person_strips(&enclosed_map(), 3, 3, Point { x: UNIT, y: 0 }, &offsets, ColumnDirection::PerColumn).unwrap();
    // Column 0 marches 16 degrees off the heading: it still reaches x = 6.5
    // first, but along a longer path (133 steps instead of 127).
    assert_eq!(shared[0].distance, 127 * UNIT as u64);
    assert!(own[0].distance > shared[0].distance);
    assert!(own[0].distance < 134 * UNIT as u64);
    // With the shared heading every column marches east.
    assert_eq!(shared[400].length, 540 * UNIT - 2 * shared[400].distance as i64);
}
