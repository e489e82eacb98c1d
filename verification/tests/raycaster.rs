use raycaster::grid::{Cell, Grid, GridError};
use raycaster::player::{apply_event, try_move, InputEvent, PlayerState};
use raycaster::ray::cast_ray;
use raycaster::render::{cell_glyph, ceiling_index, column_angle, draw_minimap, render_frame};
use raycaster::screen::Screen;
use raycaster::shade::{direction_glyph, floor_shade, wall_shade};
use raycaster::MAX_RENDER_DIST;

fn grid_of(lines: &[&str]) -> Grid {
    let rows: Vec<Vec<char>> = lines.iter().map(|l| l.chars().collect()).collect();
    Grid::from_lines(&rows).expect("valid grid")
}

/// A 4x4 map: all-Wall border, all-Empty 2x2 interior.
fn small_box() -> Grid {
    grid_of(&["####", "#..#", "#..#", "####"])
}

#[test]
fn grid_rejects_empty_input() {
    assert!(matches!(Grid::new(Vec::new()), Err(GridError::Empty)));
    assert!(matches!(Grid::new(vec![Vec::new()]), Err(GridError::Empty)));
}

#[test]
fn grid_rejects_ragged_rows() {
    let rows = vec![vec![Cell::Wall, Cell::Wall], vec![Cell::Wall]];
    assert!(matches!(Grid::new(rows), Err(GridError::Ragged)));
    let lines: Vec<Vec<char>> = vec!["###".chars().collect(), "##".chars().collect()];
    assert!(matches!(Grid::from_lines(&lines), Err(GridError::Ragged)));
}

#[test]
fn grid_cell_access_is_bounds_checked() {
    let g = small_box();
    assert_eq!(g.cell_at(0, 0).unwrap(), Cell::Wall);
    assert_eq!(g.cell_at(1, 1).unwrap(), Cell::Empty);
    assert_eq!(g.cell_at(4, 0).unwrap_err(), GridError::OutOfBounds);
    assert_eq!(g.cell_at(0, 4).unwrap_err(), GridError::OutOfBounds);
}

#[test]
fn grid_walkability() {
    let g = small_box();
    assert!(g.is_walkable(1, 1));
    assert!(g.is_walkable(2, 2));
    assert!(!g.is_walkable(0, 0));
    assert!(!g.is_walkable(5, 5));
}

#[test]
fn grid_enclosure_check() {
    assert!(small_box().is_enclosed());
    assert!(!grid_of(&["####", "#...", "####"]).is_enclosed());
}

#[test]
fn cast_ray_hits_interior_wall() {
    // Player at (1, 1), angle 0: the ray marches along +y and stops on
    // the border cell two world units away.
    let g = small_box();
    let d = cast_ray(1000, 1000, 0, 1000, &g);
    assert!(d < MAX_RENDER_DIST);
    assert_eq!(d, 2000);
}

#[test]
fn cast_ray_reports_max_without_hit() {
    let mut lines: Vec<&str> = Vec::new();
    let row = ".".repeat(40);
    for _ in 0..40 {
        lines.push(&row);
    }
    let g = grid_of(&lines);
    // No wall ahead within 16 units: exactly the maximum distance.
    assert_eq!(cast_ray(1000, 1000, 0, 1000, &g), MAX_RENDER_DIST);
    // Leaving the coordinate range reports the maximum as well.
    assert_eq!(cast_ray(1000, 1000, 0, -1000, &g), MAX_RENDER_DIST);
}

#[test]
fn cast_ray_from_inside_wall_is_near_zero() {
    let g = grid_of(&["##", "##"]);
    assert_eq!(cast_ray(500, 500, 0, 1000, &g), 100);
}

#[test]
fn cast_ray_stays_in_range() {
    let g = small_box();
    for dir in [
        (0i64, 1000i64),
        (1000, 0),
        (0, -1000),
        (-1000, 0),
        (707, 707),
        (-707, 707),
        (383, -924),
    ] {
        let d = cast_ray(1500, 1500, dir.0, dir.1, &g);
        assert!(0 < d && d <= MAX_RENDER_DIST);
    }
}

#[test]
fn wall_shade_exact_boundaries() {
    assert_eq!(wall_shade(0), '\u{2588}');
    assert_eq!(wall_shade(4000), '\u{2588}');
    assert_eq!(wall_shade(4001), '\u{2593}');
    assert_eq!(wall_shade(5333), '\u{2593}');
    assert_eq!(wall_shade(5334), '\u{2592}');
    assert_eq!(wall_shade(7999), '\u{2592}');
    assert_eq!(wall_shade(8000), '\u{2591}');
    assert_eq!(wall_shade(15999), '\u{2591}');
    assert_eq!(wall_shade(16000), ' ');
    assert_eq!(wall_shade(1_000_000), ' ');
}

#[test]
fn wall_shade_is_monotonic_over_samples() {
    let density = |c: char| match c {
        '\u{2588}' => 0,
        '\u{2593}' => 1,
        '\u{2592}' => 2,
        '\u{2591}' => 3,
        _ => 4,
    };
    let mut prev = 0;
    for d in 0..20000i64 {
        let band = density(wall_shade(d));
        assert!(band >= prev);
        prev = band;
    }
}

#[test]
fn floor_shade_bands() {
    assert_eq!(floor_shade(100, 100), '#');
    assert_eq!(floor_shade(88, 100), '#');
    assert_eq!(floor_shade(80, 100), 'x');
    assert_eq!(floor_shade(70, 100), '.');
    assert_eq!(floor_shade(56, 100), '-');
    assert_eq!(floor_shade(50, 100), ' ');
}

#[test]
fn direction_glyph_bands() {
    assert_eq!(direction_glyph(0), 'v');
    assert_eq!(direction_glyph(5498), 'v');
    assert_eq!(direction_glyph(6283), 'v');
    assert_eq!(direction_glyph(1000), '<');
    assert_eq!(direction_glyph(2355), '<');
    assert_eq!(direction_glyph(2356), '^');
    assert_eq!(direction_glyph(3926), '^');
    assert_eq!(direction_glyph(3927), '>');
    assert_eq!(direction_glyph(5497), '>');
}

#[test]
fn direction_glyph_irregular_first_radian() {
    // Values below one radian are sign-flipped before banding, so the
    // whole first radian shows the forward glyph.
    assert_eq!(direction_glyph(500), 'v');
    assert_eq!(direction_glyph(785), 'v');
    assert_eq!(direction_glyph(999), 'v');
    // A negative remainder is folded the same way.
    assert_eq!(direction_glyph(-500), 'v');
    assert_eq!(direction_glyph(-2000), '<');
    // A full turn plus one radian lands in the left band.
    assert_eq!(direction_glyph(7283), '<');
}

#[test]
fn screen_starts_blank() {
    let s = Screen::new(5, 2);
    assert_eq!(s.width(), 5);
    assert_eq!(s.height(), 2);
    assert_eq!(s.cells().len(), 10);
    assert!(s.cells().iter().all(|&c| c == ' '));
}

#[test]
fn draw_fills_whole_buffer() {
    let mut s = Screen::new(5, 2);
    s.draw(0, 0, "1234567890");
    let text: String = s.cells().iter().collect();
    assert_eq!(text, "1234567890");
}

#[test]
fn draw_clips_at_buffer_end() {
    let mut s = Screen::new(5, 2);
    s.draw(8, 0, "ABCDE");
    let cells = s.cells();
    assert_eq!(cells[8], 'A');
    assert_eq!(cells[9], 'B');
    assert!(cells[..8].iter().all(|&c| c == ' '));
}

#[test]
fn draw_outside_writes_nothing() {
    let mut s = Screen::new(5, 2);
    s.draw(100, 0, "zz");
    s.draw(0, 7, "zz");
    s.put(0, 7, 'z');
    s.put(100, 0, 'z');
    assert!(s.cells().iter().all(|&c| c == ' '));
    let mut empty = Screen::new(0, 0);
    empty.draw(0, 0, "zz");
    assert_eq!(empty.cells().len(), 0);
}

#[test]
fn blocked_move_is_fully_reverted() {
    // A wall one unit ahead; at speed 10 over a full second the
    // tentative position lands inside a wall cell, so the move reverts.
    let g = grid_of(&["#############", "#.###########", "#############"]);
    let p = PlayerState { x: 1000, y: 1000, angle: 0 };
    let q = try_move(&p, 0, 1000, 1000, &g);
    assert_eq!(q, p);
}

#[test]
fn walkable_move_commits() {
    let g = grid_of(&["####", "#..#", "#..#", "####"]);
    let p = PlayerState { x: 1000, y: 1000, angle: 0 };
    // 0.1 s at speed 10 moves one unit onto empty floor.
    let q = try_move(&p, 0, 1000, 100, &g);
    assert_eq!(q, PlayerState { x: 1000, y: 2000, angle: 0 });
}

#[test]
fn move_out_of_bounds_is_blocked() {
    let g = grid_of(&["....", "....", "....", "...."]);
    let p = PlayerState { x: 1000, y: 1000, angle: 0 };
    let q = try_move(&p, 0, -1000, 1000, &g);
    assert_eq!(q, p);
}

#[test]
fn apply_event_semantics() {
    let g = small_box();
    let p = PlayerState { x: 1000, y: 1000, angle: 0 };
    let (q, quit) = apply_event(&p, &InputEvent::TurnLeft, 0, 1000, 1000, &g);
    assert!(!quit);
    assert_eq!(q, PlayerState { x: 1000, y: 1000, angle: -5000 });
    let (q, quit) = apply_event(&p, &InputEvent::TurnRight, 0, 1000, 200, &g);
    assert!(!quit);
    assert_eq!(q, PlayerState { x: 1000, y: 1000, angle: 1000 });
    let (q, quit) = apply_event(&p, &InputEvent::MoveForward, 0, 1000, 100, &g);
    assert!(!quit);
    assert_eq!(q, PlayerState { x: 1000, y: 2000, angle: 0 });
    let (q, quit) = apply_event(&p, &InputEvent::MoveBackward, 0, -1000, 100, &g);
    assert!(!quit);
    assert_eq!(q, PlayerState { x: 1000, y: 2000, angle: 0 });
    let (q, quit) = apply_event(&p, &InputEvent::Quit, 0, 1000, 100, &g);
    assert!(quit);
    assert_eq!(q, p);
    let (q, quit) = apply_event(
        &p,
        &InputEvent::Unrecognized(String::from("key F1")),
        0,
        1000,
        100,
        &g,
    );
    assert!(!quit);
    assert_eq!(q, p);
}

#[test]
fn column_angle_spans_the_fov() {
    assert_eq!(column_angle(0, 0, 100), -392);
    assert_eq!(column_angle(0, 50, 100), 0);
    assert_eq!(column_angle(0, 99, 100), 385);
    assert_eq!(column_angle(2000, 0, 100), 1608);
}

#[test]
fn ceiling_index_projection() {
    // A close wall fills the window: the split reaches the top row.
    assert_eq!(ceiling_index(8, 2000), 0);
    // A far wall leaves most of the window as ceiling.
    assert_eq!(ceiling_index(100, 16000), 44);
    assert_eq!(ceiling_index(100, 2000), 0);
}

#[test]
fn render_frame_paints_columns() {
    let g = small_box();
    let mut s = Screen::new(4, 8);
    let dirs: Vec<(i64, i64)> = vec![(0, 1000); 4];
    render_frame(&mut s, &g, 1000, 1000, &dirs);
    let cells = s.cells();
    // Every column hits the wall two units ahead: split row 0, wall
    // rows 1..=7 in the darkest shade, row 0 floor-shaded blank.
    for col in 0..4 {
        assert_eq!(cells[0 * 4 + col], ' ');
        for y in 1..8 {
            assert_eq!(cells[y * 4 + col], '\u{2588}');
        }
    }
}

#[test]
fn minimap_overlay() {
    let g = small_box();
    let mut s = Screen::new(10, 10);
    draw_minimap(&mut s, &g, 1, 1, direction_glyph(0));
    let cells = s.cells();
    // The map is drawn at offset (2, 2): borders, floor, player icon.
    assert_eq!(cells[2 * 10 + 2], '#');
    assert_eq!(cells[2 * 10 + 5], '#');
    assert_eq!(cells[3 * 10 + 3], 'v');
    assert_eq!(cells[3 * 10 + 4], '.');
    assert_eq!(cells[5 * 10 + 5], '#');
    // Cells outside the minimap keep their previous contents.
    assert_eq!(cells[0], ' ');
    assert_eq!(cells[9 * 10 + 9], ' ');
}

#[test]
fn minimap_clips_below_buffer() {
    let g = small_box();
    let mut s = Screen::new(10, 4);
    draw_minimap(&mut s, &g, 1, 1, 'v');
    let cells = s.cells();
    assert_eq!(cells[2 * 10 + 2], '#');
    assert_eq!(cells[3 * 10 + 3], 'v');
    assert_eq!(cells.len(), 40);
}

#[test]
fn cell_glyphs() {
    assert_eq!(cell_glyph(Cell::Wall), '#');
    assert_eq!(cell_glyph(Cell::Empty), '.');
}
