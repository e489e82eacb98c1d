//! Player state and the movement rules: a tentative move commits only
//! onto walkable floor and is otherwise fully reverted; turns always
//! commit; a quit event only signals.

use crate::grid::{Cell, Grid};
use crate::ray::MAX_COORD;
use crate::{ANGULAR_SPEED, LINEAR_SPEED, SCALE};
use vstd::prelude::*;

verus! {

/// Largest elapsed-time argument (in milli-seconds) the movement rules
/// accept; keeps every displacement within `i64`.
pub const MAX_ELAPSED: i64 = 3_600_000;

/// The player's pose: scaled world position and scaled angle in
/// milliradians.
#[derive(Clone, Copy, PartialEq, Eq, Structural, Debug)]
pub struct PlayerState {
    pub x: i64,
    pub y: i64,
    pub angle: i64,
}

/// One keyboard event, as the frame loop consumes it. An event that no
/// key binding produces carries a description to surface on screen.
#[derive(PartialEq, Eq, Debug)]
pub enum InputEvent {
    MoveForward,
    MoveBackward,
    TurnLeft,
    TurnRight,
    Quit,
    Unrecognized(String),
}

/// The displacement (in milli-units) of one move along scaled
/// direction component `dir` over `elapsed` milli-seconds at
/// `LINEAR_SPEED`, truncated toward zero as the sampling rule
/// truncates.
pub open spec fn step_delta(dir: int, elapsed: int) -> int {
    if dir >= 0 {
        (dir * LINEAR_SPEED * elapsed) / (SCALE as int)
    } else {
        -(((-dir) * LINEAR_SPEED * elapsed) / (SCALE as int))
    }
}

/// Whether scaled position `(sx, sy)` lies on walkable floor: inside
/// the grid and on an `Empty` cell (positions truncate to cell
/// indices; a negative coordinate is outside).
pub open spec fn walkable_pos(g: Grid, sx: int, sy: int) -> bool {
    &&& 0 <= sx
    &&& 0 <= sy
    &&& sx / (SCALE as int) < g.dim_x()
    &&& sy / (SCALE as int) < g.dim_y()
    &&& g.cell(sx / (SCALE as int), sy / (SCALE as int)) == Cell::Empty
}

/// Where one directional input puts the player: at the tentative
/// position when it is walkable, otherwise exactly back at the old
/// pose.
pub open spec fn move_spec(p: PlayerState, dx: int, dy: int, elapsed: int, g: Grid) -> PlayerState {
    let tx = p.x + step_delta(dx, elapsed);
    let ty = p.y + step_delta(dy, elapsed);
    if walkable_pos(g, tx, ty) {
        PlayerState { x: tx as i64, y: ty as i64, angle: p.angle }
    } else {
        p
    }
}

/// The displacement of one move along scaled direction component
/// `dir` over `elapsed` milli-seconds.
fn step_displacement(dir: i64, elapsed: i64) -> (d: i64)
    requires
        -SCALE <= dir <= SCALE,
        0 <= elapsed <= MAX_ELAPSED,
    ensures
        d == step_delta(dir as int, elapsed as int),
        -MAX_COORD < d < MAX_COORD,
{
    let mag_signed: i64 = if dir >= 0 {
        dir
    } else {
        -dir
    };
    let mag = mag_signed as u64;
    proof {
        assert(0 <= mag_signed <= SCALE);
        assert(mag <= 1000);
        assert(LINEAR_SPEED as u64 == 10);
    }
    let speed_mag = mag * (LINEAR_SPEED as u64);
    proof {
        assert(speed_mag * (elapsed as u64) <= 36_000_000_000) by (nonlinear_arith)
            requires
                speed_mag <= 10_000,
                elapsed as u64 <= 3_600_000,
        ;
    }
    let num = speed_mag * (elapsed as u64);
    let q = num / (SCALE as u64);
    proof {
        assert(q <= num);
    }
    if dir >= 0 {
        q as i64
    } else {
        -(q as i64)
    }
}

/// Attempts one directional move: the tentative position is the old
/// one displaced along the scaled direction `(dir_x, dir_y)` over
/// `elapsed` milli-seconds; it commits only when its cell is walkable,
/// and any blocked move leaves the pose exactly as it was.
pub fn try_move(p: &PlayerState, dir_x: i64, dir_y: i64, elapsed: i64, grid: &Grid) -> (q:
    PlayerState)
    requires
        grid.wf(),
        -SCALE <= dir_x <= SCALE,
        -SCALE <= dir_y <= SCALE,
        0 <= elapsed <= MAX_ELAPSED,
        -MAX_COORD <= p.x <= MAX_COORD,
        -MAX_COORD <= p.y <= MAX_COORD,
    ensures
        q == move_spec(*p, dir_x as int, dir_y as int, elapsed as int, *grid),
        !walkable_pos(
            *grid,
            p.x + step_delta(dir_x as int, elapsed as int),
            p.y + step_delta(dir_y as int, elapsed as int),
        ) ==> q == *p,
{
    let tx = p.x + step_displacement(dir_x, elapsed);
    let ty = p.y + step_displacement(dir_y, elapsed);
    if tx >= 0 && ty >= 0 {
        let cx_wide = (tx as u64) / (SCALE as u64);
        let cy_wide = (ty as u64) / (SCALE as u64);
        let dim_x = grid.size_x();
        let dim_y = grid.size_y();
        if cx_wide < (dim_x as u64) && cy_wide < (dim_y as u64) {
            let c = grid.cell_in(cx_wide as usize, cy_wide as usize);
            if c == Cell::Empty {
                return PlayerState { x: tx, y: ty, angle: p.angle };
            }
        }
    }
    *p
}

/// One full turn step: the angle advanced by `ANGULAR_SPEED` over
/// `elapsed` milli-seconds, counter-clockwise for `TurnLeft`
/// (decreasing), clockwise for `TurnRight` (increasing); turns are
/// never collision-checked.
pub open spec fn turn_amount(elapsed: int) -> int {
    ANGULAR_SPEED * elapsed
}

/// Where one input event puts the player, and whether it quits.
pub open spec fn event_spec(p: PlayerState, e: InputEvent, dx: int, dy: int, elapsed: int, g: Grid)
    -> (PlayerState, bool) {
    match e {
        InputEvent::MoveForward => (move_spec(p, dx, dy, elapsed, g), false),
        InputEvent::MoveBackward => (move_spec(p, -dx, -dy, elapsed, g), false),
        InputEvent::TurnLeft => (
            PlayerState { x: p.x, y: p.y, angle: (p.angle - turn_amount(elapsed)) as i64 },
            false,
        ),
        InputEvent::TurnRight => (
            PlayerState { x: p.x, y: p.y, angle: (p.angle + turn_amount(elapsed)) as i64 },
            false,
        ),
        InputEvent::Quit => (p, true),
        InputEvent::Unrecognized(_) => (p, false),
    }
}

/// Applies one input event to the player's pose: forward and backward
/// moves follow the movement rule along the scaled facing direction
/// `(dir_x, dir_y)` (backward negated), turns always commit, a quit
/// event changes nothing and sets the returned flag, and an
/// unrecognized event changes nothing.
pub fn apply_event(
    p: &PlayerState,
    event: &InputEvent,
    dir_x: i64,
    dir_y: i64,
    elapsed: i64,
    grid: &Grid,
) -> (r: (PlayerState, bool))
    requires
        grid.wf(),
        -SCALE <= dir_x <= SCALE,
        -SCALE <= dir_y <= SCALE,
        0 <= elapsed <= MAX_ELAPSED,
        -MAX_COORD <= p.x <= MAX_COORD,
        -MAX_COORD <= p.y <= MAX_COORD,
        -MAX_COORD <= p.angle <= MAX_COORD,
    ensures
        r == event_spec(*p, *event, dir_x as int, dir_y as int, elapsed as int, *grid),
{
    match event {
        InputEvent::MoveForward => (try_move(p, dir_x, dir_y, elapsed, grid), false),
        InputEvent::MoveBackward => (try_move(p, -dir_x, -dir_y, elapsed, grid), false),
        InputEvent::TurnLeft => (
            PlayerState { x: p.x, y: p.y, angle: p.angle - ANGULAR_SPEED * elapsed },
            false,
        ),
        InputEvent::TurnRight => (
            PlayerState { x: p.x, y: p.y, angle: p.angle + ANGULAR_SPEED * elapsed },
            false,
        ),
        InputEvent::Quit => (*p, true),
        InputEvent::Unrecognized(_) => (*p, false),
    }
}

} // verus!
