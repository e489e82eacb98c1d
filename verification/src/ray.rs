//! The raycaster: marches a ray from an origin along a direction in
//! fixed steps until it leaves the grid's coordinate range, hits a
//! wall, or reaches the maximum render distance.
//!
//! Sample points are kept in units of `SCALE * SCALE` (position and
//! direction are both scaled), so the march is exact integer
//! arithmetic; a sample's cell is its coordinate divided down and
//! truncated.

use crate::grid::{Cell, Grid};
use crate::{MAX_RENDER_DIST, MAX_RAY_STEPS, RAY_STEP, SCALE};
use vstd::prelude::*;

verus! {

/// Largest origin coordinate (in milli-units) the raycaster accepts;
/// keeps every sample coordinate within `i64`.
pub const MAX_COORD: i64 = 0x100_0000_0000;

/// Largest grid dimension the raycaster accepts; keeps the scaled
/// range limits within `i64`.
pub const MAX_DIM: usize = 0x4000_0000;

/// The sample coordinate after `k` steps, in `SCALE * SCALE` units:
/// `origin + dir * (k * RAY_STEP / SCALE)`, multiplied through by
/// `SCALE`.
pub open spec fn sample_coord(origin: int, dir: int, k: int) -> int {
    origin * SCALE + dir * (k * RAY_STEP)
}

/// Whether the sample point after `k` steps lies inside the grid's
/// coordinate range.
pub open spec fn sample_in_range(g: Grid, ox: int, oy: int, dx: int, dy: int, k: int) -> bool {
    &&& 0 <= sample_coord(ox, dx, k) < g.dim_x() * (SCALE * SCALE)
    &&& 0 <= sample_coord(oy, dy, k) < g.dim_y() * (SCALE * SCALE)
}

/// Whether the sample point after `k` steps lies inside the grid and
/// in a wall cell (cell indices truncate the sample coordinates).
pub open spec fn sample_wall(g: Grid, ox: int, oy: int, dx: int, dy: int, k: int) -> bool {
    &&& sample_in_range(g, ox, oy, dx, dy, k)
    &&& g.cell(
        sample_coord(ox, dx, k) / (SCALE * SCALE),
        sample_coord(oy, dy, k) / (SCALE * SCALE),
    ) == Cell::Wall
}

/// The distance the march reports when it still has steps `k` up to
/// `MAX_RAY_STEPS` before it: the first step whose sample leaves the
/// range reports the maximum render distance, the first wall sample
/// reports the accumulated distance, and a march that runs out of
/// steps reports the maximum render distance.
pub open spec fn march_from(g: Grid, ox: int, oy: int, dx: int, dy: int, k: int) -> int
    decreases MAX_RAY_STEPS + 1 - k,
{
    if k < 1 || k > MAX_RAY_STEPS {
        MAX_RENDER_DIST as int
    } else if !sample_in_range(g, ox, oy, dx, dy, k) {
        MAX_RENDER_DIST as int
    } else if sample_wall(g, ox, oy, dx, dy, k) {
        k * RAY_STEP
    } else {
        march_from(g, ox, oy, dx, dy, k + 1)
    }
}

/// The distance `cast_ray` reports: the whole march, from the first
/// step.
pub open spec fn cast_ray_spec(g: Grid, ox: int, oy: int, dx: int, dy: int) -> int {
    march_from(g, ox, oy, dx, dy, 1)
}

/// Marches a ray from scaled origin `(origin_x, origin_y)` along the
/// scaled direction `(dir_x, dir_y)` in steps of `RAY_STEP`, and
/// reports the scaled distance to the first wall sample, or
/// `MAX_RENDER_DIST` when the ray leaves the grid's coordinate range
/// or never meets a wall within that distance.
pub fn cast_ray(origin_x: i64, origin_y: i64, dir_x: i64, dir_y: i64, grid: &Grid) -> (dist: i64)
    requires
        grid.wf(),
        grid.dim_x() <= MAX_DIM,
        grid.dim_y() <= MAX_DIM,
        -MAX_COORD <= origin_x <= MAX_COORD,
        -MAX_COORD <= origin_y <= MAX_COORD,
        -SCALE <= dir_x <= SCALE,
        -SCALE <= dir_y <= SCALE,
    ensures
        dist == cast_ray_spec(*grid, origin_x as int, origin_y as int, dir_x as int, dir_y as int),
        0 < dist <= MAX_RENDER_DIST,
{
    proof {
        lemma_march_bounds(*grid, origin_x as int, origin_y as int, dir_x as int, dir_y as int, 1);
    }
    let scale2: i64 = SCALE * SCALE;
    let lim_x: i64 = (grid.size_x() as i64) * scale2;
    let lim_y: i64 = (grid.size_y() as i64) * scale2;
    let mut k: i64 = 1;
    while k <= MAX_RAY_STEPS
        invariant
            1 <= k <= MAX_RAY_STEPS + 1,
            grid.wf(),
            grid.dim_x() <= MAX_DIM,
            grid.dim_y() <= MAX_DIM,
            -MAX_COORD <= origin_x <= MAX_COORD,
            -MAX_COORD <= origin_y <= MAX_COORD,
            -SCALE <= dir_x <= SCALE,
            -SCALE <= dir_y <= SCALE,
            scale2 == SCALE * SCALE,
            lim_x == grid.dim_x() * (SCALE * SCALE),
            lim_y == grid.dim_y() * (SCALE * SCALE),
            march_from(*grid, origin_x as int, origin_y as int, dir_x as int, dir_y as int, 1)
                == march_from(
                *grid,
                origin_x as int,
                origin_y as int,
                dir_x as int,
                dir_y as int,
                k as int,
            ),
        decreases MAX_RAY_STEPS + 1 - k,
    {
        let step_dist = k * RAY_STEP;
        proof {
            assert(-(SCALE * MAX_RENDER_DIST) <= dir_x * step_dist <= SCALE * MAX_RENDER_DIST
                && -(SCALE * MAX_RENDER_DIST) <= dir_y * step_dist <= SCALE * MAX_RENDER_DIST)
                by (nonlinear_arith)
                requires
                    -SCALE <= dir_x <= SCALE,
                    -SCALE <= dir_y <= SCALE,
                    0 <= step_dist <= MAX_RENDER_DIST,
            ;
        }
        let sx: i64 = origin_x * SCALE + dir_x * step_dist;
        let sy: i64 = origin_y * SCALE + dir_y * step_dist;
        if sx < 0 || sx >= lim_x || sy < 0 || sy >= lim_y {
            return MAX_RENDER_DIST;
        }
        let cx_wide = (sx as u64) / (scale2 as u64);
        let cy_wide = (sy as u64) / (scale2 as u64);
        proof {
            assert(cx_wide < grid.dim_x()) by (nonlinear_arith)
                requires
                    0 <= sx < grid.dim_x() * (SCALE * SCALE),
                    cx_wide == sx as int / (SCALE * SCALE),
                    grid.dim_x() > 0,
            ;
            assert(cy_wide < grid.dim_y()) by (nonlinear_arith)
                requires
                    0 <= sy < grid.dim_y() * (SCALE * SCALE),
                    cy_wide == sy as int / (SCALE * SCALE),
                    grid.dim_y() > 0,
            ;
        }
        let cx = cx_wide as usize;
        let cy = cy_wide as usize;
        let c = grid.cell_in(cx, cy);
        if c == Cell::Wall {
            return k * RAY_STEP;
        }
        k += 1;
    }
    MAX_RENDER_DIST
}

/// The reported distance is always positive and never exceeds the
/// maximum render distance, whatever the origin, direction and grid.
pub proof fn lemma_cast_ray_bounds(g: Grid, ox: int, oy: int, dx: int, dy: int)
    ensures
        0 < cast_ray_spec(g, ox, oy, dx, dy) <= MAX_RENDER_DIST,
{
    lemma_march_bounds(g, ox, oy, dx, dy, 1);
}

proof fn lemma_march_bounds(g: Grid, ox: int, oy: int, dx: int, dy: int, k: int)
    ensures
        0 < march_from(g, ox, oy, dx, dy, k) <= MAX_RENDER_DIST,
    decreases MAX_RAY_STEPS + 1 - k,
{
    if 1 <= k <= MAX_RAY_STEPS && sample_in_range(g, ox, oy, dx, dy, k) && !sample_wall(
        g,
        ox,
        oy,
        dx,
        dy,
        k,
    ) {
        lemma_march_bounds(g, ox, oy, dx, dy, k + 1);
    }
}

/// Whether some step strictly before the last one is the ray's first
/// stopping sample and meets a wall: every earlier sample stays inside
/// the range without meeting a wall.
pub open spec fn wall_hit_before_max(g: Grid, ox: int, oy: int, dx: int, dy: int) -> bool {
    wall_hit_from(g, ox, oy, dx, dy, 1)
}

/// The same, for the tail of the march that starts at step `k`.
pub open spec fn wall_hit_from(g: Grid, ox: int, oy: int, dx: int, dy: int, k: int) -> bool {
    exists|k0: int|
        k <= k0 < MAX_RAY_STEPS && #[trigger] sample_wall(g, ox, oy, dx, dy, k0) && (forall|j: int|
            k <= j < k0 ==> #[trigger] sample_in_range(g, ox, oy, dx, dy, j) && !sample_wall(
                g,
                ox,
                oy,
                dx,
                dy,
                j,
            ))
}

/// The raycaster reports exactly the maximum render distance if and
/// only if no wall sample stops the march within that distance: a ray
/// that first leaves the coordinate range, or that runs out of steps,
/// reports the maximum, and a wall met on the very last step is at the
/// maximum distance itself.
pub proof fn lemma_cast_ray_max_iff_no_hit(g: Grid, ox: int, oy: int, dx: int, dy: int)
    ensures
        cast_ray_spec(g, ox, oy, dx, dy) == MAX_RENDER_DIST <==> !wall_hit_before_max(
            g,
            ox,
            oy,
            dx,
            dy,
        ),
{
    lemma_march_max_iff(g, ox, oy, dx, dy, 1);
}

proof fn lemma_march_max_iff(g: Grid, ox: int, oy: int, dx: int, dy: int, k: int)
    requires
        1 <= k,
    ensures
        march_from(g, ox, oy, dx, dy, k) == MAX_RENDER_DIST <==> !wall_hit_from(
            g,
            ox,
            oy,
            dx,
            dy,
            k,
        ),
    decreases MAX_RAY_STEPS + 1 - k,
{
    if k >= MAX_RAY_STEPS {
        // No step strictly before the last is left; the march reports
        // the maximum whether it stops on a wall at the last step or
        // runs out.
        assert(!wall_hit_from(g, ox, oy, dx, dy, k));
        if k == MAX_RAY_STEPS && sample_in_range(g, ox, oy, dx, dy, k) && sample_wall(
            g,
            ox,
            oy,
            dx,
            dy,
            k,
        ) {
            assert(march_from(g, ox, oy, dx, dy, k) == MAX_RAY_STEPS * RAY_STEP);
        }
        if k == MAX_RAY_STEPS && sample_in_range(g, ox, oy, dx, dy, k) && !sample_wall(
            g,
            ox,
            oy,
            dx,
            dy,
            k,
        ) {
            assert(march_from(g, ox, oy, dx, dy, k + 1) == MAX_RENDER_DIST);
        }
    } else if !sample_in_range(g, ox, oy, dx, dy, k) {
        if wall_hit_from(g, ox, oy, dx, dy, k) {
            let k0 = choose|k0: int|
                k <= k0 < MAX_RAY_STEPS && #[trigger] sample_wall(g, ox, oy, dx, dy, k0) && (
                forall|j: int|
                    k <= j < k0 ==> #[trigger] sample_in_range(g, ox, oy, dx, dy, j)
                        && !sample_wall(g, ox, oy, dx, dy, j));
            if k0 == k {
                assert(sample_in_range(g, ox, oy, dx, dy, k));
            } else {
                assert(sample_in_range(g, ox, oy, dx, dy, k));
            }
            assert(false);
        }
    } else if sample_wall(g, ox, oy, dx, dy, k) {
        assert(march_from(g, ox, oy, dx, dy, k) == k * RAY_STEP);
        assert(k * RAY_STEP < MAX_RENDER_DIST);
        assert(wall_hit_from(g, ox, oy, dx, dy, k)) by {
            assert(sample_wall(g, ox, oy, dx, dy, k) && (forall|j: int|
                k <= j < k ==> #[trigger] sample_in_range(g, ox, oy, dx, dy, j) && !sample_wall(
                    g,
                    ox,
                    oy,
                    dx,
                    dy,
                    j,
                )));
        }
    } else {
        lemma_march_max_iff(g, ox, oy, dx, dy, k + 1);
        assert(march_from(g, ox, oy, dx, dy, k) == march_from(g, ox, oy, dx, dy, k + 1));
        if wall_hit_from(g, ox, oy, dx, dy, k + 1) {
            let k0 = choose|k0: int|
                k + 1 <= k0 < MAX_RAY_STEPS && #[trigger] sample_wall(g, ox, oy, dx, dy, k0) && (
                forall|j: int|
                    k + 1 <= j < k0 ==> #[trigger] sample_in_range(g, ox, oy, dx, dy, j)
                        && !sample_wall(g, ox, oy, dx, dy, j));
            assert(forall|j: int|
                k <= j < k0 ==> #[trigger] sample_in_range(g, ox, oy, dx, dy, j) && !sample_wall(
                    g,
                    ox,
                    oy,
                    dx,
                    dy,
                    j,
                ));
            assert(wall_hit_from(g, ox, oy, dx, dy, k));
        }
        if wall_hit_from(g, ox, oy, dx, dy, k) {
            let k0 = choose|k0: int|
                k <= k0 < MAX_RAY_STEPS && #[trigger] sample_wall(g, ox, oy, dx, dy, k0) && (
                forall|j: int|
                    k <= j < k0 ==> #[trigger] sample_in_range(g, ox, oy, dx, dy, j)
                        && !sample_wall(g, ox, oy, dx, dy, j));
            assert(k0 != k);
            assert(forall|j: int|
                k + 1 <= j < k0 ==> #[trigger] sample_in_range(g, ox, oy, dx, dy, j)
                    && !sample_wall(g, ox, oy, dx, dy, j));
            assert(wall_hit_from(g, ox, oy, dx, dy, k + 1));
        }
    }
}

} // verus!
