//! Frame composition: the per-column ray angle, the perspective
//! ceiling/floor split, the full wall/floor/ceiling render pass, and
//! the minimap overlay.

use crate::grid::{Cell, Grid};
use crate::ray::{cast_ray, cast_ray_spec, MAX_COORD, MAX_DIM};
use crate::screen::Screen;
use crate::shade::{floor_shade, floor_shade_spec, wall_shade, wall_shade_spec};
use crate::{FOV, MAX_RENDER_DIST, SCALE};
use vstd::prelude::*;

verus! {

/// The ray angle for screen column `col` of `width`: the field of view
/// spans the columns, centered on the player's angle.
pub open spec fn column_angle_spec(angle: int, col: int, width: int) -> int {
    angle - (FOV as int) / 2 + (col * (FOV as int)) / width
}

/// The ray angle (scaled, milliradians) for screen column `col` of a
/// window `width` columns wide, centered on scaled angle `angle`.
pub fn column_angle(angle: i64, col: usize, width: usize) -> (r: i64)
    requires
        0 < width <= MAX_DIM,
        col < width,
        -MAX_COORD <= angle <= MAX_COORD,
    ensures
        r == column_angle_spec(angle as int, col as int, width as int),
        -MAX_COORD - FOV <= r <= MAX_COORD + FOV,
{
    proof {
        assert((col as int) * (FOV as int) <= MAX_DIM * FOV) by (nonlinear_arith)
            requires
                0 <= col <= MAX_DIM,
                0 < FOV,
        ;
    }
    let num = (col as u64) * (FOV as u64);
    let spread = num / (width as u64);
    proof {
        assert(num < (width as int) * (FOV as int)) by (nonlinear_arith)
            requires
                num == (col as int) * (FOV as int),
                0 <= col < width,
        ;
        vstd::arithmetic::div_mod::lemma_multiply_divide_lt(
            num as int,
            width as int,
            FOV as int,
        );
        assert(spread < FOV);
    }
    angle - FOV / 2 + (spread as i64)
}

/// The first wall row of a column whose hit is at scaled distance `d`,
/// on a window `h` rows tall: half the height, pulled up by the
/// projected wall height `h / d` (in world units), floored at the top
/// row.
pub open spec fn ceiling_index_spec(h: int, d: int) -> int {
    let half = h / 2;
    let drop = (h * (SCALE as int)) / d;
    if drop >= half {
        0
    } else {
        half - drop
    }
}

/// The ceiling/wall split row for a window `h` rows tall and a hit at
/// scaled distance `dist`.
pub fn ceiling_index(h: usize, dist: i64) -> (r: usize)
    requires
        h <= MAX_DIM,
        0 < dist <= MAX_RENDER_DIST,
    ensures
        r == ceiling_index_spec(h as int, dist as int),
        r <= h / 2,
{
    let half = h / 2;
    let drop = ((h as u64) * (SCALE as u64)) / (dist as u64);
    if drop >= (half as u64) {
        0
    } else {
        half - (drop as usize)
    }
}

/// The glyph of one screen cell in a rendered column: ceiling above
/// the split, the wall's shade through the wall band, the floor's
/// row-keyed shade below it.
pub open spec fn column_cell_spec(h: int, c: int, f: int, d: int, y: int) -> char {
    if y < c {
        ' '
    } else if y > c && y <= f {
        wall_shade_spec(d)
    } else {
        floor_shade_spec(y, h)
    }
}

/// The glyph of screen cell `(col, y)` after a render pass: the
/// column's ray distance drives the split and the wall shade.
pub open spec fn rendered_cell_spec(
    g: Grid,
    px: int,
    py: int,
    dx: int,
    dy: int,
    h: int,
    y: int,
) -> char {
    let d = cast_ray_spec(g, px, py, dx, dy);
    let c = ceiling_index_spec(h, d);
    column_cell_spec(h, c, h - c, d, y)
}

/// The flat buffer index of the cell at column `c` of row `y` in a
/// row-major buffer `w` columns wide.
pub open spec fn flat_idx(y: int, w: int, c: int) -> int {
    y * w + c
}

/// One full render pass: casts one ray per screen column along the
/// precomputed scaled directions `dirs`, and overwrites every cell of
/// the buffer with its column's ceiling, wall or floor glyph.
pub fn render_frame(
    screen: &mut Screen,
    grid: &Grid,
    px: i64,
    py: i64,
    dirs: &Vec<(i64, i64)>,
)
    requires
        old(screen).wf(),
        old(screen).height_spec() <= MAX_DIM,
        grid.wf(),
        grid.dim_x() <= MAX_DIM,
        grid.dim_y() <= MAX_DIM,
        -MAX_COORD <= px <= MAX_COORD,
        -MAX_COORD <= py <= MAX_COORD,
        dirs@.len() == old(screen).width_spec(),
        forall|i: int|
            0 <= i < dirs@.len() ==> -SCALE <= (#[trigger] dirs@[i]).0 <= SCALE && -SCALE
                <= dirs@[i].1 <= SCALE,
    ensures
        final(screen).wf(),
        final(screen).width_spec() == old(screen).width_spec(),
        final(screen).height_spec() == old(screen).height_spec(),
        forall|k: int|
            0 <= k < final(screen)@.len() ==> #[trigger] final(screen)@[k] == rendered_cell_spec(
                *grid,
                px as int,
                py as int,
                dirs@[k % old(screen).width_spec()].0 as int,
                dirs@[k % old(screen).width_spec()].1 as int,
                old(screen).height_spec(),
                k / old(screen).width_spec(),
            ),
{
    let w = screen.width();
    let h = screen.height();
    let mut col: usize = 0;
    while col < w
        invariant
            col <= w,
            screen.wf(),
            screen.width_spec() == w,
            screen.height_spec() == h,
            h <= MAX_DIM,
            grid.wf(),
            grid.dim_x() <= MAX_DIM,
            grid.dim_y() <= MAX_DIM,
            -MAX_COORD <= px <= MAX_COORD,
            -MAX_COORD <= py <= MAX_COORD,
            dirs@.len() == w,
            forall|i: int|
                0 <= i < dirs@.len() ==> -SCALE <= (#[trigger] dirs@[i]).0 <= SCALE && -SCALE
                    <= dirs@[i].1 <= SCALE,
            forall|c2: int, y2: int|
                0 <= c2 < col && 0 <= y2 < h ==> screen@[#[trigger] flat_idx(y2, w as int, c2)]
                    == rendered_cell_spec(
                    *grid,
                    px as int,
                    py as int,
                    dirs@[c2].0 as int,
                    dirs@[c2].1 as int,
                    h as int,
                    y2,
                ),
        decreases w - col,
    {
        let pair = dirs[col];
        let d = cast_ray(px, py, pair.0, pair.1, grid);
        let c = ceiling_index(h, d);
        let f = h - c;
        let mut y: usize = 0;
        while y < h
            invariant
                y <= h,
                col < w,
                screen.wf(),
                screen.width_spec() == w,
                screen.height_spec() == h,
                h <= MAX_DIM,
                dirs@.len() == w,
                pair == dirs@[col as int],
                d == cast_ray_spec(
                    *grid,
                    px as int,
                    py as int,
                    pair.0 as int,
                    pair.1 as int,
                ),
                0 < d <= MAX_RENDER_DIST,
                c == ceiling_index_spec(h as int, d as int),
                f == h - c,
                c <= h,
                forall|c2: int, y2: int|
                    0 <= c2 < col && 0 <= y2 < h ==> screen@[#[trigger] flat_idx(
                        y2,
                        w as int,
                        c2,
                    )] == rendered_cell_spec(
                        *grid,
                        px as int,
                        py as int,
                        dirs@[c2].0 as int,
                        dirs@[c2].1 as int,
                        h as int,
                        y2,
                    ),
                forall|y2: int|
                    0 <= y2 < y ==> screen@[#[trigger] flat_idx(y2, w as int, col as int)]
                        == rendered_cell_spec(
                        *grid,
                        px as int,
                        py as int,
                        dirs@[col as int].0 as int,
                        dirs@[col as int].1 as int,
                        h as int,
                        y2,
                    ),
            decreases h - y,
        {
            let glyph = if y < c {
                ' '
            } else if y > c && y <= f {
                wall_shade(d)
            } else {
                floor_shade(y, h)
            };
            proof {
                assert(glyph == rendered_cell_spec(
                    *grid,
                    px as int,
                    py as int,
                    dirs@[col as int].0 as int,
                    dirs@[col as int].1 as int,
                    h as int,
                    y as int,
                ));
                assert(flat_idx(y as int, w as int, col as int) == y * (w as int) + col);
                assert forall|c2: int, y2: int| 0 <= c2 < w && 0 <= y2 < h implies 0 <= #[trigger]
                flat_idx(y2, w as int, c2) < screen@.len() && (flat_idx(y2, w as int, c2)
                    == flat_idx(y as int, w as int, col as int) ==> (c2 == col && y2 == y)) by {
                    assert(0 <= y2 * (w as int) + c2 < screen@.len() && (y2 * (w as int) + c2 == y
                        * (w as int) + col ==> (c2 == col && y2 == y))) by (nonlinear_arith)
                        requires
                            screen@.len() == (w as int) * (h as int),
                            0 <= c2 < w,
                            0 <= col < w,
                            0 <= y2 < h,
                            0 <= y < h,
                    ;
                }
            }
            screen.put(col, y, glyph);
            y += 1;
        }
        col += 1;
    }
    proof {
        let w_int = w as int;
        let h_int = h as int;
        assert forall|k: int| 0 <= k < screen@.len() implies screen@[k] == rendered_cell_spec(
            *grid,
            px as int,
            py as int,
            dirs@[k % w_int].0 as int,
            dirs@[k % w_int].1 as int,
            h_int,
            k / w_int,
        ) by {
            assert(w_int > 0 && h_int > 0) by (nonlinear_arith)
                requires
                    w_int >= 0,
                    h_int >= 0,
                    w_int * h_int > k >= 0,
            ;
            vstd::arithmetic::div_mod::lemma_mod_pos_bound(k, w_int);
            vstd::arithmetic::div_mod::lemma_div_pos_is_pos(k, w_int);
            vstd::arithmetic::div_mod::lemma_multiply_divide_lt(k, w_int, h_int);
            vstd::arithmetic::div_mod::lemma_fundamental_div_mod(k, w_int);
            let c2 = k % w_int;
            let y2 = k / w_int;
            assert(k == flat_idx(y2, w_int, c2)) by (nonlinear_arith)
                requires
                    k == w_int * (k / w_int) + k % w_int,
                    c2 == k % w_int,
                    y2 == k / w_int,
                    flat_idx(y2, w_int, c2) == y2 * w_int + c2,
            ;
            assert(screen@[flat_idx(y2, w_int, c2)] == rendered_cell_spec(
                *grid,
                px as int,
                py as int,
                dirs@[c2].0 as int,
                dirs@[c2].1 as int,
                h_int,
                y2,
            ));
        }
    }
}

/// The glyph a grid cell shows on the minimap.
pub open spec fn cell_glyph_spec(c: Cell) -> char {
    if c == Cell::Wall {
        '#'
    } else {
        '.'
    }
}

/// The minimap glyph a grid cell shows.
pub fn cell_glyph(c: Cell) -> (r: char)
    ensures
        r == cell_glyph_spec(c),
{
    match c {
        Cell::Wall => '#',
        Cell::Empty => '.',
    }
}

/// The glyph the minimap shows for grid cell `(gx, gy)`: the player's
/// direction icon on the player's cell, the cell's own glyph
/// elsewhere.
pub open spec fn minimap_glyph_spec(
    g: Grid,
    pcx: int,
    pcy: int,
    icon: char,
    gx: int,
    gy: int,
) -> char {
    if gx == pcx && gy == pcy {
        icon
    } else {
        cell_glyph_spec(g.cell(gx, gy))
    }
}

/// Whether flat buffer index `k` lies under the minimap: the map is
/// drawn one cell per character at a fixed offset of two rows and two
/// columns, grid row `gx` on screen row `gx + 2`.
pub open spec fn minimap_covers(g: Grid, w: int, k: int) -> bool {
    &&& 2 <= k / w < g.dim_x() + 2
    &&& 2 <= k % w < g.dim_y() + 2
}

/// Composites the minimap onto the buffer at its fixed offset: one
/// character per grid cell, the direction icon at the player's cell
/// `(pcx, pcy)`; rows that fall below the buffer are clipped, and
/// every cell outside the minimap's rectangle keeps its previous
/// character.
pub fn draw_minimap(screen: &mut Screen, grid: &Grid, pcx: usize, pcy: usize, icon: char)
    requires
        old(screen).wf(),
        grid.wf(),
        grid.dim_x() <= MAX_DIM,
        grid.dim_y() <= MAX_DIM,
        grid.dim_y() + 2 <= old(screen).width_spec(),
    ensures
        final(screen).wf(),
        final(screen).width_spec() == old(screen).width_spec(),
        final(screen).height_spec() == old(screen).height_spec(),
        forall|k: int|
            0 <= k < final(screen)@.len() && minimap_covers(*grid, old(screen).width_spec(), k)
                ==> final(screen)@[k] == minimap_glyph_spec(
                *grid,
                pcx as int,
                pcy as int,
                icon,
                k / old(screen).width_spec() - 2,
                k % old(screen).width_spec() - 2,
            ),
        forall|k: int|
            0 <= k < final(screen)@.len() && !minimap_covers(*grid, old(screen).width_spec(), k)
                ==> final(screen)@[k] == old(screen)@[k],
{
    let w = screen.width();
    let dim_x = grid.size_x();
    let dim_y = grid.size_y();
    let ghost w_int = w as int;
    let mut gx: usize = 0;
    while gx < dim_x
        invariant
            gx <= dim_x,
            screen.wf(),
            screen.width_spec() == w_int,
            screen.height_spec() == old(screen).height_spec(),
            screen@.len() == old(screen)@.len(),
            grid.wf(),
            dim_x == grid.dim_x(),
            dim_y == grid.dim_y(),
            grid.dim_x() <= MAX_DIM,
            grid.dim_y() <= MAX_DIM,
            dim_y + 2 <= w_int,
            forall|k: int|
                0 <= k < screen@.len() && minimap_covers(*grid, w_int, k) && k / w_int < gx + 2
                    ==> screen@[k] == minimap_glyph_spec(
                    *grid,
                    pcx as int,
                    pcy as int,
                    icon,
                    k / w_int - 2,
                    k % w_int - 2,
                ),
            forall|k: int|
                0 <= k < screen@.len() && !(minimap_covers(*grid, w_int, k) && k / w_int < gx + 2)
                    ==> screen@[k] == old(screen)@[k],
        decreases dim_x - gx,
    {
        let mut gy: usize = 0;
        proof {
            assert forall|k: int|
                0 <= k < screen@.len() && !(minimap_covers(*grid, w_int, k) && (k / w_int < gx + 2
                    || (k / w_int == gx + 2 && k % w_int < gy + 2))) implies screen@[k] == old(
                screen,
            )@[k] by {
                assert(!(minimap_covers(*grid, w_int, k) && k / w_int < gx + 2));
            }
        }
        while gy < dim_y
            invariant
                gx < dim_x,
                gy <= dim_y,
                screen.wf(),
                screen.width_spec() == w_int,
                screen.height_spec() == old(screen).height_spec(),
                screen@.len() == old(screen)@.len(),
                grid.wf(),
                dim_x == grid.dim_x(),
                dim_y == grid.dim_y(),
                grid.dim_x() <= MAX_DIM,
                grid.dim_y() <= MAX_DIM,
                dim_y + 2 <= w_int,
                forall|k: int|
                    0 <= k < screen@.len() && minimap_covers(*grid, w_int, k) && (k / w_int < gx
                        + 2 || (k / w_int == gx + 2 && k % w_int < gy + 2)) ==> screen@[k]
                        == minimap_glyph_spec(
                        *grid,
                        pcx as int,
                        pcy as int,
                        icon,
                        k / w_int - 2,
                        k % w_int - 2,
                    ),
                forall|k: int|
                    0 <= k < screen@.len() && !(minimap_covers(*grid, w_int, k) && (k / w_int < gx
                        + 2 || (k / w_int == gx + 2 && k % w_int < gy + 2))) ==> screen@[k]
                        == old(screen)@[k],
            decreases dim_y - gy,
        {
            let glyph = if gx == pcx && gy == pcy {
                icon
            } else {
                cell_glyph(grid.cell_in(gx, gy))
            };
            let ghost idx = (gx + 2) * w_int + (gy + 2);
            proof {
                vstd::arithmetic::div_mod::lemma_fundamental_div_mod_converse(
                    idx,
                    w_int,
                    gx + 2,
                    gy + 2,
                );
                assert(idx / w_int == gx + 2 && idx % w_int == gy + 2);
                assert(glyph == minimap_glyph_spec(
                    *grid,
                    pcx as int,
                    pcy as int,
                    icon,
                    gx as int,
                    gy as int,
                ));
                assert forall|k: int|
                    0 <= k < screen@.len() && #[trigger] (k % w_int) == gy + 2 && k / w_int == gx
                        + 2 implies k == idx by {
                    vstd::arithmetic::div_mod::lemma_fundamental_div_mod(k, w_int);
                    assert(k == w_int * (gx + 2) + (gy + 2));
                    assert(w_int * (gx + 2) + (gy + 2) == idx) by (nonlinear_arith)
                        requires
                            idx == (gx + 2) * w_int + (gy + 2),
                    ;
                }
            }
            screen.put(gy + 2, gx + 2, glyph);
            gy += 1;
        }
        gx += 1;
        proof {
            assert forall|k: int|
                0 <= k < screen@.len() && !(minimap_covers(*grid, w_int, k) && k / w_int < gx + 2)
                    implies screen@[k] == old(screen)@[k] by {
                assert(!(minimap_covers(*grid, w_int, k) && (k / w_int < gx + 1 || (k / w_int == gx
                    + 1 && k % w_int < dim_y + 2))));
            }
        }
    }
}

} // verus!
