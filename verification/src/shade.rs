//! Distance- and position-based shading: the wall glyph for a hit
//! distance, the floor glyph for a screen row, and the minimap
//! direction glyph for a player angle.

use crate::{MAX_RENDER_DIST, SCALE, TWO_PI};
use vstd::prelude::*;

verus! {

/// The shading band of a wall at scaled distance `d`: five bands with
/// boundaries at `MAX_RENDER_DIST` / 4, / 3, / 2 and at
/// `MAX_RENDER_DIST` itself. The comparisons multiply through by the
/// denominator, so each boundary is exact even where the quotient is
/// not an integer.
pub open spec fn shade_band(d: int) -> int {
    if 4 * d <= MAX_RENDER_DIST {
        0
    } else if 3 * d < MAX_RENDER_DIST {
        1
    } else if 2 * d < MAX_RENDER_DIST {
        2
    } else if d < MAX_RENDER_DIST {
        3
    } else {
        4
    }
}

/// The glyph of each shading band, from a fully opaque block down to a
/// blank.
pub open spec fn band_glyph(band: int) -> char {
    if band == 0 {
        '\u{2588}'
    } else if band == 1 {
        '\u{2593}'
    } else if band == 2 {
        '\u{2592}'
    } else if band == 3 {
        '\u{2591}'
    } else {
        ' '
    }
}

pub open spec fn wall_shade_spec(d: int) -> char {
    band_glyph(shade_band(d))
}

/// The wall glyph for a hit at scaled distance `dist`: darkest up to a
/// quarter of the render range, then ever lighter, blank at or beyond
/// the full range.
pub fn wall_shade(dist: i64) -> (c: char)
    ensures
        c == wall_shade_spec(dist as int),
{
    if dist <= MAX_RENDER_DIST / 4 {
        '\u{2588}'
    } else if dist >= MAX_RENDER_DIST {
        ' '
    } else if 3 * dist < MAX_RENDER_DIST {
        '\u{2593}'
    } else if 2 * dist < MAX_RENDER_DIST {
        '\u{2592}'
    } else {
        '\u{2591}'
    }
}

/// The wall glyph is a monotonic step function of distance: a farther
/// wall never gets a denser (lower-numbered) band than a nearer one.
pub proof fn lemma_wall_shade_monotonic(d1: int, d2: int)
    requires
        0 <= d1 <= d2,
    ensures
        shade_band(d1) <= shade_band(d2),
        0 <= shade_band(d1) <= 4,
        0 <= shade_band(d2) <= 4,
{
}

/// The floor shading band for screen row `y` of a window `h` rows
/// tall: the fraction `b = 2 * (h - y) / h` of the half-height above
/// the bottom, banded at 0.25, 0.5, 0.75 and 0.9. The comparisons
/// multiply through by the denominators, so the boundaries are exact.
pub open spec fn floor_band(y: int, h: int) -> int {
    if 8 * (h - y) < h {
        0
    } else if 4 * (h - y) < h {
        1
    } else if 8 * (h - y) < 3 * h {
        2
    } else if 20 * (h - y) < 9 * h {
        3
    } else {
        4
    }
}

/// The glyph of each floor band, densest near the bottom of the
/// window, blank near the horizon.
pub open spec fn floor_glyph(band: int) -> char {
    if band == 0 {
        '#'
    } else if band == 1 {
        'x'
    } else if band == 2 {
        '.'
    } else if band == 3 {
        '-'
    } else {
        ' '
    }
}

pub open spec fn floor_shade_spec(y: int, h: int) -> char {
    floor_glyph(floor_band(y, h))
}

/// The floor glyph for screen row `y` of a window `h` rows tall.
pub fn floor_shade(y: usize, h: usize) -> (c: char)
    requires
        y <= h,
    ensures
        c == floor_shade_spec(y as int, h as int),
{
    let rise = (h - y) as u128;
    let hh = h as u128;
    if 8 * rise < hh {
        '#'
    } else if 4 * rise < hh {
        'x'
    } else if 8 * rise < 3 * hh {
        '.'
    } else if 20 * rise < 9 * hh {
        '-'
    } else {
        ' '
    }
}

/// Truncating remainder (the sign of the dividend is kept), stated
/// over the Euclidean operators of specifications.
pub open spec fn trunc_mod(a: int, b: int) -> int {
    if a >= 0 {
        a % b
    } else {
        -((-a) % b)
    }
}

/// The test value the direction selector bands: the angle reduced to
/// (-2*pi, 2*pi) keeping its sign, then negated when below one radian
/// (which folds a negative remainder positive, and an angle within the
/// first radian negative).
pub open spec fn dir_test_value(angle: int) -> int {
    let m = trunc_mod(angle, TWO_PI as int);
    if m < SCALE {
        -m
    } else {
        m
    }
}

pub open spec fn dir_glyph_spec(angle: int) -> char {
    let a = dir_test_value(angle);
    if a >= 5498 || a < 785 {
        'v'
    } else if a < 2356 {
        '<'
    } else if a < 3927 {
        '^'
    } else {
        '>'
    }
}

/// The minimap glyph showing the player's facing direction for a
/// scaled angle in milliradians.
pub fn direction_glyph(angle: i64) -> (c: char)
    requires
        angle > i64::MIN,
    ensures
        c == dir_glyph_spec(angle as int),
{
    let m = if angle >= 0 {
        angle % TWO_PI
    } else {
        -((-angle) % TWO_PI)
    };
    let a = if m < SCALE {
        -m
    } else {
        m
    };
    if a >= 5498 || a < 785 {
        'v'
    } else if a < 2356 {
        '<'
    } else if a < 3927 {
        '^'
    } else {
        '>'
    }
}

/// Whether a test value falls in the wrap-around, dominant-forward
/// band of the direction selector.
pub open spec fn dir_band_forward(a: int) -> bool {
    a >= 5498 || a < 785
}

pub open spec fn dir_band_left(a: int) -> bool {
    785 <= a < 2356
}

pub open spec fn dir_band_back(a: int) -> bool {
    2356 <= a < 3927
}

pub open spec fn dir_band_right(a: int) -> bool {
    3927 <= a < 5498
}

/// The direction selector is total: every angle, however far outside
/// one turn and whatever its sign, gets one of the four glyphs.
pub proof fn lemma_direction_glyph_total(angle: int)
    ensures
        dir_glyph_spec(angle) == 'v' || dir_glyph_spec(angle) == '<' || dir_glyph_spec(angle)
            == '^' || dir_glyph_spec(angle) == '>',
{
}

/// The four direction bands are total over a full turn and pairwise
/// disjoint: every test value in [0, 2*pi) falls in exactly one band,
/// and the selector returns that band's glyph.
pub proof fn lemma_direction_bands_partition(a: int)
    requires
        0 <= a < TWO_PI,
    ensures
        dir_band_forward(a) || dir_band_left(a) || dir_band_back(a) || dir_band_right(a),
        !(dir_band_forward(a) && dir_band_left(a)),
        !(dir_band_forward(a) && dir_band_back(a)),
        !(dir_band_forward(a) && dir_band_right(a)),
        !(dir_band_left(a) && dir_band_back(a)),
        !(dir_band_left(a) && dir_band_right(a)),
        !(dir_band_back(a) && dir_band_right(a)),
        dir_band_forward(a) ==> dir_glyph_spec(a) == 'v',
        dir_band_left(a) ==> (a >= SCALE ==> dir_glyph_spec(a) == '<'),
        dir_band_back(a) ==> dir_glyph_spec(a) == '^',
        dir_band_right(a) ==> dir_glyph_spec(a) == '>',
{
    if a >= SCALE {
        vstd::arithmetic::div_mod::lemma_small_mod(a as nat, TWO_PI as nat);
    }
}

} // verus!
