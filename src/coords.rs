//! Mapping between continuous screen positions and discrete grid cells.
use vstd::prelude::*;
use vstd::arithmetic::div_mod::lemma_fundamental_div_mod_converse;

use crate::geometry::Vec2;
use crate::util::UNITS_PER_HUNDREDTH;

verus! {

/// `a / 1000` rounded half away from zero: a position in hundredths of a
/// screen unit.
pub open spec fn round_hundredths(a: int) -> int {
    if a >= 0 {
        (a + 500) / 1000
    } else {
        -((500 - a) / 1000)
    }
}

/// Division truncated toward zero, for a positive divisor.
pub open spec fn trunc_div(a: int, b: int) -> int {
    if a >= 0 {
        a / b
    } else {
        -((-a) / b)
    }
}

/// `v` clamped into the range of `i32`.
pub open spec fn saturate_i32(v: int) -> i32 {
    if v < i32::MIN {
        i32::MIN
    } else if v > i32::MAX {
        i32::MAX
    } else {
        v as i32
    }
}

/// Grid index on one axis: the position and the cell size are both first
/// rounded to hundredths, then divided with truncation.
pub open spec fn grid_index(size: int, pos: int) -> int {
    trunc_div(round_hundredths(pos), round_hundredths(size))
}

/// A cell size that rounds to at least one hundredth on both axes.
pub open spec fn valid_cell_size(size: Vec2) -> bool {
    round_hundredths(size.x as int) > 0 && round_hundredths(size.y as int) > 0
}

/// The cell that holds `pos` for cells of extent `size`.
pub open spec fn to_grid(size: Vec2, pos: Vec2) -> (i32, i32) {
    (saturate_i32(grid_index(size.x as int, pos.x as int)),
     saturate_i32(grid_index(size.y as int, pos.y as int)))
}

/// Whether the screen position of `cell` fits in the position type.
pub open spec fn screen_fits(size: Vec2, cell: (i32, i32)) -> bool {
    i64::MIN <= cell.0 * size.x <= i64::MAX && i64::MIN <= cell.1 * size.y <= i64::MAX
}

/// The screen position of `cell`: each index times the cell extent.
pub open spec fn to_screen(size: Vec2, cell: (i32, i32)) -> Vec2 {
    Vec2 { x: (cell.0 * size.x) as i64, y: (cell.1 * size.y) as i64 }
}

fn round_hundredths_exec(a: i64) -> (r: i64)
    ensures
        r == round_hundredths(a as int),
{
    let w = a as i128;
    if w >= 0 {
        ((w + 500) / 1000) as i64
    } else {
        (-((500 - w) / 1000)) as i64
    }
}

fn trunc_div_exec(a: i64, b: i64) -> (r: i64)
    requires
        b > 0,
    ensures
        r == trunc_div(a as int, b as int),
{
    let w = a as i128;
    let d = b as i128;
    if w >= 0 {
        (w / d) as i64
    } else {
        let n = -w;
        assert(n / d <= n) by (nonlinear_arith)
            requires
                n >= 0,
                d > 0,
        ;
        (-(n / d)) as i64
    }
}

fn saturate_i32_exec(v: i64) -> (r: i32)
    ensures
        r == saturate_i32(v as int),
{
    if v < i32::MIN as i64 {
        i32::MIN
    } else if v > i32::MAX as i64 {
        i32::MAX
    } else {
        v as i32
    }
}

fn grid_index_exec(size: i64, pos: i64) -> (r: i32)
    requires
        round_hundredths(size as int) > 0,
    ensures
        r == saturate_i32(grid_index(size as int, pos as int)),
{
    let p = round_hundredths_exec(pos);
    let s = round_hundredths_exec(size);
    saturate_i32_exec(trunc_div_exec(p, s))
}

/// The grid cell of a screen position, for cells of extent `segment_size`.
pub fn snake_coordinates(segment_size: Vec2, position: Vec2) -> (r: (i32, i32))
    requires
        valid_cell_size(segment_size),
    ensures
        r == to_grid(segment_size, position),
{
    (grid_index_exec(segment_size.x, position.x), grid_index_exec(segment_size.y, position.y))
}

/// The screen position of a grid cell, for cells of extent `segment_size`.
pub fn screen_coordinates(segment_size: Vec2, snake_coords: (i32, i32)) -> (r: Vec2)
    requires
        screen_fits(segment_size, snake_coords),
    ensures
        r == to_screen(segment_size, snake_coords),
{
    Vec2 {
        x: snake_coords.0 as i64 * segment_size.x,
        y: snake_coords.1 as i64 * segment_size.y,
    }
}

proof fn lemma_axis_round_trip(k: int, c: int)
    requires
        k > 0,
    ensures
        grid_index(k * 1000, c * (k * 1000)) == c,
{
    let a = c * (k * 1000);
    assert(a == (c * k) * 1000) by (nonlinear_arith)
        requires
            a == c * (k * 1000),
    ;
    lemma_fundamental_div_mod_converse(k * 1000 + 500, 1000, k, 500);
    if c >= 0 {
        assert(c * k >= 0) by (nonlinear_arith)
            requires
                c >= 0,
                k > 0,
        ;
        lemma_fundamental_div_mod_converse(a + 500, 1000, c * k, 500);
        lemma_fundamental_div_mod_converse(c * k, k, c, 0);
    } else {
        assert(c * k < 0) by (nonlinear_arith)
            requires
                c < 0,
                k > 0,
        ;
        lemma_fundamental_div_mod_converse(500 - a, 1000, -(c * k), 500);
        assert(-(c * k) == (-c) * k) by (nonlinear_arith);
        lemma_fundamental_div_mod_converse(-(c * k), k, -c, 0);
    }
}

/// Mapping a cell to the screen and back gives the same cell, for any cell
/// extent that is a positive whole number of hundredths.
pub proof fn lemma_grid_round_trip(size: Vec2, cell: (i32, i32))
    requires
        size.x > 0,
        size.y > 0,
        size.x % UNITS_PER_HUNDREDTH == 0,
        size.y % UNITS_PER_HUNDREDTH == 0,
        screen_fits(size, cell),
    ensures
        to_grid(size, to_screen(size, cell)) == cell,
{
    lemma_fundamental_div_mod_converse(size.x as int, 1000, size.x / 1000, 0);
    lemma_fundamental_div_mod_converse(size.y as int, 1000, size.y / 1000, 0);
    lemma_axis_round_trip(size.x / 1000, cell.0 as int);
    lemma_axis_round_trip(size.y / 1000, cell.1 as int);
}

} // verus!
