//! The coordinate mapper: pure conversions between canvas pixel coordinates
//! and the projected real-world coordinate system of the source tiles.
//!
//! World coordinates are carried as integers in thousandths of a world unit
//! ("milli-units"), so every conversion is exact integer arithmetic. With
//! `B` pixels per world unit, one pixel is `1000 / B = 5/4` milli-units, and
//! the mapping
//!
//! ```text
//! x_pix   = (x_world - X0) * B           = (x_milli - X0_MILLI) * 4 / 5
//! y_pix   = H - (y_world - Y0) * B       = (H * 5 - (y_milli - Y0_MILLI) * 4) / 5
//! x_world = x_pix / B + X0
//! y_world = (H - y_pix) / B + Y0
//! ```
//!
//! is computed with the division truncating toward zero, matching the
//! pixel indexing of the rendering done downstream.

use vstd::arithmetic::div_mod::lemma_fundamental_div_mod;
use vstd::arithmetic::div_mod::lemma_fundamental_div_mod_converse;
use vstd::prelude::*;

verus! {

/// Real-world offset of the canvas's left edge, in milli-units.
pub const X0_MILLI: i64 = 156_000;

/// Real-world offset of the canvas's bottom edge, in milli-units.
pub const Y0_MILLI: i64 = 442_000;

/// Widest world coordinate the mapper accepts, in milli-units; keeps every
/// intermediate product inside the machine integer types.
pub const COORD_LIMIT_MILLI: i64 = 1_000_000_000;

/// Division truncating toward zero, for a positive divisor.
pub open spec fn trunc_div(a: int, b: int) -> int
    recommends
        b > 0,
{
    if a >= 0 {
        a / b
    } else {
        -((-a) / b)
    }
}

/// The canvas column of a world coordinate, in pixels.
pub open spec fn world_to_canvas_x_spec(x_milli: int) -> int {
    trunc_div((x_milli - X0_MILLI) * 4, 5)
}

/// The canvas row of a world coordinate, in pixels; the world axis points
/// up, the canvas axis down.
pub open spec fn world_to_canvas_y_spec(y_milli: int) -> int {
    trunc_div((crate::CANVAS_H as int) * 5 - (y_milli - Y0_MILLI) * 4, 5)
}

/// The world coordinate of a canvas column, in milli-units.
pub open spec fn canvas_to_world_x_spec(x_pix: int) -> int {
    X0_MILLI + trunc_div(x_pix * 5, 4)
}

/// The world coordinate of a canvas row, in milli-units.
pub open spec fn canvas_to_world_y_spec(y_pix: int) -> int {
    Y0_MILLI + trunc_div(((crate::CANVAS_H as int) - y_pix) * 5, 4)
}

/// The canvas column of a world coordinate.
pub fn world_to_canvas_x(x_milli: i64) -> (r: i64)
    requires
        -COORD_LIMIT_MILLI <= x_milli <= COORD_LIMIT_MILLI,
    ensures
        r == world_to_canvas_x_spec(x_milli as int),
{
    let d: i64 = x_milli - X0_MILLI;
    if d >= 0 {
        (((d as u64) * 4) / 5) as i64
    } else {
        let q: u64 = (((-d) as u64) * 4) / 5;
        -(q as i64)
    }
}

/// The canvas row of a world coordinate.
pub fn world_to_canvas_y(y_milli: i64) -> (r: i64)
    requires
        -COORD_LIMIT_MILLI <= y_milli <= COORD_LIMIT_MILLI,
    ensures
        r == world_to_canvas_y_spec(y_milli as int),
{
    let t: i64 = (crate::CANVAS_H as i64) * 5 - (y_milli - Y0_MILLI) * 4;
    if t >= 0 {
        ((t as u64) / 5) as i64
    } else {
        let q: u64 = ((-t) as u64) / 5;
        -(q as i64)
    }
}

/// The world coordinate of a canvas column.
pub fn canvas_to_world_x(x_pix: u32) -> (r: i64)
    requires
        x_pix <= crate::CANVAS_W,
    ensures
        r == canvas_to_world_x_spec(x_pix as int),
{
    X0_MILLI + (((x_pix as u64) * 5) / 4) as i64
}

/// The world coordinate of a canvas row.
pub fn canvas_to_world_y(y_pix: u32) -> (r: i64)
    requires
        y_pix <= crate::CANVAS_H,
    ensures
        r == canvas_to_world_y_spec(y_pix as int),
{
    Y0_MILLI + ((((crate::CANVAS_H - y_pix) as u64) * 5) / 4) as i64
}

/// Converting a canvas pixel to world coordinates and back reproduces the
/// pixel within one unit: the column within minus one, the row exactly.
pub proof fn lemma_round_trip(x_pix: int, y_pix: int)
    requires
        0 <= x_pix < crate::CANVAS_W,
        0 <= y_pix < crate::CANVAS_H,
    ensures
        x_pix - 1 <= world_to_canvas_x_spec(canvas_to_world_x_spec(x_pix)) <= x_pix,
        world_to_canvas_y_spec(canvas_to_world_y_spec(y_pix)) == y_pix,
{
    let tx = 5 * x_pix;
    let qx = tx / 4;
    let rx = tx % 4;
    lemma_fundamental_div_mod(tx, 4);
    assert(canvas_to_world_x_spec(x_pix) == X0_MILLI + qx);
    assert(world_to_canvas_x_spec(X0_MILLI + qx) == (4 * qx) / 5);
    assert(4 * qx == 5 * x_pix - rx);
    if rx == 0 {
        lemma_fundamental_div_mod_converse(5 * x_pix, 5, x_pix, 0);
    } else {
        lemma_fundamental_div_mod_converse(5 * x_pix - rx, 5, x_pix - 1, 5 - rx);
    }
    let u = (crate::CANVAS_H as int) - y_pix;
    let ty = 5 * u;
    let qy = ty / 4;
    let ry = ty % 4;
    lemma_fundamental_div_mod(ty, 4);
    assert(canvas_to_world_y_spec(y_pix) == Y0_MILLI + qy);
    assert(world_to_canvas_y_spec(Y0_MILLI + qy) == ((crate::CANVAS_H as int) * 5 - 4 * qy) / 5);
    assert((crate::CANVAS_H as int) * 5 - 4 * qy == 5 * y_pix + ry);
    lemma_fundamental_div_mod_converse(5 * y_pix + ry, 5, y_pix, ry);
}

/// The display coordinate written beside a vertical grid line: the label
/// transform `(x_world - 150) * 2` is exact at whole grid columns, where
/// `x_world = x_pix / 800 + 156`, and comes to `x_pix / 400 + 12`.
pub open spec fn label_x_spec(x_pix: int) -> int {
    x_pix / 400 + 12
}

/// The display coordinate written beside a horizontal grid line: the label
/// transform `(y_world - 410) * 2` is exact at whole grid rows, where
/// `y_world = (H - y_pix) / 800 + 442`, and comes to `(H - y_pix) / 400 + 64`.
pub open spec fn label_y_spec(y_pix: int) -> int {
    ((crate::CANVAS_H as int) - y_pix) / 400 + 64
}

/// The display coordinate labelling the grid column at `x_pix`.
pub fn label_x(x_pix: u32) -> (r: u32)
    requires
        x_pix % 400 == 0,
        x_pix <= crate::CANVAS_W,
    ensures
        r == label_x_spec(x_pix as int),
{
    x_pix / 400 + 12
}

/// The display coordinate labelling the grid row at `y_pix`.
pub fn label_y(y_pix: u32) -> (r: u32)
    requires
        y_pix % 400 == 0,
        y_pix <= crate::CANVAS_H,
    ensures
        r == label_y_spec(y_pix as int),
{
    (crate::CANVAS_H - y_pix) / 400 + 64
}

} // verus!
