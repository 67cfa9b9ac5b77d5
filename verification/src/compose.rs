//! The canvas compositor: assembles four source tile views into one canvas.
//!
//! Each of the four named tiles contributes one sub-rectangle, placed at a
//! fixed offset so that the four blocks tile the whole `11B`-by-`9B` canvas:
//!
//! | Tile | Source rectangle (x, y, w, h)    | Destination |
//! |------|----------------------------------|-------------|
//! | A    | (I_W - 4B, I_H - B, 4B, B)       | (0, 0)      |
//! | B    | (0, I_H - B, 7B, B)              | (4B, 0)     |
//! | C    | (I_W - 4B, 0, 4B, 8B)            | (0, B)      |
//! | D    | (0, 0, 7B, 8B)                   | (4B, B)     |

use crate::errors::MapError;
use crate::image_ops::img_dims;
use crate::image_ops::img_h;
use crate::image_ops::img_pixels;
use crate::image_ops::img_w;
use crate::image_ops::img_wf;
use crate::image_ops::Raster;
use vstd::prelude::*;

verus! {

/// The canvas pixel (x, y) lies in tile A's destination block.
pub open spec fn in_dest_a(x: int, y: int) -> bool {
    0 <= x < 4 * (crate::B as int) && 0 <= y < (crate::B as int)
}

/// The canvas pixel (x, y) lies in tile B's destination block.
pub open spec fn in_dest_b(x: int, y: int) -> bool {
    4 * (crate::B as int) <= x < 11 * (crate::B as int) && 0 <= y < (crate::B as int)
}

/// The canvas pixel (x, y) lies in tile C's destination block.
pub open spec fn in_dest_c(x: int, y: int) -> bool {
    0 <= x < 4 * (crate::B as int) && (crate::B as int) <= y < 9 * (crate::B as int)
}

/// The canvas pixel (x, y) lies in tile D's destination block.
pub open spec fn in_dest_d(x: int, y: int) -> bool {
    4 * (crate::B as int) <= x < 11 * (crate::B as int) && (crate::B as int) <= y < 9 * (
    crate::B as int)
}

/// The four fixed destination blocks fill the canvas with no gaps and no
/// overlaps: every canvas pixel lies in exactly one of them.
pub proof fn lemma_placements_cover(x: int, y: int)
    requires
        0 <= x < crate::CANVAS_W,
        0 <= y < crate::CANVAS_H,
    ensures
        in_dest_a(x, y) || in_dest_b(x, y) || in_dest_c(x, y) || in_dest_d(x, y),
        !(in_dest_a(x, y) && in_dest_b(x, y)),
        !(in_dest_a(x, y) && in_dest_c(x, y)),
        !(in_dest_a(x, y) && in_dest_d(x, y)),
        !(in_dest_b(x, y) && in_dest_c(x, y)),
        !(in_dest_b(x, y) && in_dest_d(x, y)),
        !(in_dest_c(x, y) && in_dest_d(x, y)),
{
}

/// Every tile is large enough for its fixed source rectangle.
pub open spec fn tiles_admit(ta: Raster, tb: Raster, tc: Raster, td: Raster) -> bool {
    &&& img_w(ta) >= crate::I_W && img_h(ta) >= crate::I_H
    &&& img_w(tb) >= 7 * (crate::B as int) && img_h(tb) >= crate::I_H
    &&& img_w(tc) >= crate::I_W && img_h(tc) >= 8 * (crate::B as int)
    &&& img_w(td) >= 7 * (crate::B as int) && img_h(td) >= 8 * (crate::B as int)
}

/// The pixel the composed canvas holds at (x, y): the pixel of the one
/// source block whose destination contains (x, y).
pub open spec fn composed_pixel(
    pa: Map<(int, int), (u8, u8, u8, u8)>,
    pb: Map<(int, int), (u8, u8, u8, u8)>,
    pc: Map<(int, int), (u8, u8, u8, u8)>,
    pd: Map<(int, int), (u8, u8, u8, u8)>,
    x: int,
    y: int,
) -> (u8, u8, u8, u8) {
    let b = crate::B as int;
    if y < b {
        if x < 4 * b {
            pa[(x + crate::I_W - 4 * b, y + crate::I_H - b)]
        } else {
            pb[(x - 4 * b, y + crate::I_H - b)]
        }
    } else {
        if x < 4 * b {
            pc[(x + crate::I_W - 4 * b, y - b)]
        } else {
            pd[(x - 4 * b, y - b)]
        }
    }
}

/// Copies the four fixed tile views onto a fresh canvas.
///
/// Returns the canvas when every source rectangle lies inside its tile;
/// `OutOfBounds` when any tile is too small. The destination blocks always
/// fit the canvas (see [`lemma_placements_cover`]).
pub fn compose_canvas(ta: &Raster, tb: &Raster, tc: &Raster, td: &Raster) -> (r: Result<
    Raster,
    MapError,
>)
    ensures
        r is Ok <==> tiles_admit(*ta, *tb, *tc, *td),
        r is Err ==> r == Result::<Raster, MapError>::Err(MapError::OutOfBounds),
        r is Ok ==> img_dims(r->Ok_0) == (crate::CANVAS_W as nat, crate::CANVAS_H as nat),
        r is Ok ==> img_wf(r->Ok_0),
        r is Ok ==> forall|x: int, y: int|
            0 <= x < crate::CANVAS_W && 0 <= y < crate::CANVAS_H ==> #[trigger] img_pixels(
                r->Ok_0,
            )[(x, y)] == composed_pixel(
                img_pixels(*ta),
                img_pixels(*tb),
                img_pixels(*tc),
                img_pixels(*td),
                x,
                y,
            ),
{
    let fits_a = ta.width() >= crate::I_W && ta.height() >= crate::I_H;
    let fits_b = tb.width() >= 7 * crate::B && tb.height() >= crate::I_H;
    let fits_c = tc.width() >= crate::I_W && tc.height() >= 8 * crate::B;
    let fits_d = td.width() >= 7 * crate::B && td.height() >= 8 * crate::B;
    if !(fits_a && fits_b && fits_c && fits_d) {
        return Err(MapError::OutOfBounds);
    }
    proof {
        assert((crate::CANVAS_W as nat) * (crate::CANVAS_H as nat) * 4 <= usize::MAX as nat)
            by (nonlinear_arith);
    }
    let mut canvas = Raster::new_blank(crate::CANVAS_W, crate::CANVAS_H);
    let ghost pa = img_pixels(*ta);
    let ghost pb = img_pixels(*tb);
    let ghost pc = img_pixels(*tc);
    let ghost pd = img_pixels(*td);
    canvas.copy_region(ta, crate::I_W - 4 * crate::B, crate::I_H - crate::B, 4 * crate::B, crate::B, 0, 0);
    let ghost s1 = img_pixels(canvas);
    canvas.copy_region(tb, 0, crate::I_H - crate::B, 7 * crate::B, crate::B, 4 * crate::B, 0);
    let ghost s2 = img_pixels(canvas);
    canvas.copy_region(tc, crate::I_W - 4 * crate::B, 0, 4 * crate::B, 8 * crate::B, 0, crate::B);
    let ghost s3 = img_pixels(canvas);
    canvas.copy_region(td, 0, 0, 7 * crate::B, 8 * crate::B, 4 * crate::B, crate::B);
    proof {
        assert forall|x: int, y: int|
            0 <= x < crate::CANVAS_W && 0 <= y < crate::CANVAS_H implies #[trigger] img_pixels(
            canvas,
        )[(x, y)] == composed_pixel(pa, pb, pc, pd, x, y) by {
            lemma_placements_cover(x, y);
            if in_dest_a(x, y) {
                assert(s1[(x, y)] == pa[(x + 4800, y + 9200)]);
                assert(s2[(x, y)] == s1[(x, y)]);
                assert(s3[(x, y)] == s2[(x, y)]);
                assert(img_pixels(canvas)[(x, y)] == s3[(x, y)]);
            } else if in_dest_b(x, y) {
                assert(s2[(x, y)] == pb[(x - 3200, y + 9200)]);
                assert(s3[(x, y)] == s2[(x, y)]);
                assert(img_pixels(canvas)[(x, y)] == s3[(x, y)]);
            } else if in_dest_c(x, y) {
                assert(s3[(x, y)] == pc[(x + 4800, y - 800)]);
                assert(img_pixels(canvas)[(x, y)] == s3[(x, y)]);
            } else {
                assert(img_pixels(canvas)[(x, y)] == pd[(x - 3200, y - 800)]);
            }
        }
    }
    Ok(canvas)
}

} // verus!
