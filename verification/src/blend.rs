//! The overlay blender: alpha-composites a page-specific overlay onto a
//! freshly laid-out page, and the page renderer that chains layout and
//! blending the way one output page is produced.

use crate::errors::MapError;
use crate::image_ops::blend_of;
use crate::image_ops::img_dims;
use crate::image_ops::img_pixels;
use crate::image_ops::img_wf;
use crate::image_ops::blend_px;
use crate::image_ops::coord_dom;
use crate::image_ops::Raster;
use crate::layout::lay_out_page;
use crate::layout::page_pixel_spec;
use crate::layout::remap_fits;
use crate::layout::ReOder;
use vstd::prelude::*;

verus! {

/// Alpha-composites the overlay over the page, pixel by pixel, in place.
///
/// Requires nothing of the caller beyond a coherent page; when the
/// dimensions differ nothing is touched and `DimensionMismatch` comes back.
/// When they agree, every page pixel becomes the overlay pixel blended over
/// it: where the overlay's alpha is 0 the page pixel stays, where it is 255
/// the overlay pixel replaces it.
pub fn blend_overlay(page: &mut Raster, overlay: &Raster) -> (r: Result<(), MapError>)
    requires
        img_wf(*old(page)),
        img_wf(*overlay),
    ensures
        r is Ok && (forall|x: int, y: int|
            0 <= x < img_dims(*old(page)).0 && 0 <= y < img_dims(*old(page)).1
                ==> (#[trigger] img_pixels(*overlay)[(x, y)]).3 == 0) ==> img_pixels(*final(page))
            == img_pixels(*old(page)),
        r is Ok && (forall|x: int, y: int|
            0 <= x < img_dims(*old(page)).0 && 0 <= y < img_dims(*old(page)).1
                ==> (#[trigger] img_pixels(*overlay)[(x, y)]).3 == 255) ==> img_pixels(
            *final(page),
        ) == img_pixels(*overlay),
        r is Ok <==> img_dims(*overlay) == img_dims(*old(page)),
        r is Err ==> r == Result::<(), MapError>::Err(MapError::DimensionMismatch) && *final(page)
            == *old(page),
        img_dims(*final(page)) == img_dims(*old(page)),
        img_wf(*final(page)),
        r is Ok ==> forall|x: int, y: int|
            0 <= x < img_dims(*old(page)).0 && 0 <= y < img_dims(*old(page)).1 ==> {
                &&& #[trigger] img_pixels(*final(page))[(x, y)] == blend_of(
                    img_pixels(*old(page))[(x, y)],
                    img_pixels(*overlay)[(x, y)],
                )
                &&& (img_pixels(*overlay)[(x, y)].3 == 0 ==> img_pixels(*final(page))[(x, y)]
                    == img_pixels(*old(page))[(x, y)])
                &&& (img_pixels(*overlay)[(x, y)].3 == 255 ==> img_pixels(*final(page))[(x, y)]
                    == img_pixels(*overlay)[(x, y)])
            },
{
    let w = page.width();
    let h = page.height();
    if !(overlay.width() == w && overlay.height() == h) {
        return Err(MapError::DimensionMismatch);
    }
    let mut y: u32 = 0;
    while y < h
        invariant
            img_dims(*page) == (w as nat, h as nat),
            img_dims(*page) == img_dims(*old(page)),
            img_wf(*page),
            img_dims(*overlay) == (w as nat, h as nat),
            0 <= y <= h,
            forall|xx: int, yy: int|
                0 <= xx < w && 0 <= yy < h ==> {
                    &&& (yy < y ==> {
                        &&& #[trigger] img_pixels(*page)[(xx, yy)] == blend_of(
                            img_pixels(*old(page))[(xx, yy)],
                            img_pixels(*overlay)[(xx, yy)],
                        )
                        &&& (img_pixels(*overlay)[(xx, yy)].3 == 0 ==> img_pixels(*page)[(xx, yy)]
                            == img_pixels(*old(page))[(xx, yy)])
                        &&& (img_pixels(*overlay)[(xx, yy)].3 == 255 ==> img_pixels(*page)[
                            (xx, yy)] == img_pixels(*overlay)[(xx, yy)])
                    })
                    &&& (yy >= y ==> #[trigger] img_pixels(*page)[(xx, yy)] == img_pixels(
                        *old(page),
                    )[(xx, yy)])
                },
        decreases h - y,
    {
        let mut x: u32 = 0;
        while x < w
            invariant
                img_dims(*page) == (w as nat, h as nat),
                img_dims(*page) == img_dims(*old(page)),
                img_wf(*page),
                img_dims(*overlay) == (w as nat, h as nat),
                0 <= y < h,
                0 <= x <= w,
                forall|xx: int, yy: int|
                    0 <= xx < w && 0 <= yy < h ==> {
                        &&& (yy < y || (yy == y && xx < x) ==> {
                            &&& #[trigger] img_pixels(*page)[(xx, yy)] == blend_of(
                                img_pixels(*old(page))[(xx, yy)],
                                img_pixels(*overlay)[(xx, yy)],
                            )
                            &&& (img_pixels(*overlay)[(xx, yy)].3 == 0 ==> img_pixels(*page)[
                                (xx, yy)] == img_pixels(*old(page))[(xx, yy)])
                            &&& (img_pixels(*overlay)[(xx, yy)].3 == 255 ==> img_pixels(*page)[
                                (xx, yy)] == img_pixels(*overlay)[(xx, yy)])
                        })
                        &&& (yy > y || (yy == y && xx >= x) ==> #[trigger] img_pixels(*page)[
                            (xx, yy)] == img_pixels(*old(page))[(xx, yy)])
                    },
            decreases w - x,
        {
            let d = page.get_px(x, y);
            let s = overlay.get_px(x, y);
            let b = blend_px(d, s);
            page.put_px(x, y, b);
            proof {
                assert(img_pixels(*page).dom() =~= coord_dom(w as nat, h as nat));
            }
            x = x + 1;
        }
        y = y + 1;
    }
    proof {
        if forall|xx: int, yy: int|
            0 <= xx < img_dims(*old(page)).0 && 0 <= yy < img_dims(*old(page)).1 ==> (
            #[trigger] img_pixels(*overlay)[(xx, yy)]).3 == 0 {
            assert(img_pixels(*page) =~= img_pixels(*old(page)));
        }
        if forall|xx: int, yy: int|
            0 <= xx < img_dims(*old(page)).0 && 0 <= yy < img_dims(*old(page)).1 ==> (
            #[trigger] img_pixels(*overlay)[(xx, yy)]).3 == 255 {
            assert(img_pixels(*page) =~= img_pixels(*overlay));
        }
    }
    Ok(())
}

/// Lays one page out from the canvas and blends its overlay onto it.
///
/// Fails with `OutOfBounds` when a remap leaves either cell grid, and with
/// `DimensionMismatch` when the overlay is not exactly page-sized; the
/// returned page otherwise holds the remapped canvas blocks with the
/// overlay composited over them.
pub fn render_page(canvas: &Raster, reoders: &Vec<ReOder>, overlay: &Raster) -> (r: Result<
    Raster,
    MapError,
>)
    requires
        img_dims(*canvas) == (crate::CANVAS_W as nat, crate::CANVAS_H as nat),
        img_wf(*overlay),
    ensures
        r is Ok <==> ((forall|k: int|
            0 <= k < reoders@.len() ==> #[trigger] remap_fits(reoders@[k])) && img_dims(*overlay)
            == (crate::PAGE_W as nat, crate::PAGE_H as nat)),
        !(forall|k: int| 0 <= k < reoders@.len() ==> #[trigger] remap_fits(reoders@[k])) ==> r
            == Result::<Raster, MapError>::Err(MapError::OutOfBounds),
        (forall|k: int| 0 <= k < reoders@.len() ==> #[trigger] remap_fits(reoders@[k]))
            && img_dims(*overlay) != (crate::PAGE_W as nat, crate::PAGE_H as nat) ==> r
            == Result::<Raster, MapError>::Err(MapError::DimensionMismatch),
        r is Ok ==> img_dims(r->Ok_0) == (crate::PAGE_W as nat, crate::PAGE_H as nat) && img_wf(
            r->Ok_0,
        ),
        r is Ok ==> forall|x: int, y: int|
            0 <= x < crate::PAGE_W && 0 <= y < crate::PAGE_H ==> #[trigger] img_pixels(r->Ok_0)[
                (x, y)] == blend_of(
                page_pixel_spec(img_pixels(*canvas), reoders@, x, y),
                img_pixels(*overlay)[(x, y)],
            ),
{
    let mut page = match lay_out_page(canvas, reoders) {
        Ok(p) => p,
        Err(e) => { return Err(e) },
    };
    match blend_overlay(&mut page, overlay) {
        Ok(()) => Ok(page),
        Err(e) => Err(e),
    }
}

} // verus!
