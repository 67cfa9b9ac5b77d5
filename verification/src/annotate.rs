//! The grid and label renderer: draws the reference grid over the canvas,
//! stamps each interior grid intersection with its display coordinates, and
//! marks the visible points of interest.
//!
//! The grid lines are axis-aligned and are painted pixel by pixel here,
//! with an exact contract. Text and circle markers go through the trusted
//! drawing wrappers, whose results carry the names `text_drawn_of` and
//! `circle_drawn_of`; the contracts here fix, over those names, exactly
//! which stamps and rings are applied, where, and in what order.

use crate::compose::compose_canvas;
use crate::compose::tiles_admit;
use crate::coord::label_x;
use crate::coord::label_x_spec;
use crate::coord::label_y;
use crate::coord::label_y_spec;
use crate::coord::world_to_canvas_x;
use crate::coord::world_to_canvas_x_spec;
use crate::coord::world_to_canvas_y;
use crate::coord::world_to_canvas_y_spec;
use crate::errors::MapError;
use crate::image_ops::circle_drawn_of;
use crate::image_ops::coord_dom;
use crate::image_ops::font_decodes;
use crate::image_ops::text_drawn_of;
use crate::image_ops::img_dims;
use crate::image_ops::img_h;
use crate::image_ops::img_pixels;
use crate::image_ops::img_w;
use crate::image_ops::img_wf;
use crate::image_ops::in_img;
use crate::image_ops::load_font;
use crate::image_ops::Raster;
use crate::layout::dec_spec;
use crate::layout::lemma_dec_len_linear;
use crate::layout::u32_dec;
use vstd::prelude::*;
use vstd::string::StringExecFns;

verus! {

/// One point of interest, in projected world coordinates (milli-units).
pub struct Posten {
    /// The label drawn beside the marker.
    pub name: String,
    /// The marker glyph of the record; read but not rendered.
    pub icon: char,
    /// World easting in milli-units.
    pub x_milli: i64,
    /// World northing in milli-units.
    pub y_milli: i64,
    /// Whether the point is drawn when no override asks for all of them.
    pub show: bool,
}

/// Paints the full raster row `y` in the given color.
pub fn draw_h_line(img: &mut Raster, y: u32, color: (u8, u8, u8, u8))
    requires
        img_wf(*old(img)),
        (y as int) < img_h(*old(img)),
    ensures
        img_dims(*final(img)) == img_dims(*old(img)),
        img_wf(*final(img)),
        forall|xx: int, yy: int|
            in_img(*old(img), xx, yy) ==> #[trigger] img_pixels(*final(img))[(xx, yy)] == (
            if yy == y as int {
                color
            } else {
                img_pixels(*old(img))[(xx, yy)]
            }),
{
    let w = img.width();
    let mut x: u32 = 0;
    while x < w
        invariant
            img_dims(*img) == img_dims(*old(img)),
            img_wf(*img),
            w as nat == img_w(*old(img)),
            (y as int) < img_h(*old(img)),
            0 <= x <= w,
            forall|xx: int, yy: int|
                in_img(*old(img), xx, yy) ==> #[trigger] img_pixels(*img)[(xx, yy)] == (
                if yy == y as int && xx < x as int {
                    color
                } else {
                    img_pixels(*old(img))[(xx, yy)]
                }),
        decreases w - x,
    {
        img.put_px(x, y, color);
        proof {
            assert(img_pixels(*img).dom() =~= coord_dom(img_w(*img), img_h(*img)));
        }
        x = x + 1;
    }
}

/// Paints the full raster column `x` in the given color.
pub fn draw_v_line(img: &mut Raster, x: u32, color: (u8, u8, u8, u8))
    requires
        img_wf(*old(img)),
        (x as int) < img_w(*old(img)),
    ensures
        img_dims(*final(img)) == img_dims(*old(img)),
        img_wf(*final(img)),
        forall|xx: int, yy: int|
            in_img(*old(img), xx, yy) ==> #[trigger] img_pixels(*final(img))[(xx, yy)] == (
            if xx == x as int {
                color
            } else {
                img_pixels(*old(img))[(xx, yy)]
            }),
{
    let h = img.height();
    let mut y: u32 = 0;
    while y < h
        invariant
            img_dims(*img) == img_dims(*old(img)),
            img_wf(*img),
            h as nat == img_h(*old(img)),
            (x as int) < img_w(*old(img)),
            0 <= y <= h,
            forall|xx: int, yy: int|
                in_img(*old(img), xx, yy) ==> #[trigger] img_pixels(*img)[(xx, yy)] == (
                if xx == x as int && yy < y as int {
                    color
                } else {
                    img_pixels(*old(img))[(xx, yy)]
                }),
        decreases h - y,
    {
        img.put_px(x, y, color);
        proof {
            assert(img_pixels(*img).dom() =~= coord_dom(img_w(*img), img_h(*img)));
        }
        y = y + 1;
    }
}

/// The characters of the label stamped at a grid intersection: the two
/// display coordinates with a comma between them.
pub open spec fn label_seq(xp: int, yp: int) -> Seq<char> {
    dec_spec(xp) + seq![','] + dec_spec(yp)
}

/// A pixel map with the reference grid painted over it: every pixel on a
/// row or column that is a multiple of 400 is the grid color, every other
/// pixel keeps its value.
pub open spec fn grid_lines_of(p: Map<(int, int), (u8, u8, u8, u8)>) -> Map<
    (int, int),
    (u8, u8, u8, u8),
> {
    Map::new(
        |k: (int, int)| p.dom().contains(k),
        |k: (int, int)|
            if k.0 % 400 == 0 || k.1 % 400 == 0 {
                (255u8, 0u8, 0u8, 255u8)
            } else {
                p[k]
            },
    )
}

/// A pixel map with one grid intersection's coordinate label stamped one
/// pixel off the intersection, at scale 16 in the grid color.
pub open spec fn label_stamp(
    p: Map<(int, int), (u8, u8, u8, u8)>,
    font: rusttype::Font<'static>,
    x: int,
    y: int,
) -> Map<(int, int), (u8, u8, u8, u8)> {
    text_drawn_of(
        p,
        font,
        x + 1,
        y + 1,
        16,
        (255u8, 0u8, 0u8, 255u8),
        label_seq(label_x_spec(x), label_y_spec(y)),
    )
}

/// A pixel map with the labels of one grid column stamped at every interior
/// row below `y_end`, in row order.
pub open spec fn column_labels(
    p: Map<(int, int), (u8, u8, u8, u8)>,
    font: rusttype::Font<'static>,
    x: int,
    y_end: int,
) -> Map<(int, int), (u8, u8, u8, u8)>
    decreases y_end,
{
    if y_end <= 400 {
        p
    } else {
        label_stamp(column_labels(p, font, x, y_end - 400), font, x, y_end - 400)
    }
}

/// A pixel map with the labels of every interior grid column left of
/// `x_end` stamped, in column order.
pub open spec fn grid_labels(
    p: Map<(int, int), (u8, u8, u8, u8)>,
    font: rusttype::Font<'static>,
    x_end: int,
) -> Map<(int, int), (u8, u8, u8, u8)>
    decreases x_end,
{
    if x_end <= 400 {
        p
    } else {
        column_labels(grid_labels(p, font, x_end - 400), font, x_end - 400, crate::CANVAS_H as int)
    }
}

/// The text stamped at a grid intersection: the two display coordinates
/// with a comma between them.
pub fn label_text(xp: u32, yp: u32) -> (s: String)
    ensures
        s@ == label_seq(xp as int, yp as int),
{
    proof {
        reveal_strlit(",");
    }
    let mut s = u32_dec(xp);
    s.append(",");
    let t = u32_dec(yp);
    s.append(t.as_str());
    proof {
        assert(s@ =~= dec_spec(xp as int) + seq![','] + dec_spec(yp as int));
    }
    s
}

/// Draws the reference grid and its coordinate labels over the canvas:
/// a horizontal line at every row that is a multiple of 400 and a vertical
/// line at every such column, in the fixed grid color, and then at each
/// interior intersection the display coordinates of the label transform,
/// one pixel off the lines.
pub fn draw_grid_and_labels(img: &mut Raster, font: &rusttype::Font<'static>)
    requires
        img_wf(*old(img)),
        img_dims(*old(img)) == (crate::CANVAS_W as nat, crate::CANVAS_H as nat),
    ensures
        img_dims(*final(img)) == img_dims(*old(img)),
        img_wf(*final(img)),
        img_pixels(*final(img)) == grid_labels(
            grid_lines_of(img_pixels(*old(img))),
            *font,
            crate::CANVAS_W as int,
        ),
{
    let mut y: u32 = 0;
    while y < crate::CANVAS_H
        invariant
            img_dims(*old(img)) == (crate::CANVAS_W as nat, crate::CANVAS_H as nat),
            img_dims(*img) == (crate::CANVAS_W as nat, crate::CANVAS_H as nat),
            img_wf(*img),
            y % 400 == 0,
            y <= crate::CANVAS_H,
            forall|xx: int, yy: int|
                in_img(*old(img), xx, yy) ==> #[trigger] img_pixels(*img)[(xx, yy)] == (
                if yy % 400 == 0 && yy < y {
                    (255u8, 0u8, 0u8, 255u8)
                } else {
                    img_pixels(*old(img))[(xx, yy)]
                }),
        decreases (crate::CANVAS_H as int) - y,
    {
        draw_h_line(img, y, (255, 0, 0, 255));
        y = y + 400;
    }
    let mut x: u32 = 0;
    while x < crate::CANVAS_W
        invariant
            img_dims(*old(img)) == (crate::CANVAS_W as nat, crate::CANVAS_H as nat),
            img_dims(*img) == (crate::CANVAS_W as nat, crate::CANVAS_H as nat),
            img_wf(*img),
            x % 400 == 0,
            x <= crate::CANVAS_W,
            forall|xx: int, yy: int|
                in_img(*old(img), xx, yy) ==> #[trigger] img_pixels(*img)[(xx, yy)] == (
                if xx % 400 == 0 && xx < x {
                    (255u8, 0u8, 0u8, 255u8)
                } else if yy % 400 == 0 {
                    (255u8, 0u8, 0u8, 255u8)
                } else {
                    img_pixels(*old(img))[(xx, yy)]
                }),
        decreases (crate::CANVAS_W as int) - x,
    {
        draw_v_line(img, x, (255, 0, 0, 255));
        x = x + 400;
    }
    proof {
        assert(img_pixels(*img) =~= grid_lines_of(img_pixels(*old(img))));
    }
    let ghost lines = img_pixels(*img);
    let mut x: u32 = 400;
    while x < crate::CANVAS_W
        invariant
            img_dims(*img) == (crate::CANVAS_W as nat, crate::CANVAS_H as nat),
            img_wf(*img),
            x % 400 == 0,
            400 <= x <= crate::CANVAS_W,
            img_pixels(*img) == grid_labels(lines, *font, x as int),
        decreases (crate::CANVAS_W as int) - x,
    {
        let mut y: u32 = 400;
        while y < crate::CANVAS_H
            invariant
                img_dims(*img) == (crate::CANVAS_W as nat, crate::CANVAS_H as nat),
                img_wf(*img),
                x % 400 == 0,
                400 <= x < crate::CANVAS_W,
                y % 400 == 0,
                400 <= y <= crate::CANVAS_H,
                img_pixels(*img) == column_labels(
                    grid_labels(lines, *font, x as int),
                    *font,
                    x as int,
                    y as int,
                ),
            decreases (crate::CANVAS_H as int) - y,
        {
            let xp = label_x(x);
            let yp = label_y(y);
            let s = label_text(xp, yp);
            proof {
                lemma_dec_len_linear(xp as int);
                lemma_dec_len_linear(yp as int);
            }
            img.draw_text(font, (x + 1) as i32, (y + 1) as i32, 16, (255, 0, 0, 255), s.as_str());
            proof {
                assert(img_pixels(*img) == label_stamp(
                    column_labels(grid_labels(lines, *font, x as int), *font, x as int, y as int),
                    *font,
                    x as int,
                    y as int,
                ));
                assert(img_pixels(*img) == column_labels(
                    grid_labels(lines, *font, x as int),
                    *font,
                    x as int,
                    y as int + 400,
                ));
            }
            y = y + 400;
        }
        proof {
            assert(y == crate::CANVAS_H);
            assert(grid_labels(lines, *font, x as int + 400) == column_labels(
                grid_labels(lines, *font, x as int),
                *font,
                x as int,
                crate::CANVAS_H as int,
            ));
        }
        x = x + 400;
    }
    proof {
        assert(x == crate::CANVAS_W);
    }
}

/// The clamp applied to a marker coordinate before the clipped drawing
/// calls; a coordinate this far outside the canvas draws nothing either
/// way.
pub open spec fn sat_marker_spec(v: int) -> int {
    if v < -1_000_000_000 {
        -1_000_000_000
    } else if v > 1_000_000_000 {
        1_000_000_000
    } else {
        v
    }
}

/// The clamp applied to a text coordinate: negative positions collapse to
/// zero, as an unsigned pixel coordinate would, and room is left for the
/// fixed label offset.
pub open spec fn sat_text_spec(v: int) -> int {
    if v < 0 {
        0
    } else if v > 999_999_980 {
        999_999_980
    } else {
        v
    }
}

/// A pixel map with one point's marker rendered: the three hollow rings of
/// radii 50, 49, 51 in the marker color at the point's clamped canvas
/// position, then its name at the fixed (20, 20) offset, scale 32, in the
/// label color.
pub open spec fn point_rendered(
    p: Map<(int, int), (u8, u8, u8, u8)>,
    font: rusttype::Font<'static>,
    post: Posten,
) -> Map<(int, int), (u8, u8, u8, u8)> {
    let cx = sat_marker_spec(world_to_canvas_x_spec(post.x_milli as int));
    let cy = sat_marker_spec(world_to_canvas_y_spec(post.y_milli as int));
    let tx = sat_text_spec(world_to_canvas_x_spec(post.x_milli as int)) + 20;
    let ty = sat_text_spec(world_to_canvas_y_spec(post.y_milli as int)) + 20;
    let rings = circle_drawn_of(
        circle_drawn_of(
            circle_drawn_of(p, cx, cy, 50, (255u8, 0u8, 0u8, 255u8)),
            cx,
            cy,
            49,
            (255u8, 0u8, 0u8, 255u8),
        ),
        cx,
        cy,
        51,
        (255u8, 0u8, 0u8, 255u8),
    );
    text_drawn_of(rings, font, tx, ty, 32, (0u8, 0u8, 255u8, 255u8), post.name@)
}

/// A pixel map with the markers of the given points rendered in order:
/// a point is rendered exactly when its flag is set or the override asks
/// for all of them, and a skipped point changes nothing.
pub open spec fn points_rendered(
    p: Map<(int, int), (u8, u8, u8, u8)>,
    font: rusttype::Font<'static>,
    posten: Seq<Posten>,
    show_all: bool,
) -> Map<(int, int), (u8, u8, u8, u8)>
    decreases posten.len(),
{
    if posten.len() == 0 {
        p
    } else {
        let prev = points_rendered(p, font, posten.drop_last(), show_all);
        if posten.last().show || show_all {
            point_rendered(prev, font, posten.last())
        } else {
            prev
        }
    }
}

/// Clamps a marker coordinate into the range the clipped drawing calls
/// accept.
fn sat_marker(v: i64) -> (r: i32)
    ensures
        r as int == sat_marker_spec(v as int),
{
    if v < -1_000_000_000 {
        -1_000_000_000
    } else if v > 1_000_000_000 {
        1_000_000_000
    } else {
        v as i32
    }
}

/// Clamps a text coordinate to the non-negative range the text wrapper
/// accepts.
fn sat_text(v: i64) -> (r: i32)
    ensures
        r as int == sat_text_spec(v as int),
{
    if v < 0 {
        0
    } else if v > 999_999_980 {
        999_999_980
    } else {
        v as i32
    }
}

/// Draws a marker for every visible point of interest: three concentric
/// hollow rings at the point's canvas position and its name twenty pixels
/// off, at the fixed radii and colors. Points whose flag is off are
/// skipped unless the override asks for all of them.
pub fn draw_points(img: &mut Raster, font: &rusttype::Font<'static>, posten: &Vec<Posten>, show_all: bool)
    requires
        img_wf(*old(img)),
        forall|i: int|
            0 <= i < posten@.len() ==> -crate::COORD_LIMIT_MILLI <= (#[trigger] posten@[i]).x_milli
                <= crate::COORD_LIMIT_MILLI && -crate::COORD_LIMIT_MILLI <= posten@[i].y_milli
                <= crate::COORD_LIMIT_MILLI && posten@[i].name@.len() <= 30_000,
    ensures
        img_dims(*final(img)) == img_dims(*old(img)),
        img_wf(*final(img)),
        img_pixels(*final(img)) == points_rendered(
            img_pixels(*old(img)),
            *font,
            posten@,
            show_all,
        ),
{
    let n: usize = posten.len();
    let mut i: usize = 0;
    while i < n
        invariant
            n == posten@.len(),
            0 <= i <= n,
            img_dims(*img) == img_dims(*old(img)),
            img_wf(*img),
            forall|k: int|
                0 <= k < posten@.len() ==> -crate::COORD_LIMIT_MILLI <= (
                #[trigger] posten@[k]).x_milli <= crate::COORD_LIMIT_MILLI
                    && -crate::COORD_LIMIT_MILLI <= posten@[k].y_milli <= crate::COORD_LIMIT_MILLI
                    && posten@[k].name@.len() <= 30_000,
            img_pixels(*img) == points_rendered(
                img_pixels(*old(img)),
                *font,
                posten@.take(i as int),
                show_all,
            ),
        decreases n - i,
    {
        let ghost pre = posten@.take(i as int);
        let ghost cur = posten@.take(i as int + 1);
        proof {
            assert(cur.drop_last() =~= pre);
            assert(cur.last() == posten@[i as int]);
        }
        let p = &posten[i];
        if p.show || show_all {
            let x_pix = world_to_canvas_x(p.x_milli);
            let y_pix = world_to_canvas_y(p.y_milli);
            let cx = sat_marker(x_pix);
            let cy = sat_marker(y_pix);
            img.draw_hollow_circle(cx, cy, 50, (255, 0, 0, 255));
            img.draw_hollow_circle(cx, cy, 49, (255, 0, 0, 255));
            img.draw_hollow_circle(cx, cy, 51, (255, 0, 0, 255));
            let tx = sat_text(x_pix) + 20;
            let ty = sat_text(y_pix) + 20;
            img.draw_text(font, tx, ty, 32, (0, 0, 255, 255), p.name.as_str());
            proof {
                assert(img_pixels(*img) == point_rendered(
                    points_rendered(img_pixels(*old(img)), *font, pre, show_all),
                    *font,
                    posten@[i as int],
                ));
            }
        }
        proof {
            assert(img_pixels(*img) == points_rendered(
                img_pixels(*old(img)),
                *font,
                cur,
                show_all,
            ));
        }
        i = i + 1;
    }
    proof {
        assert(posten@.take(n as int) =~= posten@);
    }
}

/// Builds the annotated canvas: composes the four tile views, draws the
/// grid with its labels, then the point markers.
///
/// Fails with `OutOfBounds` when a tile is too small for its view and with
/// `DecodeError` when the font bytes are malformed.
pub fn build_canvas(
    ta: &Raster,
    tb: &Raster,
    tc: &Raster,
    td: &Raster,
    font_data: Vec<u8>,
    posten: &Vec<Posten>,
    show_all: bool,
) -> (r: Result<Raster, MapError>)
    requires
        forall|i: int|
            0 <= i < posten@.len() ==> -crate::COORD_LIMIT_MILLI <= (#[trigger] posten@[i]).x_milli
                <= crate::COORD_LIMIT_MILLI && -crate::COORD_LIMIT_MILLI <= posten@[i].y_milli
                <= crate::COORD_LIMIT_MILLI && posten@[i].name@.len() <= 30_000,
    ensures
        r is Ok <==> tiles_admit(*ta, *tb, *tc, *td) && font_decodes(font_data@),
        !tiles_admit(*ta, *tb, *tc, *td) ==> r == Result::<Raster, MapError>::Err(
            MapError::OutOfBounds,
        ),
        tiles_admit(*ta, *tb, *tc, *td) && !font_decodes(font_data@) ==> r == Result::<
            Raster,
            MapError,
        >::Err(MapError::DecodeError),
        r is Ok ==> img_dims(r->Ok_0) == (crate::CANVAS_W as nat, crate::CANVAS_H as nat)
            && img_wf(r->Ok_0),
{
    if !(ta.width() >= crate::I_W && ta.height() >= crate::I_H && tb.width() >= 7 * crate::B
        && tb.height() >= crate::I_H && tc.width() >= crate::I_W && tc.height() >= 8 * crate::B
        && td.width() >= 7 * crate::B && td.height() >= 8 * crate::B) {
        return Err(MapError::OutOfBounds);
    }
    let font = match load_font(font_data) {
        Some(f) => f,
        None => { return Err(MapError::DecodeError) },
    };
    let mut canvas = match compose_canvas(ta, tb, tc, td) {
        Ok(c) => c,
        Err(e) => { return Err(e) },
    };
    draw_grid_and_labels(&mut canvas, &font);
    draw_points(&mut canvas, &font, posten, show_all);
    Ok(canvas)
}

} // verus!
