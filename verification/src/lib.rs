//! Composes topographic raster tiles into one large map canvas, annotates it
//! with a coordinate grid and point-of-interest markers, and re-slices the
//! result into printable pages with margin-padded, re-ordered cells and a
//! blended overlay.

mod annotate;
mod blend;
mod compose;
mod coord;
mod errors;
mod image_ops;
mod layout;

pub use annotate::build_canvas;
pub use annotate::column_labels;
pub use annotate::draw_grid_and_labels;
pub use annotate::draw_h_line;
pub use annotate::draw_points;
pub use annotate::draw_v_line;
pub use annotate::grid_labels;
pub use annotate::grid_lines_of;
pub use annotate::label_seq;
pub use annotate::label_stamp;
pub use annotate::label_text;
pub use annotate::point_rendered;
pub use annotate::points_rendered;
pub use annotate::sat_marker_spec;
pub use annotate::sat_text_spec;
pub use annotate::Posten;
pub use blend::blend_overlay;
pub use blend::render_page;
pub use compose::compose_canvas;
pub use compose::composed_pixel;
pub use compose::in_dest_a;
pub use compose::in_dest_b;
pub use compose::in_dest_c;
pub use compose::in_dest_d;
pub use compose::lemma_placements_cover;
pub use compose::tiles_admit;
pub use coord::canvas_to_world_x;
pub use coord::canvas_to_world_x_spec;
pub use coord::canvas_to_world_y;
pub use coord::canvas_to_world_y_spec;
pub use coord::label_x;
pub use coord::label_x_spec;
pub use coord::label_y;
pub use coord::label_y_spec;
pub use coord::lemma_round_trip;
pub use coord::trunc_div;
pub use coord::world_to_canvas_x;
pub use coord::world_to_canvas_x_spec;
pub use coord::world_to_canvas_y;
pub use coord::world_to_canvas_y_spec;
pub use coord::COORD_LIMIT_MILLI;
pub use coord::X0_MILLI;
pub use coord::Y0_MILLI;
pub use errors::MapError;
pub use image_ops::blend_of;
pub use image_ops::circle_drawn_of;
pub use image_ops::coord_dom;
pub use image_ops::font_decodes;
pub use image_ops::text_drawn_of;
pub use image_ops::img_dims;
pub use image_ops::img_h;
pub use image_ops::img_pixels;
pub use image_ops::img_w;
pub use image_ops::img_wf;
pub use image_ops::in_img;
pub use image_ops::px_in_bytes;
pub use image_ops::Raster;
pub use layout::cell_extent;
pub use layout::collection_ok;
pub use layout::disjoint_froms;
pub use layout::no_dup_from;
pub use layout::no_dup_to;
pub use layout::page_one_remaps;
pub use layout::page_one_spec;
pub use layout::page_three_remaps;
pub use layout::page_three_spec;
pub use layout::page_two_remaps;
pub use layout::page_two_spec;
pub use layout::pages_partition;
pub use layout::remaps_partition_ok;
pub use layout::cell_origin;
pub use layout::covers;
pub use layout::dec_digit;
pub use layout::dec_spec;
pub use layout::lay_out_page;
pub use layout::lemma_cells_fit;
pub use layout::lemma_dec_len_linear;
pub use layout::page_pixel_spec;
pub use layout::remap_fits;
pub use layout::source_pixel;
pub use layout::u32_dec;
pub use layout::ReOder;
pub use layout::CANVAS_CELL_COLS;
pub use layout::CANVAS_CELL_ROWS;
pub use layout::GAP;
pub use layout::MARGIN;
pub use layout::PAGE_COLS;
pub use layout::PAGE_H;
pub use layout::PAGE_ROWS;
pub use layout::PAGE_W;

use vstd::prelude::*;

verus! {

/// Pixels per distance unit (one km of the projected world system).
pub const B: u32 = 800;

/// Width of a source tile in pixels.
pub const I_W: u32 = 8_000;

/// Height of a source tile in pixels.
pub const I_H: u32 = 10_000;

/// Width of the composited canvas in pixels.
pub const CANVAS_W: u32 = B * 11;

/// Height of the composited canvas in pixels.
pub const CANVAS_H: u32 = B * 9;

} // verus!
