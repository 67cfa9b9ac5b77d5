use topopages::lay_out_page;
use topopages::page_one_remaps;
use topopages::render_page;
use topopages::MapError;
use topopages::Raster;
use topopages::ReOder;

const CANVAS_W: u32 = 8800;
const CANVAS_H: u32 = 7200;

/// A canvas-sized raster of a uniform color with one uniquely colored
/// pixel per remap source cell, at the cell's corner and at an offset.
fn marked_canvas(remaps: &[ReOder]) -> Raster {
    let mut data = [200u8, 200, 200, 255].repeat((CANVAS_W * CANVAS_H) as usize);
    for (i, r) in remaps.iter().enumerate() {
        let (cx, cy) = r.from;
        let corner = 4 * ((800 * cy as usize) * CANVAS_W as usize + 800 * cx as usize);
        data[corner] = i as u8;
        data[corner + 1] = 111;
        let off = 4 * ((800 * cy as usize + 7) * CANVAS_W as usize + 800 * cx as usize + 5);
        data[off] = i as u8;
        data[off + 1] = 222;
    }
    Raster::from_vec(CANVAS_W, CANVAS_H, data)
}

#[test]
fn layout_copies_each_cell_to_its_page_slot() {
    let remaps = page_one_remaps();
    let canvas = marked_canvas(&remaps);
    let page = lay_out_page(&canvas, &remaps).expect("every remap fits");
    assert!(page.has_dims(3550, 2660));
    for (i, r) in remaps.iter().enumerate() {
        let dx = ReOder::to_pos(r.to.0);
        let dy = ReOder::to_pos(r.to.1);
        assert_eq!(page.pixel_at(dx, dy), (i as u8, 111, 200, 255), "corner of remap {}", i);
        assert_eq!(page.pixel_at(dx + 5, dy + 7), (i as u8, 222, 200, 255), "offset of remap {}", i);
        assert_eq!(page.pixel_at(dx + 1, dy), (200, 200, 200, 255), "body of remap {}", i);
    }
}

#[test]
fn layout_leaves_margins_and_gaps_transparent() {
    let remaps = page_one_remaps();
    let canvas = marked_canvas(&remaps);
    let page = lay_out_page(&canvas, &remaps).expect("every remap fits");
    // Left margin, gap between cell contents, and bottom-right margin.
    assert_eq!(page.pixel_at(0, 0), (0, 0, 0, 0));
    assert_eq!(page.pixel_at(39, 1000), (0, 0, 0, 0));
    assert_eq!(page.pixel_at(880, 500), (0, 0, 0, 0));
    assert_eq!(page.pixel_at(3549, 2659), (0, 0, 0, 0));
}

#[test]
fn layout_rejects_an_offgrid_source_cell() {
    let mut remaps = page_one_remaps();
    remaps[3] = ReOder::new((11, 0), remaps[3].to);
    let canvas = marked_canvas(&[]);
    assert!(matches!(lay_out_page(&canvas, &remaps), Err(MapError::OutOfBounds)));
}

#[test]
fn layout_rejects_an_offgrid_destination_cell() {
    let mut remaps = page_one_remaps();
    remaps[0] = ReOder::new(remaps[0].from, (4, 0));
    let canvas = marked_canvas(&[]);
    assert!(matches!(lay_out_page(&canvas, &remaps), Err(MapError::OutOfBounds)));
}

#[test]
fn later_remap_wins_a_shared_destination() {
    let remaps = vec![
        ReOder::new((0, 0), (1, 1)),
        ReOder::new((2, 2), (1, 1)),
    ];
    let canvas = marked_canvas(&remaps);
    let page = lay_out_page(&canvas, &remaps).expect("both remaps fit");
    let dx = ReOder::to_pos(1);
    assert_eq!(page.pixel_at(dx, dx), (1, 111, 200, 255));
}

#[test]
fn rendering_refuses_a_mismatched_overlay() {
    let remaps = page_one_remaps();
    let canvas = marked_canvas(&[]);
    let overlay = Raster::new_blank(10, 10);
    assert!(matches!(render_page(&canvas, &remaps, &overlay), Err(MapError::DimensionMismatch)));
}

#[test]
fn rendering_with_a_transparent_overlay_equals_plain_layout() {
    let remaps = page_one_remaps();
    let canvas = marked_canvas(&remaps);
    let plain = lay_out_page(&canvas, &remaps).expect("every remap fits");
    let overlay = Raster::new_blank(3550, 2660);
    let blended = render_page(&canvas, &remaps, &overlay).expect("overlay is page-sized");
    assert_eq!(blended.to_vec(), plain.to_vec());
}

#[test]
fn rendering_with_an_opaque_overlay_copies_the_overlay() {
    let remaps = page_one_remaps();
    let canvas = marked_canvas(&remaps);
    let over_bytes = [3u8, 5, 8, 255].repeat(3550 * 2660);
    let overlay = Raster::from_vec(3550, 2660, over_bytes.clone());
    let blended = render_page(&canvas, &remaps, &overlay).expect("overlay is page-sized");
    assert_eq!(blended.to_vec(), over_bytes);
}
