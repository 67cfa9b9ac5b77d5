use image::Pixel;
use topopages::blend_overlay;
use topopages::draw_h_line;
use topopages::draw_v_line;
use topopages::MapError;
use topopages::Raster;

fn raster_of(w: u32, h: u32, bytes: Vec<u8>) -> Raster {
    Raster::from_vec(w, h, bytes)
}

#[test]
fn bytes_round_trip_through_a_raster() {
    let bytes: Vec<u8> = (0u8..16).collect();
    let r = raster_of(2, 2, bytes.clone());
    assert!(r.has_dims(2, 2));
    assert_eq!(r.width(), 2);
    assert_eq!(r.height(), 2);
    assert_eq!(r.pixel_at(0, 0), (0, 1, 2, 3));
    assert_eq!(r.pixel_at(1, 0), (4, 5, 6, 7));
    assert_eq!(r.pixel_at(0, 1), (8, 9, 10, 11));
    assert_eq!(r.pixel_at(1, 1), (12, 13, 14, 15));
    assert_eq!(r.to_vec(), bytes);
}

#[test]
fn blank_raster_is_transparent() {
    let r = Raster::new_blank(3, 2);
    assert!(r.has_dims(3, 2));
    for y in 0..2 {
        for x in 0..3 {
            assert_eq!(r.pixel_at(x, y), (0, 0, 0, 0));
        }
    }
}

#[test]
fn horizontal_line_paints_one_row() {
    let mut r = raster_of(3, 3, vec![7u8; 36]);
    draw_h_line(&mut r, 1, (255, 0, 0, 255));
    for x in 0..3 {
        assert_eq!(r.pixel_at(x, 0), (7, 7, 7, 7));
        assert_eq!(r.pixel_at(x, 1), (255, 0, 0, 255));
        assert_eq!(r.pixel_at(x, 2), (7, 7, 7, 7));
    }
}

#[test]
fn vertical_line_paints_one_column() {
    let mut r = raster_of(3, 3, vec![7u8; 36]);
    draw_v_line(&mut r, 2, (0, 0, 255, 255));
    for y in 0..3 {
        assert_eq!(r.pixel_at(0, y), (7, 7, 7, 7));
        assert_eq!(r.pixel_at(1, y), (7, 7, 7, 7));
        assert_eq!(r.pixel_at(2, y), (0, 0, 255, 255));
    }
}

#[test]
fn blending_a_fully_transparent_overlay_changes_nothing() {
    let bytes: Vec<u8> = (0u8..16).map(|b| b.wrapping_mul(13)).collect();
    let mut page = raster_of(2, 2, bytes.clone());
    let overlay = raster_of(2, 2, vec![0u8; 16]);
    assert_eq!(blend_overlay(&mut page, &overlay), Ok(()));
    assert_eq!(page.to_vec(), bytes);
}

#[test]
fn blending_an_opaque_overlay_replaces_the_page() {
    let mut page = raster_of(2, 2, (0u8..16).collect());
    let over_bytes = [9u8, 8, 7, 255].repeat(4);
    let overlay = raster_of(2, 2, over_bytes.clone());
    assert_eq!(blend_overlay(&mut page, &overlay), Ok(()));
    assert_eq!(page.to_vec(), over_bytes);
}

#[test]
fn blending_matches_the_image_crate_operator() {
    let mut page = raster_of(1, 1, vec![100, 150, 200, 255]);
    let overlay = raster_of(1, 1, vec![10, 20, 30, 128]);
    assert_eq!(blend_overlay(&mut page, &overlay), Ok(()));
    let mut direct = image::Rgba([100u8, 150, 200, 255]);
    direct.blend(&image::Rgba([10u8, 20, 30, 128]));
    let got = page.pixel_at(0, 0);
    assert_eq!([got.0, got.1, got.2, got.3], direct.0);
    assert_ne!([got.0, got.1, got.2, got.3], [100, 150, 200, 255]);
}

#[test]
fn blending_refuses_a_mismatched_overlay() {
    let bytes: Vec<u8> = (0u8..16).collect();
    let mut page = raster_of(2, 2, bytes.clone());
    let overlay = raster_of(3, 2, vec![0u8; 24]);
    assert_eq!(blend_overlay(&mut page, &overlay), Err(MapError::DimensionMismatch));
    assert_eq!(page.to_vec(), bytes);
}
