use topopages::label_text;
use topopages::page_one_remaps;
use topopages::page_three_remaps;
use topopages::page_two_remaps;
use topopages::remaps_partition_ok;
use topopages::u32_dec;
use topopages::MapError;
use topopages::ReOder;

#[test]
fn cell_extent_values() {
    assert_eq!(ReOder::to_size(0), 0);
    assert_eq!(ReOder::to_size(1), 800 + 40 * 2);
    assert_eq!(ReOder::to_size(3), 800 * 3 + 40 * 3 * 2 + 10 * 2);
    assert_eq!(ReOder::to_size(3), 2660);
    assert_eq!(ReOder::to_size(4), 800 * 4 + 40 * 4 * 2 + 10 * 3);
    assert_eq!(ReOder::to_size(4), 3550);
}

#[test]
fn cell_origin_values() {
    assert_eq!(ReOder::to_pos(0), 40);
    assert_eq!(ReOder::to_pos(1), 800 + 120 + 10);
    assert_eq!(ReOder::to_pos(1), 930);
    assert_eq!(ReOder::to_pos(2), 1820);
    assert_eq!(ReOder::to_pos(3), 2710);
}

#[test]
fn cells_stay_inside_extent_and_apart() {
    for n in 1u32..5 {
        for i in 0..n {
            assert!(ReOder::to_pos(i) + 800 <= ReOder::to_size(n), "i = {}, n = {}", i, n);
            assert!(ReOder::to_pos(i + 1) >= ReOder::to_pos(i) + 800, "i = {}", i);
        }
    }
}

#[test]
fn remap_pixel_corners() {
    let r = ReOder::new((3, 2), (1, 0));
    assert_eq!(r.from, (3, 2));
    assert_eq!(r.to, (1, 0));
    assert_eq!(r.from_x_pix(), 2400);
    assert_eq!(r.from_y_pix(), 1600);
    assert_eq!(r.to_x_pix(), 930);
    assert_eq!(r.to_y_pix(), 40);
}

#[test]
fn remap_describe_text() {
    let r = ReOder::new((10, 8), (0, 2));
    assert_eq!(r.describe(), "((10, 8), (0, 2)) => ((8000, 6400),(40, 1820))");
    let r = ReOder::new((1, 1), (0, 0));
    assert_eq!(r.describe(), "((1, 1), (0, 0)) => ((800, 800),(40, 40))");
}

#[test]
fn decimal_rendering() {
    assert_eq!(u32_dec(0), "0");
    assert_eq!(u32_dec(7), "7");
    assert_eq!(u32_dec(57), "57");
    assert_eq!(u32_dec(400), "400");
    assert_eq!(u32_dec(4294967295), "4294967295");
}

#[test]
fn grid_label_text() {
    assert_eq!(label_text(13, 64), "13,64");
    assert_eq!(label_text(33, 81), "33,81");
}

#[test]
fn fixed_pages_partition_the_canvas() {
    let a = page_one_remaps();
    let b = page_two_remaps();
    let c = page_three_remaps();
    assert_eq!(a.len(), 12);
    assert_eq!(b.len(), 12);
    assert_eq!(c.len(), 12);
    assert!(remaps_partition_ok(&a, &b, &c));
}

#[test]
fn partition_check_spots_duplicate_within_a_page() {
    let mut a = page_one_remaps();
    let b = page_two_remaps();
    let c = page_three_remaps();
    a[11] = ReOder::new(a[0].from, a[11].to);
    assert!(!remaps_partition_ok(&a, &b, &c));
}

#[test]
fn partition_check_spots_duplicate_across_pages() {
    let a = page_one_remaps();
    let mut b = page_two_remaps();
    let c = page_three_remaps();
    b[0] = ReOder::new(a[3].from, b[0].to);
    assert!(!remaps_partition_ok(&a, &b, &c));
}

#[test]
fn partition_check_spots_wrong_cardinality() {
    let mut a = page_one_remaps();
    let b = page_two_remaps();
    let c = page_three_remaps();
    a.pop();
    assert!(!remaps_partition_ok(&a, &b, &c));
}

#[test]
fn partition_check_spots_offgrid_cell() {
    let mut a = page_one_remaps();
    let b = page_two_remaps();
    let c = page_three_remaps();
    a[5] = ReOder::new((11, 0), a[5].to);
    assert!(!remaps_partition_ok(&a, &b, &c));
}

#[test]
fn partition_check_spots_shared_destination() {
    let mut a = page_one_remaps();
    let b = page_two_remaps();
    let c = page_three_remaps();
    a[1] = ReOder::new(a[1].from, a[0].to);
    assert!(!remaps_partition_ok(&a, &b, &c));
}

#[test]
fn error_descriptions() {
    assert_eq!(
        MapError::OutOfBounds.describe(),
        "a computed pixel rectangle exceeds its target raster"
    );
    assert_eq!(MapError::DimensionMismatch.describe(), "overlay dimensions differ from the page");
    assert_eq!(MapError::DecodeError.describe(), "a resource could not be decoded");
}
