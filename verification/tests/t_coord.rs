use topopages::canvas_to_world_x;
use topopages::canvas_to_world_y;
use topopages::label_x;
use topopages::label_y;
use topopages::world_to_canvas_x;
use topopages::world_to_canvas_y;

#[test]
fn world_to_canvas_x_exact_values() {
    assert_eq!(world_to_canvas_x(156_000), 0);
    assert_eq!(world_to_canvas_x(157_000), 800);
    assert_eq!(world_to_canvas_x(156_500), 400);
    assert_eq!(world_to_canvas_x(167_000), 8800);
}

#[test]
fn world_to_canvas_x_truncates_toward_zero() {
    assert_eq!(world_to_canvas_x(156_001), 0);
    assert_eq!(world_to_canvas_x(156_002), 1);
    assert_eq!(world_to_canvas_x(155_999), 0);
    assert_eq!(world_to_canvas_x(155_000), -800);
}

#[test]
fn world_to_canvas_y_exact_values() {
    assert_eq!(world_to_canvas_y(442_000), 7200);
    assert_eq!(world_to_canvas_y(443_000), 6400);
    assert_eq!(world_to_canvas_y(451_000), 0);
    assert_eq!(world_to_canvas_y(442_001), 7199);
}

#[test]
fn canvas_to_world_x_exact_values() {
    assert_eq!(canvas_to_world_x(0), 156_000);
    assert_eq!(canvas_to_world_x(800), 157_000);
    assert_eq!(canvas_to_world_x(1), 156_001);
    assert_eq!(canvas_to_world_x(2), 156_002);
    assert_eq!(canvas_to_world_x(3), 156_003);
    assert_eq!(canvas_to_world_x(4), 156_005);
    assert_eq!(canvas_to_world_x(8800), 167_000);
}

#[test]
fn canvas_to_world_y_exact_values() {
    assert_eq!(canvas_to_world_y(7200), 442_000);
    assert_eq!(canvas_to_world_y(6400), 443_000);
    assert_eq!(canvas_to_world_y(0), 451_000);
}

#[test]
fn round_trip_is_within_one_pixel() {
    let xs: [u32; 8] = [0, 1, 2, 3, 5, 399, 799, 8799];
    for &x in xs.iter() {
        let back = world_to_canvas_x(canvas_to_world_x(x));
        assert!((x as i64) - 1 <= back && back <= x as i64, "x = {}", x);
    }
    let ys: [u32; 8] = [0, 1, 2, 3, 5, 400, 801, 7199];
    for &y in ys.iter() {
        let back = world_to_canvas_y(canvas_to_world_y(y));
        assert_eq!(back, y as i64, "y = {}", y);
    }
}

#[test]
fn label_values_at_grid_intersections() {
    assert_eq!(label_x(400), 13);
    assert_eq!(label_x(800), 14);
    assert_eq!(label_x(8400), 33);
    assert_eq!(label_x(0), 12);
    assert_eq!(label_y(400), 81);
    assert_eq!(label_y(6800), 65);
    assert_eq!(label_y(7200), 64);
}
