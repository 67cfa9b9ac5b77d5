use topopages::build_canvas;
use topopages::compose_canvas;
use topopages::MapError;
use topopages::Posten;
use topopages::Raster;

const I_W: u32 = 8000;
const I_H: u32 = 10000;

fn solid_tile_bytes(color: [u8; 4]) -> Vec<u8> {
    color.to_vec().repeat((I_W * I_H) as usize)
}

fn solid_tile(color: [u8; 4]) -> Raster {
    Raster::from_vec(I_W, I_H, solid_tile_bytes(color))
}

#[test]
fn composing_places_the_four_tiles() {
    // Tiles A and B are uniform but for one marked pixel at the corner of
    // their fixed source view: A at (I_W - 4B, I_H - B), B at (0, I_H - B).
    let mut a_bytes = solid_tile_bytes([1, 0, 0, 255]);
    let a_idx = 4 * ((I_H as usize - 800) * I_W as usize + (I_W as usize - 3200));
    a_bytes[a_idx + 1] = 77;
    let mut b_bytes = solid_tile_bytes([2, 0, 0, 255]);
    let b_idx = 4 * ((I_H as usize - 800) * I_W as usize);
    b_bytes[b_idx + 1] = 66;
    let ta = Raster::from_vec(I_W, I_H, a_bytes);
    let tb = Raster::from_vec(I_W, I_H, b_bytes);
    let tc = solid_tile([3, 0, 0, 255]);
    let td = solid_tile([4, 0, 0, 255]);
    let canvas = compose_canvas(&ta, &tb, &tc, &td).expect("exact tiles admit every view");
    assert!(canvas.has_dims(8800, 7200));
    // Tile A's block, top-left of the canvas: its marked source corner
    // lands at (0, 0).
    assert_eq!(canvas.pixel_at(0, 0), (1, 77, 0, 255));
    assert_eq!(canvas.pixel_at(1, 0), (1, 0, 0, 255));
    assert_eq!(canvas.pixel_at(3199, 799), (1, 0, 0, 255));
    // Tile B's block, to its right: its marked source corner lands at (4B, 0).
    assert_eq!(canvas.pixel_at(3200, 0), (2, 66, 0, 255));
    assert_eq!(canvas.pixel_at(3201, 0), (2, 0, 0, 255));
    assert_eq!(canvas.pixel_at(8799, 799), (2, 0, 0, 255));
    // Tile C's block, below A.
    assert_eq!(canvas.pixel_at(0, 800), (3, 0, 0, 255));
    assert_eq!(canvas.pixel_at(3199, 7199), (3, 0, 0, 255));
    // Tile D's block fills the rest.
    assert_eq!(canvas.pixel_at(3200, 800), (4, 0, 0, 255));
    assert_eq!(canvas.pixel_at(8799, 7199), (4, 0, 0, 255));
}

#[test]
fn composing_rejects_small_tiles() {
    let ta = Raster::new_blank(100, 100);
    let tb = Raster::new_blank(100, 100);
    let tc = Raster::new_blank(100, 100);
    let td = Raster::new_blank(100, 100);
    assert!(matches!(compose_canvas(&ta, &tb, &tc, &td), Err(MapError::OutOfBounds)));
}

#[test]
fn building_a_canvas_rejects_small_tiles_first() {
    let ta = Raster::new_blank(10, 10);
    let tb = Raster::new_blank(10, 10);
    let tc = Raster::new_blank(10, 10);
    let td = Raster::new_blank(10, 10);
    let posten: Vec<Posten> = Vec::new();
    let r = build_canvas(&ta, &tb, &tc, &td, vec![0, 1, 2], &posten, false);
    assert!(matches!(r, Err(MapError::OutOfBounds)));
}

#[test]
fn building_a_canvas_rejects_a_malformed_font() {
    let ta = solid_tile([1, 0, 0, 255]);
    let tb = solid_tile([2, 0, 0, 255]);
    let tc = solid_tile([3, 0, 0, 255]);
    let td = solid_tile([4, 0, 0, 255]);
    let posten: Vec<Posten> = Vec::new();
    let r = build_canvas(&ta, &tb, &tc, &td, vec![0, 1, 2, 3], &posten, false);
    assert!(matches!(r, Err(MapError::DecodeError)));
}
