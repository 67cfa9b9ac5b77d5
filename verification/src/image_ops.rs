//! The raster type the pipeline works on.
//!
//! A [`Raster`] holds an `image::RgbaImage` of the `image` crate. The buffer
//! is opaque to the contracts; what they say about a raster they say through
//! two names: [`img_dims`], the width and height, and [`img_pixels`], the map
//! from a coordinate pair to the four channel values (red, green, blue,
//! alpha) of the pixel there. Each trusted wrapper below makes one call into
//! an outside crate and states over those names what that crate's source
//! shows; where a call's effect takes pages to state but depends on its
//! arguments alone (blending, text, circles, font decoding), the effect
//! itself carries a name ([`blend_of`], [`text_drawn_of`],
//! [`circle_drawn_of`], [`font_decodes`]).
//!
//! Every raster built here carries a buffer of exactly `4 * width * height`
//! bytes, in row-major order with the four channel values of each pixel
//! adjacent: `new_blank` and `from_vec` construct such buffers, and no
//! operation of this module changes a buffer's length.

use image::GenericImage;
use image::GenericImageView;
use image::Pixel;
use vstd::prelude::*;

verus! {

/// An in-memory raster of RGBA pixels, eight bits per channel.
#[verifier::external_body]
pub struct Raster {
    img: image::RgbaImage,
}

/// The width and height of a raster, in pixels.
pub uninterp spec fn img_dims(r: Raster) -> (nat, nat);

/// The pixels of a raster: each in-bounds coordinate pair maps to the red,
/// green, blue and alpha channel values of the pixel there.
pub uninterp spec fn img_pixels(r: Raster) -> Map<(int, int), (u8, u8, u8, u8)>;

/// What `image::Rgba::blend` makes of a page pixel (first argument) when an
/// overlay pixel (second argument) is composited over it.
pub uninterp spec fn blend_of(dst: (u8, u8, u8, u8), src: (u8, u8, u8, u8)) -> (u8, u8, u8, u8);

/// What `imageproc::drawing::draw_text_mut` makes of a pixel map when the
/// given text is rendered at (x, y) with the given font, pixel scale and
/// color: rendering depends on these arguments alone.
pub uninterp spec fn text_drawn_of(
    pixels: Map<(int, int), (u8, u8, u8, u8)>,
    font: rusttype::Font<'static>,
    x: int,
    y: int,
    scale_px: int,
    color: (u8, u8, u8, u8),
    text: Seq<char>,
) -> Map<(int, int), (u8, u8, u8, u8)>;

/// What `imageproc::drawing::draw_hollow_circle_mut` makes of a pixel map
/// when the circle of the given center and radius is plotted in the given
/// color: plotting depends on these arguments alone.
pub uninterp spec fn circle_drawn_of(
    pixels: Map<(int, int), (u8, u8, u8, u8)>,
    cx: int,
    cy: int,
    radius: int,
    color: (u8, u8, u8, u8),
) -> Map<(int, int), (u8, u8, u8, u8)>;

/// Whether `rusttype::Font::try_from_vec` decodes the given bytes as a
/// font: the outcome depends on the bytes alone.
pub uninterp spec fn font_decodes(data: Seq<u8>) -> bool;

/// Width of a raster.
pub open spec fn img_w(r: Raster) -> nat {
    img_dims(r).0
}

/// Height of a raster.
pub open spec fn img_h(r: Raster) -> nat {
    img_dims(r).1
}

/// The coordinate pair (x, y) lies on the raster.
pub open spec fn in_img(r: Raster, x: int, y: int) -> bool {
    0 <= x < img_w(r) && 0 <= y < img_h(r)
}

/// The coordinate pairs of a raster of width `w` and height `h`.
pub open spec fn coord_dom(w: nat, h: nat) -> Set<(int, int)> {
    Set::new(|p: (int, int)| 0 <= p.0 < w && 0 <= p.1 < h)
}

/// A raster is coherent: its pixel map is defined exactly on its coordinates.
pub open spec fn img_wf(r: Raster) -> bool {
    img_pixels(r).dom() == coord_dom(img_w(r), img_h(r))
}

/// The pixel at (x, y) of a raster of width `w` whose bytes are `data`,
/// row-major, four channel values per pixel.
pub open spec fn px_in_bytes(data: Seq<u8>, w: nat, x: int, y: int) -> (u8, u8, u8, u8) {
    (
        data[4 * (y * w + x)],
        data[4 * (y * w + x) + 1],
        data[4 * (y * w + x) + 2],
        data[4 * (y * w + x) + 3],
    )
}

impl Raster {
    /// Relies on `image::ImageBuffer::new`: a fresh buffer of the given
    /// dimensions whose samples are all zero, that is, every pixel is
    /// transparent black. It panics when the buffer length would overflow
    /// `usize`, which the precondition rules out.
    #[verifier::external_body]
    pub(crate) fn new_blank_raw(w: u32, h: u32) -> (r: Raster)
        requires
            (w as nat) * (h as nat) * 4 <= usize::MAX as nat,
        ensures
            img_dims(r) == (w as nat, h as nat),
            img_wf(r),
            forall|x: int, y: int|
                0 <= x < w && 0 <= y < h ==> #[trigger] img_pixels(r)[(x, y)] == (
                    0u8,
                    0u8,
                    0u8,
                    0u8,
                ),
    {
        Raster { img: image::RgbaImage::new(w, h) }
    }

    /// Relies on `image::ImageBuffer::from_raw`: with a container of exactly
    /// `4 * w * h` bytes it returns a buffer of the given dimensions over
    /// those bytes, row-major, four channel values per pixel.
    #[verifier::external_body]
    pub(crate) fn from_vec_raw(w: u32, h: u32, data: Vec<u8>) -> (r: Raster)
        requires
            data@.len() == 4 * (w as nat) * (h as nat),
        ensures
            img_dims(r) == (w as nat, h as nat),
            img_wf(r),
            forall|x: int, y: int|
                0 <= x < w && 0 <= y < h ==> #[trigger] img_pixels(r)[(x, y)] == px_in_bytes(
                    data@,
                    w as nat,
                    x,
                    y,
                ),
    {
        let img = image::RgbaImage::from_raw(w, h, data).expect("the buffer length matches");
        Raster { img }
    }

    /// Relies on `image::ImageBuffer::as_raw`: the raster's bytes, row-major,
    /// four channel values per pixel (see the module invariant on buffer
    /// length).
    #[verifier::external_body]
    pub(crate) fn to_vec_raw(&self) -> (data: Vec<u8>)
        ensures
            data@.len() == 4 * img_w(*self) * img_h(*self),
            forall|x: int, y: int|
                in_img(*self, x, y) ==> #[trigger] img_pixels(*self)[(x, y)] == px_in_bytes(
                    data@,
                    img_w(*self),
                    x,
                    y,
                ),
    {
        self.img.as_raw().clone()
    }

    /// Relies on `image::ImageBuffer::width`.
    #[verifier::external_body]
    pub(crate) fn width_raw(&self) -> (w: u32)
        ensures
            w as nat == img_w(*self),
    {
        self.img.width()
    }

    /// Relies on `image::ImageBuffer::height`.
    #[verifier::external_body]
    pub(crate) fn height_raw(&self) -> (h: u32)
        ensures
            h as nat == img_h(*self),
    {
        self.img.height()
    }

    /// Relies on `image::ImageBuffer::get_pixel`, which panics out of
    /// bounds; the precondition keeps the call on the raster.
    #[verifier::external_body]
    pub(crate) fn get_px(&self, x: u32, y: u32) -> (p: (u8, u8, u8, u8))
        requires
            in_img(*self, x as int, y as int),
        ensures
            p == img_pixels(*self)[(x as int, y as int)],
    {
        let q = self.img.get_pixel(x, y);
        (q.0[0], q.0[1], q.0[2], q.0[3])
    }

    /// Relies on `image::ImageBuffer::put_pixel`, which panics out of
    /// bounds; the precondition keeps the call on the raster.
    #[verifier::external_body]
    pub(crate) fn put_px(&mut self, x: u32, y: u32, p: (u8, u8, u8, u8))
        requires
            in_img(*old(self), x as int, y as int),
        ensures
            img_dims(*final(self)) == img_dims(*old(self)),
            img_pixels(*final(self)) == img_pixels(*old(self)).insert((x as int, y as int), p),
    {
        self.img.put_pixel(x, y, image::Rgba([p.0, p.1, p.2, p.3]))
    }

    /// Relies on `image::GenericImageView::view` and
    /// `image::GenericImage::copy_from`: the sub-rectangle view of `src` of
    /// size `w` by `h` at `(sx, sy)` is copied into this raster with its
    /// top-left corner at `(dx, dy)`; nothing else changes. Both calls stay
    /// in bounds by the precondition, so neither panics nor errors.
    #[verifier::external_body]
    pub(crate) fn copy_region(
        &mut self,
        src: &Raster,
        sx: u32,
        sy: u32,
        w: u32,
        h: u32,
        dx: u32,
        dy: u32,
    )
        requires
            sx as int + w as int <= img_w(*src),
            sy as int + h as int <= img_h(*src),
            dx as int + w as int <= img_w(*old(self)),
            dy as int + h as int <= img_h(*old(self)),
        ensures
            img_dims(*final(self)) == img_dims(*old(self)),
            img_pixels(*final(self)).dom() == img_pixels(*old(self)).dom(),
            forall|x: int, y: int|
                dx <= x < dx + w && dy <= y < dy + h ==> #[trigger] img_pixels(*final(self))[(x, y)]
                    == img_pixels(*src)[(x - dx + sx, y - dy + sy)],
            forall|x: int, y: int|
                img_pixels(*old(self)).dom().contains((x, y)) && !(dx <= x < dx + w && dy <= y < dy
                    + h) ==> #[trigger] img_pixels(*final(self))[(x, y)] == img_pixels(
                    *old(self),
                )[(x, y)],
    {
        let block = src.img.view(sx, sy, w, h);
        let _ = self.img.copy_from(&*block, dx, dy);
    }

    /// A fresh raster of the given dimensions, every pixel transparent
    /// black.
    pub fn new_blank(w: u32, h: u32) -> (r: Raster)
        requires
            (w as nat) * (h as nat) * 4 <= usize::MAX as nat,
        ensures
            img_dims(r) == (w as nat, h as nat),
            img_wf(r),
            forall|x: int, y: int|
                0 <= x < w && 0 <= y < h ==> #[trigger] img_pixels(r)[(x, y)] == (
                    0u8,
                    0u8,
                    0u8,
                    0u8,
                ),
    {
        Self::new_blank_raw(w, h)
    }

    /// A raster of the given dimensions over the given bytes, row-major,
    /// four channel values per pixel.
    pub fn from_vec(w: u32, h: u32, data: Vec<u8>) -> (r: Raster)
        requires
            data@.len() == 4 * (w as nat) * (h as nat),
        ensures
            img_dims(r) == (w as nat, h as nat),
            img_wf(r),
            forall|x: int, y: int|
                0 <= x < w && 0 <= y < h ==> #[trigger] img_pixels(r)[(x, y)] == px_in_bytes(
                    data@,
                    w as nat,
                    x,
                    y,
                ),
    {
        Self::from_vec_raw(w, h, data)
    }

    /// The raster's bytes, row-major, four channel values per pixel.
    pub fn to_vec(&self) -> (data: Vec<u8>)
        ensures
            data@.len() == 4 * img_w(*self) * img_h(*self),
            forall|x: int, y: int|
                in_img(*self, x, y) ==> #[trigger] img_pixels(*self)[(x, y)] == px_in_bytes(
                    data@,
                    img_w(*self),
                    x,
                    y,
                ),
    {
        self.to_vec_raw()
    }

    /// The raster's width in pixels.
    pub fn width(&self) -> (w: u32)
        ensures
            w as nat == img_w(*self),
    {
        self.width_raw()
    }

    /// The raster's height in pixels.
    pub fn height(&self) -> (h: u32)
        ensures
            h as nat == img_h(*self),
    {
        self.height_raw()
    }

    /// True when the raster has exactly the given dimensions.
    pub fn has_dims(&self, w: u32, h: u32) -> (b: bool)
        ensures
            b == (img_dims(*self) == (w as nat, h as nat)),
    {
        let iw = self.width();
        let ih = self.height();
        proof {
            assert(img_dims(*self) == (img_w(*self), img_h(*self)));
        }
        iw == w && ih == h
    }

    /// The channel values of the pixel at (x, y).
    pub fn pixel_at(&self, x: u32, y: u32) -> (p: (u8, u8, u8, u8))
        requires
            in_img(*self, x as int, y as int),
        ensures
            p == img_pixels(*self)[(x as int, y as int)],
    {
        self.get_px(x, y)
    }
}

#[verifier::external_type_specification]
#[verifier::external_body]
pub struct ExFont<'a>(rusttype::Font<'a>);

/// Relies on `rusttype::Font::try_from_vec`: decodes a font from its
/// bytes, `None` on malformed font data; the outcome is a function of the
/// bytes alone.
#[verifier::external_body]
pub(crate) fn load_font(data: Vec<u8>) -> (r: Option<rusttype::Font<'static>>)
    ensures
        r is Some <==> font_decodes(data@),
{
    rusttype::Font::try_from_vec(data)
}

impl Raster {
    /// Relies on `imageproc::drawing::draw_text_mut`: renders the text onto
    /// the raster at (x, y) with the given pixel scale and color, writing
    /// only pixels that lie inside bounds and leaving the dimensions alone;
    /// the rendered pixels are a function of the arguments alone, named
    /// [`text_drawn_of`]. The preconditions keep its internal i32 position
    /// sums (glyph layout offsets grow with scale times text length) from
    /// overflowing.
    #[verifier::external_body]
    pub(crate) fn draw_text(
        &mut self,
        font: &rusttype::Font<'static>,
        x: i32,
        y: i32,
        scale_px: u16,
        color: (u8, u8, u8, u8),
        text: &str,
    )
        requires
            -1_000_000_000 <= x <= 1_000_000_000,
            -1_000_000_000 <= y <= 1_000_000_000,
            (text@.len() + 1) * (scale_px as int) <= 1_000_000,
        ensures
            img_dims(*final(self)) == img_dims(*old(self)),
            img_pixels(*final(self)).dom() == img_pixels(*old(self)).dom(),
            img_pixels(*final(self)) == text_drawn_of(
                img_pixels(*old(self)),
                *font,
                x as int,
                y as int,
                scale_px as int,
                color,
                text@,
            ),
    {
        imageproc::drawing::draw_text_mut(
            &mut self.img,
            image::Rgba([color.0, color.1, color.2, color.3]),
            x,
            y,
            rusttype::Scale::uniform(scale_px.into()),
            font,
            text,
        );
    }

    /// Relies on `imageproc::drawing::draw_hollow_circle_mut`: plots the
    /// circle of the given center and radius, writing only pixels that lie
    /// inside bounds and leaving the dimensions alone; the plotted pixels
    /// are a function of the arguments alone, named [`circle_drawn_of`].
    /// The precondition keeps its internal i32 coordinate sums from
    /// overflowing.
    #[verifier::external_body]
    pub(crate) fn draw_hollow_circle(&mut self, cx: i32, cy: i32, radius: i32, color: (u8, u8, u8, u8))
        requires
            -1_000_000_000 <= cx <= 1_000_000_000,
            -1_000_000_000 <= cy <= 1_000_000_000,
            0 <= radius <= 1_000,
        ensures
            img_dims(*final(self)) == img_dims(*old(self)),
            img_pixels(*final(self)).dom() == img_pixels(*old(self)).dom(),
            img_pixels(*final(self)) == circle_drawn_of(
                img_pixels(*old(self)),
                cx as int,
                cy as int,
                radius as int,
                color,
            ),
    {
        imageproc::drawing::draw_hollow_circle_mut(
            &mut self.img,
            (cx, cy),
            radius,
            image::Rgba([color.0, color.1, color.2, color.3]),
        );
    }
}

/// Relies on `image::Rgba::blend` (the `Pixel` impl of the `image` crate):
/// the result depends on the two pixels alone; an overlay pixel whose alpha
/// is zero leaves the page pixel, and one whose alpha is 255 replaces it.
#[verifier::external_body]
pub(crate) fn blend_px(dst: (u8, u8, u8, u8), src: (u8, u8, u8, u8)) -> (r: (u8, u8, u8, u8))
    ensures
        r == blend_of(dst, src),
        src.3 == 0 ==> r == dst,
        src.3 == 255 ==> r == src,
{
    let mut d = image::Rgba([dst.0, dst.1, dst.2, dst.3]);
    d.blend(&image::Rgba([src.0, src.1, src.2, src.3]));
    (d.0[0], d.0[1], d.0[2], d.0[3])
}

} // verus!
