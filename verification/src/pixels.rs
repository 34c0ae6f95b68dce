//! A mathematical model of decoded images, and the codec crate's pixel
//! operations stated over it.

use image::ColorType;
use image::DynamicImage;
use vstd::prelude::*;

verus! {

/// A decoded image of the codec crate. Its contents are known to the verifier
/// only through [`image_grid`] and [`image_color`].
#[verifier::external_type_specification]
#[verifier::external_body]
pub struct ExDynamicImage(image::DynamicImage);

/// What a codec reports when it fails.
#[verifier::external_type_specification]
#[verifier::external_body]
pub struct ExImageError(image::ImageError);

/// The codec crate's tag for how an image keeps its pixels.
#[verifier::external_type_specification]
pub struct ExColorType(image::ColorType);

/// One pixel: red, green, blue and alpha, eight bits each.
#[derive(Clone, Copy, Debug, PartialEq, Eq, Structural)]
pub struct Rgba8 {
    pub r: u8,
    pub g: u8,
    pub b: u8,
    pub a: u8,
}

/// A rectangle of pixels: `rows[y][x]` is the pixel in column `x` of row `y`,
/// counted from the top left.
#[verifier::ext_equal]
pub struct Grid {
    pub width: nat,
    pub height: nat,
    pub rows: Seq<Seq<Rgba8>>,
}

impl Grid {
    /// There are `height` rows of `width` pixels each.
    pub open spec fn wf(self) -> bool {
        &&& self.rows.len() == self.height
        &&& forall|y: int| 0 <= y < self.height ==> (#[trigger] self.rows[y]).len() == self.width
    }

    /// A well-formed grid of exactly this size.
    pub open spec fn has_shape(self, width: nat, height: nat) -> bool {
        self.width == width && self.height == height && self.wf()
    }

    pub open spec fn at(self, x: int, y: int) -> Rgba8 {
        self.rows[y][x]
    }

    /// The grid whose pixel at `(x, y)` is `f(x, y)`.
    pub open spec fn build(width: nat, height: nat, f: spec_fn(int, int) -> Rgba8) -> Grid {
        Grid {
            width,
            height,
            rows: Seq::new(height, |y: int| Seq::new(width, |x: int| f(x, y))),
        }
    }

    /// Transparent black everywhere.
    pub open spec fn blank(width: nat, height: nat) -> Grid {
        Self::build(width, height, |x: int, y: int| Rgba8 { r: 0, g: 0, b: 0, a: 0 })
    }

    /// The same grid with the pixel at `(x, y)` replaced.
    pub open spec fn with_pixel(self, x: int, y: int, p: Rgba8) -> Grid {
        Grid {
            width: self.width,
            height: self.height,
            rows: self.rows.update(y, self.rows[y].update(x, p)),
        }
    }

    /// Flipped along the main diagonal: columns become rows.
    pub open spec fn transposed(self) -> Grid {
        Self::build(self.height, self.width, |x: int, y: int| self.at(y, x))
    }

    /// Turned by half a revolution.
    pub open spec fn rotated(self) -> Grid {
        Self::build(
            self.width,
            self.height,
            |x: int, y: int| self.at(self.width - 1 - x, self.height - 1 - y),
        )
    }

    /// Left and right exchanged.
    pub open spec fn mirrored(self) -> Grid {
        Self::build(self.width, self.height, |x: int, y: int| self.at(self.width - 1 - x, y))
    }

    /// An RGBA copy of the grid can be allocated.
    pub open spec fn fits_memory(self) -> bool {
        4 * (self.width * self.height) <= isize::MAX
    }
}

/// The pixels of a decoded image, each as the codec crate renders it in
/// eight-bit RGBA.
pub uninterp spec fn image_grid(img: DynamicImage) -> Grid;

/// How a decoded image keeps its pixels.
pub uninterp spec fn image_color(img: DynamicImage) -> ColorType;

/// Whether the image keeps its pixels as eight-bit RGBA, so that a pixel
/// that is written is read back unchanged.
pub open spec fn stores_rgba8(img: DynamicImage) -> bool {
    image_color(img) == ColorType::Rgba8
}

/// `DynamicImage::color`: the tag of the image's pixel type.
pub assume_specification[ image::DynamicImage::color ](img: &DynamicImage) -> (c: ColorType)
    ensures
        c == image_color(*img),
;

/// The image as the codec crate converts it to eight-bit RGB.
pub uninterp spec fn rgb8_copy(img: DynamicImage) -> DynamicImage;

/// The image as the codec crate converts it to eight-bit RGBA.
pub uninterp spec fn rgba8_copy(img: DynamicImage) -> DynamicImage;

/// `DynamicImage::to_rgb8`: a copy of the image, of the same size, in
/// eight-bit RGB. The copy is a function of the image.
#[verifier::external_body]
pub(crate) fn to_rgb8(img: &DynamicImage) -> (out: DynamicImage)
    ensures
        out == rgb8_copy(*img),
        image_color(out) == ColorType::Rgb8,
        image_grid(out).width == image_grid(*img).width,
        image_grid(out).height == image_grid(*img).height,
{
    DynamicImage::ImageRgb8(img.to_rgb8())
}

/// `DynamicImage::to_rgba8`: a copy of the image, of the same size, in
/// eight-bit RGBA. The copy is a function of the image.
#[verifier::external_body]
pub(crate) fn to_rgba8(img: &DynamicImage) -> (out: DynamicImage)
    ensures
        out == rgba8_copy(*img),
        image_color(out) == ColorType::Rgba8,
        image_grid(out).width == image_grid(*img).width,
        image_grid(out).height == image_grid(*img).height,
{
    DynamicImage::ImageRgba8(img.to_rgba8())
}

/// `GenericImageView::dimensions` of the codec crate: the width and height of
/// the image. The model has that many columns and rows.
#[verifier::external_body]
pub(crate) fn dimensions(img: &DynamicImage) -> (d: (u32, u32))
    ensures
        image_grid(*img).has_shape(d.0 as nat, d.1 as nat),
{
    image::GenericImageView::dimensions(img)
}

/// `GenericImageView::get_pixel` of the codec crate: the pixel at `(x, y)`,
/// converted to eight-bit RGBA. The crate panics outside the image.
#[verifier::external_body]
pub(crate) fn pixel_at(img: &DynamicImage, x: u32, y: u32) -> (p: Rgba8)
    requires
        x < image_grid(*img).width,
        y < image_grid(*img).height,
    ensures
        p == image_grid(*img).at(x as int, y as int),
{
    let p = image::GenericImageView::get_pixel(img, x, y).0;
    Rgba8 { r: p[0], g: p[1], b: p[2], a: p[3] }
}

/// `DynamicImage::new_rgba8` of the codec crate: a zeroed eight-bit RGBA image
/// of the given size. The crate panics when the buffer cannot be allocated.
#[verifier::external_body]
pub(crate) fn blank_rgba(width: u32, height: u32) -> (img: DynamicImage)
    requires
        4 * (width as nat * height as nat) <= isize::MAX,
    ensures
        image_grid(img) == Grid::blank(width as nat, height as nat),
        stores_rgba8(img),
{
    DynamicImage::new_rgba8(width, height)
}

/// `GenericImage::put_pixel` of the codec crate on an eight-bit RGBA image:
/// replaces the pixel at `(x, y)` and nothing else. The crate panics outside
/// the image.
#[verifier::external_body]
pub(crate) fn put_pixel(img: &mut DynamicImage, x: u32, y: u32, p: Rgba8)
    requires
        stores_rgba8(*old(img)),
        x < image_grid(*old(img)).width,
        y < image_grid(*old(img)).height,
    ensures
        image_grid(*final(img)) == image_grid(*old(img)).with_pixel(x as int, y as int, p),
        stores_rgba8(*final(img)),
{
    image::GenericImage::put_pixel(img, x, y, image::Rgba([p.r, p.g, p.b, p.a]))
}

/// `imageops::rotate180` of the codec crate: a new eight-bit RGBA image in
/// which the pixel read at `(x, y)` is written at `(width - 1 - x, height - 1 - y)`.
/// The crate panics when the buffer cannot be allocated.
#[verifier::external_body]
pub(crate) fn rotate180(img: &DynamicImage) -> (out: DynamicImage)
    requires
        image_grid(*img).fits_memory(),
    ensures
        image_grid(out) == image_grid(*img).rotated(),
        stores_rgba8(out),
{
    DynamicImage::ImageRgba8(image::imageops::rotate180(img))
}

/// `imageops::flip_horizontal` of the codec crate: a new eight-bit RGBA image
/// in which the pixel read at `(x, y)` is written at `(width - 1 - x, y)`.
/// The crate panics when the buffer cannot be allocated.
#[verifier::external_body]
pub(crate) fn flip_horizontal(img: &DynamicImage) -> (out: DynamicImage)
    requires
        image_grid(*img).fits_memory(),
    ensures
        image_grid(out) == image_grid(*img).mirrored(),
        stores_rgba8(out),
{
    DynamicImage::ImageRgba8(image::imageops::flip_horizontal(img))
}

/// Whether an RGBA copy of an image of this size can be allocated.
pub fn fits_in_memory(width: u32, height: u32) -> (b: bool)
    ensures
        b == (4 * (width as nat * height as nat) <= isize::MAX),
{
    assert(width as int * height as int <= 0xFFFF_FFFF * 0xFFFF_FFFF) by (nonlinear_arith)
        requires
            0 <= width <= 0xFFFF_FFFF,
            0 <= height <= 0xFFFF_FFFF,
    ;
    let area: u64 = (width as u64) * (height as u64);
    area <= (isize::MAX as u64) / 4
}

} // verus!
