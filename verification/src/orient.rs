//! EXIF orientation: reading the tag and undoing what it records.

use crate::pixels::{
    blank_rgba, dimensions, flip_horizontal, image_grid, pixel_at, put_pixel, rotate180,
    stores_rgba8, Grid,
};
use image::DynamicImage;
use vstd::prelude::*;

verus! {

/// What a look for the orientation tag in a file's metadata found.
#[derive(Clone, Copy, Debug, PartialEq, Eq, Structural)]
pub enum ExifReading {
    /// The container holds no metadata that could be parsed.
    Unreadable,
    /// The metadata has no orientation tag in its primary image.
    Missing,
    /// The tag is there, but it has no first value that is an unsigned
    /// integer.
    NotUnsigned,
    /// The tag's first value.
    Value(u32),
}

/// Why no orientation could be read from a file.
#[derive(Clone, Copy, Debug, PartialEq, Eq, Structural)]
pub enum ExifError {
    Unreadable,
    NoSuchField,
    NoUintInValue,
}

/// What the metadata parser finds in these bytes.
pub uninterp spec fn exif_reading(data: Seq<u8>) -> ExifReading;

/// The metadata parser: `Reader::read_from_container` on the bytes, then
/// `Exif::get_field` for the primary image's orientation tag, then
/// `Value::get_uint` for its first value. The result is a function of the
/// bytes; each way of failing is told apart and nothing else is decided here.
#[verifier::external_body]
fn read_orientation(data: &[u8]) -> (r: ExifReading)
    ensures
        r == exif_reading(data@),
{
    match exif::Reader::new().read_from_container(&mut std::io::Cursor::new(data)) {
        Err(_) => ExifReading::Unreadable,
        Ok(meta) => match meta.get_field(exif::Tag::Orientation, exif::In::PRIMARY) {
            None => ExifReading::Missing,
            Some(field) => match field.value.get_uint(0) {
                None => ExifReading::NotUnsigned,
                Some(v) => ExifReading::Value(v),
            },
        },
    }
}

impl ExifReading {
    pub open spec fn rotation(self) -> Result<u32, ExifError> {
        match self {
            ExifReading::Unreadable => Err(ExifError::Unreadable),
            ExifReading::Missing => Err(ExifError::NoSuchField),
            ExifReading::NotUnsigned => Err(ExifError::NoUintInValue),
            ExifReading::Value(v) => Ok(v),
        }
    }

    /// The orientation that was read, or why there is none.
    pub fn into_rotation(self) -> (r: Result<u32, ExifError>)
        ensures
            r == self.rotation(),
    {
        match self {
            ExifReading::Unreadable => Err(ExifError::Unreadable),
            ExifReading::Missing => Err(ExifError::NoSuchField),
            ExifReading::NotUnsigned => Err(ExifError::NoUintInValue),
            ExifReading::Value(v) => Ok(v),
        }
    }
}

/// The EXIF orientation recorded in a file.
pub fn exif_rotation(from: &[u8]) -> (r: Result<u32, ExifError>)
    ensures
        r == exif_reading(from@).rotation(),
{
    read_orientation(from).into_rotation()
}

/// Orientations that ask for a change: 2 to 8. Zero and anything above 8
/// mean nothing, and 1 says the image is upright already.
pub open spec fn turns(rotation: u32) -> bool {
    2 <= rotation <= 8
}

/// Orientations whose correction starts with a flip along the diagonal.
pub open spec fn transposes(rotation: u32) -> bool {
    5 <= rotation <= 8
}

/// Orientations whose correction includes half a revolution.
pub open spec fn half_turns(rotation: u32) -> bool {
    rotation == 3 || rotation == 4 || rotation == 7 || rotation == 8
}

/// Orientations whose correction ends with a horizontal flip.
pub open spec fn mirrors(rotation: u32) -> bool {
    rotation == 2 || rotation == 4 || rotation == 6 || rotation == 8
}

/// The upright image for a grid stored with the given orientation: the
/// diagonal flip, the half turn and the horizontal flip, in that order, each
/// where the orientation asks for it.
pub open spec fn oriented(grid: Grid, rotation: u32) -> Grid {
    let a = if transposes(rotation) {
        grid.transposed()
    } else {
        grid
    };
    let b = if half_turns(rotation) {
        a.rotated()
    } else {
        a
    };
    if mirrors(rotation) {
        b.mirrored()
    } else {
        b
    }
}

/// Orientations 1 to 4 are corrected without changing an image's width and
/// height; 5 to 8 exchange the two. Values that ask for nothing change nothing.
pub proof fn orientation_and_size(grid: Grid, rotation: u32)
    ensures
        !transposes(rotation) ==> oriented(grid, rotation).width == grid.width && oriented(
            grid,
            rotation,
        ).height == grid.height,
        transposes(rotation) ==> oriented(grid, rotation).width == grid.height && oriented(
            grid,
            rotation,
        ).height == grid.width,
        !turns(rotation) ==> oriented(grid, rotation) == grid,
        oriented(grid, rotation).width * oriented(grid, rotation).height == grid.width
            * grid.height,
{
    area_commutes(grid.width, grid.height);
}

proof fn area_commutes(w: nat, h: nat)
    ensures
        w * h == h * w,
{
    assert(w * h == h * w) by (nonlinear_arith);
}

/// A copy of the image flipped along its main diagonal, in eight-bit RGBA.
pub fn flip_diagonal(image: &DynamicImage) -> (out: DynamicImage)
    requires
        image_grid(*image).fits_memory(),
    ensures
        image_grid(out) == image_grid(*image).transposed(),
        stores_rgba8(out),
{
    let (width, height) = dimensions(image);
    let ghost g = image_grid(*image);
    proof {
        area_commutes(width as nat, height as nat);
    }
    let mut out = blank_rgba(height, width);
    let mut y: u32 = 0;
    while y < height
        invariant
            g == image_grid(*image),
            g.has_shape(width as nat, height as nat),
            image_grid(out).has_shape(height as nat, width as nat),
            stores_rgba8(out),
            y <= height,
            forall|i: int, j: int|
                0 <= i < width && 0 <= j < y ==> #[trigger] image_grid(out).rows[i][j]
                    == g.rows[j][i],
        decreases height - y,
    {
        let mut x: u32 = 0;
        while x < width
            invariant
                g == image_grid(*image),
                g.has_shape(width as nat, height as nat),
                image_grid(out).has_shape(height as nat, width as nat),
                stores_rgba8(out),
                y < height,
                x <= width,
                forall|i: int, j: int|
                    0 <= i < width && 0 <= j < y ==> #[trigger] image_grid(out).rows[i][j]
                        == g.rows[j][i],
                forall|i: int|
                    0 <= i < x ==> #[trigger] image_grid(out).rows[i][y as int]
                        == g.rows[y as int][i],
            decreases width - x,
        {
            let p = pixel_at(image, x, y);
            let ghost before = image_grid(out);
            put_pixel(&mut out, y, x, p);
            proof {
                // only the pixel at (y, x) of the copy has changed
                let after = image_grid(out);
                assert(after.rows == before.rows.update(
                    x as int,
                    before.rows[x as int].update(y as int, p),
                ));
                assert forall|i: int, j: int| 0 <= i < width && 0 <= j < y implies #[trigger] after.rows[i][j]
                    == g.rows[j][i] by {
                    assert(before.rows[i][j] == g.rows[j][i]);
                }
                assert forall|i: int| 0 <= i < x + 1 implies #[trigger] after.rows[i][y as int]
                    == g.rows[y as int][i] by {
                    if i < x {
                        assert(before.rows[i][y as int] == g.rows[y as int][i]);
                    }
                }
            }
            x += 1;
        }
        y += 1;
    }
    proof {
        // row by row, the copy is the transposed grid
        let c = image_grid(out);
        let t = g.transposed();
        assert forall|i: int| 0 <= i < width implies #[trigger] c.rows[i] =~= t.rows[i] by {
            assert forall|j: int| 0 <= j < height implies c.rows[i][j] == t.rows[i][j] by {
                assert(c.rows[i][j] == g.rows[j][i]);
            }
        }
        assert(c.rows =~= t.rows);
    }
    out
}

/// Brings an image upright. `rotation` is its EXIF orientation; values that
/// ask for nothing leave the image as it was.
pub fn apply_rotation(rotation: u32, image: &mut DynamicImage)
    requires
        turns(rotation) ==> image_grid(*old(image)).fits_memory(),
    ensures
        image_grid(*final(image)) == oriented(image_grid(*old(image)), rotation),
        turns(rotation) ==> stores_rgba8(*final(image)),
        !turns(rotation) ==> *final(image) == *old(image),
{
    if rotation == 0 || rotation > 8 {
        return ;
    }
    let bits: u32 = rotation - 1;
    assert((bits & 0b100 != 0) == (bits >= 4) && (bits & 0b010 != 0) == (bits == 2 || bits == 3
        || bits == 6 || bits == 7) && (bits & 0b001 != 0) == (bits == 1 || bits == 3 || bits == 5
        || bits == 7)) by (bit_vector)
        requires
            bits < 8,
    ;
    if 0 != bits & 0b100 {
        *image = flip_diagonal(image);
        proof {
            area_commutes(image_grid(*old(image)).width, image_grid(*old(image)).height);
        }
    }
    if 0 != bits & 0b010 {
        *image = rotate180(image);
    }
    if 0 != bits & 0b001 {
        *image = flip_horizontal(image);
    }
}

} // verus!
