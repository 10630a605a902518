use vstd::prelude::*;

verus! {

/// The error type of the `image` crate, carried through unread.
#[verifier::external_type_specification]
#[verifier::external_body]
pub struct ExImageError(image::ImageError);

/// What `image::load_from_memory_with_format` makes of a PNG file's bytes,
/// taken as 8-bit RGBA: the pixel data, the width and the height, or `None`
/// where the bytes are refused.
pub uninterp spec fn decoded_png(bytes: Seq<u8>) -> Option<(Seq<u8>, u32, u32)>;

/// Calls `image::load_from_memory_with_format` with the PNG format, and
/// hands out the image as 8-bit RGBA data with its dimensions. The contract
/// claims only that the outcome is the one that `decoded_png` names for these
/// bytes: nothing is said of what the pixels are, nor of how many there are.
#[verifier::external_body]
fn decode_png_rgba(bytes: &[u8]) -> (r: Result<(Vec<u8>, u32, u32), image::ImageError>)
    ensures
        match r {
            Ok(d) => decoded_png(bytes@) == Some((d.0@, d.1, d.2)),
            Err(_) => decoded_png(bytes@) is None,
        },
{
    let img = image::load_from_memory_with_format(bytes, image::ImageFormat::Png)?.into_rgba8();
    let (width, height) = img.dimensions();
    Ok((img.into_raw(), width, height))
}

/// Why a sprite sheet was refused.
#[derive(Copy, Clone, Debug, PartialEq, Eq, Structural)]
pub enum AtlasError {
    /// The bytes are not a PNG image that can be decoded.
    Decode,
    /// The image has no width or no height.
    Empty,
    /// The pixel data does not hold four bytes for each pixel.
    PixelCount,
}

/// What stands against making an atlas of `width` by `height` pixels from
/// `pixels`, if anything.
pub open spec fn atlas_fault(pixels: Seq<u8>, width: u32, height: u32) -> Option<AtlasError> {
    if width == 0 || height == 0 {
        Some(AtlasError::Empty)
    } else if pixels.len() != 4 * (width * height) {
        Some(AtlasError::PixelCount)
    } else {
        None
    }
}

/// The sprite sheet: RGBA pixel data, four bytes for each pixel, of an
/// image that has at least one pixel.
#[derive(Debug)]
pub struct Atlas {
    pixels: Vec<u8>,
    width: u32,
    height: u32,
}

impl Atlas {
    #[verifier::type_invariant]
    spec fn sized(self) -> bool {
        atlas_fault(self.pixels@, self.width, self.height) is None
    }

    /// The width in pixels.
    pub closed spec fn spec_width(self) -> u32 {
        self.width
    }

    /// The height in pixels.
    pub closed spec fn spec_height(self) -> u32 {
        self.height
    }

    /// The pixel data.
    pub closed spec fn spec_pixels(self) -> Seq<u8> {
        self.pixels@
    }

    /// Whether `r` is what making an atlas from `pixels`, `width` and
    /// `height` gives: the fault, if there is one, else an atlas of exactly
    /// these.
    pub open spec fn made_from(
        r: Result<Atlas, AtlasError>,
        pixels: Seq<u8>,
        width: u32,
        height: u32,
    ) -> bool {
        match r {
            Ok(a) => atlas_fault(pixels, width, height) is None && a.spec_pixels() == pixels
                && a.spec_width() == width && a.spec_height() == height,
            Err(e) => atlas_fault(pixels, width, height) == Some(e),
        }
    }

    /// Whether `r` is what loading an atlas gives when decoding gave
    /// `decoded`.
    pub open spec fn loaded_from(
        r: Result<Atlas, AtlasError>,
        decoded: Option<(Seq<u8>, u32, u32)>,
    ) -> bool {
        match decoded {
            None => r == Err::<Atlas, AtlasError>(AtlasError::Decode),
            Some(d) => Atlas::made_from(r, d.0, d.1, d.2),
        }
    }

    /// Makes an atlas from decoded RGBA data.
    pub fn from_rgba(pixels: Vec<u8>, width: u32, height: u32) -> (r: Result<Atlas, AtlasError>)
        ensures
            Atlas::made_from(r, pixels@, width, height),
    {
        if width == 0 || height == 0 {
            return Err(AtlasError::Empty);
        }
        let w: u64 = width as u64;
        let h: u64 = height as u64;
        assert(w * h <= 0xFFFF_FFFF * 0xFFFF_FFFF) by (nonlinear_arith)
            requires
                0 <= w <= 0xFFFF_FFFF,
                0 <= h <= 0xFFFF_FFFF,
        ;
        let area: u64 = w * h;
        let len: usize = pixels.len();
        if len % 4 != 0 || (len / 4) as u64 != area {
            return Err(AtlasError::PixelCount);
        }
        Ok(Atlas { pixels, width, height })
    }

    /// Decodes a PNG file's bytes into an atlas.
    pub fn load(bytes: &[u8]) -> (r: Result<Atlas, AtlasError>)
        ensures
            Atlas::loaded_from(r, decoded_png(bytes@)),
    {
        match decode_png_rgba(bytes) {
            Ok(d) => Atlas::from_rgba(d.0, d.1, d.2),
            Err(_) => Err(AtlasError::Decode),
        }
    }

    /// The width in pixels, never 0.
    pub fn width(&self) -> (r: u32)
        ensures
            r == self.spec_width(),
            r > 0,
    {
        proof {
            use_type_invariant(self);
        }
        self.width
    }

    /// The height in pixels, never 0.
    pub fn height(&self) -> (r: u32)
        ensures
            r == self.spec_height(),
            r > 0,
    {
        proof {
            use_type_invariant(self);
        }
        self.height
    }

    /// The pixel data: four bytes for each pixel.
    pub fn pixels(&self) -> (r: &Vec<u8>)
        ensures
            r@ == self.spec_pixels(),
            r@.len() == 4 * (self.spec_width() * self.spec_height()),
    {
        proof {
            use_type_invariant(self);
        }
        &self.pixels
    }
}

} // verus!
