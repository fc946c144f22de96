//! Decoding fetched image bytes and preparing the texture upload.
//!
//! Decoding is delegated to the `image` crate; everything after the
//! decode — the buffer length, the upload layout, the sampler and
//! format policy — is computed and checked here.  The format is fixed
//! to 8-bit-per-channel sRGB RGBA, so a decoded `width x height` image
//! always uploads exactly `4 * width * height` bytes with a row stride
//! of `4 * width`.

use vstd::prelude::*;

use crate::errors::LoadError;

verus! {

/// What decoding a byte payload yields: `None` when the bytes are not a
/// well-formed image, otherwise the RGBA pixel buffer and the
/// dimensions `(width, height)`.  Decoding is a pure function of the
/// bytes alone.
pub uninterp spec fn decoded_rgba(bytes: Seq<u8>) -> Option<(Seq<u8>, u32, u32)>;

/// The error type of the `image` crate, carried through the decode
/// call and mapped to [`LoadError::Decode`] by the callers.
#[verifier::external_type_specification]
#[verifier::external_body]
pub struct ExImageError(image::ImageError);

/// Relies on `image::load_from_memory` and
/// `image::DynamicImage::to_rgba8`: decoding either fails or yields an
/// RGBA buffer of exactly `4 * width * height` bytes (the `image`
/// crate's `ImageBuffer` allocates exactly `width * height * 4` bytes
/// for an RGBA image of those dimensions), and the outcome depends on
/// the bytes alone.
#[verifier::external_body]
fn decode_rgba(bytes: &Vec<u8>) -> (r: Result<(Vec<u8>, u32, u32), image::ImageError>)
    ensures
        r is Ok <==> decoded_rgba(bytes@) is Some,
        r is Ok ==> {
            let (pixels, width, height) = r->Ok_0;
            &&& decoded_rgba(bytes@) == Some((pixels@, width, height))
            &&& pixels@.len() == 4 * width * height
        },
{
    let img = image::load_from_memory(bytes)?;
    let rgba = img.to_rgba8();
    let (width, height) = rgba.dimensions();
    Ok((rgba.into_raw(), width, height))
}

/// A decoded image: the RGBA pixel buffer and its dimensions.
#[derive(Debug)]
pub struct TextureImage {
    diffuse_rgba: Vec<u8>,
    /// (width, height) of the image.
    dimensions: (u32, u32),
}

impl TextureImage {
    /// The pixel buffer, for contracts.
    pub closed spec fn pixels(&self) -> Seq<u8> {
        self.diffuse_rgba@
    }

    /// The dimensions (width, height), for contracts.
    pub closed spec fn dims(&self) -> (u32, u32) {
        self.dimensions
    }

    /// The buffer holds exactly four bytes per pixel.
    pub open spec fn wf(&self) -> bool {
        self.pixels().len() == 4 * self.dims().0 * self.dims().1
    }

    /// Decode fetched bytes into an RGBA pixel buffer and dimensions.
    /// Succeeds exactly on well-formed image payloads; anything else is
    /// a decode error.
    pub fn from_bytes(diffuse_bytes: &Vec<u8>) -> (r: Result<Self, LoadError>)
        ensures
            r is Ok <==> decoded_rgba(diffuse_bytes@) is Some,
            r is Ok ==> {
                let img = r->Ok_0;
                &&& decoded_rgba(diffuse_bytes@) == Some((img.pixels(), img.dims().0, img.dims().1))
                &&& img.wf()
            },
            r is Err ==> r->Err_0 == LoadError::Decode,
    {
        match decode_rgba(diffuse_bytes) {
            Ok((pixels, width, height)) => Ok(TextureImage {
                diffuse_rgba: pixels,
                dimensions: (width, height),
            }),
            Err(_) => Err(LoadError::Decode),
        }
    }

    /// The pixel buffer, consumed for the upload.
    pub fn into_diffuse_rgba(self) -> (r: Vec<u8>)
        ensures
            r@ == self.pixels(),
    {
        self.diffuse_rgba
    }

    /// (width, height) of the image.
    pub fn dimensions(&self) -> (d: (u32, u32))
        ensures
            d == self.dims(),
    {
        self.dimensions
    }
}

/// A texture ready for upload: the exact pixel bytes the host writes to
/// the GPU, together with the upload layout.  The GPU texture object,
/// view and sampler built from it live with the host.
#[derive(Debug)]
pub struct Texture {
    pixels: Vec<u8>,
    width: u32,
    height: u32,
}

impl Texture {
    /// The pixel buffer, for contracts.
    pub closed spec fn pixels(&self) -> Seq<u8> {
        self.pixels@
    }

    /// The texture width, for contracts.
    pub closed spec fn width(&self) -> u32 {
        self.width
    }

    /// The texture height, for contracts.
    pub closed spec fn height(&self) -> u32 {
        self.height
    }

    /// The buffer holds four bytes per pixel, and one row's bytes fit
    /// the `u32` stride the upload layout asks for.
    pub open spec fn wf(&self) -> bool {
        &&& self.pixels().len() == 4 * self.width() * self.height()
        &&& 4 * self.width() <= u32::MAX
    }

    /// Accept a decoded image for upload.  Fails with a decode error
    /// exactly when one row of pixels would overflow the `u32` byte
    /// stride of the upload layout.
    pub fn from_image(texture_img: TextureImage) -> (r: Result<Self, LoadError>)
        requires
            texture_img.wf(),
        ensures
            r is Ok <==> 4 * texture_img.dims().0 <= u32::MAX,
            r is Ok ==> {
                let t = r->Ok_0;
                &&& t.pixels() == texture_img.pixels()
                &&& t.width() == texture_img.dims().0
                &&& t.height() == texture_img.dims().1
                &&& t.wf()
            },
            r is Err ==> r->Err_0 == LoadError::Decode,
    {
        let (width, height) = texture_img.dimensions();
        if width > u32::MAX / 4 {
            return Err(LoadError::Decode);
        }
        Ok(Texture { pixels: texture_img.into_diffuse_rgba(), width, height })
    }

    /// The byte stride of one pixel row in the upload layout.
    pub fn bytes_per_row(&self) -> (r: u32)
        requires
            self.wf(),
        ensures
            r == 4 * self.width(),
    {
        4 * self.width
    }

    /// The number of pixel rows in the upload layout.
    pub fn rows_per_image(&self) -> (r: u32)
        ensures
            r == self.height(),
    {
        self.height
    }

    /// The extent of the GPU texture: (width, height, depth).
    pub fn extent(&self) -> (e: (u32, u32, u32))
        ensures
            e == (self.width(), self.height(), 1u32),
    {
        (self.width, self.height, 1)
    }

    /// The pixel bytes the host writes to the GPU texture.
    pub fn data(&self) -> (d: &Vec<u8>)
        ensures
            d@ == self.pixels(),
    {
        &self.pixels
    }
}

} // verus!
