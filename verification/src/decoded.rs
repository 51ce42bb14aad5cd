//! The `image` crate's side of image handling: decoding, the blank image
//! and resampling. A [`DecodedImage`] pairs the crate's image with its
//! 8-bit RGBA form; its fields are private to this module, and only the
//! functions here, which fill both fields from one image, make one.
use vstd::prelude::*;
use crate::pixels::{blank_model, Bitmap};

verus! {

/// What `image::load_from_memory` followed by `to_rgba8` makes of the
/// bytes `data`: the image's width, height and RGBA pixels, or `None`
/// when the bytes are not an image that the crate decodes.
pub uninterp spec fn decoded_image(data: Seq<u8>) -> Option<(u32, u32, Seq<u8>)>;

/// Holds when `out` (width, height, RGBA pixels) is an outcome of
/// resampling the RGBA image `src` to `new_width` by `new_height` pixels
/// with `DynamicImage::resize_exact` and the Lanczos3 filter. It names no
/// single result: the filter evaluates `sin` on `f32`, whose precision std
/// leaves unspecified, so one source may have several outcomes.
pub uninterp spec fn lanczos3_resampled(
    src: (u32, u32, Seq<u8>),
    new_width: u32,
    new_height: u32,
    out: (u32, u32, Seq<u8>),
) -> bool;

/// The `image` crate's decoded image, in its own pixel format.
#[verifier::external_type_specification]
#[verifier::external_body]
pub struct ExDynamicImage(image::DynamicImage);

/// An image as the `image` crate holds it (in the pixel format it was
/// decoded to), together with its 8-bit RGBA form.
pub struct DecodedImage {
    image: image::DynamicImage,
    rgba: Bitmap,
}

impl DecodedImage {
    /// The image's RGBA form: width, height and pixel bytes.
    pub closed spec fn model(&self) -> (u32, u32, Seq<u8>) {
        self.rgba.model()
    }

    /// The RGBA form's buffer holds exactly its pixels.
    pub closed spec fn wf(&self) -> bool {
        self.rgba.wf()
    }

    /// The image's RGBA form.
    pub fn into_rgba(self) -> (b: Bitmap)
        ensures
            b.model() == self.model(),
            self.wf() ==> b.wf(),
    {
        self.rgba
    }

    /// The width of the image.
    pub fn width(&self) -> (w: u32)
        ensures
            w == self.model().0,
    {
        self.rgba.width
    }
}

/// Decodes an image file held in memory (`image::load_from_memory`, with
/// the format guessed from the bytes) and converts it to 8-bit RGBA
/// (`DynamicImage::to_rgba8`), keeping the decoded image as well.
/// Claimed: the RGBA form is the named [`decoded_image`] of the bytes, and
/// its buffer holds exactly width * height * 4 bytes, as the crate
/// allocates decoded and converted buffers.
#[verifier::external_body]
pub(crate) fn decode_image(data: &[u8]) -> (r: Option<DecodedImage>)
    ensures
        match r {
            Some(d) => d.wf() && decoded_image(data@) == Some(d.model()),
            None => decoded_image(data@) is None,
        },
{
    match image::load_from_memory(data) {
        Ok(image) => {
            let rgba = image.to_rgba8();
            let (width, height) = rgba.dimensions();
            Some(DecodedImage { image, rgba: Bitmap { width, height, pixels: rgba.into_raw() } })
        },
        Err(_) => None,
    }
}

/// A transparent black RGBA image from `image::DynamicImage::new_rgba8`,
/// with its 8-bit RGBA form. Claimed: the RGBA form is `width` by `height`
/// zero bytes (the crate zero-fills new buffers); the `requires` keeps the
/// buffer's length within `usize`, where the crate would panic.
#[verifier::external_body]
pub(crate) fn blank_image(width: u32, height: u32) -> (d: DecodedImage)
    requires
        width as int * height as int * 4 <= usize::MAX,
    ensures
        d.wf(),
        d.model() == blank_model(width, height),
{
    let image = image::DynamicImage::new_rgba8(width, height);
    let rgba = image.to_rgba8();
    DecodedImage { image, rgba: Bitmap { width, height, pixels: rgba.into_raw() } }
}

/// Resamples a decoded image to `new_width` by `new_height` pixels in its
/// own pixel format (`DynamicImage::resize_exact` with the Lanczos3
/// filter) and converts the result to 8-bit RGBA. Claimed: the result has
/// the requested size, is an outcome of resampling this image (the
/// relation [`lanczos3_resampled`], which fixes no pixel values), and when
/// the size does not change it equals the image's RGBA form (the crate
/// copies the image in that case). The `requires` keeps the crate's
/// floating-point intermediate and result buffers (at most 16 bytes per
/// pixel) within `isize::MAX` bytes.
#[verifier::external_body]
pub(crate) fn resize_exact_rgba(src: &DecodedImage, new_width: u32, new_height: u32) -> (r: Bitmap)
    requires
        src.wf(),
        src.model().0 as int * new_height as int * 16 <= isize::MAX,
        new_width as int * new_height as int * 16 <= isize::MAX,
    ensures
        r.wf(),
        r.width == new_width,
        r.height == new_height,
        lanczos3_resampled(src.model(), new_width, new_height, r.model()),
        new_width == src.model().0 && new_height == src.model().1 ==> r.pixels@ == src.model().2,
{
    let rgba = src.image.resize_exact(
        new_width,
        new_height,
        image::imageops::FilterType::Lanczos3,
    ).to_rgba8();
    Bitmap { width: new_width, height: new_height, pixels: rgba.into_raw() }
}

} // verus!
