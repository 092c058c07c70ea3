//! Boundary to the image-decoding library: reducing an arbitrary decoded
//! image to the fixed grayscale comparison grid.
//!
//! The reduction itself — grayscale conversion and Lanczos resampling — is
//! delegated to the `image` crate; everything downstream works on the plain
//! intensities of the resulting [`NormalizedImage`].

use vstd::prelude::*;
use crate::grid::NormalizedImage;

verus! {

#[verifier::external_type_specification]
#[verifier::external_body]
pub struct ExDynamicImage(image::DynamicImage);

/// The grayscale intensities of the 9-by-8 reduction of `img`: the pixels
/// of `img.grayscale().resize_exact(9, 8, Lanczos3)`, row by row from the
/// top, left to right within a row. A fixed function of the image value
/// alone.
pub uninterp spec fn normalized_of(img: image::DynamicImage) -> Seq<u8>;

/// Relies on `image::DynamicImage::grayscale`, `DynamicImage::resize_exact`
/// with the `Lanczos3` filter, `DynamicImage::into_luma8` and
/// `ImageBuffer::into_raw`: grayscale conversion followed by an exact resize
/// to 9x8 yields a single-channel image whose raw buffer holds one intensity
/// per pixel in row-major order. The resize is defined for every source
/// size, zero-area images included, so the call never panics, and the
/// result is deterministic in the image value.
#[verifier::external_body]
fn normalized_pixels(img: &image::DynamicImage) -> (r: Vec<u8>)
    ensures
        r@.len() == 72,
        r@ == normalized_of(*img),
{
    img.grayscale()
        .resize_exact(9, 8, image::imageops::FilterType::Lanczos3)
        .into_luma8()
        .into_raw()
}

/// Reduce a source image of any size to the fixed 9-by-8 grayscale
/// comparison grid.
pub fn normalize(img: &image::DynamicImage) -> (r: NormalizedImage)
    ensures
        r.wf(),
        r@ == normalized_of(*img),
{
    let pixels = normalized_pixels(img);
    NormalizedImage::from_pixels(pixels).unwrap()
}

/// Reduce each image of a batch to its comparison grid.
pub fn reduce_size(images: Vec<image::DynamicImage>) -> (r: Vec<NormalizedImage>)
    ensures
        r@.len() == images@.len(),
        forall|i: int|
            0 <= i < r@.len() ==> (#[trigger] r@[i]).wf() && r@[i]@ == normalized_of(images@[i]),
{
    let mut reduced: Vec<NormalizedImage> = Vec::new();
    let n = images.len();
    for k in 0..n
        invariant
            n == images@.len(),
            reduced@.len() == k,
            forall|i: int|
                0 <= i < k ==> (#[trigger] reduced@[i]).wf() && reduced@[i]@ == normalized_of(
                    images@[i],
                ),
    {
        reduced.push(normalize(&images[k]));
    }
    reduced
}

} // verus!
