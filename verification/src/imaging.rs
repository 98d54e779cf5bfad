//! The bridge to the image decoder.
//!
//! The container format does not care what image format a frame file is
//! in, as long as the `image` crate can read it and convert it. Decoded
//! rasters are `image::DynamicImage` values; they are carried through the
//! container untouched, and nothing here depends on what is inside one.

use vstd::prelude::*;

verus! {

#[verifier::external_type_specification]
#[verifier::external_body]
pub struct ExDynamicImage(image::DynamicImage);

/// The raster that a byte buffer decodes to, if it decodes at all.
/// What a buffer decodes to depends on the buffer's contents alone.
pub uninterp spec fn image_result_of(bytes: Seq<u8>) -> Option<image::DynamicImage>;

/// Relies on image::load_from_memory: guesses the image format from the
/// byte buffer's contents and decodes it, an error for buffers no
/// supported format can read.
#[verifier::external_body]
pub(crate) fn decode_image(bytes: &Vec<u8>) -> (r: Option<image::DynamicImage>)
    ensures
        r == image_result_of(bytes@),
{
    image::load_from_memory(bytes).ok()
}

} // verus!
