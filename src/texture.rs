//! Textures: a decoded image as RGBA bytes, and how the GPU samples it.
use vstd::prelude::*;
use vstd::arithmetic::power2::pow2;

verus! {

#[verifier::external_type_specification]
#[verifier::external_body]
pub struct ExDynamicImage(image::DynamicImage);

/// `n` is a power of two.
pub open spec fn is_pow2(n: nat) -> bool {
    exists|k: nat| pow2(k) == n
}

/// Relies on `u32::is_power_of_two`: true exactly when the value is `2^k`
/// for some `k`.
#[verifier::external_body]
fn is_power_of_two(n: u32) -> (r: bool)
    ensures
        r == is_pow2(n as nat),
{
    n.is_power_of_two()
}

/// The width, height and bytes, row by row, of an image converted to 8-bit
/// RGBA.
pub uninterp spec fn rgba8_of(img: image::DynamicImage) -> (u32, u32, Seq<u8>);

/// Relies on `image::DynamicImage::to_rgba8`, read through
/// `ImageBuffer::dimensions` and `ImageBuffer::into_raw`: the image as
/// 8-bit RGBA, which depends on the image alone. Every image buffer holds at
/// least four bytes for each of its pixels (`ImageBuffer::from_raw` checks
/// that the image fits; the other constructors allocate exactly).
#[verifier::external_body]
fn rgba8_parts(img: &image::DynamicImage) -> (r: (u32, u32, Vec<u8>))
    ensures
        (r.0, r.1, r.2@) == rgba8_of(*img),
        r.2@.len() >= 4 * r.0 * r.1,
{
    let rgba = img.to_rgba8();
    let (width, height) = rgba.dimensions();
    (width, height, rgba.into_raw())
}

/// An image ready to be uploaded as a texture.
pub struct TextureData {
    pub width: u32,
    pub height: u32,
    /// Four bytes per pixel, red, green, blue and alpha, row by row.
    pub pixels: Vec<u8>,
    /// Mipmaps are generated for the texture.
    pub mipmaps: bool,
}

/// Mipmaps are generated only for a texture whose width and height are both
/// powers of two.
pub fn wants_mipmaps(width: u32, height: u32) -> (r: bool)
    ensures
        r == (is_pow2(width as nat) && is_pow2(height as nat)),
{
    is_power_of_two(width) && is_power_of_two(height)
}

/// Reads a decoded image as 8-bit RGBA pixels and decides whether the
/// texture made of it gets mipmaps.
pub fn prepare_texture(img: &image::DynamicImage) -> (r: TextureData)
    ensures
        (r.width, r.height, r.pixels@) == rgba8_of(*img),
        r.pixels@.len() >= 4 * r.width * r.height,
        r.mipmaps == (is_pow2(r.width as nat) && is_pow2(r.height as nat)),
{
    let (width, height, pixels) = rgba8_parts(img);
    let mipmaps = wants_mipmaps(width, height);
    TextureData { width, height, pixels, mipmaps }
}

} // verus!
