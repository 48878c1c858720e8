use vstd::prelude::*;

verus! {

#[verifier::external_type_specification]
#[verifier::external_body]
pub struct ExImageError(image::ImageError);

/// What the `image` crate's built-in PNG decoder makes of `bytes`, converted to 8-bit
/// RGBA: the width, the height and the pixel bytes, or nothing when the bytes are not
/// a PNG it reads.
pub uninterp spec fn decoded_rgba8(bytes: Seq<u8>) -> Option<(u32, u32, Seq<u8>)>;

/// Decodes PNG bytes with `image::load_from_memory_with_format` and
/// `ImageFormat::Png`, converts the image with `DynamicImage::to_rgba8`, and hands out
/// width, height and `ImageBuffer::into_raw`. With the format given, the crate goes
/// straight to its own PNG decoder and reads no registered format or decoding hook,
/// so the outcome is a function of the bytes. The contract claims that the outcome is
/// the named result of the bytes (an error exactly when that is nothing, else its three
/// parts), and that the pixel buffer holds exactly four bytes per pixel: the decoder
/// fills a buffer of width times height times its pixel size, and a conversion builds
/// one of exactly width times height pixels.
#[verifier::external_body]
fn load_rgba8(bytes: &[u8]) -> (r: Result<(u32, u32, Vec<u8>), image::ImageError>)
    ensures
        match r {
            Ok((w, h, px)) => decoded_rgba8(bytes@) == Some((w, h, px@)),
            Err(_) => decoded_rgba8(bytes@) is None,
        },
        r matches Ok((w, h, px)) ==> rgba_len_fits(w, h, px@),
{
    let rgba = image::load_from_memory_with_format(bytes, image::ImageFormat::Png)?.to_rgba8();
    Ok((rgba.width(), rgba.height(), rgba.into_raw()))
}

/// An image as rows of 8-bit RGBA pixels, four bytes per pixel, top row first.
pub struct RgbaImage {
    pub width: usize,
    pub height: usize,
    pub pixels: Vec<u8>,
}

/// Why an embedded logo could not be turned into an RGBA image.
#[derive(Debug, Clone, Copy, PartialEq, Eq, Structural)]
pub enum LogoError {
    /// The bytes are not an image the decoder reads.
    Decode,
    /// The decoded pixel bytes are not four per pixel of the reported size.
    PixelCount,
}

/// The pixel bytes hold exactly four bytes for each of `w * h` pixels.
pub open spec fn rgba_len_fits(w: u32, h: u32, px: Seq<u8>) -> bool {
    px.len() == w as int * h as int * 4
}

/// An RGBA image from a width, a height and pixel bytes, which must hold exactly four
/// bytes for each pixel.
pub fn rgba_image_from_parts(w: u32, h: u32, px: Vec<u8>) -> (r: Result<RgbaImage, LogoError>)
    ensures
        rgba_len_fits(w, h, px@) ==> (r matches Ok(img) && img.width == w && img.height == h
            && img.pixels@ == px@ && img.pixels@.len() == img.width * img.height * 4),
        !rgba_len_fits(w, h, px@) ==> r == Err::<RgbaImage, LogoError>(LogoError::PixelCount),
{
    assert((w as u128) * (h as u128) * 4 < 0x4_0000_0000_0000_0000) by (nonlinear_arith)
        requires
            w <= u32::MAX,
            h <= u32::MAX,
    ;
    let expected: u128 = (w as u128) * (h as u128) * 4;
    if (px.len() as u128) == expected {
        Ok(RgbaImage { width: w as usize, height: h as usize, pixels: px })
    } else {
        Err(LogoError::PixelCount)
    }
}

/// Decodes PNG bytes into an RGBA image ready to become a texture: it fails exactly
/// when the bytes do not decode.
pub fn decode_png_rgba(bytes: &[u8]) -> (r: Result<RgbaImage, LogoError>)
    ensures
        match decoded_rgba8(bytes@) {
            None => r == Err::<RgbaImage, LogoError>(LogoError::Decode),
            Some((w, h, px)) => r matches Ok(img) && img.width == w && img.height == h
                && img.pixels@ == px && img.pixels@.len() == img.width * img.height * 4,
        },
{
    match load_rgba8(bytes) {
        Err(_) => Err(LogoError::Decode),
        Ok((w, h, px)) => rgba_image_from_parts(w, h, px),
    }
}

} // verus!
