//! Compressed pictures: a capture encoded as PNG, and a picture received in one
//! piece decoded for the display.

use vstd::prelude::*;
use crate::frame::{holds_rgba, red_blue_swapped, swap_red_blue, Frame, FrameView};
use crate::wire::{image_len, PixelFormat};

verus! {

/// Why a picture could not be encoded or decoded.
#[derive(Clone, Copy, Debug, PartialEq, Eq, Structural)]
pub enum PictureError {
    /// The buffer does not hold exactly the four-byte pixels of the stated
    /// dimensions.
    BadFrame,
    /// The encoder refused the image.
    Encoder,
    /// The bytes are not a picture in a format that is understood.
    Undecodable,
}

/// `png::EncodingError`, the error of the encoder; nothing is read from it.
#[verifier::external_type_specification]
#[verifier::external_body]
pub struct ExPngEncodingError(png::EncodingError);

/// `image::ImageError`, the error of the decoder; nothing is read from it.
#[verifier::external_type_specification]
#[verifier::external_body]
pub struct ExImageError(image::ImageError);

/// The PNG file that holds an image of `width` by `height` pixels of eight-bit
/// red, green, blue and alpha, as the `png` crate encodes it with its default
/// settings.
pub uninterp spec fn png_rgba8(width: u32, height: u32, data: Seq<u8>) -> Seq<u8>;

/// `png::Encoder` writing into a vector: colour type RGBA, bit depth eight, the
/// header, then `data` as the image. The encoder refuses an image without
/// width or height before it writes anything; with both above zero and a
/// buffer of the right length nothing is left that could fail, since every
/// write goes to memory.
#[verifier::external_body]
fn png_encode_rgba(width: u32, height: u32, data: &[u8]) -> (r: Result<
    Vec<u8>,
    png::EncodingError,
>)
    requires
        data@.len() == image_len(width, height, PixelFormat::Rgba),
    ensures
        r matches Ok(bytes) ==> bytes@ == png_rgba8(width, height, data@),
        r is Ok <==> (width > 0 && height > 0),
{
    let mut out = Vec::new();
    {
        let mut encoder = png::Encoder::new(std::io::BufWriter::new(&mut out), width, height);
        encoder.set_color(png::ColorType::Rgba);
        encoder.set_depth(png::BitDepth::Eight);
        let mut writer = encoder.write_header()?;
        writer.write_image_data(data)?;
    }
    Ok(out)
}

/// `image::load_from_memory`, then the picture's width and height and the raw
/// buffer of its `to_rgba8` form. Which formats are recognised and how they
/// decode depends on the decoders registered in the running process as well as
/// on the bytes, so nothing is claimed of the result.
#[verifier::external_body]
fn load_rgba(bytes: &[u8]) -> (r: Result<(u32, u32, Vec<u8>), image::ImageError>) {
    let image = image::load_from_memory(bytes)?;
    Ok((image.width(), image.height(), image.to_rgba8().into_raw()))
}

/// What [`encode_png`] returns: the PNG file of a frame that has width and
/// height and whose buffer matches them, and the reason why there is none for
/// any other frame.
pub open spec fn encoded(frame: FrameView) -> Result<Seq<u8>, PictureError> {
    if !frame.fits(PixelFormat::Rgba) {
        Err(PictureError::BadFrame)
    } else if frame.w == 0 || frame.h == 0 {
        Err(PictureError::Encoder)
    } else {
        Ok(png_rgba8(frame.w, frame.h, frame.data))
    }
}

/// Encodes a frame of four-byte red-green-blue-alpha pixels as a PNG file.
///
/// A frame whose buffer does not match its dimensions is refused, and so is one
/// without width or height; every other frame is encoded.
pub fn encode_png(frame: &Frame) -> (r: Result<Vec<u8>, PictureError>)
    ensures
        match r {
            Ok(bytes) => encoded(frame@) == Ok::<Seq<u8>, PictureError>(bytes@),
            Err(e) => encoded(frame@) == Err::<Seq<u8>, PictureError>(e),
        },
        frame@.fits(PixelFormat::Rgba) ==> (r is Ok <==> frame.w > 0 && frame.h > 0),
{
    if !holds_rgba(frame.data.len(), frame.w, frame.h) {
        return Err(PictureError::BadFrame);
    }
    match png_encode_rgba(frame.w, frame.h, frame.data.as_slice()) {
        Ok(bytes) => Ok(bytes),
        Err(_) => Err(PictureError::Encoder),
    }
}

/// What [`correct_picture`] makes of the outcome of decoding: the picture with
/// red and blue exchanged in every pixel, if there is one and its buffer
/// matches its dimensions.
pub open spec fn corrected(loaded: Option<(u32, u32, Seq<u8>)>) -> Result<FrameView, PictureError> {
    match loaded {
        None => Err(PictureError::Undecodable),
        Some((w, h, pixels)) => if pixels.len() == image_len(w, h, PixelFormat::Rgba) {
            Ok(FrameView { w, h, data: red_blue_swapped(pixels) })
        } else {
            Err(PictureError::BadFrame)
        },
    }
}

/// A decoded picture with its pixels as a sequence.
pub open spec fn loaded_view(loaded: Option<(u32, u32, Vec<u8>)>) -> Option<(u32, u32, Seq<u8>)> {
    match loaded {
        Some((w, h, pixels)) => Some((w, h, pixels@)),
        None => None,
    }
}

/// A frame or an error, with the frame as a [`FrameView`].
pub open spec fn outcome_view(r: Result<Frame, PictureError>) -> Result<FrameView, PictureError> {
    match r {
        Ok(frame) => Ok(frame@),
        Err(e) => Err(e),
    }
}

/// Exchanges red and blue in every pixel of a decoded picture and makes a frame
/// of it; `None` stands for bytes that did not decode.
pub fn correct_picture(loaded: Option<(u32, u32, Vec<u8>)>) -> (r: Result<Frame, PictureError>)
    ensures
        outcome_view(r) == corrected(loaded_view(loaded)),
{
    match loaded {
        None => Err(PictureError::Undecodable),
        Some((w, h, pixels)) => {
            if holds_rgba(pixels.len(), w, h) {
                Ok(Frame::new(w, h, swap_red_blue(pixels)))
            } else {
                Err(PictureError::BadFrame)
            }
        },
    }
}

/// Decodes a picture received in one piece and exchanges red and blue in every
/// pixel, ready for the display. The bytes go to the decoder as they are, and
/// [`correct_picture`] takes what comes back: a frame that is returned has a
/// buffer that matches its dimensions.
pub fn decode_picture(bytes: &[u8]) -> (r: Result<Frame, PictureError>)
    ensures
        match r {
            Ok(frame) => frame@.fits(PixelFormat::Rgba),
            Err(e) => e == PictureError::Undecodable || e == PictureError::BadFrame,
        },
{
    match load_rgba(bytes) {
        Ok(p) => correct_picture(Some(p)),
        Err(_) => correct_picture(None),
    }
}

} // verus!
