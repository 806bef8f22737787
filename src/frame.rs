//! The read-back image of a frame and its encoding as a PNG file.
use vstd::prelude::*;

verus! {

#[verifier::external_type_specification]
#[verifier::external_body]
pub struct ExEncodingError(png::EncodingError);

/// Length in bytes of an RGBA8 image of the given extent.
pub open spec fn rgba8_len(width: nat, height: nat) -> nat {
    width * height * 4
}

/// The PNG file that the png crate writes for an 8-bit RGBA image of the
/// given extent whose rows of pixels, top to bottom, are `pixels`.
pub uninterp spec fn png_rgba8_of(width: u32, height: u32, pixels: Seq<u8>) -> Seq<u8>;

/// Bytes of the filtered image that the encoder works on: each row of
/// pixels is preceded by one filter byte.
pub open spec fn filtered_len(width: nat, height: nat) -> nat {
    (width * 4 + 1) * height
}

/// Relies on png::Encoder::new, set_color, set_depth and write_header, then
/// Writer::write_image_data and Writer::finish, writing into memory: the
/// header is refused for a zero width or height, the image data when its
/// length is not `width * height * 4`; with the default options and an
/// in-memory writer nothing else fails. The bytes written depend on the
/// extent and the pixels alone.
#[verifier::external_body]
fn encode_png_rgba8(width: u32, height: u32, pixels: &[u8]) -> (r: Result<
    Vec<u8>,
    png::EncodingError,
>)
    requires
        filtered_len(width as nat, height as nat) <= usize::MAX,
    ensures
        width == 0 || height == 0 ==> r is Err,
        pixels@.len() != rgba8_len(width as nat, height as nat) ==> r is Err,
        width != 0 && height != 0 && pixels@.len() == rgba8_len(width as nat, height as nat)
            ==> r is Ok,
        r matches Ok(bytes) ==> bytes@ == png_rgba8_of(width, height, pixels@),
{
    let mut out: Vec<u8> = Vec::new();
    let mut encoder = png::Encoder::new(&mut out, width, height);
    encoder.set_color(png::ColorType::Rgba);
    encoder.set_depth(png::BitDepth::Eight);
    let mut writer = encoder.write_header()?;
    writer.write_image_data(pixels)?;
    writer.finish()?;
    Ok(out)
}

/// Why a frame could not be encoded.
#[derive(Clone, Copy, Debug, PartialEq, Eq, Structural)]
pub enum FrameError {
    /// The width or the height is zero.
    EmptyExtent,
    /// The image is too large for the encoder's buffers.
    TooLarge,
    /// The pixel data is not `width * height * 4` bytes long.
    PixelCountMismatch,
}

/// Size in bytes of the read-back buffer for an image of the given extent,
/// or `None` when it does not fit in memory addresses.
pub fn readback_len(width: u32, height: u32) -> (r: Option<usize>)
    ensures
        r matches Some(n) ==> n as nat == rgba8_len(width as nat, height as nat),
        r is None <==> rgba8_len(width as nat, height as nat) > usize::MAX,
{
    proof {
        assert((width as int) * (height as int) <= 0xffff_ffffint * 0xffff_ffffint)
            by (nonlinear_arith)
            requires
                0 <= width <= 0xffff_ffff,
                0 <= height <= 0xffff_ffff,
        ;
    }
    let pixels = (width as u64) * (height as u64);
    if pixels > (usize::MAX as u64) / 4 {
        None
    } else {
        Some((pixels as usize) * 4)
    }
}

/// Encodes the read-back pixels of a frame, rows top to bottom, as an 8-bit
/// RGBA PNG image of `width` by `height` pixels.
pub fn encode_frame(width: u32, height: u32, pixels: &[u8]) -> (r: Result<Vec<u8>, FrameError>)
    ensures
        r == Err::<Vec<u8>, FrameError>(FrameError::EmptyExtent) <==> (width == 0 || height == 0),
        r == Err::<Vec<u8>, FrameError>(FrameError::TooLarge) <==> (width != 0 && height != 0
            && filtered_len(width as nat, height as nat) > usize::MAX),
        r == Err::<Vec<u8>, FrameError>(FrameError::PixelCountMismatch) <==> (width != 0 && height
            != 0 && filtered_len(width as nat, height as nat) <= usize::MAX && pixels@.len()
            != rgba8_len(width as nat, height as nat)),
        r is Ok <==> (width != 0 && height != 0 && filtered_len(width as nat, height as nat)
            <= usize::MAX && pixels@.len() == rgba8_len(width as nat, height as nat)),
        r matches Ok(bytes) ==> bytes@ == png_rgba8_of(width, height, pixels@),
{
    if width == 0 || height == 0 {
        return Err(FrameError::EmptyExtent);
    }
    proof {
        assert((width as int * 4 + 1) * (height as int) <= 0x4_0000_0000int * 0xffff_ffffint)
            by (nonlinear_arith)
            requires
                0 <= width <= 0xffff_ffff,
                0 <= height <= 0xffff_ffff,
        ;
        assert((width as int) * (height as int) * 4 <= (width as int * 4 + 1) * (height as int))
            by (nonlinear_arith)
            requires
                0 <= width,
                0 <= height,
        ;
    }
    let filtered = ((width as u128) * 4 + 1) * (height as u128);
    if filtered > usize::MAX as u128 {
        return Err(FrameError::TooLarge);
    }
    let expected = (width as usize) * (height as usize) * 4;
    if pixels.len() != expected {
        return Err(FrameError::PixelCountMismatch);
    }
    match encode_png_rgba8(width, height, pixels) {
        Ok(bytes) => Ok(bytes),
        Err(_) => {
            // The checks above leave the encoder nothing to refuse.
            assert(false);
            Err(FrameError::PixelCountMismatch)
        },
    }
}

} // verus!
