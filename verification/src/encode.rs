//! The frame-encoding pipeline: raw RGBA pixels to PNG bytes to a base64
//! transport string.
//!
//! The codec is tuned for latency: fastest compression level, no per-row
//! filtering. Both steps are pure functions of their input, so the whole
//! pipeline is deterministic: the same raw frame always yields the same
//! transport string. Encoding a well-formed frame is owed to succeed; the
//! one escape is a PNG so large that its base64 rendering could not exist
//! in the address space, and that case is stated exactly.

use vstd::arithmetic::div_mod::lemma_fundamental_div_mod;
use vstd::arithmetic::div_mod::lemma_mod_bound;
use vstd::prelude::*;

use crate::error::CaptureError;
use crate::frame::RawFrame;

verus! {

/// The PNG bytes that the fast encoder (fastest compression, no per-row
/// filter) produces for a `width` by `height` RGBA buffer.
pub uninterp spec fn png_fast_encoding(width: u32, height: u32, pixels: Seq<u8>) -> Seq<u8>;

/// The standard padded base64 rendering of a byte sequence.
pub uninterp spec fn base64_standard(bytes: Seq<u8>) -> Seq<char>;

/// The RGBA buffer that Lanczos3 resampling of a `width` by `height` buffer
/// to `new_width` by `new_height` produces.
pub uninterp spec fn lanczos3_resized(
    width: u32,
    height: u32,
    pixels: Seq<u8>,
    new_width: u32,
    new_height: u32,
) -> Seq<u8>;

/// The transport form of a raw frame: its fast PNG encoding rendered as
/// standard base64.
pub open spec fn transport_encoding(width: u32, height: u32, pixels: Seq<u8>) -> Seq<char> {
    base64_standard(png_fast_encoding(width, height, pixels))
}

/// Whether `n` bytes have a base64 rendering at all: the rendered length,
/// four characters for every three bytes rounded up, must fit in `usize`.
pub open spec fn spec_base64_fits(n: int) -> bool {
    4 * ((n + 2) / 3) <= usize::MAX
}

/// Whether a raw frame's transport encoding exists: its PNG bytes must
/// have a base64 rendering.
pub open spec fn spec_transport_fits(width: u32, height: u32, pixels: Seq<u8>) -> bool {
    spec_base64_fits(png_fast_encoding(width, height, pixels).len() as int)
}

/// Relies on image's `PngEncoder` (fast compression, no filter) writing to a
/// byte vector: the PNG bytes depend on the dimensions and pixels alone.
/// The encoder panics unless the buffer holds exactly `4 * width * height`
/// bytes and errors on a zero dimension, so those inputs are required away;
/// under these requires no failure path remains (the byte-vector writer
/// cannot fail), so the call always succeeds.
#[verifier::external_body]
fn png_encode_fast(width: u32, height: u32, pixels: &Vec<u8>) -> (r: Result<Vec<u8>, String>)
    requires
        width > 0,
        height > 0,
        pixels@.len() == 4 * width * height,
    ensures
        r is Ok,
        r matches Ok(b) ==> b@ == png_fast_encoding(width, height, pixels@),
{
    let mut bytes: Vec<u8> = Vec::new();
    let encoder = image::codecs::png::PngEncoder::new_with_quality(
        &mut bytes,
        image::codecs::png::CompressionType::Fast,
        image::codecs::png::FilterType::NoFilter,
    );
    let color = image::ExtendedColorType::Rgba8;
    match image::ImageEncoder::write_image(encoder, pixels, width, height, color) {
        Ok(()) => Ok(bytes),
        Err(e) => Err(e.to_string()),
    }
}

/// Relies on base64's standard engine with padding: the output is a function
/// of the input bytes alone, four characters for every three input bytes,
/// rounded up. The engine panics when that length overflows `usize`, so the
/// input is required to stay below that.
#[verifier::external_body]
pub(crate) fn base64_encode(bytes: &Vec<u8>) -> (r: String)
    requires
        4 * ((bytes@.len() + 2) / 3) <= usize::MAX,
    ensures
        r@ == base64_standard(bytes@),
        r@.len() == 4 * ((bytes@.len() + 2) / 3),
{
    base64::Engine::encode(&base64::engine::general_purpose::STANDARD, bytes)
}

/// Relies on image's `imageops::resize` with the Lanczos3 filter: the output
/// is an RGBA buffer of exactly the new dimensions, a function of the input
/// buffer and the dimensions alone. The resampler allocates one buffer of
/// `4 * new_width * new_height` output samples and an intermediate one of
/// `4 * width * new_height`, and panics when either count overflows
/// `usize`, so both are required to fit.
#[verifier::external_body]
pub(crate) fn resize_lanczos3(
    width: u32,
    height: u32,
    pixels: &Vec<u8>,
    new_width: u32,
    new_height: u32,
) -> (r: Vec<u8>)
    requires
        width > 0,
        height > 0,
        new_width > 0,
        new_height > 0,
        pixels@.len() == 4 * width * height,
        4 * (new_width * new_height) <= usize::MAX,
        4 * (width * new_height) <= usize::MAX,
    ensures
        r@ == lanczos3_resized(width, height, pixels@, new_width, new_height),
        r@.len() == 4 * new_width * new_height,
{
    let img: image::RgbaImage = match image::ImageBuffer::from_raw(width, height, pixels.clone()) {
        Some(buffer) => buffer,
        None => image::ImageBuffer::new(width, height),
    };
    let filter = image::imageops::FilterType::Lanczos3;
    image::imageops::resize(&img, new_width, new_height, filter).into_raw()
}

/// Encode a non-degenerate raw frame into its transport form. Success is
/// owed whenever the transport encoding exists; the only failure is a PNG
/// whose base64 rendering would overflow the address space, surfaced as
/// `EncodeError`.
pub fn encode_frame(frame: &RawFrame) -> (r: Result<String, CaptureError>)
    requires
        frame.spec_width() > 0,
        frame.spec_height() > 0,
    ensures
        (r is Ok) == spec_transport_fits(
            frame.spec_width(),
            frame.spec_height(),
            frame.spec_pixels(),
        ),
        r matches Ok(s) ==> s@ == transport_encoding(
            frame.spec_width(),
            frame.spec_height(),
            frame.spec_pixels(),
        ),
        r matches Err(e) ==> e is EncodeError,
{
    let pixels = frame.pixels();
    encode_frame_parts(frame.width(), frame.height(), pixels)
}

/// Encode a non-degenerate RGBA buffer given by its parts into its
/// transport form. Success is owed whenever the transport encoding exists.
pub(crate) fn encode_frame_parts(width: u32, height: u32, pixels: &Vec<u8>) -> (r: Result<
    String,
    CaptureError,
>)
    requires
        width > 0,
        height > 0,
        pixels@.len() == 4 * width * height,
    ensures
        (r is Ok) == spec_transport_fits(width, height, pixels@),
        r matches Ok(s) ==> s@ == transport_encoding(width, height, pixels@),
        r matches Err(e) ==> e is EncodeError,
{
    match png_encode_fast(width, height, pixels) {
        Ok(bytes) => match encode_bytes_base64(bytes) {
            Ok(s) => Ok(s),
            Err(m) => Err(CaptureError::EncodeError(m)),
        },
        Err(m) => Err(CaptureError::EncodeError(m)),
    }
}

/// Encoding is deterministic: two transport encodings of one and the same
/// raw frame are character-identical, whenever they were computed. The
/// codec takes no timestamps and no random seed; its output is a function
/// of the dimensions and pixel bytes alone.
pub proof fn lemma_transport_encoding_deterministic(
    width: u32,
    height: u32,
    pixels: Seq<u8>,
    first: Seq<char>,
    second: Seq<char>,
)
    requires
        first == transport_encoding(width, height, pixels),
        second == transport_encoding(width, height, pixels),
    ensures
        first == second,
{
}

/// Render already-encoded image bytes in their base64 transport form.
/// Succeeds exactly when the rendering fits in the address space.
pub(crate) fn encode_bytes_base64(bytes: Vec<u8>) -> (r: Result<String, String>)
    ensures
        (r is Ok) == spec_base64_fits(bytes@.len() as int),
        r matches Ok(s) ==> s@ == base64_standard(bytes@),
{
    let n = bytes.len();
    proof {
        lemma_base64_fit_test(n as int, usize::MAX as int);
    }
    if n <= usize::MAX / 4 * 3 {
        Ok(base64_encode(&bytes))
    } else {
        Err("encoded image too large for transport encoding".to_owned())
    }
}

/// The base64 rendering of `n` bytes fits under `max` exactly when `n` is
/// at most three quarters of `max` (`max` congruent three modulo four, as
/// every address-space bound is).
proof fn lemma_base64_fit_test(n: int, max: int)
    requires
        0 <= n,
        max % 4 == 3,
        max >= 3,
    ensures
        (n <= 3 * (max / 4)) <==> (4 * ((n + 2) / 3) <= max),
{
    let q = (n + 2) / 3;
    let k = max / 4;
    lemma_fundamental_div_mod(n + 2, 3);
    lemma_mod_bound(n + 2, 3);
    lemma_fundamental_div_mod(max, 4);
    assert(n + 2 == 3 * q + ((n + 2) % 3));
    assert(max == 4 * k + 3);
}

/// A product bounded by a quarter of `max` stays under `max` when scaled by
/// four, and conversely (`max` congruent three modulo four).
pub(crate) proof fn lemma_times_four_bound(p: int, max: int)
    requires
        0 <= p,
        max % 4 == 3,
        max >= 3,
    ensures
        (p <= max / 4) <==> (4 * p <= max),
{
    lemma_fundamental_div_mod(max, 4);
    assert(max == 4 * (max / 4) + 3);
}

} // verus!
