//! What becomes of a raw capture: validation, cropping, thumbnailing,
//! encoding, and the fallback path taken on restricted sessions.
//!
//! The platform hands in a raw frame (or its error); everything after that
//! point is decided here. A zero-dimension frame always means the platform
//! withheld permission, never an empty image. A crop request is clamped to
//! the frame and rejected when nothing of it remains. On a restricted
//! session where the primary backend failed, the output of the external
//! compositor tool is taken instead; that tool already emits the target
//! format, so its bytes only receive the transport encoding.

use vstd::prelude::*;

use crate::encode::base64_standard;
use crate::encode::encode_bytes_base64;
use crate::encode::encode_frame;
use crate::encode::lanczos3_resized;
use crate::encode::lemma_times_four_bound;
use crate::encode::resize_lanczos3;
use crate::encode::spec_base64_fits;
use crate::encode::spec_transport_fits;
use crate::encode::transport_encoding;
use crate::error::CaptureError;
use crate::frame::spec_crop;
use crate::frame::RawFrame;
use crate::geometry::clamp_region;
use crate::geometry::lemma_clamped_region_inside;
use crate::geometry::spec_clamp_region;

verus! {

/// What running the external compositor capture tool came to.
#[derive(Debug)]
pub enum FallbackOutcome {
    /// The tool is not installed (or could not be spawned).
    ToolMissing,
    /// The tool ran and reported failure; the payload is its diagnostic.
    ToolFailed(String),
    /// The tool ran and emitted already-encoded image bytes on its output.
    Captured(Vec<u8>),
}

/// Turn a raw full-surface capture into its transport form. A
/// zero-dimension frame maps to `PermissionDenied`; otherwise success is
/// owed whenever the transport encoding exists, and the only failure is a
/// PNG whose base64 rendering would overflow the address space.
pub fn frame_outcome(frame: &RawFrame) -> (r: Result<String, CaptureError>)
    ensures
        frame.spec_denied() ==> (r matches Err(e) && e is PermissionDenied),
        !frame.spec_denied() ==> {
            &&& (r is Ok) == spec_transport_fits(
                frame.spec_width(),
                frame.spec_height(),
                frame.spec_pixels(),
            )
            &&& r matches Ok(s) ==> s@ == transport_encoding(
                frame.spec_width(),
                frame.spec_height(),
                frame.spec_pixels(),
            )
            &&& r matches Err(e) ==> e is EncodeError
        },
{
    if frame.is_denied() {
        Err(CaptureError::PermissionDenied)
    } else {
        encode_frame(frame)
    }
}

/// Crop a raw capture of the primary monitor to a requested region and
/// encode the result. The request is clamped to the frame; a clamped-empty
/// region is `InvalidRegion`, a denied frame `PermissionDenied`.
pub fn region_outcome(frame: &RawFrame, x: i32, y: i32, width: u32, height: u32) -> (r: Result<
    String,
    CaptureError,
>)
    ensures
        frame.spec_denied() ==> (r matches Err(e) && e is PermissionDenied),
        !frame.spec_denied() ==> match spec_clamp_region(
            frame.spec_width(),
            frame.spec_height(),
            x,
            y,
            width,
            height,
        ) {
            None => (r matches Err(e) && e is InvalidRegion),
            Some(rect) => {
                &&& (r is Ok) == spec_transport_fits(
                    rect.width,
                    rect.height,
                    spec_crop(frame.spec_pixels(), frame.spec_width(), rect),
                )
                &&& r matches Ok(s) ==> s@ == transport_encoding(
                    rect.width,
                    rect.height,
                    spec_crop(frame.spec_pixels(), frame.spec_width(), rect),
                )
                &&& r matches Err(e) ==> e is EncodeError
            },
        },
{
    if frame.is_denied() {
        return Err(CaptureError::PermissionDenied);
    }
    match clamp_region(frame.width(), frame.height(), x, y, width, height) {
        None => Err(CaptureError::InvalidRegion),
        Some(rect) => {
            proof {
                lemma_clamped_region_inside(
                    frame.spec_width(),
                    frame.spec_height(),
                    x,
                    y,
                    width,
                    height,
                );
            }
            let cropped = frame.crop(rect);
            encode_frame(&cropped)
        },
    }
}

/// The thumbnail dimensions for a `width` by `height` frame under a maximum
/// edge length: the longer dimension becomes `max_size`, the shorter one is
/// scaled to keep the aspect ratio.
pub open spec fn spec_thumbnail_dims(width: u32, height: u32, max_size: u32) -> (int, int) {
    if width > height {
        (max_size as int, (height * max_size) / (width as int))
    } else {
        ((width * max_size) / (height as int), max_size as int)
    }
}

/// Compute the thumbnail dimensions of a non-degenerate frame.
pub fn thumbnail_dims(width: u32, height: u32, max_size: u32) -> (r: (u32, u32))
    requires
        width > 0,
        height > 0,
    ensures
        (r.0 as int, r.1 as int) == spec_thumbnail_dims(width, height, max_size),
{
    proof {
        assert((width as int) * (max_size as int) <= 0xffff_ffff * 0xffff_ffff)
            by (nonlinear_arith)
            requires
                0 <= width as int <= 0xffff_ffff,
                0 <= max_size as int <= 0xffff_ffff,
        ;
        assert((height as int) * (max_size as int) <= 0xffff_ffff * 0xffff_ffff)
            by (nonlinear_arith)
            requires
                0 <= height as int <= 0xffff_ffff,
                0 <= max_size as int <= 0xffff_ffff,
        ;
    }
    if width > height {
        let scaled: u64 = (height as u64) * (max_size as u64) / (width as u64);
        proof {
            lemma_scaled_dim_bounded(height as int, max_size as int, width as int);
        }
        (max_size, scaled as u32)
    } else {
        let scaled: u64 = (width as u64) * (max_size as u64) / (height as u64);
        proof {
            lemma_scaled_dim_bounded(width as int, max_size as int, height as int);
        }
        (scaled as u32, max_size)
    }
}

/// Scaling the shorter dimension never exceeds the maximum edge length.
proof fn lemma_scaled_dim_bounded(shorter: int, max_size: int, longer: int)
    requires
        0 <= shorter <= longer,
        0 < longer,
        0 <= max_size,
    ensures
        0 <= (shorter * max_size) / longer <= max_size,
        shorter * max_size <= longer * max_size,
        0 <= shorter * max_size,
{
    assert(shorter * max_size <= longer * max_size) by (nonlinear_arith)
        requires
            0 <= shorter <= longer,
            0 <= max_size,
    ;
    assert(0 <= shorter * max_size) by (nonlinear_arith)
        requires
            0 <= shorter,
            0 <= max_size,
    ;
    assert((shorter * max_size) / longer <= (longer * max_size) / longer) by (nonlinear_arith)
        requires
            shorter * max_size <= longer * max_size,
            0 < longer,
    ;
    assert((longer * max_size) / longer == max_size) by (nonlinear_arith)
        requires
            0 < longer,
    ;
    assert(0 <= (shorter * max_size) / longer) by (nonlinear_arith)
        requires
            0 <= shorter * max_size,
            0 < longer,
    ;
}

/// Whether the resampler's working buffers for a thumbnail of `dims` taken
/// from a `width`-wide frame fit in the address space.
pub open spec fn spec_thumbnail_alloc_fits(width: u32, dims: (int, int)) -> bool {
    &&& 4 * (dims.0 * dims.1) <= usize::MAX
    &&& 4 * ((width as int) * dims.1) <= usize::MAX
}

/// Resize a raw window capture so its longer edge equals `max_size`,
/// preserving aspect ratio with high-quality resampling, and encode the
/// result. A denied frame is `PermissionDenied`; a request whose scaled
/// shorter edge (or the maximum itself) is zero is `InvalidRegion`; a
/// request whose working buffers could not exist in the address space is
/// `EncodeError`. Otherwise success is owed whenever the transport
/// encoding of the resampled frame exists.
pub fn thumbnail_outcome(frame: &RawFrame, max_size: u32) -> (r: Result<String, CaptureError>)
    ensures
        frame.spec_denied() ==> (r matches Err(e) && e is PermissionDenied),
        !frame.spec_denied() ==> {
            let dims = spec_thumbnail_dims(frame.spec_width(), frame.spec_height(), max_size);
            if dims.0 == 0 || dims.1 == 0 {
                (r matches Err(e) && e is InvalidRegion)
            } else if !spec_thumbnail_alloc_fits(frame.spec_width(), dims) {
                (r matches Err(e) && e is EncodeError)
            } else {
                &&& (r is Ok) == spec_transport_fits(
                    dims.0 as u32,
                    dims.1 as u32,
                    lanczos3_resized(
                        frame.spec_width(),
                        frame.spec_height(),
                        frame.spec_pixels(),
                        dims.0 as u32,
                        dims.1 as u32,
                    ),
                )
                &&& r matches Ok(s) ==> s@ == transport_encoding(
                    dims.0 as u32,
                    dims.1 as u32,
                    lanczos3_resized(
                        frame.spec_width(),
                        frame.spec_height(),
                        frame.spec_pixels(),
                        dims.0 as u32,
                        dims.1 as u32,
                    ),
                )
                &&& r matches Err(e) ==> e is EncodeError
            }
        },
{
    if frame.is_denied() {
        return Err(CaptureError::PermissionDenied);
    }
    let (new_width, new_height) = thumbnail_dims(frame.width(), frame.height(), max_size);
    if new_width == 0 || new_height == 0 {
        return Err(CaptureError::InvalidRegion);
    }
    proof {
        assert((new_width as int) * (new_height as int) <= 0xffff_ffff * 0xffff_ffff)
            by (nonlinear_arith)
            requires
                0 <= new_width as int <= 0xffff_ffff,
                0 <= new_height as int <= 0xffff_ffff,
        ;
        assert((frame.spec_width() as int) * (new_height as int) <= 0xffff_ffff * 0xffff_ffff)
            by (nonlinear_arith)
            requires
                0 <= frame.spec_width() as int <= 0xffff_ffff,
                0 <= new_height as int <= 0xffff_ffff,
        ;
        lemma_times_four_bound((new_width as int) * (new_height as int), usize::MAX as int);
        lemma_times_four_bound(
            (frame.spec_width() as int) * (new_height as int),
            usize::MAX as int,
        );
    }
    let quarter: u64 = (usize::MAX as u64) / 4;
    let out_samples: u64 = (new_width as u64) * (new_height as u64);
    let mid_samples: u64 = (frame.width() as u64) * (new_height as u64);
    if out_samples > quarter || mid_samples > quarter {
        return Err(
            CaptureError::EncodeError(
                "thumbnail dimensions overflow the address space".to_owned(),
            ),
        );
    }
    let resized = resize_lanczos3(
        frame.width(),
        frame.height(),
        frame.pixels(),
        new_width,
        new_height,
    );
    match crate::encode::encode_frame_parts(new_width, new_height, &resized) {
        Ok(s) => Ok(s),
        Err(e) => Err(e),
    }
}

/// The fallback path is taken exactly when the primary backend failed and
/// the session is restricted.
pub fn should_try_fallback(
    primary: &Result<String, CaptureError>,
    restricted_session: bool,
) -> (r: bool)
    ensures
        r == ((primary matches Err(_)) && restricted_session),
{
    primary.is_err() && restricted_session
}

/// The advice shown for a restricted display-server session: nothing on an
/// ordinary session; on a restricted one, whether the fallback tool will
/// carry captures or still needs installing.
pub fn wayland_advice(wayland: bool, grim_available: bool) -> (r: Option<String>)
    ensures
        !wayland ==> r is None,
        wayland && grim_available ==> (r matches Some(m) && m@
            == "Wayland detected. Using grim for screenshot capture."@),
        wayland && !grim_available ==> (r matches Some(m) && m@
            == "Wayland detected. Install 'grim' for screenshot support: sudo apt install grim (Debian/Ubuntu) or sudo pacman -S grim (Arch)"@),
{
    if !wayland {
        None
    } else if grim_available {
        Some("Wayland detected. Using grim for screenshot capture.".to_owned())
    } else {
        Some(
            "Wayland detected. Install 'grim' for screenshot support: sudo apt install grim (Debian/Ubuntu) or sudo pacman -S grim (Arch)".to_owned(),
        )
    }
}

/// What an attempted fallback capture returns: the tool's bytes in
/// transport form on success, and on failure the tool's own diagnostic —
/// never the primary backend's.
pub fn fallback_outcome(outcome: FallbackOutcome) -> (r: Result<String, CaptureError>)
    ensures
        match outcome {
            FallbackOutcome::ToolMissing => (r matches Err(
                CaptureError::BackendUnavailable(m),
            ) && m@ == "fallback capture tool grim is not installed"@),
            FallbackOutcome::ToolFailed(msg) => (r matches Err(
                CaptureError::BackendUnavailable(m),
            ) && m@ == msg@),
            FallbackOutcome::Captured(bytes) => {
                &&& (r is Ok) == spec_base64_fits(bytes@.len() as int)
                &&& r matches Ok(s) ==> s@ == base64_standard(bytes@)
                &&& r matches Err(e) ==> e is BackendUnavailable
            },
        },
{
    match outcome {
        FallbackOutcome::ToolMissing => Err(
            CaptureError::BackendUnavailable(
                "fallback capture tool grim is not installed".to_owned(),
            ),
        ),
        FallbackOutcome::ToolFailed(msg) => Err(CaptureError::BackendUnavailable(msg)),
        FallbackOutcome::Captured(bytes) => match encode_bytes_base64(bytes) {
            Ok(s) => Ok(s),
            Err(m) => Err(CaptureError::BackendUnavailable(m)),
        },
    }
}

} // verus!
