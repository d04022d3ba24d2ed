//! The error taxonomy shared by every capture and overlay operation.

use vstd::prelude::*;

verus! {

/// Why a capture or overlay operation failed.
#[derive(Debug)]
pub enum CaptureError {
    /// The backend returned a zero-dimension frame: the platform withheld
    /// the pixels.
    PermissionDenied,
    /// No surface with the requested identity exists (stale or unknown id).
    SurfaceNotFound,
    /// The requested crop rectangle has no area once clamped to the frame.
    InvalidRegion,
    /// The platform capture API failed, or the fallback tool is missing or
    /// failed; the payload carries the diagnostic.
    BackendUnavailable(String),
    /// The image codec rejected the frame.
    EncodeError(String),
    /// Creating, positioning or showing the overlay surface failed.
    SurfaceLifecycleError(String),
}

impl CaptureError {
    /// A human-readable description, exact per variant.
    pub fn message(&self) -> (r: String)
        ensures
            match self {
                CaptureError::PermissionDenied => r@ == "screen capture permission not granted"@,
                CaptureError::SurfaceNotFound => r@ == "surface not found"@,
                CaptureError::InvalidRegion => r@ == "invalid region dimensions"@,
                CaptureError::BackendUnavailable(m) => r@ == m@,
                CaptureError::EncodeError(m) => r@ == m@,
                CaptureError::SurfaceLifecycleError(m) => r@ == m@,
            },
    {
        match self {
            CaptureError::PermissionDenied => "screen capture permission not granted".to_owned(),
            CaptureError::SurfaceNotFound => "surface not found".to_owned(),
            CaptureError::InvalidRegion => "invalid region dimensions".to_owned(),
            CaptureError::BackendUnavailable(m) => m.clone(),
            CaptureError::EncodeError(m) => m.clone(),
            CaptureError::SurfaceLifecycleError(m) => m.clone(),
        }
    }
}

} // verus!
