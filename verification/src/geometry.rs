//! Clamping of requested capture regions to the bounds of a captured frame.
//!
//! A requested rectangle may start outside the frame or reach past its
//! edges. The start of each axis is clamped to zero, the extent to what is
//! left of the frame past the clamped start. A rectangle whose clamped
//! width or height is zero has no area and is rejected.

use vstd::prelude::*;

verus! {

/// A crop rectangle that lies fully inside some frame, in pixels.
#[derive(Clone, Copy, Debug, PartialEq, Eq, Structural)]
pub struct CropRect {
    pub x: u32,
    pub y: u32,
    pub width: u32,
    pub height: u32,
}

/// The clamped start of one axis: a negative request starts at the edge.
pub open spec fn spec_clamped_start(req: int) -> int {
    if req < 0 {
        0
    } else {
        req
    }
}

/// The clamped extent of one axis: no more than what the frame holds past
/// the clamped start.
pub open spec fn spec_clamped_extent(req: int, start: int, dim: int) -> int {
    let avail = if dim >= start {
        dim - start
    } else {
        0
    };
    if req <= avail {
        req
    } else {
        avail
    }
}

/// The rectangle that a request clamps to on a `frame_width` by
/// `frame_height` frame, or `None` when the clamped area is zero.
pub open spec fn spec_clamp_region(
    frame_width: u32,
    frame_height: u32,
    x: i32,
    y: i32,
    width: u32,
    height: u32,
) -> Option<CropRect> {
    let sx = spec_clamped_start(x as int);
    let sy = spec_clamped_start(y as int);
    let cw = spec_clamped_extent(width as int, sx, frame_width as int);
    let ch = spec_clamped_extent(height as int, sy, frame_height as int);
    if cw == 0 || ch == 0 {
        None
    } else {
        Some(CropRect { x: sx as u32, y: sy as u32, width: cw as u32, height: ch as u32 })
    }
}

/// Clamp a requested region to the frame bounds.
pub fn clamp_region(
    frame_width: u32,
    frame_height: u32,
    x: i32,
    y: i32,
    width: u32,
    height: u32,
) -> (r: Option<CropRect>)
    ensures
        r == spec_clamp_region(frame_width, frame_height, x, y, width, height),
{
    let sx: u32 = if x < 0 {
        0
    } else {
        x as u32
    };
    let sy: u32 = if y < 0 {
        0
    } else {
        y as u32
    };
    let avail_w: u32 = if frame_width >= sx {
        frame_width - sx
    } else {
        0
    };
    let avail_h: u32 = if frame_height >= sy {
        frame_height - sy
    } else {
        0
    };
    let cw: u32 = if width <= avail_w {
        width
    } else {
        avail_w
    };
    let ch: u32 = if height <= avail_h {
        height
    } else {
        avail_h
    };
    if cw == 0 || ch == 0 {
        None
    } else {
        Some(CropRect { x: sx, y: sy, width: cw, height: ch })
    }
}

/// A clamped rectangle always lies fully inside the frame.
pub proof fn lemma_clamped_region_inside(
    frame_width: u32,
    frame_height: u32,
    x: i32,
    y: i32,
    width: u32,
    height: u32,
)
    ensures
        spec_clamp_region(frame_width, frame_height, x, y, width, height) matches Some(r) ==> {
            &&& r.width > 0
            &&& r.height > 0
            &&& r.x + r.width <= frame_width
            &&& r.y + r.height <= frame_height
        },
{
}

/// A non-degenerate rectangle that lies fully inside the frame is kept
/// exactly as requested: clamping changes nothing.
pub proof fn lemma_interior_region_kept(
    frame_width: u32,
    frame_height: u32,
    x: i32,
    y: i32,
    width: u32,
    height: u32,
)
    requires
        0 <= x,
        0 <= y,
        width > 0,
        height > 0,
        x + width <= frame_width,
        y + height <= frame_height,
    ensures
        spec_clamp_region(frame_width, frame_height, x, y, width, height) == Some(
            CropRect { x: x as u32, y: y as u32, width, height },
        ),
{
}

/// A request whose clamped width or height is zero is rejected, never kept
/// as an empty rectangle.
pub proof fn lemma_degenerate_region_rejected(
    frame_width: u32,
    frame_height: u32,
    x: i32,
    y: i32,
    width: u32,
    height: u32,
)
    requires
        spec_clamped_extent(width as int, spec_clamped_start(x as int), frame_width as int) == 0
            || spec_clamped_extent(height as int, spec_clamped_start(y as int), frame_height as int)
            == 0,
    ensures
        spec_clamp_region(frame_width, frame_height, x, y, width, height) is None,
{
}

} // verus!
