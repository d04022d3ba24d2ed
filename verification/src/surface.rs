//! Capturable surfaces: monitor and window descriptors, and the selection
//! rules over a fresh enumeration.
//!
//! Descriptors are enumerated anew on every listing call; ids are
//! session-scoped. The primary monitor is the first descriptor whose
//! primary flag is set, or the first descriptor at all where no platform
//! reports one. Windows with an empty title are treated as non-user-facing
//! and filtered out.

use vstd::prelude::*;

verus! {

/// One monitor as the platform reports it.
#[derive(Debug)]
pub struct MonitorInfo {
    pub id: u32,
    pub name: String,
    pub width: u32,
    pub height: u32,
    pub x: i32,
    pub y: i32,
    pub is_primary: bool,
}

/// One top-level window as the platform reports it.
#[derive(Debug)]
pub struct WindowInfo {
    pub id: u32,
    pub app_name: String,
    pub title: String,
    pub x: i32,
    pub y: i32,
    pub width: u32,
    pub height: u32,
}

impl MonitorInfo {
    /// A field-for-field copy.
    pub fn duplicate(&self) -> (r: MonitorInfo)
        ensures
            r == *self,
    {
        MonitorInfo {
            id: self.id,
            name: self.name.clone(),
            width: self.width,
            height: self.height,
            x: self.x,
            y: self.y,
            is_primary: self.is_primary,
        }
    }
}

/// `i` points at the descriptor a caller needing the primary monitor must
/// use: the first one flagged primary, or the first one at all when none is
/// flagged.
pub open spec fn spec_is_primary_choice(monitors: Seq<MonitorInfo>, i: int) -> bool {
    &&& 0 <= i < monitors.len()
    &&& if exists|j: int| 0 <= j < monitors.len() && monitors[j].is_primary {
        monitors[i].is_primary && forall|j: int| 0 <= j < i ==> !monitors[j].is_primary
    } else {
        i == 0
    }
}

/// Locate the primary monitor in a fresh enumeration; `None` only when the
/// enumeration is empty.
pub fn find_primary(monitors: &Vec<MonitorInfo>) -> (r: Option<usize>)
    ensures
        match r {
            Some(i) => spec_is_primary_choice(monitors@, i as int),
            None => monitors@.len() == 0,
        },
{
    let n = monitors.len();
    let mut idx: usize = 0;
    while idx < n
        invariant
            n == monitors@.len(),
            idx <= n,
            forall|j: int| 0 <= j < idx ==> !monitors@[j].is_primary,
        decreases n - idx,
    {
        if monitors[idx].is_primary {
            return Some(idx);
        }
        idx = idx + 1;
    }
    if n > 0 {
        Some(0)
    } else {
        None
    }
}

/// Locate a window by id; the first match wins. `None` means no window in
/// the enumeration carries the id.
pub fn find_window_by_id(windows: &Vec<WindowInfo>, id: u32) -> (r: Option<usize>)
    ensures
        match r {
            Some(i) => {
                &&& 0 <= i < windows@.len()
                &&& windows@[i as int].id == id
                &&& forall|j: int| 0 <= j < i ==> windows@[j].id != id
            },
            None => forall|j: int| 0 <= j < windows@.len() ==> windows@[j].id != id,
        },
{
    let n = windows.len();
    let mut idx: usize = 0;
    while idx < n
        invariant
            n == windows@.len(),
            idx <= n,
            forall|j: int| 0 <= j < idx ==> windows@[j].id != id,
        decreases n - idx,
    {
        if windows[idx].id == id {
            return Some(idx);
        }
        idx = idx + 1;
    }
    None
}

/// Resolve a window id against a fresh enumeration, as a capture command
/// must: a stale or unknown id is `SurfaceNotFound`.
pub fn resolve_window(windows: &Vec<WindowInfo>, id: u32) -> (r: Result<
    usize,
    crate::error::CaptureError,
>)
    ensures
        match r {
            Ok(i) => {
                &&& 0 <= i < windows@.len()
                &&& windows@[i as int].id == id
                &&& forall|j: int| 0 <= j < i ==> windows@[j].id != id
            },
            Err(e) => e is SurfaceNotFound && (forall|j: int|
                0 <= j < windows@.len() ==> windows@[j].id != id),
        },
{
    match find_window_by_id(windows, id) {
        Some(i) => Ok(i),
        None => Err(crate::error::CaptureError::SurfaceNotFound),
    }
}

/// Locate a monitor by id; the first match wins. `None` means no monitor in
/// the enumeration carries the id.
pub fn find_monitor_by_id(monitors: &Vec<MonitorInfo>, id: u32) -> (r: Option<usize>)
    ensures
        match r {
            Some(i) => {
                &&& 0 <= i < monitors@.len()
                &&& monitors@[i as int].id == id
                &&& forall|j: int| 0 <= j < i ==> monitors@[j].id != id
            },
            None => forall|j: int| 0 <= j < monitors@.len() ==> monitors@[j].id != id,
        },
{
    let n = monitors.len();
    let mut idx: usize = 0;
    while idx < n
        invariant
            n == monitors@.len(),
            idx <= n,
            forall|j: int| 0 <= j < idx ==> monitors@[j].id != id,
        decreases n - idx,
    {
        if monitors[idx].id == id {
            return Some(idx);
        }
        idx = idx + 1;
    }
    None
}

/// The sub-sequence of windows whose title is not empty, in enumeration
/// order.
pub open spec fn spec_titled(windows: Seq<WindowInfo>) -> Seq<WindowInfo>
    decreases windows.len(),
{
    if windows.len() == 0 {
        Seq::empty()
    } else {
        let rest = spec_titled(windows.drop_first());
        if windows.first().title@.len() != 0 {
            seq![windows.first()] + rest
        } else {
            rest
        }
    }
}

/// Keep only the windows that carry a non-empty title, in order.
pub fn filter_titled(windows: Vec<WindowInfo>) -> (r: Vec<WindowInfo>)
    ensures
        r@ == spec_titled(windows@),
{
    let ghost all = windows@;
    let mut rest = windows;
    let mut kept: Vec<WindowInfo> = Vec::new();
    proof {
        assert(kept@ + spec_titled(rest@) =~= spec_titled(all));
    }
    while rest.len() > 0
        invariant
            kept@ + spec_titled(rest@) == spec_titled(all),
        decreases rest@.len(),
    {
        let ghost prev = rest@;
        let ghost kept_prev = kept@;
        let w = rest.remove(0);
        proof {
            assert(rest@ =~= prev.drop_first());
            assert(prev.first() == w);
        }
        if !w.title.as_str().is_empty() {
            kept.push(w);
            proof {
                assert(spec_titled(prev) == seq![w] + spec_titled(rest@));
                assert(kept@ + spec_titled(rest@) =~= kept_prev + spec_titled(prev));
            }
        } else {
            proof {
                assert(spec_titled(prev) == spec_titled(rest@));
            }
        }
    }
    proof {
        assert(spec_titled(rest@) =~= Seq::<WindowInfo>::empty());
        assert(kept@ =~= kept@ + spec_titled(rest@));
    }
    kept
}

} // verus!
