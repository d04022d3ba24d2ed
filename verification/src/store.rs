//! The shared frame slot: the most recent captured frame in transport form,
//! with optional target-monitor metadata, handed from a capture sequence to
//! the overlay surface.
//!
//! One slot exists per process; every activation sequence writes through it
//! and the last write wins. Each sequence draws a generation token when it
//! begins; a publish carrying a stale token (one drawn before a newer
//! sequence began) is discarded, so a superseded sequence can never
//! overwrite a newer one's frame or metadata after the fact.

use vstd::prelude::*;

use crate::surface::MonitorInfo;

verus! {

/// The process-wide slot for the most recent published frame.
#[derive(Debug)]
pub struct FrameStore {
    frame: Option<String>,
    target: Option<MonitorInfo>,
    generation: u64,
}

/// How `begin_sequence` changes the store: the generation moves up by one
/// (the new token), the contents stay.
pub open spec fn begin_post(pre: FrameStore, post: FrameStore, token: u64) -> bool {
    &&& post.spec_generation() == pre.spec_generation() + 1
    &&& token == post.spec_generation()
    &&& post.spec_frame() == pre.spec_frame()
    &&& post.spec_target() == pre.spec_target()
}

/// How `publish` changes the store: a current token replaces frame and
/// metadata together; a stale token changes nothing.
pub open spec fn publish_post(
    pre: FrameStore,
    token: u64,
    frame: String,
    target: Option<MonitorInfo>,
    post: FrameStore,
    accepted: bool,
) -> bool {
    &&& accepted == (token == pre.spec_generation())
    &&& post.spec_generation() == pre.spec_generation()
    &&& if accepted {
        post.spec_frame() == Some(frame) && post.spec_target() == target
    } else {
        post.spec_frame() == pre.spec_frame() && post.spec_target() == pre.spec_target()
    }
}

impl FrameStore {
    /// The published frame, if any, in transport form.
    pub closed spec fn spec_frame(self) -> Option<String> {
        self.frame
    }

    /// The target-monitor metadata published with the frame, if any.
    pub closed spec fn spec_target(self) -> Option<MonitorInfo> {
        self.target
    }

    /// The generation of the newest activation sequence.
    pub closed spec fn spec_generation(self) -> u64 {
        self.generation
    }

    /// The slot starts empty.
    pub fn new() -> (r: FrameStore)
        ensures
            r.spec_frame() is None,
            r.spec_target() is None,
            r.spec_generation() == 0,
    {
        FrameStore { frame: None, target: None, generation: 0 }
    }

    /// The generation of the newest activation sequence.
    pub fn generation(&self) -> (g: u64)
        ensures
            g == self.spec_generation(),
    {
        self.generation
    }

    /// Start a new activation sequence and draw its token; any sequence
    /// begun earlier is superseded from this point on.
    pub fn begin_sequence(&mut self) -> (token: u64)
        requires
            old(self).spec_generation() < u64::MAX,
        ensures
            begin_post(*old(self), *final(self), token),
    {
        self.generation = self.generation + 1;
        self.generation
    }

    /// Publish a frame and its target metadata under a token. The write
    /// happens only when the token is current: a superseded sequence's
    /// publish is discarded whole, never merged.
    pub fn publish(&mut self, token: u64, frame: String, target: Option<MonitorInfo>) -> (accepted:
        bool)
        ensures
            publish_post(*old(self), token, frame, target, *final(self), accepted),
    {
        if token == self.generation {
            self.frame = Some(frame);
            self.target = target;
            true
        } else {
            false
        }
    }

    /// The published frame, if any. Never fails; an empty slot reads as
    /// `None`.
    pub fn read(&self) -> (r: Option<&String>)
        ensures
            match r {
                Some(s) => self.spec_frame() == Some(*s),
                None => self.spec_frame() is None,
            },
    {
        self.frame.as_ref()
    }

    /// The published target metadata, if any.
    pub fn read_target(&self) -> (r: Option<&MonitorInfo>)
        ensures
            match r {
                Some(m) => self.spec_target() == Some(*m),
                None => self.spec_target() is None,
            },
    {
        self.target.as_ref()
    }

    /// Empty the slot: frame and metadata together. Never fails, whatever
    /// was held before.
    pub fn clear(&mut self)
        ensures
            final(self).spec_frame() is None,
            final(self).spec_target() is None,
            final(self).spec_generation() == old(self).spec_generation(),
    {
        self.frame = None;
        self.target = None;
    }

    /// Drop only the target metadata, leaving a published frame in place
    /// (used when the overlay is deactivated normally).
    pub fn clear_target(&mut self)
        ensures
            final(self).spec_frame() == old(self).spec_frame(),
            final(self).spec_target() is None,
            final(self).spec_generation() == old(self).spec_generation(),
    {
        self.target = None;
    }
}

/// Of two activation sequences where the second began before the first
/// published, the slot ends with the second sequence's frame and metadata —
/// in whichever order the two publishes landed, and never a mixture.
pub proof fn lemma_later_sequence_wins(
    s0: FrameStore,
    s1: FrameStore,
    s2: FrameStore,
    s3: FrameStore,
    s4: FrameStore,
    token_a: u64,
    token_b: u64,
    frame_a: String,
    target_a: Option<MonitorInfo>,
    frame_b: String,
    target_b: Option<MonitorInfo>,
    a_first: bool,
    accepted_first: bool,
    accepted_second: bool,
)
    requires
        begin_post(s0, s1, token_a),
        begin_post(s1, s2, token_b),
        if a_first {
            publish_post(s2, token_a, frame_a, target_a, s3, accepted_first) && publish_post(
                s3,
                token_b,
                frame_b,
                target_b,
                s4,
                accepted_second,
            )
        } else {
            publish_post(s2, token_b, frame_b, target_b, s3, accepted_first) && publish_post(
                s3,
                token_a,
                frame_a,
                target_a,
                s4,
                accepted_second,
            )
        },
    ensures
        s4.spec_frame() == Some(frame_b),
        s4.spec_target() == target_b,
{
}

} // verus!
