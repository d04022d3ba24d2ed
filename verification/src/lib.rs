//! Verified core of a desktop screen-capture tool.
//!
//! The library covers the logic that decides and computes: clamping and
//! cropping of capture regions, the raw-frame model and its invariant, the
//! PNG + base64 encoding pipeline, selection of the fallback capture path on
//! restricted sessions, surface enumeration rules, the shared frame store
//! with its generation tokens, and the overlay coordinator state machine.
//! Platform work (enumerating real monitors, grabbing pixels, creating UI
//! surfaces, spawning the fallback tool) is left to the surrounding program,
//! which feeds plain values in and carries actions out.

pub mod capture;
pub mod encode;
pub mod error;
pub mod frame;
pub mod geometry;
pub mod overlay;
pub mod store;
pub mod surface;
