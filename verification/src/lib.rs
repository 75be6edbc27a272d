//! A bridge for loading large resources from a frame-driven, single-threaded
//! application without freezing its event loop.
//!
//! - [`handoff`]: the single-shot channel between background work and the
//!   loader that polls for its result.
//! - [`payload`]: naming conventions, decompression, and the failures that a
//!   load can end in.
//! - [`load`]: the loaders themselves, one per strategy, and the hand-over of
//!   the continuation.
//! - [`text`]: lines of on-screen text with a highlight and a cursor.
//! - [`warp`]: the language of the "warp to an object" box.
//! - [`census`]: vocabulary for generated populations.
//! - [`prebake`]: judging a simulation that was run to its end.
//!
//! The library decides; it performs no input or output. A host reads files,
//! runs requests and background work, reads the clock, and calls the
//! continuation that a loader hands out.

pub mod census;
pub mod handoff;
pub mod load;
pub mod payload;
pub mod prebake;
pub mod text;
pub mod warp;
