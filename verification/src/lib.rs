//! Supervision core for a proof-of-space data initializer.
//!
//! The crate gates a target directory (existence, write permission, free
//! space), locates the bundled worker binaries, builds their argument
//! vectors, interprets their exit status and structured output, splits
//! streamed output into per-channel log events, and requests termination
//! of a detached worker by its process id.  Everything that decides or
//! computes is verified; the operating-system probes themselves (file
//! system, process table) are supplied by the host around this library.

pub mod cpu;
pub mod gpu_profiler;
pub mod locator;
pub mod probability;
pub mod profiler;
pub mod providers;
pub mod scan;
pub mod streamer;
pub mod supervisor;
pub mod termination;
pub mod text;
pub mod validation;

use vstd::prelude::*;

verus! {

/// A gibibyte: all space thresholds in this crate use binary units.
pub const GIB: u64 = 1073741824;

} // verus!
