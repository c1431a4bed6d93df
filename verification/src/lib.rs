//! Core of a test harness that drives a game-console runtime from a host
//! process: a pixel-format codec, a frame-buffer sink that mirrors what the
//! display would show, and a single-slot registry that holds the one live
//! runtime between independent host calls.

use vstd::prelude::*;

pub mod color;
pub mod display;
pub mod runner;
pub mod runtime;

verus! {

/// Every failure the harness core can report to the host.
///
/// `ConstructionFailure` and `RuntimeError` are produced by the unverified
/// layer when the underlying runtime rejects its configuration or fails
/// during `start`/`update`; the message text travels beside the value there.
#[derive(Clone, Copy, Debug, PartialEq, Eq, Structural)]
pub enum HarnessError {
    /// An identifier is longer than the fixed length budget allows.
    InvalidArgument,
    /// The underlying runtime could not be built from the configuration.
    ConstructionFailure,
    /// An accessor ran before any runtime was installed.
    NotInitialized,
    /// The lock guarding the runtime slot was left in an inconsistent state.
    LockPoisoned,
    /// A draw coordinate lies outside the display bounds.
    OutOfRange,
    /// The runtime itself failed; the host sees its message verbatim.
    RuntimeError,
}

} // verus!
