//! Progress and cancellation hook threaded through long-running
//! calculations.

use vstd::prelude::*;

verus! {

/// Receiver for progress updates from long-running calculations.
/// Implementations should not block: the calculation loops call these
/// methods from their hot paths.
pub trait ProgressSink {
    /// The sink never asks a calculation to cancel.
    spec fn never_cancels(&self) -> bool;

    /// The sink asks to cancel whenever it is polled.
    spec fn always_cancels(&self) -> bool;

    /// `message` is a human-readable status line, `current` a monotone
    /// counter for the running phase, `total` the phase total if known.
    fn report(&self, message: &str, current: u64, total: Option<u64>);

    /// Polled at the same cadence as `report`; `true` makes the calculation
    /// abort as cancelled.
    fn is_cancelled(&self) -> (r: bool)
        ensures
            self.never_cancels() ==> !r,
            self.always_cancels() ==> r;
}

/// Default sink: ignores progress, never cancels.
#[derive(Clone, Copy, Debug)]
pub struct NoopProgress;

impl ProgressSink for NoopProgress {
    open spec fn never_cancels(&self) -> bool {
        true
    }

    open spec fn always_cancels(&self) -> bool {
        false
    }

    fn report(&self, message: &str, current: u64, total: Option<u64>) {
    }

    fn is_cancelled(&self) -> (r: bool) {
        false
    }
}

} // verus!
