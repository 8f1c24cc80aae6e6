//! Failure kinds reported by the control core.

use vstd::prelude::*;

verus! {

/// A typed failure returned to the caller of a control operation.
///
/// Validation failures and backpressure are the only failures the core
/// surfaces: hardware read errors are absorbed by the input samplers, and
/// commands that are accepted but not implemented return success.
#[derive(Clone, Copy, Debug, PartialEq, Eq, Structural)]
pub enum Error {
    /// The command carried an out-of-range or unsupported value.
    InvalidCommand,
    /// The hardware command channel is full; the caller may retry.
    Busy,
}

} // verus!
