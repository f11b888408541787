//! What the pacer reports when it is used against its rules.

use vstd::prelude::*;

verus! {

/// Why an operation of the pacer was refused. A refused operation leaves the
/// pacer as it was.
#[derive(Debug, Clone, Copy, PartialEq, Eq, Structural)]
pub enum PacerError {
    /// The host broke the stage lifecycle: a stage was begun while it was
    /// running, ended while it was idle, or named by a handle that the pacer
    /// never issued.
    UsageError,
    /// A refresh rate was offered from which no refresh interval follows.
    InvalidConfiguration,
    /// Time ran backwards: a timestamp lies before the one it is measured
    /// from.
    ClockAnomaly,
}

} // verus!
