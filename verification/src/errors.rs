//! The error taxonomy of the status line. Every error is terminal for the
//! invocation: nothing is retried and no partial line is produced.

use vstd::prelude::*;

verus! {

/// Why a status line could not be built.
#[derive(Clone, Copy, Debug, PartialEq, Eq, Structural)]
pub enum StatusError {
    /// The host's power subsystem could not be queried at all.
    BatteryUnavailable,
    /// An invocation of the external mixer tool exited with a failure status.
    CommandFailed,
    /// The mixer tool printed bytes that are not valid UTF-8.
    OutputNotUtf8,
    /// The trimmed volume text does not parse as an unsigned 8-bit integer.
    VolumeParseError,
}

} // verus!
