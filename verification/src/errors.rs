//! The error taxonomy of the remapper.
//!
//! Every per-event failure degrades to fail-open passthrough; only the
//! startup-time authorization failure may terminate the process.

use vstd::prelude::*;

verus! {

/// Everything that can go wrong, and how bad it is.
#[derive(Clone, Copy, Debug, PartialEq, Eq, Structural)]
pub enum RemapError {
    /// The process lacks the accessibility / input-monitoring
    /// authorization, so the event tap cannot be installed.  Fatal,
    /// startup-only, never retried automatically.
    PermissionDenied,
    /// The active layout identifier could not be obtained.  Non-fatal:
    /// the event passes through unmodified.
    LayoutDetectionFailure,
    /// The operating system reported the tap disabled.  Non-fatal but
    /// service-degrading: every later keystroke passes through until
    /// the tap is re-enabled or the process restarts.
    TapDisabled,
    /// The layout identifier could not be decoded.  Treated exactly
    /// like a detection failure.
    MalformedLayoutIdentifier,
}

impl RemapError {
    /// Only the startup-time authorization failure is allowed to
    /// terminate the process; every other error is handled locally.
    pub open spec fn spec_is_fatal(self) -> bool {
        self is PermissionDenied
    }

    /// Whether this error may terminate the process.
    pub fn is_fatal(&self) -> (r: bool)
        ensures
            r == self.spec_is_fatal(),
    {
        matches!(self, RemapError::PermissionDenied)
    }

    /// The log line for this error.  The fatal one carries its
    /// remediation: grant the permission and relaunch.
    pub open spec fn spec_message(self) -> Seq<char> {
        match self {
            RemapError::PermissionDenied => (
                "failed to create the event tap: grant this process accessibility (input monitoring) permission and relaunch"@
            ),
            RemapError::LayoutDetectionFailure => "could not read the active keyboard layout"@,
            RemapError::TapDisabled => "the event tap was disabled"@,
            RemapError::MalformedLayoutIdentifier => (
                "the active keyboard layout identifier could not be decoded"@
            ),
        }
    }

    /// Returns the log line for this error.
    pub fn message(&self) -> (r: &'static str)
        ensures
            r@ == self.spec_message(),
    {
        match self {
            RemapError::PermissionDenied => (
                "failed to create the event tap: grant this process accessibility (input monitoring) permission and relaunch"
            ),
            RemapError::LayoutDetectionFailure => "could not read the active keyboard layout",
            RemapError::TapDisabled => "the event tap was disabled",
            RemapError::MalformedLayoutIdentifier => (
                "the active keyboard layout identifier could not be decoded"
            ),
        }
    }
}

} // verus!
