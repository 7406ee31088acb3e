//! The failure taxonomy of the display manager.

use vstd::prelude::*;

verus! {

/// Which kind of operating-system call an `OsCallFailed` came from.
#[derive(Debug, Clone, Copy, PartialEq, Eq, Structural)]
pub enum OsCall {
    /// Querying a display's current or enumerated mode.
    ModeQuery,
    /// Submitting a mode change for one display.
    ModeChange,
    /// Querying the virtual-desktop topology.
    TopologyQuery,
    /// Submitting a rewritten virtual-desktop topology.
    TopologySet,
    /// Opening the hardware control channel of a monitor.
    ChannelOpen,
    /// Setting a feature code over the hardware control channel.
    FeatureSet,
}

/// A typed failure of one display-manager operation.
#[derive(Debug, Clone, PartialEq, Eq)]
pub enum DisplayError {
    /// The requested index does not exist in the current enumeration.
    NotFound { index: u32 },
    /// No driver-reported mode of the device matches the requested dimensions.
    UnsupportedMode { width: u32, height: u32, device: String },
    /// An underlying operating-system call returned a failure code.
    OsCallFailed { code: u32, call: OsCall },
    /// The monitor reports that it does not support the queried feature code.
    FeatureUnsupported,
}

} // verus!
