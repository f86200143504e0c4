use vstd::prelude::*;

verus! {

/// The errors of the registry's operations. Each is local and recoverable.
#[derive(Debug, Clone, PartialEq, Eq)]
pub enum Error {
    /// The port is already present in the registry.
    AlreadyOpen,
    /// The port is not present in the registry.
    NotOpen,
    /// The device could not be opened; holds the device's reason.
    OpenFailed(String),
    /// The device handle could not be duplicated for a reader.
    CloneFailed(String),
    /// The device refused a write.
    WriteFailed(String),
    /// The registry's lock could not be acquired.
    LockUnavailable(String),
    /// A stop signal could not be delivered to a reader.
    SignalFailed(String),
}

/// A status code with a message, as handed back to a caller of the plugin.
#[derive(Debug, Clone, PartialEq, Eq)]
pub struct InvokeResult {
    pub code: i32,
    pub message: String,
}

} // verus!
