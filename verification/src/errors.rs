//! The failure taxonomy of a provisioning run.
//!
//! Every failure is terminal to the current run: nothing is retried
//! automatically, and every failure is returned to the caller rather than
//! logged and swallowed.

use vstd::prelude::*;

verus! {

/// The cause of a failed provisioning run.
#[derive(Clone, Copy, Debug, PartialEq, Eq, Structural)]
pub enum ErrorKind {
    /// The network fetch of the restore image timed out or failed mid-transfer.
    NetworkError,
    /// The fetched restore image could not be persisted to disk.
    IOError,
    /// The restore image could not be loaded for inspection.
    LoadError,
    /// The restore image offers no configuration supported on the current host.
    UnsupportedImageError,
    /// The auxiliary boot storage could not be created.
    StorageCreationError,
    /// One of the three persisted identity files is absent.
    MissingIdentityError,
    /// One of the three persisted identity files failed to parse.
    CorruptIdentityError,
    /// The persisted hardware model is not supported on the current host.
    UnsupportedHardwareError,
    /// The assembled virtual-machine configuration failed validation.
    ConfigValidationError,
    /// The installer reported an error after installation began.
    InstallationError,
}

/// A terminal provisioning failure: its cause, and the underlying diagnostic
/// payload for surfacing to an operator.
#[derive(Debug)]
pub struct ProvisioningError {
    pub kind: ErrorKind,
    pub message: String,
}

impl ProvisioningError {
    pub fn new(kind: ErrorKind, message: String) -> (r: ProvisioningError)
        ensures
            r == (ProvisioningError { kind, message }),
    {
        ProvisioningError { kind, message }
    }

    /// The diagnostic payload, for display by an unverified shell.
    pub fn message(&self) -> (r: &String)
        ensures
            r@ == self.message@,
    {
        &self.message
    }
}

} // verus!
