//! Error kinds surfaced by the execution unit.

use vstd::prelude::*;

verus! {

/// Every failure the engines can surface to a caller.
///
/// `PackageInvalid` covers unreadable archives and missing or malformed
/// manifests; `ModuleInvalid` covers compilation failures and duplicate
/// entrypoint ids; `PathUnsafe` is the path validator's rejection;
/// `GuestTrap` is any propagated trap; `GuestExit` reifies a guest's own
/// exit code; `IoUnavailable` marks a virtual-filesystem operation that
/// failed and was surfaced to the guest as `-1`; `ConfigInvalid` marks an
/// unparsable configuration value.
#[derive(Debug, PartialEq, Eq)]
pub enum Error {
    PackageInvalid(String),
    ModuleInvalid(String),
    PathUnsafe(String),
    GuestTrap(String),
    GuestExit(i32),
    IoUnavailable,
    ConfigInvalid(String),
}

impl Error {
    /// Whether this error is the path validator's rejection.
    pub fn is_path_unsafe(&self) -> (r: bool)
        ensures
            r == self is PathUnsafe,
    {
        match self {
            Error::PathUnsafe(_) => true,
            _ => false,
        }
    }
}

} // verus!
