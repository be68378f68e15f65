//! Error kinds of the container runtime.

use vstd::prelude::*;

verus! {

/// Everything that can go wrong while a container is being set up, run, or
/// torn down. Mount and unmount failures carry the path they failed at.
#[derive(Debug, Clone, PartialEq, Eq)]
pub enum RuntimeError {
    /// The network namespace could not be created (it already exists, or
    /// privilege is insufficient).
    NamespaceCreateError,
    /// The child could not join the pre-created network namespace.
    NamespaceJoinError,
    /// The network namespace could not be deleted (it does not exist, or it
    /// is still referenced).
    NamespaceDeleteError,
    /// The child could not change its filesystem root or working directory.
    ChrootError,
    /// A pseudo-filesystem mount failed.
    MountError { target: String },
    /// A pseudo-filesystem unmount found the mount busy.
    UnmountError { target: String },
    /// The resource-limit backend rejected or could not apply the limits.
    LimiterError,
    /// The isolated process could not be created (clone or stack failure).
    LaunchError,
    /// Waiting for the child's exit failed.
    WaitError,
}

} // verus!
