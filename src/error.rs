//! The runtime's failure kinds.
use vstd::prelude::*;

verus! {

/// Why an operation of the runtime failed.
#[derive(PartialEq, Eq, Structural, Clone, Copy, Debug)]
pub enum RuntimeError {
    /// The process could not be duplicated; no container state was changed.
    ForkError,
    /// A namespace could not be entered or its hostname set.
    NamespaceError,
    /// The group or user id could not be dropped.
    PrivilegeError,
    /// A cgroup could not be set up, limited or removed.
    CgroupError,
    /// A snapshot, mount or layering step failed.
    FilesystemError,
    /// Stop was asked of a container that is not running.
    NotRunningError,
    /// No container, volume or image has the given id.
    NotFoundError,
    /// The request needs a feature that is not implemented.
    UnsupportedError,
    /// A volume or image with that name is already known.
    AlreadyExistsError,
}

/// The exit status of a container child that stopped at a failed setup step.
pub open spec fn exit_status_of(e: RuntimeError) -> i32 {
    match e {
        RuntimeError::ForkError => 2,
        RuntimeError::NamespaceError => 3,
        RuntimeError::PrivilegeError => 4,
        RuntimeError::CgroupError => 5,
        RuntimeError::FilesystemError => 6,
        RuntimeError::NotRunningError => 7,
        RuntimeError::NotFoundError => 8,
        RuntimeError::UnsupportedError => 9,
        RuntimeError::AlreadyExistsError => 10,
    }
}

impl RuntimeError {
    /// The exit status that tells this failure apart from the others and
    /// from success.
    pub fn exit_status(&self) -> (r: i32)
        ensures
            r == exit_status_of(*self),
            r != 0,
    {
        match self {
            RuntimeError::ForkError => 2,
            RuntimeError::NamespaceError => 3,
            RuntimeError::PrivilegeError => 4,
            RuntimeError::CgroupError => 5,
            RuntimeError::FilesystemError => 6,
            RuntimeError::NotRunningError => 7,
            RuntimeError::NotFoundError => 8,
            RuntimeError::UnsupportedError => 9,
            RuntimeError::AlreadyExistsError => 10,
        }
    }

    /// A short description of the failure.
    pub fn message(&self) -> (r: &'static str) {
        match self {
            RuntimeError::ForkError => "failed to fork the container process",
            RuntimeError::NamespaceError => "failed to set up namespaces",
            RuntimeError::PrivilegeError => "failed to drop privileges",
            RuntimeError::CgroupError => "cgroup operation failed",
            RuntimeError::FilesystemError => "filesystem operation failed",
            RuntimeError::NotRunningError => "container is not running",
            RuntimeError::NotFoundError => "not found",
            RuntimeError::UnsupportedError => "unsupported operation",
            RuntimeError::AlreadyExistsError => "already exists",
        }
    }
}

/// Distinct failures exit with distinct statuses.
pub proof fn lemma_exit_status_distinct(a: RuntimeError, b: RuntimeError)
    ensures
        exit_status_of(a) == exit_status_of(b) ==> a == b,
        exit_status_of(a) != 0,
{
}

} // verus!
