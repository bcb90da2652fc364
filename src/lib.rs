//! A single-host container runtime: container lifecycle decisions, cgroup
//! control-file contents, namespace and privilege setup, root-filesystem
//! layering plans and snapshot lineage, stated and proved with Verus.
//!
//! Every kernel or filesystem side effect is described by a value of this
//! library (a plan of operations, an action to perform); the binary around the
//! library carries them out and reports the outcome back.
use vstd::prelude::*;

pub mod cgroups;
pub mod container;
pub mod drivers;
pub mod error;
pub mod filesystem;
pub mod fsplan;
pub mod images;
pub mod namespace;
pub mod runtime;
pub mod snapshot;
pub mod store;
pub mod text;
pub mod volumes;

verus! {

/// Name of the program; used in cgroup and metadata paths.
pub const PROGRAM_NAME: &'static str = "nebulon";

/// Short command name; prefix of every container id.
pub const PROGRAM_CMD: &'static str = "nb";

/// Root directory of everything the runtime keeps on disk.
pub const PROGRAM_ROOT: &'static str = "/var/lib/nebulon/";

} // verus!
