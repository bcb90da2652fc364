//! Per-container cgroups: where a container's cgroup lives and what its
//! control files receive.
use vstd::prelude::*;
use crate::error::RuntimeError;
use crate::fsplan::{FsOp, FsStep, steps};
use crate::text::{concat_str, decimal, decimal_text, join_path, path_join, signed_decimal, signed_text};

verus! {

/// Where the cgroup hierarchy is mounted.
pub const CGROUP_ROOT: &'static str = "/sys/fs/cgroup";

/// Filesystem magic of a cgroup v2 (unified) mount.
pub const CGROUP2_SUPER_MAGIC: i64 = 0x63677270;

/// Filesystem magic of a cgroup v1 mount.
pub const CGROUP_SUPER_MAGIC: i64 = 0x27e0eb;

/// Length of the scheduling period that a CPU quota is measured against, in
/// microseconds.
pub const CPU_PERIOD_US: u64 = 100000;

/// The two cgroup interfaces, which name their control files differently.
#[derive(PartialEq, Eq, Structural, Clone, Copy, Debug)]
pub enum CgroupVersion {
    V1,
    V2,
}

/// `<cgroup root>/<program name>/<container id>`.
pub open spec fn cgroup_path_of(container_id: Seq<char>) -> Seq<char> {
    path_join(path_join(CGROUP_ROOT@, crate::PROGRAM_NAME@), container_id)
}

/// The control file that holds the memory limit.
pub open spec fn memory_file(v: CgroupVersion) -> Seq<char> {
    match v {
        CgroupVersion::V2 => "memory.max"@,
        CgroupVersion::V1 => "memory.limit_in_bytes"@,
    }
}

/// A limit in mebibytes, in bytes.
pub open spec fn limit_bytes(limit_mb: int) -> int {
    limit_mb * 1024 * 1024
}

/// The contents of `cpu.max` for a quota in percent of one CPU: the quota in
/// microseconds, a space, and the period.
pub open spec fn cpu_max_text(quota_percent: nat) -> Seq<char> {
    decimal_text(quota_percent * 1000) + " "@ + decimal_text(CPU_PERIOD_US as nat)
}

/// Writing a memory limit of `limit_mb` mebibytes into the cgroup at `path`.
pub open spec fn memory_limit_step(path: Seq<char>, v: CgroupVersion, limit_mb: nat) -> FsStep {
    FsStep::WriteFile {
        path: path_join(path, memory_file(v)),
        contents: decimal_text(limit_bytes(limit_mb as int) as nat),
    }
}

/// Writing a CPU quota into the cgroup at `path`.
pub open spec fn cpu_quota_step(path: Seq<char>, quota_percent: nat) -> FsStep {
    FsStep::WriteFile { path: path_join(path, "cpu.max"@), contents: cpu_max_text(quota_percent) }
}

/// Attaching the process `pid` to the cgroup at `path`.
pub open spec fn add_process_step(path: Seq<char>, pid: int) -> FsStep {
    FsStep::WriteFile { path: path_join(path, "cgroup.procs"@), contents: signed_text(pid) }
}

/// Removing the cgroup of `container_id`.
pub open spec fn cgroup_cleanup_steps(container_id: Seq<char>) -> Seq<FsStep> {
    seq![FsStep::RemoveCgroup(cgroup_path_of(container_id))]
}

/// The cgroup of one container.
pub struct CgroupManager {
    cgroup_path: String,
}

impl CgroupManager {
    pub closed spec fn path(&self) -> Seq<char> {
        self.cgroup_path@
    }

    /// The cgroup of the container `container_id`.
    pub fn new(container_id: &str) -> (r: Self)
        ensures
            r.path() == cgroup_path_of(container_id@),
    {
        let base = join_path(CGROUP_ROOT, crate::PROGRAM_NAME);
        CgroupManager { cgroup_path: join_path(base.as_str(), container_id) }
    }

    /// The cgroup's directory.
    pub fn cgroup_path(&self) -> (r: &str)
        ensures
            r@ == self.path(),
    {
        self.cgroup_path.as_str()
    }

    /// Creates the cgroup's directory if it is absent.
    pub fn create_ops(&self) -> (r: Vec<FsOp>)
        ensures
            steps(r@) == seq![FsStep::MakeDirAll(self.path())],
    {
        let mut ops: Vec<FsOp> = Vec::new();
        ops.push(FsOp::MakeDirAll(self.cgroup_path.clone()));
        assert(steps(ops@) =~= seq![FsStep::MakeDirAll(self.path())]);
        ops
    }

    /// The cgroup interface, told by the filesystem magic of the cgroup mount.
    pub fn detect_cgroup_version(fs_type: i64) -> (r: Result<CgroupVersion, RuntimeError>)
        ensures
            r == (if fs_type == CGROUP2_SUPER_MAGIC {
                Ok(CgroupVersion::V2)
            } else if fs_type == CGROUP_SUPER_MAGIC {
                Ok(CgroupVersion::V1)
            } else {
                Err(RuntimeError::CgroupError)
            }),
    {
        if fs_type == CGROUP2_SUPER_MAGIC {
            Ok(CgroupVersion::V2)
        } else if fs_type == CGROUP_SUPER_MAGIC {
            Ok(CgroupVersion::V1)
        } else {
            Err(RuntimeError::CgroupError)
        }
    }

    /// Limits the cgroup's memory to `limit_mb` mebibytes, on the cgroup
    /// mount whose filesystem magic is `fs_type`: the interface is told by the
    /// magic, then the limit is written in bytes to that interface's control
    /// file. An unknown magic, or a byte count that does not fit in 64 bits,
    /// gives `CgroupError`.
    pub fn set_memory_limit(&self, fs_type: i64, limit_mb: usize) -> (r: Result<FsOp, RuntimeError>)
        ensures
            fs_type != CGROUP2_SUPER_MAGIC && fs_type != CGROUP_SUPER_MAGIC ==> (r matches Err(
                RuntimeError::CgroupError,
            )),
            limit_bytes(limit_mb as int) > u64::MAX ==> (r matches Err(RuntimeError::CgroupError)),
            fs_type == CGROUP2_SUPER_MAGIC && limit_bytes(limit_mb as int) <= u64::MAX ==> (r matches Ok(op)
                && op@ == memory_limit_step(self.path(), CgroupVersion::V2, limit_mb as nat)),
            fs_type == CGROUP_SUPER_MAGIC && limit_bytes(limit_mb as int) <= u64::MAX ==> (r matches Ok(op)
                && op@ == memory_limit_step(self.path(), CgroupVersion::V1, limit_mb as nat)),
    {
        match Self::detect_cgroup_version(fs_type) {
            Ok(version) => self.memory_limit_for(version, limit_mb),
            Err(e) => Err(e),
        }
    }

    /// Limits the cgroup's memory to `limit_mb` mebibytes, written in bytes to
    /// the control file of interface `version`. A limit whose byte count does
    /// not fit in 64 bits is refused.
    pub fn memory_limit_for(&self, version: CgroupVersion, limit_mb: usize) -> (r: Result<FsOp, RuntimeError>)
        ensures
            limit_bytes(limit_mb as int) <= u64::MAX ==> (r matches Ok(op) && op@ == memory_limit_step(
                self.path(),
                version,
                limit_mb as nat,
            )),
            limit_bytes(limit_mb as int) > u64::MAX ==> (r matches Err(RuntimeError::CgroupError)),
    {
        let file = match version {
            CgroupVersion::V2 => "memory.max",
            CgroupVersion::V1 => "memory.limit_in_bytes",
        };
        match (limit_mb as u64).checked_mul(1024 * 1024) {
            Some(bytes) => {
                assert(bytes == limit_bytes(limit_mb as int));
                Ok(FsOp::WriteFile {
                    path: join_path(self.cgroup_path.as_str(), file),
                    contents: decimal(bytes),
                })
            },
            None => Err(RuntimeError::CgroupError),
        }
    }

    /// Limits the cgroup to `quota_percent` percent of one CPU; more than a
    /// hundred asks for more than one CPU in proportion.
    pub fn set_cpu_quota(&self, quota_percent: u32) -> (r: FsOp)
        ensures
            r@ == cpu_quota_step(self.path(), quota_percent as nat),
    {
        let quota: u64 = quota_percent as u64 * 1000;
        let head = concat_str(decimal(quota).as_str(), " ");
        let text = concat_str(head.as_str(), decimal(CPU_PERIOD_US).as_str());
        FsOp::WriteFile { path: join_path(self.cgroup_path.as_str(), "cpu.max"), contents: text }
    }

    /// Attaches the process `pid`, and so its future children, to the cgroup.
    pub fn add_process(&self, pid: i32) -> (r: FsOp)
        ensures
            r@ == add_process_step(self.path(), pid as int),
    {
        FsOp::WriteFile {
            path: join_path(self.cgroup_path.as_str(), "cgroup.procs"),
            contents: signed_decimal(pid as i64),
        }
    }

    /// The result of carrying out a cgroup operation: a failure, such as a
    /// control file that cannot be written or a removal the kernel refuses
    /// while a process is attached, is a `CgroupError`.
    pub fn outcome(succeeded: bool) -> (r: Result<(), RuntimeError>)
        ensures
            r == (if succeeded {
                Ok::<(), RuntimeError>(())
            } else {
                Err(RuntimeError::CgroupError)
            }),
    {
        if succeeded {
            Ok(())
        } else {
            Err(RuntimeError::CgroupError)
        }
    }

    /// Removes the cgroup; its processes must have exited or been signalled.
    pub fn cleanup(&self) -> (r: Vec<FsOp>)
        ensures
            steps(r@) == seq![FsStep::RemoveCgroup(self.path())],
    {
        let mut ops: Vec<FsOp> = Vec::new();
        ops.push(FsOp::RemoveCgroup(self.cgroup_path.clone()));
        assert(steps(ops@) =~= seq![FsStep::RemoveCgroup(self.path())]);
        ops
    }
}

} // verus!
