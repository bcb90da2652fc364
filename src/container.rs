//! The container record and the configuration it is created from.
use vstd::prelude::*;

verus! {

/// An external path made visible inside the container.
#[derive(Debug, Clone)]
pub struct VolumeMount {
    /// Absolute host path (named volumes are not handled).
    pub source: String,
    /// Where it appears.
    pub target: String,
    /// Whether writes through the target are refused.
    pub read_only: bool,
}

/// What a container runs and how it is isolated; fixed at creation.
#[derive(Debug, Clone)]
pub struct ContainerConfig {
    /// The program and any leading arguments; the first element is argv[0].
    pub command: Vec<String>,
    pub args: Vec<String>,
    /// `NAME=value` entries.
    pub env_vars: Vec<String>,
    pub working_dirs: String,
    pub hostname: String,
    pub rootfs: String,
    /// Zero means no privilege drop.
    pub uid: u32,
    pub gid: u32,
    pub volumes: Vec<VolumeMount>,
    pub storage_driver: String,
}

impl ContainerConfig {
    /// A configuration is usable when it names a program to run.
    pub open spec fn wf(&self) -> bool {
        self.command@.len() > 0
    }

    /// Whether the container's process gives up root before it runs.
    pub open spec fn drops_privileges(&self) -> bool {
        self.uid != 0
    }
}

impl Default for ContainerConfig {
    fn default() -> (r: Self)
        ensures
            r.wf(),
            r.command@.len() == 1 && r.command@[0]@ == "/bin/sh"@,
            r.args@.len() == 0,
            r.env_vars@.len() == 1 && r.env_vars@[0]@ == "PATH=/usr/bin:/bin"@,
            r.working_dirs@ == "/"@,
            r.hostname@ == "nb-container"@,
            r.rootfs@ == "/var/lib/nb/rootfs"@,
            r.uid == 0 && r.gid == 0,
            r.volumes@.len() == 0,
            r.storage_driver@ == "/"@,
    {
        let mut command: Vec<String> = Vec::new();
        command.push("/bin/sh".to_owned());
        let mut env_vars: Vec<String> = Vec::new();
        env_vars.push("PATH=/usr/bin:/bin".to_owned());
        ContainerConfig {
            command,
            args: Vec::new(),
            env_vars,
            working_dirs: "/".to_owned(),
            hostname: "nb-container".to_owned(),
            rootfs: "/var/lib/nb/rootfs".to_owned(),
            uid: 0,
            gid: 0,
            volumes: Vec::new(),
            storage_driver: "/".to_owned(),
        }
    }
}

/// Where a container is in its life.
#[derive(PartialEq, Eq, Structural, Clone, Copy, Debug)]
pub enum ContainerStatus {
    Created,
    Running,
    Stopped,
    Exited,
}

/// The runtime's record of one container.
#[derive(Debug, Clone)]
pub struct Container {
    pub id: String,
    /// Zero until the container is started.
    pub pid: i32,
    pub status: ContainerStatus,
    pub config: ContainerConfig,
}

} // verus!
