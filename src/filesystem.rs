//! The container's root filesystem: its skeleton and its setup in the child.
use vstd::prelude::*;
use crate::error::RuntimeError;
use crate::fsplan::{FsOp, FsStep, steps};
use crate::text::{join_path, path_join};

verus! {

/// The directories of a fresh root filesystem.
pub open spec fn skeleton_names() -> Seq<Seq<char>> {
    seq!["bin"@, "dev"@, "etc"@, "proc"@, "sys"@, "tmp"@, "usr"@, "var"@]
}

/// Creating a root filesystem at `base`: the base, then each skeleton
/// directory inside it.
pub open spec fn skeleton_steps(base: Seq<char>) -> Seq<FsStep> {
    seq![FsStep::MakeDirAll(base)] + skeleton_names().map_values(
        |n: Seq<char>| FsStep::MakeDirAll(path_join(base, n)),
    )
}

/// Preparing the root filesystem in the child: proc mounted inside it when
/// it has a `proc` directory, then the root filesystem as working directory.
pub open spec fn rootfs_setup_steps(rootfs: Seq<char>, proc_exists: bool) -> Seq<FsStep> {
    if proc_exists {
        seq![FsStep::MountProc { target: path_join(rootfs, "proc"@) }, FsStep::ChangeDir(rootfs)]
    } else {
        seq![FsStep::ChangeDir(rootfs)]
    }
}

/// Root filesystem preparation.
pub struct Filesystem;

impl Filesystem {
    /// Plans the setup of the root filesystem at `rootfs_path`, given whether
    /// it exists and whether it has a `proc` directory. A missing root
    /// filesystem is an error.
    pub fn setup_rootfs(rootfs_path: &str, rootfs_exists: bool, proc_exists: bool) -> (r: Result<Vec<FsOp>, RuntimeError>)
        ensures
            !rootfs_exists ==> (r matches Err(RuntimeError::FilesystemError)),
            rootfs_exists ==> (r matches Ok(ops) && steps(ops@) == rootfs_setup_steps(rootfs_path@, proc_exists)),
    {
        if !rootfs_exists {
            return Err(RuntimeError::FilesystemError);
        }
        let mut ops: Vec<FsOp> = Vec::new();
        if proc_exists {
            ops.push(FsOp::MountProc { target: join_path(rootfs_path, "proc") });
        }
        ops.push(FsOp::ChangeDir(rootfs_path.to_owned()));
        assert(steps(ops@) =~= rootfs_setup_steps(rootfs_path@, proc_exists));
        Ok(ops)
    }

    /// Plans a root filesystem skeleton at `base_path` unless it exists.
    pub fn create_rootfs(base_path: &str, base_exists: bool) -> (r: Vec<FsOp>)
        ensures
            base_exists ==> r@.len() == 0,
            !base_exists ==> steps(r@) == skeleton_steps(base_path@),
    {
        let mut ops: Vec<FsOp> = Vec::new();
        if base_exists {
            return ops;
        }
        ops.push(FsOp::MakeDirAll(base_path.to_owned()));
        let names: [&str; 8] = ["bin", "dev", "etc", "proc", "sys", "tmp", "usr", "var"];
        let ghost names_view = skeleton_names();
        assert(names@.map_values(|n: &str| n@) =~= names_view);
        let mut i: usize = 0;
        while i < 8
            invariant
                i <= 8,
                names@.len() == 8,
                names@.map_values(|n: &str| n@) == names_view,
                names_view == skeleton_names(),
                steps(ops@) == seq![FsStep::MakeDirAll(base_path@)] + names_view.subrange(0, i as int).map_values(
                    |n: Seq<char>| FsStep::MakeDirAll(path_join(base_path@, n)),
                ),
            decreases 8 - i,
        {
            let name: &str = names[i];
            assert(name@ == names_view[i as int]);
            let ghost prev = ops@;
            let ghost st = FsStep::MakeDirAll(path_join(base_path@, name@));
            ops.push(FsOp::MakeDirAll(join_path(base_path, name)));
            assert(steps(ops@) =~= steps(prev).push(st));
            assert(names_view.subrange(0, i + 1).map_values(
                |n: Seq<char>| FsStep::MakeDirAll(path_join(base_path@, n)),
            ) =~= names_view.subrange(0, i as int).map_values(
                |n: Seq<char>| FsStep::MakeDirAll(path_join(base_path@, n)),
            ).push(st));
            assert(names_view.subrange(0, i + 1) =~= names_view.subrange(0, i as int).push(names_view[i as int]));
            assert(steps(ops@) =~= seq![FsStep::MakeDirAll(base_path@)] + names_view.subrange(0, i + 1).map_values(
                |n: Seq<char>| FsStep::MakeDirAll(path_join(base_path@, n)),
            ));
            i = i + 1;
        }
        assert(names_view.subrange(0, 8) =~= names_view);
        ops
    }
}

} // verus!
