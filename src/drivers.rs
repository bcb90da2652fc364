//! Storage drivers: where each snapshot's directories live, and the plans
//! that create, mount and remove them.
use vstd::prelude::*;
use crate::error::RuntimeError;
use crate::fsplan::{FsOp, FsStep, Tree, apply_op, apply_plan, steps, within};
use crate::text::{join_path, path_join, same_text};

verus! {

/// The storage drivers this runtime offers.
#[derive(PartialEq, Eq, Structural, Clone, Copy, Debug)]
pub enum DriverType {
    /// Union mount of a read-only lower and a writable upper directory.
    OverlayFS,
    /// A full copy of the source per snapshot; needs no kernel union support.
    Aufs,
}

impl DriverType {
    /// The driver type a configuration names: `"overlayfs"` or `"aufs"`.
    pub fn from_name(name: &str) -> (r: Option<DriverType>)
        ensures
            r == (if name@ == "overlayfs"@ {
                Some(DriverType::OverlayFS)
            } else if name@ == "aufs"@ {
                Some(DriverType::Aufs)
            } else {
                None
            }),
    {
        if same_text(name, "overlayfs") {
            Some(DriverType::OverlayFS)
        } else if same_text(name, "aufs") {
            Some(DriverType::Aufs)
        } else {
            None
        }
    }
}

/// The union (overlay) driver.
pub struct OverlayFSDriver {
    root: String,
}

impl OverlayFSDriver {
    /// A driver that keeps its snapshots under `root`.
    pub fn new(root: &str) -> (r: Self)
        ensures
            r.root()@ == root@,
    {
        OverlayFSDriver { root: root.to_owned() }
    }

    pub closed spec fn root(&self) -> String {
        self.root
    }
}

/// The copy driver.
pub struct AufsDriver {
    root: String,
}

impl AufsDriver {
    /// A driver that keeps its snapshots under `root`.
    pub fn new(root: &str) -> (r: Self)
        ensures
            r.root()@ == root@,
    {
        AufsDriver { root: root.to_owned() }
    }

    pub closed spec fn root(&self) -> String {
        self.root
    }
}

/// A storage driver, one of the two kinds.
pub enum StorageDriver {
    OverlayFS(OverlayFSDriver),
    Aufs(AufsDriver),
}

/// `<root>/snapshots`.
pub open spec fn snapshots_root_of(root: Seq<char>) -> Seq<char> {
    path_join(root, "snapshots"@)
}

/// `<root>/snapshots/<id>`: the directory of one snapshot.
pub open spec fn snapshot_dir_of(root: Seq<char>, id: Seq<char>) -> Seq<char> {
    path_join(snapshots_root_of(root), id)
}

/// The directory named `name` inside the snapshot `id`.
pub open spec fn snapshot_part(root: Seq<char>, id: Seq<char>, name: Seq<char>) -> Seq<char> {
    path_join(snapshot_dir_of(root, id), name)
}

/// The union driver's plan for a new snapshot. The base is a copy of
/// `source` when it exists (the copy creates the directory), else empty.
pub open spec fn overlay_create_steps(root: Seq<char>, id: Seq<char>, source: Seq<char>, source_exists: bool) -> Seq<FsStep> {
    let lower = snapshot_part(root, id, "lower"@);
    let upper = snapshot_part(root, id, "upper"@);
    let work = snapshot_part(root, id, "work"@);
    let merged = snapshot_part(root, id, "merged"@);
    seq![
        FsStep::MakeDirAll(snapshot_dir_of(root, id)),
        if source_exists { FsStep::CopyTree { from: source, to: lower } } else { FsStep::MakeDirAll(lower) },
        FsStep::MakeDirAll(upper),
        FsStep::MakeDirAll(work),
        FsStep::MakeDirAll(merged),
        FsStep::OverlayMount { lower, upper, work, target: merged },
    ]
}

/// The copy driver's plan for a new snapshot: one merged directory, a copy of
/// `source` when it exists.
pub open spec fn copy_create_steps(root: Seq<char>, id: Seq<char>, source: Seq<char>, source_exists: bool) -> Seq<FsStep> {
    let merged = snapshot_part(root, id, "merged"@);
    seq![
        FsStep::MakeDirAll(snapshot_dir_of(root, id)),
        if source_exists { FsStep::CopyTree { from: source, to: merged } } else { FsStep::MakeDirAll(merged) },
    ]
}

/// The union driver's removal plan: unmount the merged view (a failure there
/// is ignored), then delete the snapshot's whole tree.
pub open spec fn overlay_remove_steps(root: Seq<char>, id: Seq<char>) -> Seq<FsStep> {
    seq![
        FsStep::Unmount { target: snapshot_part(root, id, "merged"@), best_effort: true },
        FsStep::RemoveTree(snapshot_dir_of(root, id)),
    ]
}

/// The copy driver's removal plan: delete the snapshot's whole tree.
pub open spec fn copy_remove_steps(root: Seq<char>, id: Seq<char>) -> Seq<FsStep> {
    seq![FsStep::RemoveTree(snapshot_dir_of(root, id))]
}

impl StorageDriver {
    /// The directory under which the driver keeps its snapshots.
    pub open spec fn root_spec(&self) -> Seq<char> {
        match self {
            StorageDriver::OverlayFS(d) => d.root()@,
            StorageDriver::Aufs(d) => d.root()@,
        }
    }

    pub open spec fn is_overlay(&self) -> bool {
        self is OverlayFS
    }

    /// The driver's name, as a configuration names it.
    pub fn name(&self) -> (r: &'static str)
        ensures
            r@ == (if self.is_overlay() { "overlayfs"@ } else { "aufs"@ }),
    {
        match self {
            StorageDriver::OverlayFS(_) => "overlayfs",
            StorageDriver::Aufs(_) => "aufs",
        }
    }

    fn root(&self) -> (r: &String)
        ensures
            r@ == self.root_spec(),
    {
        match self {
            StorageDriver::OverlayFS(d) => &d.root,
            StorageDriver::Aufs(d) => &d.root,
        }
    }

    /// What must exist before the driver is used: the union driver's work
    /// directory, or the copy driver's root.
    pub fn init_ops(&self) -> (r: Vec<FsOp>)
        ensures
            steps(r@) == seq![FsStep::MakeDirAll(
                if self.is_overlay() { path_join(self.root_spec(), "work"@) } else { self.root_spec() },
            )],
    {
        let dir = match self {
            StorageDriver::OverlayFS(d) => join_path(&d.root, "work"),
            StorageDriver::Aufs(d) => d.root.clone(),
        };
        let mut ops: Vec<FsOp> = Vec::new();
        ops.push(FsOp::MakeDirAll(dir));
        assert(steps(ops@) =~= seq![ops@[0]@]);
        ops
    }

    /// The result of carrying out one of the driver's plans: a failure is a
    /// `FilesystemError`.
    pub fn outcome(succeeded: bool) -> (r: Result<(), RuntimeError>)
        ensures
            r == (if succeeded {
                Ok::<(), RuntimeError>(())
            } else {
                Err(RuntimeError::FilesystemError)
            }),
    {
        if succeeded {
            Ok(())
        } else {
            Err(RuntimeError::FilesystemError)
        }
    }

    /// The directory that holds every snapshot.
    pub fn snapshots_root(&self) -> (r: String)
        ensures
            r@ == snapshots_root_of(self.root_spec()),
    {
        join_path(self.root().as_str(), "snapshots")
    }

    /// The directory of the snapshot `id`; it is present exactly while the
    /// snapshot exists.
    pub fn snapshot_dir(&self, id: &str) -> (r: String)
        ensures
            r@ == snapshot_dir_of(self.root_spec(), id@),
    {
        join_path(self.snapshots_root().as_str(), id)
    }

    /// Plans a new snapshot `id` whose base is `source`; `snapshot_exists`
    /// says whether the snapshot's directory is already present, and
    /// `source_exists` whether `source` is. Returns the directory that becomes
    /// the container's root filesystem, and the plan. A snapshot that already
    /// exists gives `FilesystemError`.
    pub fn create_snapshot(&self, id: &str, source: &str, snapshot_exists: bool, source_exists: bool) -> (r: Result<(String, Vec<FsOp>), RuntimeError>)
        ensures
            snapshot_exists ==> (r matches Err(RuntimeError::FilesystemError)),
            !snapshot_exists ==> (r matches Ok((merged, ops)) && merged@ == snapshot_part(
                self.root_spec(),
                id@,
                "merged"@,
            ) && steps(ops@) == (if self.is_overlay() {
                overlay_create_steps(self.root_spec(), id@, source@, source_exists)
            } else {
                copy_create_steps(self.root_spec(), id@, source@, source_exists)
            })),
    {
        if snapshot_exists {
            return Err(RuntimeError::FilesystemError);
        }
        let dir = self.snapshot_dir(id);
        let merged = join_path(dir.as_str(), "merged");
        let mut ops: Vec<FsOp> = Vec::new();
        ops.push(FsOp::MakeDirAll(dir.clone()));
        match self {
            StorageDriver::OverlayFS(_) => {
                let lower = join_path(dir.as_str(), "lower");
                let upper = join_path(dir.as_str(), "upper");
                let work = join_path(dir.as_str(), "work");
                if source_exists {
                    ops.push(FsOp::CopyTree { from: source.to_owned(), to: lower.clone() });
                } else {
                    ops.push(FsOp::MakeDirAll(lower.clone()));
                }
                ops.push(FsOp::MakeDirAll(upper.clone()));
                ops.push(FsOp::MakeDirAll(work.clone()));
                ops.push(FsOp::MakeDirAll(merged.clone()));
                ops.push(FsOp::OverlayMount { lower, upper, work, target: merged.clone() });
                assert(steps(ops@) =~= overlay_create_steps(self.root_spec(), id@, source@, source_exists));
            },
            StorageDriver::Aufs(_) => {
                if source_exists {
                    ops.push(FsOp::CopyTree { from: source.to_owned(), to: merged.clone() });
                } else {
                    ops.push(FsOp::MakeDirAll(merged.clone()));
                }
                assert(steps(ops@) =~= copy_create_steps(self.root_spec(), id@, source@, source_exists));
            },
        }
        Ok((merged, ops))
    }

    /// Plans the removal of the snapshot `id`.
    pub fn remove_snapshot(&self, id: &str) -> (r: Vec<FsOp>)
        ensures
            steps(r@) == (if self.is_overlay() {
                overlay_remove_steps(self.root_spec(), id@)
            } else {
                copy_remove_steps(self.root_spec(), id@)
            }),
    {
        let dir = self.snapshot_dir(id);
        let mut ops: Vec<FsOp> = Vec::new();
        match self {
            StorageDriver::OverlayFS(_) => {
                let merged = join_path(dir.as_str(), "merged");
                ops.push(FsOp::Unmount { target: merged, best_effort: true });
                ops.push(FsOp::RemoveTree(dir));
                assert(steps(ops@) =~= overlay_remove_steps(self.root_spec(), id@));
            },
            StorageDriver::Aufs(_) => {
                ops.push(FsOp::RemoveTree(dir));
                assert(steps(ops@) =~= copy_remove_steps(self.root_spec(), id@));
            },
        }
        ops
    }

    /// Plans a bind mount of `source` at `target`. The union driver first
    /// creates `target`; the copy driver expects it to exist.
    pub fn mount(&self, source: &str, target: &str) -> (r: Vec<FsOp>)
        ensures
            steps(r@) == (if self.is_overlay() {
                seq![FsStep::MakeDirAll(target@), FsStep::BindMount { source: source@, target: target@ }]
            } else {
                seq![FsStep::BindMount { source: source@, target: target@ }]
            }),
    {
        let mut ops: Vec<FsOp> = Vec::new();
        if let StorageDriver::OverlayFS(_) = self {
            ops.push(FsOp::MakeDirAll(target.to_owned()));
        }
        ops.push(FsOp::BindMount { source: source.to_owned(), target: target.to_owned() });
        assert(steps(ops@) =~= (if self.is_overlay() {
            seq![FsStep::MakeDirAll(target@), FsStep::BindMount { source: source@, target: target@ }]
        } else {
            seq![FsStep::BindMount { source: source@, target: target@ }]
        }));
        ops
    }

    /// Plans the unmount of `target`.
    pub fn unmount(&self, target: &str) -> (r: Vec<FsOp>)
        ensures
            steps(r@) == seq![FsStep::Unmount { target: target@, best_effort: false }],
    {
        let mut ops: Vec<FsOp> = Vec::new();
        ops.push(FsOp::Unmount { target: target.to_owned(), best_effort: false });
        assert(steps(ops@) =~= seq![FsStep::Unmount { target: target@, best_effort: false }]);
        ops
    }

    /// The snapshot ids among the entries of the snapshots directory: the
    /// names of the entries that are directories, in the order given.
    pub fn list_snapshots(&self, entries: Vec<(String, bool)>) -> (r: Vec<String>)
        ensures
            r@.map_values(|s: String| s@) == dir_names(entries@),
    {
        let mut out: Vec<String> = Vec::new();
        let mut i: usize = 0;
        while i < entries.len()
            invariant
                i <= entries@.len(),
                out@.map_values(|s: String| s@) == dir_names(entries@.subrange(0, i as int)),
            decreases entries@.len() - i,
        {
            let (name, is_dir) = (&entries[i].0, entries[i].1);
            proof {
                lemma_dir_names_push(entries@.subrange(0, i as int), entries@[i as int]);
                assert(entries@.subrange(0, i + 1) =~= entries@.subrange(0, i as int).push(entries@[i as int]));
            }
            if is_dir {
                out.push(name.clone());
                assert(out@.map_values(|s: String| s@) =~= dir_names(entries@.subrange(0, i as int)).push(name@));
            }
            i = i + 1;
        }
        assert(entries@.subrange(0, entries@.len() as int) =~= entries@);
        out
    }
}

/// The names of the entries marked as directories, in order.
pub open spec fn dir_names(entries: Seq<(String, bool)>) -> Seq<Seq<char>>
    decreases entries.len(),
{
    if entries.len() == 0 {
        seq![]
    } else {
        let rest = dir_names(entries.drop_last());
        if entries.last().1 { rest.push(entries.last().0@) } else { rest }
    }
}

proof fn lemma_dir_names_push(s: Seq<(String, bool)>, e: (String, bool))
    ensures
        dir_names(s.push(e)) == (if e.1 { dir_names(s).push(e.0@) } else { dir_names(s) }),
{
    assert(s.push(e).drop_last() =~= s);
}

/// A driver of the given kind that keeps its snapshots under `root`, and the
/// plan that creates what it needs: `root/work` for the union driver, `root`
/// for the copy driver. A failure of that plan is a `FilesystemError` (see
/// `StorageDriver::outcome`).
pub fn create_driver(driver_type: DriverType, root: &str) -> (r: (StorageDriver, Vec<FsOp>))
    ensures
        r.0.root_spec() == root@,
        r.0.is_overlay() == (driver_type == DriverType::OverlayFS),
        steps(r.1@) == seq![FsStep::MakeDirAll(
            if driver_type == DriverType::OverlayFS { path_join(root@, "work"@) } else { root@ },
        )],
{
    let d = match driver_type {
        DriverType::OverlayFS => StorageDriver::OverlayFS(OverlayFSDriver::new(root)),
        DriverType::Aufs => StorageDriver::Aufs(AufsDriver::new(root)),
    };
    let ops = d.init_ops();
    (d, ops)
}

/// Where the storage layer keeps its data, and which driver it uses.
pub struct StorageConfig {
    pub driver: String,
    pub root: String,
    pub volumes_dir: String,
    pub images_dir: String,
}

impl Default for StorageConfig {
    /// The union driver, everything under the program's root directory.
    fn default() -> (r: Self)
        ensures
            r.driver@ == "overlayfs"@,
            r.root@ == crate::PROGRAM_ROOT@,
            r.volumes_dir@ == path_join(crate::PROGRAM_ROOT@, "volumes"@),
            r.images_dir@ == path_join(crate::PROGRAM_ROOT@, "images"@),
    {
        StorageConfig {
            driver: "overlayfs".to_owned(),
            root: crate::PROGRAM_ROOT.to_owned(),
            volumes_dir: join_path(crate::PROGRAM_ROOT, "volumes"),
            images_dir: join_path(crate::PROGRAM_ROOT, "images"),
        }
    }
}

impl StorageConfig {
    /// The driver this configuration names, if it names one.
    pub fn driver_type(&self) -> (r: Option<DriverType>)
        ensures
            r == (if self.driver@ == "overlayfs"@ {
                Some(DriverType::OverlayFS)
            } else if self.driver@ == "aufs"@ {
                Some(DriverType::Aufs)
            } else {
                None
            }),
    {
        DriverType::from_name(self.driver.as_str())
    }
}

/// Whether the snapshot `id` of a driver rooted at `root` exists in the tree.
pub open spec fn snapshot_exists(t: Tree, root: Seq<char>, id: Seq<char>) -> bool {
    t.dom().contains(snapshot_dir_of(root, id))
}

/// Union driver: once the creation plan of snapshot `id` has been carried out,
/// its lower, upper, work and merged directories are present and the snapshot
/// exists; once the removal plan has then been carried out, nothing is left at
/// or below the snapshot's directory and it no longer exists.
pub proof fn lemma_union_snapshot_lifecycle(root: Seq<char>, id: Seq<char>, source: Seq<char>, t: Tree)
    ensures
        ({
            let created = apply_plan(t, overlay_create_steps(root, id, source, t.dom().contains(source)));
            let removed = apply_plan(created, overlay_remove_steps(root, id));
            &&& created.dom().contains(snapshot_part(root, id, "lower"@))
            &&& created.dom().contains(snapshot_part(root, id, "upper"@))
            &&& created.dom().contains(snapshot_part(root, id, "work"@))
            &&& created.dom().contains(snapshot_part(root, id, "merged"@))
            &&& snapshot_exists(created, root, id)
            &&& !snapshot_exists(removed, root, id)
            &&& forall|q: Seq<char>| within(q, snapshot_dir_of(root, id)) ==> !removed.dom().contains(q)
        }),
{
    let sd = snapshot_dir_of(root, id);
    let src_here = t.dom().contains(source);
    let c = overlay_create_steps(root, id, source, src_here);
    let r = overlay_remove_steps(root, id);
    reveal_with_fuel(apply_plan, 7);
    let t1 = apply_op(t, c[0]);
    let t2 = apply_op(t1, c[1]);
    let t3 = apply_op(t2, c[2]);
    let t4 = apply_op(t3, c[3]);
    let t5 = apply_op(t4, c[4]);
    let t6 = apply_op(t5, c[5]);
    assert(c.drop_first().drop_first().drop_first().drop_first().drop_first().drop_first() =~= seq![]);
    assert(apply_plan(t, c) == t6) by {
        assert(c.drop_first()[0] == c[1]);
        assert(c.drop_first().drop_first()[0] == c[2]);
        assert(c.drop_first().drop_first().drop_first()[0] == c[3]);
        assert(c.drop_first().drop_first().drop_first().drop_first()[0] == c[4]);
        assert(c.drop_first().drop_first().drop_first().drop_first().drop_first()[0] == c[5]);
    }
    assert(t1.dom().contains(sd));
    if src_here {
        assert(t1.dom().contains(source));
        let lower = snapshot_part(root, id, "lower"@);
        assert(lower.subrange(lower.len() as int, lower.len() as int) =~= seq![]);
        assert(source + seq![] =~= source);
        assert(within(lower, lower));
        assert(t2.dom().contains(lower));
    }
    assert(t6.dom().contains(sd));
    let u1 = apply_op(t6, r[0]);
    let u2 = apply_op(u1, r[1]);
    assert(r.drop_first().drop_first() =~= seq![]);
    assert(apply_plan(t6, r) == u2) by {
        assert(r.drop_first()[0] == r[1]);
    }
    assert(within(sd, sd));
}

} // verus!
