//! Snapshot lineage: a forest of snapshots, each with its own root filesystem
//! that starts as a full copy of its parent's.
use vstd::prelude::*;
use crate::error::RuntimeError;
use crate::fsplan::{
    FsOp, FsStep, Tree, apply_op, apply_plan, lemma_within_common, lemma_within_trans, steps, within,
};
use crate::runtime::{is_hyphenated_uuid, random_uuid};
use crate::text::{is_component, join_path, no_slash, path_join, same_text};

verus! {

/// One snapshot.
#[derive(Debug)]
pub struct Snapshot {
    pub id: String,
    pub parent: Option<String>,
    pub rootfs: String,
    pub active: bool,
}

/// A snapshot as contracts read it.
pub struct SnapshotView {
    pub id: Seq<char>,
    pub parent: Option<Seq<char>>,
    pub rootfs: Seq<char>,
    pub active: bool,
}

impl View for Snapshot {
    type V = SnapshotView;

    open spec fn view(&self) -> SnapshotView {
        SnapshotView {
            id: self.id@,
            parent: match self.parent {
                Some(p) => Some(p@),
                None => None,
            },
            rootfs: self.rootfs@,
            active: self.active,
        }
    }
}

impl Snapshot {
    /// A copy of this record.
    pub fn copy(&self) -> (r: Snapshot)
        ensures
            r@ == self@,
    {
        Snapshot {
            id: self.id.clone(),
            parent: match &self.parent {
                Some(p) => Some(p.clone()),
                None => None,
            },
            rootfs: self.rootfs.clone(),
            active: self.active,
        }
    }
}

/// `<snapshots dir>/<id>`.
pub open spec fn snapshot_home(dir: Seq<char>, id: Seq<char>) -> Seq<char> {
    path_join(dir, id)
}

/// `<snapshots dir>/<id>/rootfs`: the root filesystem of a snapshot.
pub open spec fn snapshot_rootfs(dir: Seq<char>, id: Seq<char>) -> Seq<char> {
    path_join(snapshot_home(dir, id), "rootfs"@)
}

/// The plan that materializes a new snapshot `id`: its directory, then its
/// root filesystem, a copy of the parent's when there is a known parent.
pub open spec fn snapshot_create_steps(dir: Seq<char>, id: Seq<char>, parent_rootfs: Option<Seq<char>>) -> Seq<FsStep> {
    seq![FsStep::MakeDirAll(snapshot_home(dir, id))] + match parent_rootfs {
        Some(p) => seq![FsStep::CopyTree { from: p, to: snapshot_rootfs(dir, id) }],
        None => seq![FsStep::MakeDirAll(snapshot_rootfs(dir, id))],
    }
}

/// The root filesystem of the known parent named by `parent`, if any.
pub open spec fn parent_rootfs(m: Map<Seq<char>, SnapshotView>, parent: Option<&str>) -> Option<Seq<char>> {
    match parent {
        Some(p) => if m.dom().contains(p@) {
            Some(m[p@].rootfs)
        } else {
            None
        },
        None => None,
    }
}

/// The record of a new snapshot `id`.
pub open spec fn new_record(dir: Seq<char>, id: Seq<char>, parent: Option<&str>) -> SnapshotView {
    SnapshotView {
        id: id,
        parent: match parent {
            Some(p) => Some(p@),
            None => None,
        },
        rootfs: snapshot_rootfs(dir, id),
        active: false,
    }
}

/// The record of a snapshot found on disk: no known parent, inactive.
pub open spec fn loaded_record(dir: Seq<char>, id: Seq<char>) -> SnapshotView {
    SnapshotView { id: id, parent: None, rootfs: snapshot_rootfs(dir, id), active: false }
}

/// The records by id.
pub open spec fn records(s: Seq<Snapshot>) -> Map<Seq<char>, SnapshotView>
    decreases s.len(),
{
    if s.len() == 0 {
        Map::empty()
    } else {
        records(s.drop_last()).insert(s.last().id@, s.last()@)
    }
}

/// Owns the snapshot records kept under one directory.
pub struct SnapshotManager {
    snapshots_dir: String,
    snapshots: Vec<Snapshot>,
}

impl SnapshotManager {
    /// The directory holding every snapshot.
    pub closed spec fn dir(&self) -> Seq<char> {
        self.snapshots_dir@
    }

    /// The registered snapshots by id.
    pub closed spec fn view(&self) -> Map<Seq<char>, SnapshotView> {
        records(self.snapshots@)
    }

    /// Ids are unique one-component names, and each snapshot's root
    /// filesystem lies at its place under the directory.
    pub closed spec fn wf(&self) -> bool {
        &&& forall|i: int, j: int|
            0 <= i < j < self.snapshots@.len() ==> self.snapshots@[i].id@ != self.snapshots@[j].id@
        &&& forall|i: int|
            0 <= i < self.snapshots@.len() ==> {
                let s = #[trigger] self.snapshots@[i];
                &&& s.id@.len() > 0
                &&& no_slash(s.id@)
                &&& s.rootfs@ == snapshot_rootfs(self.snapshots_dir@, s.id@)
            }
    }

    /// An empty manager for the snapshots under `snapshots_dir`.
    pub fn new(snapshots_dir: &str) -> (r: Self)
        ensures
            r.wf(),
            r.dir() == snapshots_dir@,
            r.view() == Map::<Seq<char>, SnapshotView>::empty(),
    {
        SnapshotManager { snapshots_dir: snapshots_dir.to_owned(), snapshots: Vec::new() }
    }

    /// The directory that must exist before snapshots are made.
    pub fn init_ops(&self) -> (r: Vec<FsOp>)
        ensures
            steps(r@) == seq![FsStep::MakeDirAll(self.dir())],
    {
        let mut ops: Vec<FsOp> = Vec::new();
        ops.push(FsOp::MakeDirAll(self.snapshots_dir.clone()));
        assert(steps(ops@) =~= seq![FsStep::MakeDirAll(self.dir())]);
        ops
    }

    fn find(&self, id: &str) -> (r: Option<usize>)
        requires
            self.wf(),
        ensures
            r matches Some(i) ==> i < self.snapshots@.len() && self.snapshots@[i as int].id@ == id@,
            r is Some <==> self.view().dom().contains(id@),
    {
        let mut i: usize = 0;
        while i < self.snapshots.len()
            invariant
                self.wf(),
                i <= self.snapshots@.len(),
                forall|j: int| 0 <= j < i ==> self.snapshots@[j].id@ != id@,
            decreases self.snapshots@.len() - i,
        {
            if same_text(self.snapshots[i].id.as_str(), id) {
                proof {
                    lemma_records_at(self.snapshots@, i as int);
                }
                return Some(i);
            }
            i = i + 1;
        }
        proof {
            lemma_records_dom(self.snapshots@, id@);
        }
        None
    }

    /// The snapshot `snapshot_id`, if registered.
    pub fn get(&self, snapshot_id: &str) -> (r: Option<&Snapshot>)
        requires
            self.wf(),
        ensures
            r is None <==> !self.view().dom().contains(snapshot_id@),
            r matches Some(s) ==> s@ == self.view()[snapshot_id@],
    {
        match self.find(snapshot_id) {
            Some(i) => {
                proof {
                    lemma_records_at(self.snapshots@, i as int);
                }
                Some(&self.snapshots[i])
            },
            None => None,
        }
    }

    fn insert_new(&mut self, s: Snapshot)
        requires
            old(self).wf(),
            !old(self).view().dom().contains(s.id@),
            s.id@.len() > 0,
            no_slash(s.id@),
            s.rootfs@ == snapshot_rootfs(old(self).dir(), s.id@),
        ensures
            final(self).wf(),
            final(self).dir() == old(self).dir(),
            final(self).view() == old(self).view().insert(s.id@, s@),
    {
        proof {
            lemma_records_dom(self.snapshots@, s.id@);
        }
        let ghost old_s = self.snapshots@;
        self.snapshots.push(s);
        assert(self.snapshots@.drop_last() =~= old_s);
        assert forall|i: int, j: int| 0 <= i < j < self.snapshots@.len() implies self.snapshots@[i].id@
            != self.snapshots@[j].id@ by {
            if j == old_s.len() {
                assert(self.snapshots@[i] == old_s[i]);
            } else {
                assert(self.snapshots@[i] == old_s[i] && self.snapshots@[j] == old_s[j]);
            }
        }
        assert forall|i: int| 0 <= i < self.snapshots@.len() implies {
            let t = #[trigger] self.snapshots@[i];
            &&& t.id@.len() > 0
            &&& no_slash(t.id@)
            &&& t.rootfs@ == snapshot_rootfs(self.snapshots_dir@, t.id@)
        } by {
            if i < old_s.len() {
                assert(self.snapshots@[i] == old_s[i]);
            }
        }
    }

    /// Registers a new snapshot with a fresh random id, child of `parent`.
    /// Returns its record and the plan that materializes it: its root
    /// filesystem is a full copy of the parent's when the parent is
    /// registered, else empty. Should the random id already be taken, nothing
    /// is registered and the result is `FilesystemError`; so the call succeeds
    /// whenever no registered id has the form of a random id.
    pub fn create(&mut self, parent: Option<&str>) -> (r: Result<(Snapshot, Vec<FsOp>), RuntimeError>)
        requires
            old(self).wf(),
        ensures
            final(self).wf(),
            final(self).dir() == old(self).dir(),
            (forall|k: Seq<char>| old(self).view().dom().contains(k) ==> !is_hyphenated_uuid(k)) ==> r is Ok,
            r matches Err(e) ==> e == RuntimeError::FilesystemError && final(self).view() == old(self).view(),
            r matches Ok((s, ops)) ==> {
                &&& is_hyphenated_uuid(s.id@)
                &&& !old(self).view().dom().contains(s.id@)
                &&& s@ == new_record(old(self).dir(), s.id@, parent)
                &&& final(self).view() == old(self).view().insert(s.id@, s@)
                &&& steps(ops@) == snapshot_create_steps(
                    old(self).dir(),
                    s.id@,
                    parent_rootfs(old(self).view(), parent),
                )
            },
    {
        let id = random_uuid();
        proof {
            lemma_uuid_is_component(id@);
        }
        self.create_with_id(id.as_str(), parent)
    }

    /// Registers a new snapshot `id`, child of `parent`, as `create` does with
    /// a drawn id. An id already registered gives `FilesystemError` and
    /// changes nothing.
    pub fn create_with_id(&mut self, id: &str, parent: Option<&str>) -> (r: Result<(Snapshot, Vec<FsOp>), RuntimeError>)
        requires
            old(self).wf(),
            id@.len() > 0,
            no_slash(id@),
        ensures
            final(self).wf(),
            final(self).dir() == old(self).dir(),
            r is Err <==> old(self).view().dom().contains(id@),
            r matches Err(e) ==> e == RuntimeError::FilesystemError && final(self).view() == old(self).view(),
            r matches Ok((s, ops)) ==> {
                &&& s.id@ == id@
                &&& s@ == new_record(old(self).dir(), id@, parent)
                &&& final(self).view() == old(self).view().insert(id@, s@)
                &&& steps(ops@) == snapshot_create_steps(
                    old(self).dir(),
                    id@,
                    parent_rootfs(old(self).view(), parent),
                )
            },
    {
        if self.find(id).is_some() {
            return Err(RuntimeError::FilesystemError);
        }
        let home = join_path(self.snapshots_dir.as_str(), id);
        let rootfs = join_path(home.as_str(), "rootfs");
        let mut ops: Vec<FsOp> = Vec::new();
        ops.push(FsOp::MakeDirAll(home));
        let ghost known = parent_rootfs(self.view(), parent);
        match parent {
            Some(p) => {
                match self.get(p) {
                    Some(ps) => {
                        ops.push(FsOp::CopyTree { from: ps.rootfs.clone(), to: rootfs.clone() });
                    },
                    None => {
                        ops.push(FsOp::MakeDirAll(rootfs.clone()));
                    },
                }
            },
            None => {
                ops.push(FsOp::MakeDirAll(rootfs.clone()));
            },
        }
        assert(steps(ops@) =~= snapshot_create_steps(self.dir(), id@, known));
        let parent_name = match parent {
            Some(p) => Some(p.to_owned()),
            None => None,
        };
        let snap = Snapshot { id: id.to_owned(), parent: parent_name, rootfs, active: false };
        let out = snap.copy();
        self.insert_new(snap);
        Ok((out, ops))
    }

    /// Forgets the snapshot `snapshot_id`; the plan deletes its root
    /// filesystem. Nothing happens for an unknown id.
    pub fn remove(&mut self, snapshot_id: &str) -> (r: Vec<FsOp>)
        requires
            old(self).wf(),
        ensures
            final(self).wf(),
            final(self).dir() == old(self).dir(),
            final(self).view() == old(self).view().remove(snapshot_id@),
            old(self).view().dom().contains(snapshot_id@) ==> steps(r@) == seq![
                FsStep::RemoveTree(old(self).view()[snapshot_id@].rootfs),
            ],
            !old(self).view().dom().contains(snapshot_id@) ==> r@.len() == 0,
    {
        let mut ops: Vec<FsOp> = Vec::new();
        match self.find(snapshot_id) {
            Some(i) => {
                proof {
                    lemma_records_at(self.snapshots@, i as int);
                    lemma_records_remove(self.snapshots@, i as int);
                }
                let ghost old_s = self.snapshots@;
                let snap = self.snapshots.remove(i);
                assert forall|a: int, b: int| 0 <= a < b < self.snapshots@.len() implies self.snapshots@[a].id@
                    != self.snapshots@[b].id@ by {
                    let a2 = if a < i { a } else { a + 1 };
                    let b2 = if b < i { b } else { b + 1 };
                    assert(self.snapshots@[a] == old_s[a2] && self.snapshots@[b] == old_s[b2]);
                }
                assert forall|a: int| 0 <= a < self.snapshots@.len() implies {
                    let t = #[trigger] self.snapshots@[a];
                    &&& t.id@.len() > 0
                    &&& no_slash(t.id@)
                    &&& t.rootfs@ == snapshot_rootfs(self.snapshots_dir@, t.id@)
                } by {
                    let a2 = if a < i { a } else { a + 1 };
                    assert(self.snapshots@[a] == old_s[a2]);
                }
                ops.push(FsOp::RemoveTree(snap.rootfs));
                assert(steps(ops@) =~= seq![FsStep::RemoveTree(old_s[i as int].rootfs@)]);
            },
            None => {
                assert(self.view().remove(snapshot_id@) =~= self.view());
            },
        }
        ops
    }

    /// Registers the snapshots found on disk, given the names of the
    /// directories under the snapshots directory: each name that is one
    /// non-empty path component and not yet registered becomes a snapshot
    /// with no known parent. Registered snapshots are kept as they are.
    pub fn load_snapshots(&mut self, ids: Vec<String>)
        requires
            old(self).wf(),
        ensures
            final(self).wf(),
            final(self).dir() == old(self).dir(),
            forall|k: Seq<char>| #[trigger]
                old(self).view().dom().contains(k) ==> final(self).view().dom().contains(k)
                    && final(self).view()[k] == old(self).view()[k],
            forall|k: Seq<char>| #[trigger]
                final(self).view().dom().contains(k) && !old(self).view().dom().contains(k)
                    ==> final(self).view()[k] == loaded_record(old(self).dir(), k)
                    && exists|j: int| 0 <= j < ids@.len() && ids@[j]@ == k,
            forall|j: int|
                0 <= j < ids@.len() && (#[trigger] ids@[j])@.len() > 0 && no_slash(ids@[j]@)
                    ==> final(self).view().dom().contains(ids@[j]@),
    {
        let ghost start = self.view();
        let mut i: usize = 0;
        while i < ids.len()
            invariant
                self.wf(),
                self.dir() == old(self).dir(),
                start == old(self).view(),
                i <= ids@.len(),
                forall|k: Seq<char>| #[trigger]
                    start.dom().contains(k) ==> self.view().dom().contains(k) && self.view()[k] == start[k],
                forall|k: Seq<char>| #[trigger]
                    self.view().dom().contains(k) && !start.dom().contains(k) ==> self.view()[k]
                        == loaded_record(old(self).dir(), k) && exists|j: int| 0 <= j < i && ids@[j]@ == k,
                forall|j: int|
                    0 <= j < i && (#[trigger] ids@[j])@.len() > 0 && no_slash(ids@[j]@)
                        ==> self.view().dom().contains(ids@[j]@),
            decreases ids@.len() - i,
        {
            let name = &ids[i];
            if is_component(name.as_str()) && self.find(name.as_str()).is_none() {
                let rootfs = join_path(join_path(self.snapshots_dir.as_str(), name.as_str()).as_str(), "rootfs");
                let snap = Snapshot { id: name.clone(), parent: None, rootfs, active: false };
                self.insert_new(snap);
            }
            i = i + 1;
        }
    }
}

/// A random id is one non-empty path component.
proof fn lemma_uuid_is_component(id: Seq<char>)
    requires
        is_hyphenated_uuid(id),
    ensures
        id.len() > 0,
        no_slash(id),
{
    assert forall|i: int| 0 <= i < id.len() implies id[i] != '/' by {
        if !(i == 8 || i == 13 || i == 18 || i == 23) {
            assert(crate::runtime::is_lower_hex(id[i]));
        }
    }
}

/// With unique ids, removing entry `i` removes its id from the records.
proof fn lemma_records_remove(s: Seq<Snapshot>, i: int)
    requires
        0 <= i < s.len(),
        forall|a: int, b: int| 0 <= a < b < s.len() ==> s[a].id@ != s[b].id@,
    ensures
        records(s.remove(i)) == records(s).remove(s[i].id@),
    decreases s.len(),
{
    let t = s.drop_last();
    assert forall|a: int, b: int| 0 <= a < b < t.len() implies t[a].id@ != t[b].id@ by {
        assert(t[a] == s[a] && t[b] == s[b]);
    }
    if i == s.len() - 1 {
        assert(s.remove(i) =~= t);
        lemma_records_dom(t, s[i].id@);
        assert(records(s).remove(s[i].id@) =~= records(t));
    } else {
        lemma_records_remove(t, i);
        assert(s.remove(i).drop_last() =~= t.remove(i));
        assert(s.remove(i).last() == s.last());
        assert(s.last().id@ != s[i].id@);
        assert(t[i] == s[i]);
        assert(records(s.remove(i)) =~= records(s).remove(s[i].id@));
    }
}


/// The root filesystems of two distinct snapshots lie apart: neither is at or
/// below the other.
pub proof fn lemma_rootfs_apart(dir: Seq<char>, p: Seq<char>, c: Seq<char>)
    requires
        p != c,
        p.len() > 0,
        c.len() > 0,
        no_slash(p),
        no_slash(c),
    ensures
        !within(snapshot_rootfs(dir, p), snapshot_rootfs(dir, c)),
        !within(snapshot_rootfs(dir, c), snapshot_rootfs(dir, p)),
{
    lemma_rootfs_not_within(dir, p, c);
    lemma_rootfs_not_within(dir, c, p);
}

proof fn lemma_rootfs_shape(dir: Seq<char>, x: Seq<char>) -> (pre: Seq<char>)
    requires
        x.len() > 0,
        no_slash(x),
    ensures
        snapshot_rootfs(dir, x) == pre + x + "/rootfs"@,
        pre == (if dir.len() == 0 {
            seq![]
        } else if dir.last() == '/' {
            dir
        } else {
            dir + seq!['/']
        }),
{
    reveal_strlit("/rootfs");
    reveal_strlit("rootfs");
    let pre = if dir.len() == 0 {
        seq![]
    } else if dir.last() == '/' {
        dir
    } else {
        dir + seq!['/']
    };
    let h = snapshot_home(dir, x);
    assert(h =~= pre + x);
    assert(h.last() == x.last());
    assert(x.last() != '/');
    assert(snapshot_rootfs(dir, x) =~= pre + x + "/rootfs"@);
    pre
}

proof fn lemma_rootfs_not_within(dir: Seq<char>, a: Seq<char>, b: Seq<char>)
    requires
        a != b,
        a.len() > 0,
        b.len() > 0,
        no_slash(a),
        no_slash(b),
    ensures
        !within(snapshot_rootfs(dir, a), snapshot_rootfs(dir, b)),
{
    reveal_strlit("/rootfs");
    let pre = lemma_rootfs_shape(dir, a);
    let pre2 = lemma_rootfs_shape(dir, b);
    assert(pre == pre2);
    let ra = snapshot_rootfs(dir, a);
    let rb = snapshot_rootfs(dir, b);
    let tail = "/rootfs"@;
    if ra == rb {
        assert(ra.len() == rb.len());
        assert(a.len() == b.len());
        assert forall|i: int| 0 <= i < a.len() implies a[i] == b[i] by {
            assert(ra[pre.len() + i] == rb[pre.len() + i]);
        }
        assert(a =~= b);
    } else if within(ra, rb) {
        assert(rb.len() < ra.len());
        let k: int = pre.len() as int + b.len() as int;
        assert(rb[k] == tail[0]);
        assert(ra.subrange(0, rb.len() as int)[k] == rb[k]);
        assert(ra[k] == a[b.len() as int]);
        assert(a[b.len() as int] != '/');
    }
}

/// The step changes nothing outside `p`: it writes, deletes or copies into
/// `p` only, or only creates missing directories, or leaves the tree as it is.
pub open spec fn confined_to(st: FsStep, p: Seq<char>) -> bool {
    match st {
        FsStep::WriteFile { path, contents } => within(path, p),
        FsStep::RemoveTree(x) => within(x, p),
        FsStep::RemoveCgroup(x) => within(x, p),
        FsStep::CopyTree { from, to } => within(to, p),
        _ => true,
    }
}

/// Steps confined to `p` keep every entry that lies outside `p`.
pub proof fn lemma_confined_keeps_outside(t: Tree, later: Seq<FsStep>, p: Seq<char>, q: Seq<char>)
    requires
        forall|i: int| 0 <= i < later.len() ==> confined_to(#[trigger] later[i], p),
        t.dom().contains(q),
        !within(q, p),
    ensures
        apply_plan(t, later).dom().contains(q),
        apply_plan(t, later)[q] == t[q],
    decreases later.len(),
{
    if later.len() > 0 {
        let st = later[0];
        assert(confined_to(st, p));
        let t1 = apply_op(t, st);
        match st {
            FsStep::WriteFile { path, contents } => {
                if path == q {
                    assert(within(q, p));
                }
            },
            FsStep::RemoveTree(x) => {
                if within(q, x) {
                    lemma_within_trans(q, x, p);
                }
            },
            FsStep::RemoveCgroup(x) => {
                if within(q, x) {
                    lemma_within_trans(q, x, p);
                }
            },
            FsStep::CopyTree { from, to } => {
                if within(q, to) {
                    lemma_within_trans(q, to, p);
                }
            },
            _ => {},
        }
        assert(t1.dom().contains(q) && t1[q] == t[q]);
        assert forall|i: int| 0 <= i < later.drop_first().len() implies confined_to(
            #[trigger] later.drop_first()[i],
            p,
        ) by {
            assert(later.drop_first()[i] == later[i + 1]);
        }
        lemma_confined_keeps_outside(t1, later.drop_first(), p, q);
    }
}

/// A child snapshot made from a registered parent: the child's creation plan
/// leaves every entry of the parent's root filesystem as it was, and gives
/// the child at each relative path what the parent held there; and any later
/// steps confined to the parent's root filesystem, however many, leave the
/// child's copy as it is.
pub proof fn lemma_child_copies_parent(
    m: SnapshotManager,
    parent: Seq<char>,
    child: Seq<char>,
    t: Tree,
    rel: Seq<char>,
    later: Seq<FsStep>,
)
    requires
        m.wf(),
        m.view().dom().contains(parent),
        !m.view().dom().contains(child),
        child.len() > 0,
        no_slash(child),
        rel.len() == 0 || rel[0] == '/',
        t.dom().contains(m.view()[parent].rootfs + rel),
        forall|i: int| 0 <= i < later.len() ==> confined_to(#[trigger] later[i], m.view()[parent].rootfs),
    ensures
        ({
            let pr = m.view()[parent].rootfs;
            let cr = snapshot_rootfs(m.dir(), child);
            let copied = apply_plan(t, snapshot_create_steps(m.dir(), child, Some(pr)));
            let after = apply_plan(copied, later);
            &&& forall|q: Seq<char>|
                within(q, pr) && t.dom().contains(q) ==> copied.dom().contains(q) && copied[q] == t[q]
            &&& copied.dom().contains(cr + rel)
            &&& copied[cr + rel] == t[pr + rel]
            &&& after.dom().contains(cr + rel)
            &&& after[cr + rel] == t[pr + rel]
        }),
{
    lemma_records_dom(m.snapshots@, parent);
    let j = choose|j: int| 0 <= j < m.snapshots@.len() && m.snapshots@[j].id@ == parent;
    lemma_records_at(m.snapshots@, j);
    let pr = m.view()[parent].rootfs;
    assert(pr == snapshot_rootfs(m.dir(), parent));
    let cr = snapshot_rootfs(m.dir(), child);
    lemma_rootfs_apart(m.dir(), parent, child);
    let st = snapshot_create_steps(m.dir(), child, Some(pr));
    reveal_with_fuel(apply_plan, 3);
    assert(st.drop_first().drop_first() =~= seq![]);
    assert(st.drop_first()[0] == st[1]);
    let t1 = apply_op(t, st[0]);
    let t2 = apply_op(t1, st[1]);
    assert(apply_plan(t, st) == t2);
    assert forall|q: Seq<char>| within(q, pr) && t.dom().contains(q) implies t2.dom().contains(q) && t2[q]
        == t[q] by {
        if within(q, cr) {
            lemma_within_common(q, cr, pr);
        }
    }
    let q = cr + rel;
    assert(q.subrange(0, cr.len() as int) =~= cr);
    assert(within(q, cr));
    assert(q.subrange(cr.len() as int, q.len() as int) =~= rel);
    let f = pr + rel;
    assert(f.subrange(0, pr.len() as int) =~= pr);
    assert(within(f, pr));
    assert(t1.dom().contains(f) && t1[f] == t[f]);
    assert(t2.dom().contains(q) && t2[q] == t[f]);
    if within(q, pr) {
        lemma_within_common(q, cr, pr);
    }
    lemma_confined_keeps_outside(t2, later, pr, q);
}

/// An id is registered exactly when some record has it.
proof fn lemma_records_dom(s: Seq<Snapshot>, id: Seq<char>)
    ensures
        records(s).dom().contains(id) <==> exists|j: int| 0 <= j < s.len() && s[j].id@ == id,
    decreases s.len(),
{
    if s.len() > 0 {
        lemma_records_dom(s.drop_last(), id);
        if records(s).dom().contains(id) && s.last().id@ != id {
            let j = choose|j: int| 0 <= j < s.len() - 1 && s.drop_last()[j].id@ == id;
            assert(s[j].id@ == id);
        }
        if exists|j: int| 0 <= j < s.len() && s[j].id@ == id {
            let j = choose|j: int| 0 <= j < s.len() && s[j].id@ == id;
            if j < s.len() - 1 {
                assert(s.drop_last()[j].id@ == id);
            }
        }
    }
}

/// With unique ids, the record under the id of entry `i` is entry `i`.
proof fn lemma_records_at(s: Seq<Snapshot>, i: int)
    requires
        0 <= i < s.len(),
        forall|a: int, b: int| 0 <= a < b < s.len() ==> s[a].id@ != s[b].id@,
    ensures
        records(s).dom().contains(s[i].id@),
        records(s)[s[i].id@] == s[i]@,
    decreases s.len(),
{
    if i < s.len() - 1 {
        let t = s.drop_last();
        assert forall|a: int, b: int| 0 <= a < b < t.len() implies t[a].id@ != t[b].id@ by {
            assert(t[a] == s[a] && t[b] == s[b]);
        }
        lemma_records_at(t, i);
        assert(s.last().id@ != s[i].id@);
        assert(t[i] == s[i]);
    }
}

} // verus!
