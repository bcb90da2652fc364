//! Filesystem and mount operations as values, and a model of the directory
//! tree that says what each operation does to it.
//!
//! The library never touches the disk: functions that set up a root
//! filesystem or a snapshot return a plan, a sequence of `FsOp`, that the
//! caller carries out in order, stopping at the first failure.
use vstd::prelude::*;

verus! {

/// One step of a filesystem plan.
pub enum FsOp {
    /// Create the directory and every missing ancestor.
    MakeDirAll(String),
    /// Delete the path and everything below it; nothing happens if it is absent.
    RemoveTree(String),
    /// Copy the tree at `from` to `to`, which must not exist yet.
    CopyTree { from: String, to: String },
    /// Create or truncate a file and write `contents` into it.
    WriteFile { path: String, contents: String },
    /// Remove a cgroup directory. The kernel takes its control files with it,
    /// and refuses while a live process is still attached; nothing happens if
    /// it is absent.
    RemoveCgroup(String),
    /// Union mount of `lower` (read-only) and `upper` (writable) onto `target`,
    /// with `work` as the kernel's scratch directory.
    OverlayMount { lower: String, upper: String, work: String, target: String },
    /// Make the tree at `source` visible at `target`.
    BindMount { source: String, target: String },
    /// Remount the mount at `target` read-only.
    RemountReadOnly { target: String },
    /// Mount a proc filesystem at `target`.
    MountProc { target: String },
    /// Unmount `target`; a failure is ignored when `best_effort` is set.
    Unmount { target: String, best_effort: bool },
    /// Make the path the process's working directory.
    ChangeDir(String),
}

/// An `FsOp` as the model reads it: paths as character sequences.
pub enum FsStep {
    MakeDirAll(Seq<char>),
    RemoveTree(Seq<char>),
    CopyTree { from: Seq<char>, to: Seq<char> },
    WriteFile { path: Seq<char>, contents: Seq<char> },
    RemoveCgroup(Seq<char>),
    OverlayMount { lower: Seq<char>, upper: Seq<char>, work: Seq<char>, target: Seq<char> },
    BindMount { source: Seq<char>, target: Seq<char> },
    RemountReadOnly { target: Seq<char> },
    MountProc { target: Seq<char> },
    Unmount { target: Seq<char>, best_effort: bool },
    ChangeDir(Seq<char>),
}

impl View for FsOp {
    type V = FsStep;

    open spec fn view(&self) -> FsStep {
        match self {
            FsOp::MakeDirAll(p) => FsStep::MakeDirAll(p@),
            FsOp::RemoveTree(p) => FsStep::RemoveTree(p@),
            FsOp::CopyTree { from, to } => FsStep::CopyTree { from: from@, to: to@ },
            FsOp::WriteFile { path, contents } => FsStep::WriteFile {
                path: path@,
                contents: contents@,
            },
            FsOp::OverlayMount { lower, upper, work, target } => FsStep::OverlayMount {
                lower: lower@,
                upper: upper@,
                work: work@,
                target: target@,
            },
            FsOp::BindMount { source, target } => FsStep::BindMount {
                source: source@,
                target: target@,
            },
            FsOp::RemountReadOnly { target } => FsStep::RemountReadOnly { target: target@ },
            FsOp::MountProc { target } => FsStep::MountProc { target: target@ },
            FsOp::Unmount { target, best_effort } => FsStep::Unmount {
                target: target@,
                best_effort: *best_effort,
            },
            FsOp::ChangeDir(p) => FsStep::ChangeDir(p@),
            FsOp::RemoveCgroup(p) => FsStep::RemoveCgroup(p@),
        }
    }
}

/// A plan as the model reads it.
pub open spec fn steps(ops: Seq<FsOp>) -> Seq<FsStep> {
    ops.map_values(|o: FsOp| o@)
}

/// What the model holds at a path.
pub enum Node {
    Dir,
    File(Seq<char>),
}

/// The directory tree: each present path and what stands there.
pub type Tree = Map<Seq<char>, Node>;

/// `q` is `p` or lies below it.
pub open spec fn within(q: Seq<char>, p: Seq<char>) -> bool {
    q == p || (p.len() < q.len() && q.subrange(0, p.len() as int) == p && q[p.len() as int] == '/')
}

/// The path below `from` that corresponds to `q` below `to`.
pub open spec fn relocate(q: Seq<char>, to: Seq<char>, from: Seq<char>) -> Seq<char> {
    from + q.subrange(to.len() as int, q.len() as int)
}

/// The tree after one operation. Mounts, unmounts and directory changes leave
/// the tree on disk as it is.
pub open spec fn apply_op(t: Tree, op: FsStep) -> Tree {
    match op {
        FsStep::MakeDirAll(p) => Map::new(
            |q: Seq<char>| t.dom().contains(q) || within(p, q),
            |q: Seq<char>| if t.dom().contains(q) { t[q] } else { Node::Dir },
        ),
        FsStep::RemoveTree(p) | FsStep::RemoveCgroup(p) => Map::new(
            |q: Seq<char>| t.dom().contains(q) && !within(q, p),
            |q: Seq<char>| t[q],
        ),
        FsStep::CopyTree { from, to } => Map::new(
            |q: Seq<char>| t.dom().contains(q) || (within(q, to) && t.dom().contains(
                relocate(q, to, from),
            ) && within(relocate(q, to, from), from)),
            |q: Seq<char>|
                if within(q, to) && t.dom().contains(relocate(q, to, from)) {
                    t[relocate(q, to, from)]
                } else {
                    t[q]
                },
        ),
        FsStep::WriteFile { path, contents } => t.insert(path, Node::File(contents)),
        _ => t,
    }
}

/// The tree after a whole plan, applied in order.
pub open spec fn apply_plan(t: Tree, ops: Seq<FsStep>) -> Tree
    decreases ops.len(),
{
    if ops.len() == 0 {
        t
    } else {
        apply_plan(apply_op(t, ops[0]), ops.drop_first())
    }
}

/// Below something that is below `c` is below `c`.
pub proof fn lemma_within_trans(a: Seq<char>, b: Seq<char>, c: Seq<char>)
    requires
        within(a, b),
        within(b, c),
    ensures
        within(a, c),
{
    if a != b && b != c {
        assert(a.subrange(0, c.len() as int) =~= a.subrange(0, b.len() as int).subrange(0, c.len() as int));
        assert(a[c.len() as int] == a.subrange(0, b.len() as int)[c.len() as int]);
    }
}

/// Two paths that both have `q` below them are one below the other.
pub proof fn lemma_within_common(q: Seq<char>, a: Seq<char>, b: Seq<char>)
    requires
        within(q, a),
        within(q, b),
    ensures
        within(a, b) || within(b, a),
{
    assert(a =~= q.subrange(0, a.len() as int));
    assert(b =~= q.subrange(0, b.len() as int));
    if a.len() < b.len() {
        assert(b.subrange(0, a.len() as int) =~= a);
        assert(b[a.len() as int] == q[a.len() as int]);
    } else if b.len() < a.len() {
        assert(a.subrange(0, b.len() as int) =~= b);
        assert(a[b.len() as int] == q[b.len() as int]);
    }
}

} // verus!
