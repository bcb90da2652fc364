//! The container lifecycle: creation, start, the child's isolation pipeline,
//! and stop.
//!
//! Starting forks a process, and the outcome of the fork comes back to this
//! module as a `ForkEvent`. In the parent the record moves to `Running` and the
//! process is attached to its cgroup; in the child an ordered setup pipeline
//! runs, each step fatal on failure, and ends by replacing the process image
//! with the configured command.
use vstd::prelude::*;
use crate::container::{Container, ContainerConfig, ContainerStatus, VolumeMount};
use crate::error::RuntimeError;
use crate::filesystem::{Filesystem, rootfs_setup_steps};
use crate::cgroups::{CgroupManager, add_process_step, cgroup_cleanup_steps, cgroup_path_of};
use crate::fsplan::{FsOp, FsStep, Tree, apply_op, apply_plan, steps, within};
use crate::namespace::{Namespace, Namespaces, all_namespaces, privilege_drop_steps};
use crate::text::{concat_str, prefix_chars, starts_with_char};

verus! {

/// One step of the child's setup pipeline.
pub enum SetupStep {
    /// Leave these namespaces, in one call.
    Unshare(Vec<Namespace>),
    SetHostname(String),
    Fs(FsOp),
    SetGid(u32),
    SetUid(u32),
    /// Replace the process image: `program` with `argv` and environment `env`.
    Exec { program: String, argv: Vec<String>, env: Vec<String> },
}

/// A `SetupStep` as contracts read it.
pub enum SetupView {
    Unshare(Seq<Namespace>),
    SetHostname(Seq<char>),
    Fs(FsStep),
    SetGid(u32),
    SetUid(u32),
    Exec { program: Seq<char>, argv: Seq<Seq<char>>, env: Seq<Seq<char>> },
}

/// The texts of a sequence of strings.
pub open spec fn strings(v: Seq<String>) -> Seq<Seq<char>> {
    v.map_values(|s: String| s@)
}

impl View for SetupStep {
    type V = SetupView;

    open spec fn view(&self) -> SetupView {
        match self {
            SetupStep::Unshare(v) => SetupView::Unshare(v@),
            SetupStep::SetHostname(h) => SetupView::SetHostname(h@),
            SetupStep::Fs(op) => SetupView::Fs(op@),
            SetupStep::SetGid(g) => SetupView::SetGid(*g),
            SetupStep::SetUid(u) => SetupView::SetUid(*u),
            SetupStep::Exec { program, argv, env } => SetupView::Exec {
                program: program@,
                argv: strings(argv@),
                env: strings(env@),
            },
        }
    }
}

/// A pipeline as contracts read it.
pub open spec fn setup_views(s: Seq<SetupStep>) -> Seq<SetupView> {
    s.map_values(|st: SetupStep| st@)
}

/// Filesystem steps as pipeline steps.
pub open spec fn lift(s: Seq<FsStep>) -> Seq<SetupView> {
    s.map_values(|f: FsStep| SetupView::Fs(f))
}

/// The failure that a failed step of this kind stands for.
pub open spec fn step_failure(s: SetupView) -> RuntimeError {
    match s {
        SetupView::Unshare(_) | SetupView::SetHostname(_) => RuntimeError::NamespaceError,
        SetupView::SetGid(_) | SetupView::SetUid(_) => RuntimeError::PrivilegeError,
        _ => RuntimeError::FilesystemError,
    }
}

impl SetupStep {
    /// The failure to report, and exit with, when this step fails.
    pub fn failure(&self) -> (r: RuntimeError)
        ensures
            r == step_failure(self@),
    {
        match self {
            SetupStep::Unshare(_) | SetupStep::SetHostname(_) => RuntimeError::NamespaceError,
            SetupStep::SetGid(_) | SetupStep::SetUid(_) => RuntimeError::PrivilegeError,
            _ => RuntimeError::FilesystemError,
        }
    }
}

/// Mounting one volume: its target is created, the source bound onto it, and
/// for a read-only volume the bind is remounted read-only (a bind mount takes
/// its flags only in a second call). Only an absolute source is handled.
pub open spec fn volume_steps(m: VolumeMount) -> Option<Seq<FsStep>> {
    if m.source@.len() > 0 && m.source@[0] == '/' {
        Some(
            seq![
                FsStep::MakeDirAll(m.target@),
                FsStep::BindMount { source: m.source@, target: m.target@ },
            ] + if m.read_only {
                seq![FsStep::RemountReadOnly { target: m.target@ }]
            } else {
                seq![]
            },
        )
    } else {
        None
    }
}

/// Mounting every volume, in order; `None` when one of them is not handled.
pub open spec fn volumes_steps(vs: Seq<VolumeMount>) -> Option<Seq<FsStep>>
    decreases vs.len(),
{
    if vs.len() == 0 {
        Some(seq![])
    } else {
        match (volumes_steps(vs.drop_last()), volume_steps(vs.last())) {
            (Some(a), Some(b)) => Some(a + b),
            _ => None,
        }
    }
}

/// Replacing the process image with the configured command: the first
/// command element is the program and argv[0], the arguments follow.
pub open spec fn exec_step(cfg: ContainerConfig) -> SetupView {
    SetupView::Exec {
        program: cfg.command@[0]@,
        argv: strings(cfg.command@ + cfg.args@),
        env: strings(cfg.env_vars@),
    }
}

/// The child's whole pipeline, given the volume steps: namespaces, hostname,
/// root filesystem, volumes, privilege drop (only for a non-zero uid),
/// working directory, and the command.
pub open spec fn child_pipeline(cfg: ContainerConfig, proc_exists: bool, vol: Seq<FsStep>) -> Seq<SetupView> {
    seq![SetupView::Unshare(all_namespaces()), SetupView::SetHostname(cfg.hostname@)] + lift(
        rootfs_setup_steps(cfg.rootfs@, proc_exists),
    ) + lift(vol) + (if cfg.uid != 0 {
        privilege_drop_steps(cfg.uid, cfg.gid)
    } else {
        seq![]
    }) + seq![SetupView::Fs(FsStep::ChangeDir(cfg.working_dirs@)), exec_step(cfg)]
}

/// A lowercase hexadecimal digit.
pub open spec fn is_lower_hex(c: char) -> bool {
    ('0' <= c && c <= '9') || ('a' <= c && c <= 'f')
}

/// A UUID in hyphenated text: 36 characters, hyphens after the 8th, 12th,
/// 16th and 20th hex digit, lowercase hex digits elsewhere.
pub open spec fn is_hyphenated_uuid(s: Seq<char>) -> bool {
    &&& s.len() == 36
    &&& forall|i: int|
        0 <= i < 36 ==> if i == 8 || i == 13 || i == 18 || i == 23 {
            s[i] == '-'
        } else {
            is_lower_hex(#[trigger] s[i])
        }
}

/// The prefix of every container id: the command name and a hyphen.
pub open spec fn id_prefix() -> Seq<char> {
    crate::PROGRAM_CMD@ + "-"@
}

/// A container id: the prefix, then eight lowercase hex digits.
pub open spec fn is_container_id(s: Seq<char>) -> bool {
    &&& s.len() == id_prefix().len() + 8
    &&& s.subrange(0, id_prefix().len() as int) == id_prefix()
    &&& forall|i: int| id_prefix().len() <= i < s.len() ==> is_lower_hex(#[trigger] s[i])
}

/// Relies on `uuid::Uuid::new_v4` and the `Display` of `uuid::Uuid`: a random
/// version 4 UUID, written as hyphenated lowercase hex.
#[verifier::external_body]
pub(crate) fn random_uuid() -> (r: String)
    ensures
        is_hyphenated_uuid(r@),
{
    uuid::Uuid::new_v4().to_string()
}

/// What the fork of `start` reported.
#[derive(PartialEq, Eq, Structural, Clone, Copy, Debug)]
pub enum ForkEvent {
    /// This is the parent; the child has this pid.
    Parent(i32),
    /// This is the child.
    Child,
    /// No process was created.
    Failed,
}

/// What the caller of `start` does next.
#[derive(PartialEq, Eq, Structural, Clone, Copy, Debug)]
pub enum StartAction {
    /// In the parent: create the container's cgroup and attach this pid.
    AttachToCgroup(i32),
    /// In the child: run the setup pipeline of `container_process`.
    RunIsolated,
}

/// The record after `start` saw `ev`: running under the child's pid in the
/// parent, unchanged otherwise.
pub open spec fn after_start(c: Container, ev: ForkEvent) -> Container {
    match ev {
        ForkEvent::Parent(pid) => if pid > 0 {
            Container { pid: pid, status: ContainerStatus::Running, ..c }
        } else {
            c
        },
        _ => c,
    }
}

/// What `start` returns when the fork reported `ev`. A parent without a real
/// child pid counts as a failed fork.
pub open spec fn start_outcome(ev: ForkEvent) -> Result<StartAction, RuntimeError> {
    match ev {
        ForkEvent::Parent(pid) => if pid > 0 {
            Ok(StartAction::AttachToCgroup(pid))
        } else {
            Err(RuntimeError::ForkError)
        },
        ForkEvent::Child => Ok(StartAction::RunIsolated),
        ForkEvent::Failed => Err(RuntimeError::ForkError),
    }
}

/// The record after `stop`: stopped if it was running, unchanged otherwise.
pub open spec fn after_stop(c: Container) -> Container {
    if c.status == ContainerStatus::Running {
        Container { status: ContainerStatus::Stopped, ..c }
    } else {
        c
    }
}

/// What `stop` returns: the pid to send the termination signal to, or
/// `NotRunningError`.
pub open spec fn stop_outcome(c: Container) -> Result<i32, RuntimeError> {
    if c.status == ContainerStatus::Running {
        Ok(c.pid)
    } else {
        Err(RuntimeError::NotRunningError)
    }
}

/// The record after its process was observed alive or gone: a running
/// container whose process is gone has exited; any other record is kept.
pub open spec fn after_reap(c: Container, alive: bool) -> Container {
    if c.status == ContainerStatus::Running && !alive {
        Container { status: ContainerStatus::Exited, ..c }
    } else {
        c
    }
}

/// The container lifecycle.
pub struct Runtime;

impl Runtime {
    /// A new container for `config`: a fresh id (the command name, a hyphen and
    /// eight random hex digits), pid 0, status `Created`. Nothing happens on
    /// the host.
    pub fn create_container(config: ContainerConfig) -> (r: Result<Container, RuntimeError>)
        ensures
            r matches Ok(c) && c.pid == 0 && c.status == ContainerStatus::Created && c.config == config
                && is_container_id(c.id@),
    {
        let u = random_uuid();
        let c = Self::container_from_uuid(u.as_str(), config);
        assert(c.id@.subrange(0, id_prefix().len() as int) =~= id_prefix());
        assert forall|i: int| id_prefix().len() <= i < c.id@.len() implies is_lower_hex(#[trigger] c.id@[i]) by {
            assert(c.id@[i] == u@[i - id_prefix().len()]);
        }
        Ok(c)
    }

    /// The container for `config` whose id is drawn from the UUID `uuid`: the
    /// command name, a hyphen and the UUID's first eight hex digits.
    pub fn container_from_uuid(uuid: &str, config: ContainerConfig) -> (r: Container)
        requires
            is_hyphenated_uuid(uuid@),
        ensures
            r.id@ == id_prefix() + uuid@.subrange(0, 8),
            r.pid == 0,
            r.status == ContainerStatus::Created,
            r.config == config,
    {
        let suffix = prefix_chars(uuid, 8);
        let head = concat_str(crate::PROGRAM_CMD, "-");
        let id = concat_str(head.as_str(), suffix.as_str());
        Container { id, pid: 0, status: ContainerStatus::Created, config }
    }

    /// Records the outcome of the fork that starts `container`. In the parent,
    /// with the child's pid, the container becomes `Running` under that pid;
    /// in the child and after a failed fork the record is left as it is.
    pub fn start_container(container: &mut Container, event: ForkEvent) -> (r: Result<StartAction, RuntimeError>)
        ensures
            *final(container) == after_start(*old(container), event),
            r == start_outcome(event),
    {
        match event {
            ForkEvent::Parent(pid) => {
                if pid > 0 {
                    container.pid = pid;
                    container.status = ContainerStatus::Running;
                    Ok(StartAction::AttachToCgroup(pid))
                } else {
                    Err(RuntimeError::ForkError)
                }
            },
            ForkEvent::Child => Ok(StartAction::RunIsolated),
            ForkEvent::Failed => Err(RuntimeError::ForkError),
        }
    }

    /// Stops a running container: it becomes `Stopped`, and the result is the
    /// pid to send the termination signal to; its cgroup is then removed. Any
    /// other container gets `NotRunningError` and is left as it is.
    pub fn stop_container(container: &mut Container) -> (r: Result<i32, RuntimeError>)
        ensures
            *final(container) == after_stop(*old(container)),
            r == stop_outcome(*old(container)),
    {
        if container.status != ContainerStatus::Running {
            return Err(RuntimeError::NotRunningError);
        }
        container.status = ContainerStatus::Stopped;
        Ok(container.pid)
    }

    /// Records whether the process of `container` is still alive: a running
    /// container whose process has gone becomes `Exited`. The result says
    /// whether the record changed.
    pub fn reap_container(container: &mut Container, alive: bool) -> (r: bool)
        ensures
            *final(container) == after_reap(*old(container), alive),
            r == (old(container).status == ContainerStatus::Running && !alive),
    {
        if container.status == ContainerStatus::Running && !alive {
            container.status = ContainerStatus::Exited;
            true
        } else {
            false
        }
    }

    /// What the parent does with the container's cgroup after `start` asked
    /// for `action`: for a child pid, create the cgroup's directory and write
    /// the pid into its process list; nothing in the child.
    pub fn cgroup_plan_after_start(container: &Container, action: StartAction) -> (r: Vec<FsOp>)
        ensures
            action matches StartAction::AttachToCgroup(pid) ==> steps(r@) == seq![
                FsStep::MakeDirAll(cgroup_path_of(container.id@)),
                add_process_step(cgroup_path_of(container.id@), pid as int),
            ],
            action is RunIsolated ==> r@.len() == 0,
    {
        match action {
            StartAction::AttachToCgroup(pid) => {
                let cgroup = CgroupManager::new(container.id.as_str());
                let mut ops = cgroup.create_ops();
                let ghost first = steps(ops@);
                ops.push(cgroup.add_process(pid));
                assert(steps(ops@) =~= first.push(add_process_step(cgroup_path_of(container.id@), pid as int)));
                assert(steps(ops@) =~= seq![
                    FsStep::MakeDirAll(cgroup_path_of(container.id@)),
                    add_process_step(cgroup_path_of(container.id@), pid as int),
                ]);
                ops
            },
            StartAction::RunIsolated => Vec::new(),
        }
    }

    /// What follows `stop` with result `stopped`: removing the container's
    /// cgroup once its process was signalled; nothing after a refused stop.
    pub fn cgroup_plan_after_stop(container: &Container, stopped: Result<i32, RuntimeError>) -> (r: Vec<FsOp>)
        ensures
            stopped is Ok ==> steps(r@) == cgroup_cleanup_steps(container.id@),
            stopped is Err ==> r@.len() == 0,
    {
        match stopped {
            Ok(_) => CgroupManager::new(container.id.as_str()).cleanup(),
            Err(_) => Vec::new(),
        }
    }

    /// Plans the mount of one volume; a source that is not an absolute path
    /// is not handled and gives `UnsupportedError`.
    pub fn mount_volume(volume_mount: &VolumeMount) -> (r: Result<Vec<FsOp>, RuntimeError>)
        ensures
            volume_steps(*volume_mount) is None ==> (r matches Err(RuntimeError::UnsupportedError)),
            volume_steps(*volume_mount) matches Some(s) ==> (r matches Ok(ops) && steps(ops@) == s),
    {
        if !starts_with_char(volume_mount.source.as_str(), '/') {
            return Err(RuntimeError::UnsupportedError);
        }
        let mut ops: Vec<FsOp> = Vec::new();
        ops.push(FsOp::MakeDirAll(volume_mount.target.clone()));
        ops.push(FsOp::BindMount { source: volume_mount.source.clone(), target: volume_mount.target.clone() });
        if volume_mount.read_only {
            ops.push(FsOp::RemountReadOnly { target: volume_mount.target.clone() });
        }
        assert(steps(ops@) =~= volume_steps(*volume_mount)->Some_0);
        Ok(ops)
    }

    /// The pipeline of the container's child process, given whether the root
    /// filesystem exists and has a `proc` directory. A missing root filesystem
    /// gives `FilesystemError`; a volume whose source is not absolute gives
    /// `UnsupportedError`. Each step must succeed before the next runs.
    pub fn container_process(container: &Container, rootfs_exists: bool, proc_exists: bool) -> (r: Result<Vec<SetupStep>, RuntimeError>)
        requires
            container.config.wf(),
        ensures
            !rootfs_exists ==> (r matches Err(RuntimeError::FilesystemError)),
            rootfs_exists && volumes_steps(container.config.volumes@) is None ==> (r matches Err(
                RuntimeError::UnsupportedError,
            )),
            rootfs_exists ==> (volumes_steps(container.config.volumes@) matches Some(vol) ==> (r matches Ok(
                plan,
            ) && setup_views(plan@) == child_pipeline(container.config, proc_exists, vol))),
    {
        let cfg = &container.config;
        let rootfs_ops = match Filesystem::setup_rootfs(cfg.rootfs.as_str(), rootfs_exists, proc_exists) {
            Ok(ops) => ops,
            Err(e) => return Err(e),
        };
        assert(rootfs_exists);
        let mut plan: Vec<SetupStep> = Vec::new();
        plan.push(SetupStep::Unshare(Namespaces::unshare_all()));
        plan.push(Namespaces::set_hosename(cfg.hostname.as_str()));
        let ghost head = seq![SetupView::Unshare(all_namespaces()), SetupView::SetHostname(cfg.hostname@)];
        assert(setup_views(plan@) =~= head);
        push_fs_ops(&mut plan, rootfs_ops);
        let ghost before_volumes = setup_views(plan@);
        assert(before_volumes == head + lift(rootfs_setup_steps(cfg.rootfs@, proc_exists)));
        let mut i: usize = 0;
        while i < cfg.volumes.len()
            invariant
                rootfs_exists,
                cfg.volumes@ == container.config.volumes@,
                i <= cfg.volumes@.len(),
                volumes_steps(cfg.volumes@.subrange(0, i as int)) matches Some(vs) && setup_views(plan@)
                    == before_volumes + lift(vs),
            decreases cfg.volumes@.len() - i,
        {
            assert(cfg.volumes@.subrange(0, i + 1).drop_last() =~= cfg.volumes@.subrange(0, i as int));
            match Self::mount_volume(&cfg.volumes[i]) {
                Ok(ops) => {
                    let ghost prev = setup_views(plan@);
                    push_fs_ops(&mut plan, ops);
                    proof {
                        let vs = volumes_steps(cfg.volumes@.subrange(0, i as int))->Some_0;
                        let ws = volume_steps(cfg.volumes@[i as int])->Some_0;
                        assert(lift(vs + ws) =~= lift(vs) + lift(ws));
                    }
                },
                Err(e) => {
                    assert(volume_steps(cfg.volumes@[i as int]) is None);
                    assert(e == RuntimeError::UnsupportedError);
                    proof {
                        lemma_volumes_steps_none(cfg.volumes@, i as int + 1);
                    }
                    return Err(e);
                },
            }
            i = i + 1;
        }
        assert(cfg.volumes@.subrange(0, cfg.volumes@.len() as int) =~= cfg.volumes@);
        let ghost vol = volumes_steps(cfg.volumes@)->Some_0;
        let ghost drop_part: Seq<SetupView> = if cfg.uid != 0 {
            privilege_drop_steps(cfg.uid, cfg.gid)
        } else {
            seq![]
        };
        if cfg.uid != 0 {
            let mut drops = Namespaces::drop_privileges(cfg.uid, cfg.gid);
            let ghost prev = setup_views(plan@);
            let ghost dv = setup_views(drops@);
            plan.append(&mut drops);
            assert(setup_views(plan@) =~= prev + dv);
        }
        assert(setup_views(plan@) =~= before_volumes + lift(vol) + drop_part);
        let ghost mid = setup_views(plan@);
        plan.push(SetupStep::Fs(FsOp::ChangeDir(cfg.working_dirs.clone())));
        assert(setup_views(plan@) =~= mid.push(SetupView::Fs(FsStep::ChangeDir(cfg.working_dirs@))));
        let ghost mid2 = setup_views(plan@);
        let mut argv: Vec<String> = Vec::new();
        clone_strings(&cfg.command, &mut argv);
        clone_strings(&cfg.args, &mut argv);
        let mut env: Vec<String> = Vec::new();
        clone_strings(&cfg.env_vars, &mut env);
        let program = cfg.command[0].clone();
        plan.push(SetupStep::Exec { program, argv, env });
        proof {
            assert(strings(cfg.command@ + cfg.args@) =~= strings(cfg.command@) + strings(cfg.args@));
            assert(setup_views(plan@) =~= mid2.push(exec_step(container.config)));
            assert(setup_views(plan@) =~= child_pipeline(container.config, proc_exists, vol));
        }
        Ok(plan)
    }
}

/// A container fresh from `create_container` that is then started is, in the
/// parent, either running under a real pid, or, when the fork failed, still
/// the same created container. (In the child the record is left as it is.)
pub proof fn lemma_create_then_start(c: Container, ev: ForkEvent)
    requires
        c.status == ContainerStatus::Created,
        c.pid == 0,
    ensures
        ev == ForkEvent::Child ==> after_start(c, ev) == c && start_outcome(ev) == Ok::<
            StartAction,
            RuntimeError,
        >(StartAction::RunIsolated),
        ev != ForkEvent::Child && start_outcome(ev) is Ok ==> after_start(c, ev).status
            == ContainerStatus::Running && after_start(c, ev).pid > 0,
        start_outcome(ev) is Err ==> after_start(c, ev) == c && c.status == ContainerStatus::Created,
{
}

/// Stopping a container that was never started fails with
/// `NotRunningError` and leaves it created.
pub proof fn lemma_stop_created(c: Container)
    requires
        c.status == ContainerStatus::Created,
    ensures
        stop_outcome(c) == Err::<i32, RuntimeError>(RuntimeError::NotRunningError),
        after_stop(c) == c,
{
}

/// Stopping a running container succeeds, leaves it stopped, and once the
/// cleanup plan of its cgroup has run, the cgroup directory and everything in
/// it are gone.
pub proof fn lemma_stop_running(c: Container, t: Tree)
    requires
        c.status == ContainerStatus::Running,
    ensures
        stop_outcome(c) == Ok::<i32, RuntimeError>(c.pid),
        after_stop(c).status == ContainerStatus::Stopped,
        after_stop(c).id == c.id,
        forall|q: Seq<char>|
            within(q, cgroup_path_of(c.id@)) ==> !apply_plan(t, cgroup_cleanup_steps(c.id@)).dom().contains(q),
{
    let s = cgroup_cleanup_steps(c.id@);
    reveal_with_fuel(apply_plan, 2);
    assert(s.drop_first() =~= seq![]);
    assert(apply_plan(t, s) == apply_op(t, s[0]));
}

/// When one of the first `n` volumes is not handled, neither are they all.
proof fn lemma_volumes_steps_none(vs: Seq<VolumeMount>, n: int)
    requires
        0 < n <= vs.len(),
        volume_steps(vs[n - 1]) is None,
    ensures
        volumes_steps(vs) is None,
    decreases vs.len(),
{
    assert(vs.last() == vs[vs.len() - 1]);
    if n < vs.len() {
        assert(vs.drop_last()[n - 1] == vs[n - 1]);
        lemma_volumes_steps_none(vs.drop_last(), n);
    }
}

/// Appends `ops` to `out`, each as a filesystem step.
fn push_fs_ops(out: &mut Vec<SetupStep>, ops: Vec<FsOp>)
    ensures
        setup_views(final(out)@) == setup_views(old(out)@) + lift(steps(ops@)),
{
    let ghost start = setup_views(out@);
    let ghost all = steps(ops@);
    let mut rest = ops;
    let mut k: usize = 0;
    let n = rest.len();
    while k < n
        invariant
            n == all.len(),
            k <= n,
            rest@.len() == n - k,
            steps(rest@) == all.subrange(k as int, n as int),
            setup_views(out@) == start + lift(all.subrange(0, k as int)),
        decreases n - k,
    {
        let ghost before = rest@;
        assert(steps(before)[0] == before[0]@);
        let op = rest.remove(0);
        assert(op@ == all[k as int]);
        assert(rest@ =~= before.subrange(1, before.len() as int));
        assert(steps(before.subrange(1, before.len() as int)) =~= steps(before).subrange(1, before.len() as int));
        let ghost prev = out@;
        out.push(SetupStep::Fs(op));
        assert(setup_views(out@) =~= setup_views(prev).push(SetupView::Fs(all[k as int])));
        assert(lift(all.subrange(0, k + 1)) =~= lift(all.subrange(0, k as int)).push(SetupView::Fs(all[k as int])));
        assert(all.subrange(0, k + 1) =~= all.subrange(0, k as int).push(all[k as int]));
        assert(setup_views(out@) =~= start + lift(all.subrange(0, k + 1)));
        assert(steps(rest@) =~= all.subrange(k + 1, n as int));
        k = k + 1;
    }
    assert(all.subrange(0, n as int) =~= all);
}

/// Appends a copy of each string of `v` to `out`.
fn clone_strings(v: &Vec<String>, out: &mut Vec<String>)
    ensures
        strings(final(out)@) == strings(old(out)@) + strings(v@),
{
    let ghost start = strings(out@);
    let mut i: usize = 0;
    while i < v.len()
        invariant
            i <= v@.len(),
            strings(out@) == start + strings(v@.subrange(0, i as int)),
        decreases v@.len() - i,
    {
        let ghost prev = out@;
        out.push(v[i].clone());
        assert(v@.subrange(0, i + 1) =~= v@.subrange(0, i as int).push(v@[i as int]));
        assert(out@ =~= prev.push(v@[i as int]));
        assert(strings(out@) =~= strings(prev).push(v@[i as int]@));
        assert(strings(v@.subrange(0, i + 1)) =~= strings(v@.subrange(0, i as int)).push(v@[i as int]@));
        assert(strings(out@) =~= start + strings(v@.subrange(0, i + 1)));
        i = i + 1;
    }
    assert(v@.subrange(0, v@.len() as int) =~= v@);
}

} // verus!
