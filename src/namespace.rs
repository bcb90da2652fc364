//! Namespace isolation and identity of a container's process.
use vstd::prelude::*;
use crate::runtime::{SetupStep, SetupView, setup_views};

verus! {

/// A kernel namespace kind.
#[derive(PartialEq, Eq, Structural, Clone, Copy, Debug)]
pub enum Namespace {
    Mount,
    Uts,
    Pid,
    Network,
    Ipc,
    User,
}

/// Every namespace a container's process detaches into.
pub open spec fn all_namespaces() -> Seq<Namespace> {
    seq![
        Namespace::Mount,
        Namespace::Uts,
        Namespace::Pid,
        Namespace::Network,
        Namespace::Ipc,
        Namespace::User,
    ]
}

/// The identity change of a privilege drop: the group first, since once the
/// user is no longer root the group can no longer be changed.
pub open spec fn privilege_drop_steps(uid: u32, gid: u32) -> Seq<SetupView> {
    seq![SetupView::SetGid(gid), SetupView::SetUid(uid)]
}

/// Namespace and identity steps of a container's setup.
pub struct Namespaces;

impl Namespaces {
    /// The namespaces to leave in one `unshare` call: mount, UTS, PID,
    /// network, IPC and user. This must be the child's first action.
    pub fn unshare_all() -> (r: Vec<Namespace>)
        ensures
            r@ == all_namespaces(),
    {
        let mut v: Vec<Namespace> = Vec::new();
        v.push(Namespace::Mount);
        v.push(Namespace::Uts);
        v.push(Namespace::Pid);
        v.push(Namespace::Network);
        v.push(Namespace::Ipc);
        v.push(Namespace::User);
        assert(v@ =~= all_namespaces());
        v
    }

    /// Sets the hostname inside the new UTS namespace.
    pub fn set_hosename(hostname: &str) -> (r: SetupStep)
        ensures
            r@ == SetupView::SetHostname(hostname@),
    {
        SetupStep::SetHostname(hostname.to_owned())
    }

    /// Drops to `gid` and then to `uid`.
    pub fn drop_privileges(uid: u32, gid: u32) -> (r: Vec<SetupStep>)
        ensures
            setup_views(r@) == privilege_drop_steps(uid, gid),
    {
        let mut v: Vec<SetupStep> = Vec::new();
        v.push(SetupStep::SetGid(gid));
        v.push(SetupStep::SetUid(uid));
        assert(setup_views(v@) =~= privilege_drop_steps(uid, gid));
        v
    }
}

} // verus!
