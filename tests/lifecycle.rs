use nebulon::cgroups::CgroupManager;
use nebulon::container::{Container, ContainerConfig, ContainerStatus, VolumeMount};
use nebulon::error::RuntimeError;
use nebulon::fsplan::FsOp;
use nebulon::namespace::{Namespace, Namespaces};
use nebulon::runtime::{ForkEvent, Runtime, SetupStep, StartAction};

fn sleep_config(uid: u32) -> ContainerConfig {
    let mut cfg = ContainerConfig::default();
    cfg.command = vec!["/bin/sleep".to_string()];
    cfg.args = vec!["5".to_string()];
    cfg.uid = uid;
    cfg
}

fn is_container_id(id: &str) -> bool {
    match id.strip_prefix("nb-") {
        Some(hex) => hex.len() == 8 && hex.chars().all(|c| c.is_ascii_digit() || ('a'..='f').contains(&c)),
        None => false,
    }
}

#[test]
fn default_config_values() {
    let cfg = ContainerConfig::default();
    assert_eq!(cfg.command, vec!["/bin/sh".to_string()]);
    assert_eq!(cfg.env_vars, vec!["PATH=/usr/bin:/bin".to_string()]);
    assert_eq!(cfg.hostname, "nb-container");
    assert_eq!(cfg.rootfs, "/var/lib/nb/rootfs");
    assert_eq!(cfg.working_dirs, "/");
    assert_eq!(cfg.uid, 0);
    assert!(cfg.volumes.is_empty());
}

#[test]
fn create_gives_created_container_with_prefixed_id() {
    let c = Runtime::create_container(sleep_config(0)).unwrap();
    assert!(is_container_id(&c.id), "bad id {}", c.id);
    assert_eq!(c.pid, 0);
    assert_eq!(c.status, ContainerStatus::Created);
    assert_eq!(c.config.command, vec!["/bin/sleep".to_string()]);
    let d = Runtime::create_container(sleep_config(0)).unwrap();
    assert_ne!(c.id, d.id);
}

#[test]
fn sleep_scenario_create_start_stop() {
    let mut c = Runtime::create_container(sleep_config(0)).unwrap();
    assert!(is_container_id(&c.id));
    let action = Runtime::start_container(&mut c, ForkEvent::Parent(31337)).unwrap();
    assert_eq!(action, StartAction::AttachToCgroup(31337));
    assert!(c.pid > 0);
    assert_eq!(c.status, ContainerStatus::Running);
    let pid = Runtime::stop_container(&mut c).unwrap();
    assert_eq!(pid, 31337);
    assert_eq!(c.status, ContainerStatus::Stopped);
    let clean = CgroupManager::new(&c.id).cleanup();
    let expected = format!("/sys/fs/cgroup/nebulon/{}", c.id);
    assert!(matches!(&clean[0], FsOp::RemoveCgroup(p) if *p == expected));
}

#[test]
fn failed_fork_leaves_container_created() {
    let mut c = Runtime::create_container(sleep_config(0)).unwrap();
    assert_eq!(Runtime::start_container(&mut c, ForkEvent::Failed), Err(RuntimeError::ForkError));
    assert_eq!(c.status, ContainerStatus::Created);
    assert_eq!(c.pid, 0);
    assert_eq!(Runtime::start_container(&mut c, ForkEvent::Parent(0)), Err(RuntimeError::ForkError));
    assert_eq!(c.status, ContainerStatus::Created);
    assert_eq!(c.pid, 0);
}

#[test]
fn child_branch_runs_isolated_without_touching_record() {
    let mut c = Runtime::create_container(sleep_config(0)).unwrap();
    assert_eq!(Runtime::start_container(&mut c, ForkEvent::Child), Ok(StartAction::RunIsolated));
    assert_eq!(c.status, ContainerStatus::Created);
    assert_eq!(c.pid, 0);
}

#[test]
fn stop_on_created_container_is_not_running_error() {
    let mut c = Runtime::create_container(sleep_config(0)).unwrap();
    assert_eq!(Runtime::stop_container(&mut c), Err(RuntimeError::NotRunningError));
    assert_eq!(c.status, ContainerStatus::Created);
    assert_eq!(c.pid, 0);
}

#[test]
fn stop_twice_fails_the_second_time() {
    let mut c = Runtime::create_container(sleep_config(0)).unwrap();
    Runtime::start_container(&mut c, ForkEvent::Parent(99)).unwrap();
    Runtime::stop_container(&mut c).unwrap();
    assert_eq!(Runtime::stop_container(&mut c), Err(RuntimeError::NotRunningError));
    assert_eq!(c.status, ContainerStatus::Stopped);
}

fn container_with(cfg: ContainerConfig) -> Container {
    Container { id: "nb-0000abcd".to_string(), pid: 0, status: ContainerStatus::Created, config: cfg }
}

#[test]
fn child_pipeline_for_root_user() {
    let c = container_with(sleep_config(0));
    let plan = Runtime::container_process(&c, true, true).unwrap();
    assert_eq!(plan.len(), 6);
    match &plan[0] {
        SetupStep::Unshare(ns) => assert_eq!(
            ns,
            &vec![Namespace::Mount, Namespace::Uts, Namespace::Pid, Namespace::Network, Namespace::Ipc, Namespace::User]
        ),
        _ => panic!("unshare must come first"),
    }
    assert!(matches!(&plan[1], SetupStep::SetHostname(h) if h == "nb-container"));
    assert!(matches!(&plan[2], SetupStep::Fs(FsOp::MountProc { target }) if target == "/var/lib/nb/rootfs/proc"));
    assert!(matches!(&plan[3], SetupStep::Fs(FsOp::ChangeDir(d)) if d == "/var/lib/nb/rootfs"));
    assert!(matches!(&plan[4], SetupStep::Fs(FsOp::ChangeDir(d)) if d == "/"));
    match &plan[5] {
        SetupStep::Exec { program, argv, env } => {
            assert_eq!(program, "/bin/sleep");
            assert_eq!(argv, &vec!["/bin/sleep".to_string(), "5".to_string()]);
            assert_eq!(env, &vec!["PATH=/usr/bin:/bin".to_string()]);
        }
        _ => panic!("exec must come last"),
    }
}

#[test]
fn child_pipeline_drops_group_then_user_after_volumes() {
    let mut cfg = sleep_config(1000);
    cfg.gid = 100;
    cfg.volumes = vec![VolumeMount { source: "/data".to_string(), target: "/mnt/data".to_string(), read_only: false }];
    let plan = Runtime::container_process(&container_with(cfg), true, false).unwrap();
    assert_eq!(plan.len(), 9);
    assert!(matches!(&plan[2], SetupStep::Fs(FsOp::ChangeDir(_))));
    assert!(matches!(&plan[3], SetupStep::Fs(FsOp::MakeDirAll(t)) if t == "/mnt/data"));
    assert!(matches!(&plan[4], SetupStep::Fs(FsOp::BindMount { source, target }) if source == "/data" && target == "/mnt/data"));
    assert!(matches!(&plan[5], SetupStep::SetGid(100)));
    assert!(matches!(&plan[6], SetupStep::SetUid(1000)));
    assert_eq!(plan[5].failure(), RuntimeError::PrivilegeError);
    assert_eq!(plan[0].failure(), RuntimeError::NamespaceError);
    assert_eq!(plan[3].failure(), RuntimeError::FilesystemError);
}

#[test]
fn missing_rootfs_is_filesystem_error() {
    let c = container_with(sleep_config(0));
    assert!(matches!(Runtime::container_process(&c, false, false), Err(RuntimeError::FilesystemError)));
}

#[test]
fn relative_volume_source_is_unsupported() {
    let mut cfg = sleep_config(0);
    cfg.volumes = vec![VolumeMount { source: "named".to_string(), target: "/mnt".to_string(), read_only: false }];
    assert!(matches!(Runtime::container_process(&container_with(cfg), true, true), Err(RuntimeError::UnsupportedError)));
    let m = VolumeMount { source: "named".to_string(), target: "/mnt".to_string(), read_only: true };
    assert!(matches!(Runtime::mount_volume(&m), Err(RuntimeError::UnsupportedError)));
}

#[test]
fn read_only_volume_is_remounted_read_only() {
    let m = VolumeMount { source: "/srv/share".to_string(), target: "/mnt/share".to_string(), read_only: true };
    let ops = Runtime::mount_volume(&m).unwrap();
    assert_eq!(ops.len(), 3);
    assert!(matches!(&ops[1], FsOp::BindMount { source, target } if source == "/srv/share" && target == "/mnt/share"));
    assert!(matches!(&ops[2], FsOp::RemountReadOnly { target } if target == "/mnt/share"));
    let rw = VolumeMount { source: "/srv/share".to_string(), target: "/mnt/share".to_string(), read_only: false };
    assert_eq!(Runtime::mount_volume(&rw).unwrap().len(), 2);
}

#[test]
fn privilege_drop_order() {
    let steps = Namespaces::drop_privileges(1000, 50);
    assert!(matches!(steps[0], SetupStep::SetGid(50)));
    assert!(matches!(steps[1], SetupStep::SetUid(1000)));
    assert_eq!(Namespaces::unshare_all().len(), 6);
    assert!(matches!(Namespaces::set_hosename("box"), SetupStep::SetHostname(h) if h == "box"));
}

#[test]
fn reap_marks_running_container_exited() {
    let mut c = Runtime::create_container(sleep_config(0)).unwrap();
    assert!(!Runtime::reap_container(&mut c, false));
    assert_eq!(c.status, ContainerStatus::Created);
    Runtime::start_container(&mut c, ForkEvent::Parent(77)).unwrap();
    assert!(!Runtime::reap_container(&mut c, true));
    assert_eq!(c.status, ContainerStatus::Running);
    assert!(Runtime::reap_container(&mut c, false));
    assert_eq!(c.status, ContainerStatus::Exited);
    assert_eq!(c.pid, 77);
    assert_eq!(Runtime::stop_container(&mut c), Err(RuntimeError::NotRunningError));
}

#[test]
fn container_id_comes_from_uuid_prefix() {
    let c = Runtime::container_from_uuid("67e55044-10b1-426f-9247-bb680e5fe0c8", sleep_config(0));
    assert_eq!(c.id, "nb-67e55044");
    assert_eq!(c.pid, 0);
    assert_eq!(c.status, ContainerStatus::Created);
}

#[test]
fn cgroup_plans_after_start_and_stop() {
    let mut c = Runtime::create_container(sleep_config(0)).unwrap();
    let action = Runtime::start_container(&mut c, ForkEvent::Parent(500)).unwrap();
    let plan = Runtime::cgroup_plan_after_start(&c, action);
    let dir = format!("/sys/fs/cgroup/nebulon/{}", c.id);
    assert!(matches!(&plan[0], FsOp::MakeDirAll(p) if *p == dir));
    assert!(matches!(&plan[1], FsOp::WriteFile { path, contents } if *path == format!("{}/cgroup.procs", dir) && contents == "500"));
    assert!(Runtime::cgroup_plan_after_start(&c, StartAction::RunIsolated).is_empty());
    let stopped = Runtime::stop_container(&mut c);
    let clean = Runtime::cgroup_plan_after_stop(&c, stopped);
    assert!(matches!(&clean[0], FsOp::RemoveCgroup(p) if *p == dir));
    let again = Runtime::stop_container(&mut c);
    assert!(Runtime::cgroup_plan_after_stop(&c, again).is_empty());
}
