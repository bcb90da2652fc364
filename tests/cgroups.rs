use nebulon::cgroups::{CgroupManager, CgroupVersion, CGROUP2_SUPER_MAGIC, CGROUP_SUPER_MAGIC};
use nebulon::error::RuntimeError;
use nebulon::fsplan::FsOp;

fn write_of(op: &FsOp) -> (String, String) {
    match op {
        FsOp::WriteFile { path, contents } => (path.clone(), contents.clone()),
        _ => panic!("expected a file write"),
    }
}

#[test]
fn cgroup_path_is_under_program_name() {
    let cg = CgroupManager::new("nb-1a2b3c4d");
    assert_eq!(cg.cgroup_path(), "/sys/fs/cgroup/nebulon/nb-1a2b3c4d");
}

#[test]
fn memory_limit_v2_writes_bytes_to_memory_max() {
    let cg = CgroupManager::new("c1");
    let op = cg.memory_limit_for(CgroupVersion::V2, 512).unwrap();
    let (path, contents) = write_of(&op);
    assert_eq!(path, "/sys/fs/cgroup/nebulon/c1/memory.max");
    assert_eq!(contents, (512u64 * 1024 * 1024).to_string());
    assert_eq!(contents, "536870912");
}

#[test]
fn memory_limit_v1_writes_limit_in_bytes() {
    let cg = CgroupManager::new("c1");
    let op = cg.memory_limit_for(CgroupVersion::V1, 512).unwrap();
    let (path, contents) = write_of(&op);
    assert_eq!(path, "/sys/fs/cgroup/nebulon/c1/memory.limit_in_bytes");
    assert_eq!(contents, "536870912");
}

#[test]
fn memory_limit_zero_and_one() {
    let cg = CgroupManager::new("c1");
    assert_eq!(write_of(&cg.memory_limit_for(CgroupVersion::V2, 0).unwrap()).1, "0");
    assert_eq!(write_of(&cg.memory_limit_for(CgroupVersion::V2, 1).unwrap()).1, "1048576");
}

#[test]
fn memory_limit_too_large_is_cgroup_error() {
    let cg = CgroupManager::new("c1");
    if usize::MAX as u128 * 1048576 > u64::MAX as u128 {
        assert!(matches!(cg.memory_limit_for(CgroupVersion::V2, usize::MAX), Err(RuntimeError::CgroupError)));
    }
}

#[test]
fn cpu_quota_converts_percent_to_microseconds() {
    let cg = CgroupManager::new("c1");
    let (path, contents) = write_of(&cg.set_cpu_quota(100));
    assert_eq!(path, "/sys/fs/cgroup/nebulon/c1/cpu.max");
    assert_eq!(contents, "100000 100000");
    assert_eq!(write_of(&cg.set_cpu_quota(250)).1, "250000 100000");
    assert_eq!(write_of(&cg.set_cpu_quota(0)).1, "0 100000");
}

#[test]
fn add_process_writes_pid_to_procs() {
    let cg = CgroupManager::new("c1");
    let (path, contents) = write_of(&cg.add_process(4242));
    assert_eq!(path, "/sys/fs/cgroup/nebulon/c1/cgroup.procs");
    assert_eq!(contents, "4242");
    assert_eq!(write_of(&cg.add_process(-7)).1, "-7");
}

#[test]
fn detect_version_by_magic() {
    assert_eq!(CgroupManager::detect_cgroup_version(CGROUP2_SUPER_MAGIC), Ok(CgroupVersion::V2));
    assert_eq!(CgroupManager::detect_cgroup_version(CGROUP_SUPER_MAGIC), Ok(CgroupVersion::V1));
    assert_eq!(CgroupManager::detect_cgroup_version(0x63677270), Ok(CgroupVersion::V2));
    assert_eq!(CgroupManager::detect_cgroup_version(0xEF53), Err(RuntimeError::CgroupError));
}

#[test]
fn cgroup_create_and_cleanup_plans() {
    let cg = CgroupManager::new("c9");
    let create = cg.create_ops();
    assert_eq!(create.len(), 1);
    assert!(matches!(&create[0], FsOp::MakeDirAll(p) if p == "/sys/fs/cgroup/nebulon/c9"));
    let clean = cg.cleanup();
    assert_eq!(clean.len(), 1);
    assert!(matches!(&clean[0], FsOp::RemoveCgroup(p) if p == "/sys/fs/cgroup/nebulon/c9"));
}

#[test]
fn set_memory_limit_detects_version_from_magic() {
    let cg = CgroupManager::new("c2");
    let (path, contents) = write_of(&cg.set_memory_limit(CGROUP2_SUPER_MAGIC, 512).unwrap());
    assert_eq!(path, "/sys/fs/cgroup/nebulon/c2/memory.max");
    assert_eq!(contents, "536870912");
    let (path, _) = write_of(&cg.set_memory_limit(CGROUP_SUPER_MAGIC, 512).unwrap());
    assert_eq!(path, "/sys/fs/cgroup/nebulon/c2/memory.limit_in_bytes");
    assert!(matches!(cg.set_memory_limit(0xEF53, 512), Err(RuntimeError::CgroupError)));
}

#[test]
fn failed_cgroup_operation_is_cgroup_error() {
    assert_eq!(CgroupManager::outcome(true), Ok(()));
    assert_eq!(CgroupManager::outcome(false), Err(RuntimeError::CgroupError));
}
