use std::collections::BTreeMap;

use nebulon::container::{Container, ContainerConfig, ContainerStatus};
use nebulon::drivers::{create_driver, DriverType, StorageConfig};
use nebulon::error::RuntimeError;
use nebulon::filesystem::Filesystem;
use nebulon::fsplan::FsOp;
use nebulon::snapshot::SnapshotManager;
use nebulon::store::{add_container, delete_container, get_container, get_container_ids, get_datafile, SystemData};

/// A directory tree in memory: each path maps to `None` for a directory or
/// to a file's contents.
type Disk = BTreeMap<String, Option<String>>;

fn below(q: &str, p: &str) -> bool {
    q == p || (q.starts_with(p) && q[p.len()..].starts_with('/'))
}

fn make_dirs(disk: &mut Disk, p: &str) {
    let mut acc = String::new();
    for (i, part) in p.split('/').enumerate() {
        if i > 0 {
            acc.push('/');
        }
        acc.push_str(part);
        if !acc.is_empty() {
            disk.entry(acc.clone()).or_insert(None);
        }
    }
}

/// Carries out the directory and file steps of a plan; mounts leave the
/// tree as it is.
fn run_plan(disk: &mut Disk, ops: &[FsOp]) {
    for op in ops {
        match op {
            FsOp::MakeDirAll(p) => make_dirs(disk, p),
            FsOp::RemoveTree(p) | FsOp::RemoveCgroup(p) => disk.retain(|q, _| !below(q, p)),
            FsOp::CopyTree { from, to } => {
                assert!(!disk.contains_key(to.as_str()), "copy target exists");
                assert!(disk.contains_key(from.as_str()), "copy source missing");
                let copied: Vec<(String, Option<String>)> = disk
                    .iter()
                    .filter(|(q, _)| below(q, from))
                    .map(|(q, v)| (format!("{}{}", to, &q[from.len()..]), v.clone()))
                    .collect();
                for (q, v) in copied {
                    disk.insert(q, v);
                }
            }
            FsOp::WriteFile { path, contents } => {
                disk.insert(path.clone(), Some(contents.clone()));
            }
            _ => {}
        }
    }
}

#[test]
fn driver_names_and_lookup() {
    assert_eq!(DriverType::from_name("overlayfs"), Some(DriverType::OverlayFS));
    assert_eq!(DriverType::from_name("aufs"), Some(DriverType::Aufs));
    assert_eq!(DriverType::from_name("zfs"), None);
    assert_eq!(create_driver(DriverType::OverlayFS, "/r").0.name(), "overlayfs");
    assert_eq!(create_driver(DriverType::Aufs, "/r").0.name(), "aufs");
    let cfg = StorageConfig::default();
    assert_eq!(cfg.driver, "overlayfs");
    assert_eq!(cfg.root, "/var/lib/nebulon/");
    assert_eq!(cfg.volumes_dir, "/var/lib/nebulon/volumes");
    assert_eq!(cfg.images_dir, "/var/lib/nebulon/images");
    assert_eq!(cfg.driver_type(), Some(DriverType::OverlayFS));
}

#[test]
fn union_snapshot_plan_shape() {
    let (d, _) = create_driver(DriverType::OverlayFS, "/store");
    assert_eq!(d.snapshot_dir("s1"), "/store/snapshots/s1");
    let (merged, ops) = d.create_snapshot("s1", "/base", false, true).unwrap();
    assert_eq!(merged, "/store/snapshots/s1/merged");
    assert_eq!(ops.len(), 6);
    assert!(matches!(&ops[1], FsOp::CopyTree { from, to } if from == "/base" && to == "/store/snapshots/s1/lower"));
    match &ops[5] {
        FsOp::OverlayMount { lower, upper, work, target } => {
            assert_eq!(lower, "/store/snapshots/s1/lower");
            assert_eq!(upper, "/store/snapshots/s1/upper");
            assert_eq!(work, "/store/snapshots/s1/work");
            assert_eq!(target, "/store/snapshots/s1/merged");
        }
        _ => panic!("the union mount comes last"),
    }
    let rm = d.remove_snapshot("s1");
    assert!(matches!(&rm[0], FsOp::Unmount { target, best_effort: true } if target == "/store/snapshots/s1/merged"));
    assert!(matches!(&rm[1], FsOp::RemoveTree(p) if p == "/store/snapshots/s1"));
}

#[test]
fn union_snapshot_directories_exist_then_vanish() {
    let mut disk = Disk::new();
    make_dirs(&mut disk, "/src/etc");
    disk.insert("/src/etc/hostname".to_string(), Some("box".to_string()));
    let (d, init) = create_driver(DriverType::OverlayFS, "/store");
    run_plan(&mut disk, &init);
    assert!(disk.contains_key("/store/work"));
    let exists = disk.contains_key(&d.snapshot_dir("snap"));
    let (_, ops) = d.create_snapshot("snap", "/src", exists, disk.contains_key("/src")).unwrap();
    run_plan(&mut disk, &ops);
    for part in ["lower", "upper", "work", "merged"] {
        assert!(disk.contains_key(&format!("/store/snapshots/snap/{}", part)), "{} missing", part);
    }
    assert_eq!(disk["/store/snapshots/snap/lower/etc/hostname"], Some("box".to_string()));
    assert!(disk.contains_key(&d.snapshot_dir("snap")));
    assert!(matches!(d.create_snapshot("snap", "/src", true, true), Err(RuntimeError::FilesystemError)));
    run_plan(&mut disk, &d.remove_snapshot("snap"));
    assert!(!disk.contains_key(&d.snapshot_dir("snap")));
    assert!(!disk.keys().any(|q| below(q, "/store/snapshots/snap")));
    assert!(disk.contains_key("/src/etc/hostname"));
}

#[test]
fn copy_snapshot_plan_without_source() {
    let (d, init) = create_driver(DriverType::Aufs, "/store");
    assert!(matches!(&init[0], FsOp::MakeDirAll(p) if p == "/store"));
    let (merged, ops) = d.create_snapshot("s2", "/nothing", false, false).unwrap();
    assert_eq!(merged, "/store/snapshots/s2/merged");
    assert_eq!(ops.len(), 2);
    assert!(matches!(&ops[1], FsOp::MakeDirAll(p) if p == "/store/snapshots/s2/merged"));
    let rm = d.remove_snapshot("s2");
    assert_eq!(rm.len(), 1);
    let m = d.mount("/a", "/b");
    assert_eq!(m.len(), 1);
    assert_eq!(create_driver(DriverType::OverlayFS, "/store").0.mount("/a", "/b").len(), 2);
}

#[test]
fn list_snapshots_keeps_directories_in_order() {
    let (d, _) = create_driver(DriverType::OverlayFS, "/store");
    let entries = vec![
        ("b".to_string(), true),
        ("file.txt".to_string(), false),
        ("a".to_string(), true),
    ];
    assert_eq!(d.list_snapshots(entries), vec!["b".to_string(), "a".to_string()]);
    assert!(d.list_snapshots(vec![]).is_empty());
}

#[test]
fn child_snapshot_copies_parent_and_stays_independent() {
    let mut disk = Disk::new();
    let mut m = SnapshotManager::new("/snaps");
    run_plan(&mut disk, &m.init_ops());
    let (parent, ops) = m.create(None).unwrap();
    run_plan(&mut disk, &ops);
    let f = format!("{}/f", parent.rootfs);
    disk.insert(f.clone(), Some("hello".to_string()));
    let (child, ops) = m.create(Some(&parent.id)).unwrap();
    assert_eq!(child.parent.as_deref(), Some(parent.id.as_str()));
    assert_ne!(child.id, parent.id);
    assert!(matches!(&ops[1], FsOp::CopyTree { from, to } if *from == parent.rootfs && *to == child.rootfs));
    run_plan(&mut disk, &ops);
    let cf = format!("{}/f", child.rootfs);
    assert_eq!(disk[&cf], Some("hello".to_string()));
    disk.insert(f.clone(), Some("changed".to_string()));
    assert_eq!(disk[&cf], Some("hello".to_string()));
    assert!(m.get(&child.id).is_some());
    let rm = m.remove(&child.id);
    assert_eq!(rm.len(), 1);
    assert!(m.get(&child.id).is_none());
    assert!(m.get(&parent.id).is_some());
    assert!(m.remove(&child.id).is_empty());
    run_plan(&mut disk, &rm);
    assert!(!disk.contains_key(&child.rootfs));
    assert_eq!(disk[&f], Some("changed".to_string()));
}

#[test]
fn unknown_parent_gives_empty_rootfs() {
    let mut m = SnapshotManager::new("/snaps");
    let (s, ops) = m.create(Some("ghost")).unwrap();
    assert_eq!(s.parent.as_deref(), Some("ghost"));
    assert_eq!(s.rootfs, format!("/snaps/{}/rootfs", s.id));
    assert_eq!(s.id.len(), 36);
    assert!(!s.active);
    assert!(matches!(&ops[1], FsOp::MakeDirAll(p) if *p == s.rootfs));
}

#[test]
fn load_snapshots_registers_directory_names() {
    let mut m = SnapshotManager::new("/snaps");
    m.load_snapshots(vec!["one".to_string(), "two".to_string(), "one".to_string(), "".to_string()]);
    let one = m.get("one").unwrap();
    assert_eq!(one.rootfs, "/snaps/one/rootfs");
    assert!(one.parent.is_none());
    assert!(m.get("two").is_some());
    assert!(m.get("").is_none());
    assert!(m.get("three").is_none());
}

#[test]
fn rootfs_skeleton_plan() {
    let ops = Filesystem::create_rootfs("/r", false);
    assert_eq!(ops.len(), 9);
    assert!(matches!(&ops[0], FsOp::MakeDirAll(p) if p == "/r"));
    assert!(matches!(&ops[8], FsOp::MakeDirAll(p) if p == "/r/var"));
    assert!(Filesystem::create_rootfs("/r", true).is_empty());
    assert!(matches!(Filesystem::setup_rootfs("/r", false, true), Err(RuntimeError::FilesystemError)));
    assert_eq!(Filesystem::setup_rootfs("/r", true, false).unwrap().len(), 1);
}

fn record(id: &str) -> Container {
    Container { id: id.to_string(), pid: 0, status: ContainerStatus::Created, config: ContainerConfig::default() }
}

#[test]
fn catalog_add_get_delete() {
    assert_eq!(get_datafile(), "/var/lib/nebulon/metadata.json");
    let mut data = SystemData::new("Linux".to_string(), "6".to_string(), 1024);
    add_container(&mut data, record("nb-1"));
    add_container(&mut data, record("nb-2"));
    assert_eq!(get_container_ids(&data), vec!["nb-1".to_string(), "nb-2".to_string()]);
    assert_eq!(get_container(&data, "nb-2").unwrap().id, "nb-2");
    assert!(matches!(get_container(&data, "nb-3"), Err(RuntimeError::NotFoundError)));
    assert!(delete_container(&mut data, "nb-1"));
    assert!(!delete_container(&mut data, "nb-1"));
    assert_eq!(get_container_ids(&data), vec!["nb-2".to_string()]);
    assert_eq!(data.containers.len(), 2 - 1);
}

#[test]
fn snapshot_with_given_id_and_taken_id() {
    let mut m = SnapshotManager::new("/snaps");
    let (s, ops) = m.create_with_id("base", None).unwrap();
    assert_eq!(s.id, "base");
    assert_eq!(s.rootfs, "/snaps/base/rootfs");
    assert!(matches!(&ops[0], FsOp::MakeDirAll(p) if p == "/snaps/base"));
    assert!(matches!(m.create_with_id("base", None), Err(RuntimeError::FilesystemError)));
    let (c, ops) = m.create_with_id("child", Some("base")).unwrap();
    assert!(matches!(&ops[1], FsOp::CopyTree { from, to } if from == "/snaps/base/rootfs" && *to == c.rootfs));
    assert!(m.create(None).is_ok());
}

#[test]
fn driver_plan_failure_is_filesystem_error() {
    assert_eq!(nebulon::drivers::StorageDriver::outcome(true), Ok(()));
    assert_eq!(nebulon::drivers::StorageDriver::outcome(false), Err(RuntimeError::FilesystemError));
}
