use nebulon::error::RuntimeError;
use nebulon::fsplan::FsOp;
use nebulon::images::{ImageConfig, ImageManager};
use nebulon::volumes::{VolumeConfig, VolumeManager};
use sha2::Digest;

fn config(name: &str) -> VolumeConfig {
    VolumeConfig {
        name: name.to_string(),
        driver: "local".to_string(),
        labels: vec![("team".to_string(), "core".to_string())],
        options: vec![],
    }
}

#[test]
fn volume_create_get_mount_remove() {
    let mut m = VolumeManager::new("/vols");
    let (v, ops) = m.create(config("data"), 1700000000).unwrap();
    assert_eq!(v.name, "data");
    assert_eq!(v.driver, "local");
    assert_eq!(v.created_at, 1700000000);
    assert_eq!(v.labels, vec![("team".to_string(), "core".to_string())]);
    assert_eq!(v.mountpoint, format!("/vols/{}/data", v.id));
    assert!(matches!(&ops[0], FsOp::MakeDirAll(p) if *p == v.mountpoint));
    assert_eq!(m.get("data").unwrap().id, v.id);
    assert_eq!(m.list().len(), 1);
    let mount = m.mount("data", "/mnt/d").unwrap();
    assert!(matches!(&mount[1], FsOp::BindMount { source, target } if *source == v.mountpoint && target == "/mnt/d"));
    assert!(matches!(m.mount("other", "/mnt/d"), Err(RuntimeError::NotFoundError)));
    let rm = m.remove("data").unwrap();
    assert!(matches!(&rm[0], FsOp::RemoveTree(p) if *p == format!("/vols/{}", v.id)));
    assert!(m.get("data").is_none());
    assert!(matches!(m.remove("data"), Err(RuntimeError::NotFoundError)));
    assert_eq!(m.unmount("/mnt/d").len(), 1);
}

#[test]
fn volume_names_are_unique() {
    let mut m = VolumeManager::new("/vols");
    m.create(config("data"), 1).unwrap();
    assert!(matches!(m.create(config("data"), 2), Err(RuntimeError::AlreadyExistsError)));
    assert_eq!(m.list().len(), 1);
    m.create(config("logs"), 3).unwrap();
    assert_eq!(m.list().len(), 2);
}

#[test]
fn image_id_and_digest_are_sha256_of_archive() {
    let archive = b"layer bytes".to_vec();
    let hex = format!("{:x}", sha2::Sha256::digest(&archive));
    assert_eq!(ImageManager::generate_image_id(&archive), hex);
    assert_eq!(ImageManager::calculate_digest(&archive), format!("sha256:{}", hex));
    assert_eq!(
        ImageManager::generate_image_id(b""),
        "e3b0c44298fc1c149afbf4c8996fb92427ae41e4649b934ca495991b7852b855"
    );
    assert_eq!(ImageManager::digest_from_hex("ab"), "sha256:ab");
}

#[test]
fn image_import_get_prepare_remove() {
    let mut m = ImageManager::new("/imgs");
    let archive = b"archive".to_vec();
    let (img, ops) = m.import_from_tar(&archive, "alpine", "3.19", 42);
    let id = ImageManager::generate_image_id(&archive);
    assert_eq!(img.id, id);
    assert_eq!(img.digest, format!("sha256:{}", id));
    assert_eq!(img.layers, vec![format!("/imgs/{}/layers", id)]);
    assert_eq!(img.size, 0);
    assert!(matches!(&ops[0], FsOp::MakeDirAll(p) if *p == img.layers[0]));
    assert_eq!(m.get("alpine", "3.19").unwrap().id, id);
    assert!(m.get("alpine", "latest").is_none());
    m.import_from_tar(&archive, "alpine", "3.19", 43);
    assert_eq!(m.list().len(), 1);
    assert_eq!(m.list()[0].created_at, 43);
    let plan = m.prepare_rootfs(&img, "/root", &vec![true]);
    assert!(matches!(&plan[0], FsOp::CopyTree { from, to } if *from == img.layers[0] && to == "/root"));
    assert!(m.prepare_rootfs(&img, "/root", &vec![false]).is_empty());
    let rm = m.remove(&id);
    assert!(matches!(&rm[0], FsOp::RemoveTree(p) if *p == format!("/imgs/{}", id)));
    assert!(m.list().is_empty());
    assert!(m.remove(&id).is_empty());
}

#[test]
fn image_config_defaults() {
    let c = ImageConfig::default();
    assert!(c.entrypoint.is_empty());
    assert_eq!(c.cmd, vec!["/bin/sh".to_string()]);
    assert_eq!(c.user, "root");
    assert_eq!(c.working_dir, "/");
}

#[test]
fn volume_with_given_id_and_taken_id() {
    let mut m = VolumeManager::new("/vols");
    let (v, _) = m.create_with_id("v1", config("data"), 5).unwrap();
    assert_eq!(v.id, "v1");
    assert_eq!(v.mountpoint, "/vols/v1/data");
    assert!(matches!(m.create_with_id("v1", config("other"), 6), Err(RuntimeError::FilesystemError)));
    assert!(matches!(m.create_with_id("v2", config("data"), 6), Err(RuntimeError::AlreadyExistsError)));
    let (w, _) = m.create(config("other"), 7).unwrap();
    assert_eq!(w.id.len(), 36);
    assert_eq!(m.list().len(), 2);
}
