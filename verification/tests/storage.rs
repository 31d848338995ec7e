use monoce_os::effect::Effect;
use monoce_os::error::OsError;
use monoce_os::storage::{
    validate_image_name, validate_vm_id, DirEntry, DriveConfig, DriveRateLimiter, TokenBucket,
    VmStorage,
};

#[test]
fn vm_dir_layout() {
    let storage = VmStorage::new("/tmp/monoce-os");
    assert_eq!(storage.vm_dir("vm-1"), "/tmp/monoce-os/vms/vm-1");
    assert_eq!(
        storage.rootfs_path("vm-1"),
        "/tmp/monoce-os/vms/vm-1/rootfs.ext4"
    );
    assert_eq!(
        storage.socket_path("vm-1"),
        "/tmp/monoce-os/vms/vm-1/firecracker.sock"
    );
}

#[test]
fn rootfs_drive_config_is_root() {
    let storage = VmStorage::new("/tmp/monoce-os");
    let drive = storage.rootfs_drive_config("vm-1", None);
    assert!(drive.is_root_device);
    assert!(!drive.is_read_only);
    assert_eq!(drive.drive_id, "rootfs");
}

#[test]
fn data_drive_config_is_not_root() {
    let storage = VmStorage::new("/tmp/monoce-os");
    let drive = storage.data_drive_config("vm-1", None);
    assert!(!drive.is_root_device);
    assert_eq!(drive.drive_id, "data");
}

#[test]
fn drive_json_basic() {
    let drive = DriveConfig {
        drive_id: "rootfs".into(),
        path_on_host: "/tmp/rootfs.ext4".into(),
        is_root_device: true,
        is_read_only: false,
        rate_limiter: None,
    };
    let json = VmStorage::drive_to_firecracker_json(&drive);
    assert_eq!(json["drive_id"], "rootfs");
    assert_eq!(json["is_root_device"], true);
}

#[test]
fn drive_json_with_rate_limiter() {
    let drive = DriveConfig {
        drive_id: "data".into(),
        path_on_host: "/tmp/data.ext4".into(),
        is_root_device: false,
        is_read_only: false,
        rate_limiter: Some(DriveRateLimiter {
            bandwidth: Some(TokenBucket {
                size: 10_000_000,
                one_time_burst: Some(5_000_000),
                refill_time: 1000,
            }),
            ops: None,
        }),
    };
    let json = VmStorage::drive_to_firecracker_json(&drive);
    assert!(json.get("rate_limiter").is_some());
}

#[test]
fn drive_json_in_full() {
    let drive = DriveConfig {
        drive_id: "data".into(),
        path_on_host: "/tmp/data.ext4".into(),
        is_root_device: false,
        is_read_only: true,
        rate_limiter: Some(DriveRateLimiter {
            bandwidth: None,
            ops: Some(TokenBucket {
                size: 7,
                one_time_burst: None,
                refill_time: 100,
            }),
        }),
    };
    let json = VmStorage::drive_to_firecracker_json(&drive);
    assert_eq!(json["path_on_host"], "/tmp/data.ext4");
    assert_eq!(json["is_root_device"], false);
    assert_eq!(json["is_read_only"], true);
    assert_eq!(json["rate_limiter"]["ops"]["size"], 7);
    assert!(json["rate_limiter"]["ops"]["one_time_burst"].is_null());
    assert_eq!(json["rate_limiter"]["ops"]["refill_time"], 100);
    assert!(json["rate_limiter"].get("bandwidth").is_none());

    let plain = DriveConfig {
        rate_limiter: Some(DriveRateLimiter { bandwidth: None, ops: None }),
        ..drive
    };
    let json = VmStorage::drive_to_firecracker_json(&plain);
    assert!(json["rate_limiter"].as_object().unwrap().is_empty());
}

#[test]
fn list_vms_empty_dir() {
    let vms = VmStorage::list_vms(&vec![]);
    assert!(vms.is_empty());
}

#[test]
fn prepare_and_list_vms() {
    let storage = VmStorage::new("/data");
    match storage.prepare_vm_dirs("vm-a") {
        Effect::CreateDirAll { path } => assert_eq!(path, "/data/vms/vm-a"),
        other => panic!("{:?}", other),
    }
    let entries = vec![
        DirEntry { name: Some("vm-a".to_string()), is_dir: true },
        DirEntry { name: Some(".vm-index.lock".to_string()), is_dir: false },
        DirEntry { name: None, is_dir: true },
        DirEntry { name: Some("vm-b".to_string()), is_dir: true },
    ];
    let mut vms = VmStorage::list_vms(&entries);
    vms.sort();
    assert_eq!(vms, vec!["vm-a", "vm-b"]);
}

#[test]
fn create_sparse_rootfs() {
    let storage = VmStorage::new("/data");
    let effects = storage.create_rootfs("vm-1", 1024 * 1024);
    assert_eq!(effects.len(), 2);
    match &effects[0] {
        Effect::CreateDirAll { path } => assert_eq!(path, "/data/vms/vm-1"),
        other => panic!("{:?}", other),
    }
    match &effects[1] {
        Effect::CreateSparse { path, size_bytes } => {
            assert_eq!(path, "/data/vms/vm-1/rootfs.ext4");
            assert_eq!(*size_bytes, 1024 * 1024);
        }
        other => panic!("{:?}", other),
    }
}

#[test]
fn data_disk_and_base_image() {
    let storage = VmStorage::new("/data/");
    match &storage.create_data_disk("vm-1", 5)[1] {
        Effect::CreateSparse { path, size_bytes } => {
            assert_eq!(path, "/data/vms/vm-1/data.ext4");
            assert_eq!(*size_bytes, 5);
        }
        other => panic!("{:?}", other),
    }
    match &storage.copy_base_image("vm-1", "/images/alpine.ext4")[1] {
        Effect::Copy { from, to } => {
            assert_eq!(from, "/images/alpine.ext4");
            assert_eq!(to, "/data/vms/vm-1/rootfs.ext4");
        }
        other => panic!("{:?}", other),
    }
    match storage.compute_cid("/images/alpine.ext4") {
        Effect::ContentId { path } => assert_eq!(path, "/images/alpine.ext4"),
        other => panic!("{:?}", other),
    }
}

#[test]
fn cleanup_removes_vm_dir() {
    let storage = VmStorage::new("/data");
    match storage.cleanup_vm("vm-del", true) {
        Some(Effect::RemoveDirAll { path }) => assert_eq!(path, "/data/vms/vm-del"),
        other => panic!("{:?}", other),
    }
    assert!(storage.cleanup_vm("vm-del", false).is_none());
}

#[test]
fn other_paths() {
    let storage = VmStorage::new("base");
    assert_eq!(storage.vms_dir(), "base/vms");
    assert_eq!(storage.images_dir(), "base/images");
    assert_eq!(storage.kernel_path("vmlinux"), "base/images/vmlinux");
    assert_eq!(storage.data_disk_path("v"), "base/vms/v/data.ext4");
    assert_eq!(storage.log_path("v"), "base/vms/v/firecracker.log");
    assert_eq!(storage.config_path("v"), "base/vms/v/vm-config.json");
    assert_eq!(storage.index_lock_path(), "base/vms/.vm-index.lock");
}

#[test]
fn names_that_are_no_component() {
    assert!(validate_vm_id("vm-0123").is_ok());
    for bad in ["", ".", "..", "a/b", "/etc", "../x"] {
        match validate_vm_id(bad) {
            Err(OsError::InvalidId { kind, value, .. }) => {
                assert_eq!(kind, "VM ID");
                assert_eq!(value, bad);
            }
            other => panic!("{:?}", other),
        }
        assert!(validate_image_name(bad).is_err());
    }
    assert!(validate_image_name("alpine-3.20").is_ok());
}

#[test]
fn checked_ids_have_directories_of_their_own() {
    let storage = VmStorage::new("/data");
    assert_ne!(storage.vm_dir("vm-a"), storage.vm_dir("vm-b"));
    assert!(storage.vm_dir("vm-a").starts_with("/data/vms/"));
}

#[test]
fn the_files_of_a_vm_are_apart() {
    let storage = VmStorage::new("/data");
    let mut files = vec![
        storage.rootfs_path("v"),
        storage.data_disk_path("v"),
        storage.socket_path("v"),
        storage.log_path("v"),
        storage.config_path("v"),
    ];
    files.sort();
    files.dedup();
    assert_eq!(files.len(), 5);
}
