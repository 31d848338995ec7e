use monoce_os::effect::{Effect, Reply};
use monoce_os::error::OsError;
use monoce_os::image::{ImageRegistry, VmImage};

#[test]
fn vm_image_construction() {
    let img = VmImage::new("test", "/vmlinux", "/rootfs.ext4");
    assert_eq!(img.name, "test");
    assert!(img.boot_args.contains("console=ttyS0"));
}

#[test]
fn boot_source_json_format() {
    let img = VmImage::new("test", "/vmlinux", "/rootfs.ext4");
    let json = img.boot_source_json("ip=172.16.0.2::172.16.0.1:255.255.255.252::eth0:off");
    assert_eq!(json["kernel_image_path"], "/vmlinux");
    let args = json["boot_args"].as_str().unwrap();
    assert!(args.contains("console=ttyS0"));
    assert!(args.contains("172.16.0.2"));
}

#[test]
fn boot_source_json_no_extra_args() {
    let img = VmImage::new("test", "/vmlinux", "/rootfs.ext4");
    let json = img.boot_source_json("");
    let args = json["boot_args"].as_str().unwrap();
    assert!(!args.ends_with(' '));
}

#[test]
fn image_registry_crud() {
    let mut registry = ImageRegistry::new();
    let img = VmImage::new("alpine", "/vmlinux", "/rootfs.ext4");
    registry.register(img);

    assert!(registry.get("alpine").is_some());
    assert!(registry.get("ubuntu").is_none());
    assert_eq!(registry.list().len(), 1);

    let removed = registry.remove("alpine");
    assert!(removed.is_some());
    assert_eq!(registry.list().len(), 0);
}

#[test]
fn validate_fails_for_missing_kernel() {
    let img = VmImage::new("test", "/nonexistent/vmlinux", "/nonexistent/rootfs.ext4");
    let result = img.validate(false, false);
    assert!(result.is_err());
}

#[test]
fn with_boot_args_overrides() {
    let img = VmImage::new("test", "/vmlinux", "/rootfs.ext4").with_boot_args("custom=args");
    assert_eq!(img.boot_args, "custom=args");
}

#[test]
fn each_missing_file_has_its_error() {
    let img = VmImage::new("test", "/k", "/r");
    match img.validate(false, true) {
        Err(OsError::KernelNotFound(path)) => assert_eq!(path, "/k"),
        other => panic!("{:?}", other),
    }
    match img.validate(true, false) {
        Err(OsError::RootfsNotFound(path)) => assert_eq!(path, "/r"),
        other => panic!("{:?}", other),
    }
    assert!(img.validate(true, true).is_ok());
}

#[test]
fn a_second_registration_replaces_the_first() {
    let mut registry = ImageRegistry::default();
    registry.register(VmImage::new("alpine", "/k1", "/r1"));
    registry.register(VmImage::new("ubuntu", "/k2", "/r2"));
    registry.register(VmImage::new("alpine", "/k3", "/r3"));
    assert_eq!(registry.list().len(), 2);
    assert_eq!(registry.get("alpine").unwrap().kernel_path, "/k3");
    assert_eq!(registry.get("ubuntu").unwrap().kernel_path, "/k2");
    assert!(registry.remove("debian").is_none());
    assert_eq!(registry.list().len(), 2);
}

#[test]
fn content_addresses_of_both_files() {
    let mut img = VmImage::new("test", "/k", "/r");
    let mut run = img.compute_cids();
    match run.effect(&img) {
        Some(Effect::Exists { path }) => assert_eq!(path, "/k"),
        other => panic!("{:?}", other),
    }
    run.advance(&mut img, Reply::Yes).unwrap();
    match run.effect(&img) {
        Some(Effect::Exists { path }) => assert_eq!(path, "/r"),
        other => panic!("{:?}", other),
    }
    run.advance(&mut img, Reply::Yes).unwrap();
    match run.effect(&img) {
        Some(Effect::ContentId { path }) => assert_eq!(path, "/k"),
        other => panic!("{:?}", other),
    }
    run.advance(&mut img, Reply::ContentId("one".to_string())).unwrap();
    run.advance(&mut img, Reply::ContentId("two".to_string())).unwrap();
    assert!(run.effect(&img).is_none());
    assert_eq!(img.kernel_cid.as_deref(), Some("one"));
    assert_eq!(img.rootfs_cid.as_deref(), Some("two"));
}

#[test]
fn no_content_address_without_the_files() {
    let mut img = VmImage::new("test", "/k", "/r");
    let mut run = img.compute_cids();
    match run.advance(&mut img, Reply::No) {
        Err(OsError::KernelNotFound(path)) => assert_eq!(path, "/k"),
        other => panic!("{:?}", other),
    }
    let mut run = img.compute_cids();
    run.advance(&mut img, Reply::Yes).unwrap();
    match run.advance(&mut img, Reply::No) {
        Err(OsError::RootfsNotFound(path)) => assert_eq!(path, "/r"),
        other => panic!("{:?}", other),
    }
    let mut run = img.compute_cids();
    run.advance(&mut img, Reply::Yes).unwrap();
    run.advance(&mut img, Reply::Yes).unwrap();
    let failed = Reply::Failed(OsError::Storage("gone".to_string()));
    assert!(run.advance(&mut img, failed).is_err());
    assert!(img.kernel_cid.is_none());
}

#[test]
fn a_reply_without_an_address_is_an_error() {
    let mut img = VmImage::new("test", "/k", "/r");
    let mut run = img.compute_cids();
    run.advance(&mut img, Reply::Yes).unwrap();
    run.advance(&mut img, Reply::Yes).unwrap();
    assert!(run.advance(&mut img, Reply::Done).is_err());
    run.advance(&mut img, Reply::ContentId("one".to_string())).unwrap();
    assert!(run.advance(&mut img, Reply::No).is_err());
    assert_eq!(img.kernel_cid.as_deref(), Some("one"));
    assert!(img.rootfs_cid.is_none());
}
