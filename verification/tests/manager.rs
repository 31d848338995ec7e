use std::collections::HashSet;

use monoce_os::api::CurlOutput;
use monoce_os::effect::{Effect, Reply};
use monoce_os::error::OsError;
use monoce_os::image::VmImage;
use monoce_os::manager::{index_in_config, index_of_tap, VmManager};
use monoce_os::resource::{HostCapacity, ResourceLimits};
use monoce_os::storage::VmStorage;
use monoce_os::vm::{VmConfig, VmState};

const BASE: &str = "/tmp/monoce-os-test";

fn make_manager() -> VmManager {
    manager_on(&vec![])
}

fn manager_on(configs: &Vec<String>) -> VmManager {
    let storage = VmStorage::new(BASE);
    let capacity = HostCapacity {
        total_vcpus: 8,
        available_vcpus: 8,
        total_memory_mib: 8192,
        available_memory_mib: 8192,
        total_disk_bytes: 100 * 1024 * 1024 * 1024,
        available_disk_bytes: 100 * 1024 * 1024 * 1024,
    };
    VmManager::new(storage, capacity, configs).unwrap()
}

fn accepted() -> Reply {
    Reply::Output(CurlOutput {
        success: true,
        code: Some(0),
        stdout: vec![],
        stderr: vec![],
    })
}

fn faulty() -> Reply {
    Reply::Output(CurlOutput {
        success: true,
        code: Some(0),
        stdout: b"{\"fault_message\":\"no\"}".to_vec(),
        stderr: vec![],
    })
}

/// A host on which everything works, and that remembers what it was asked.
struct Host {
    paths: HashSet<String>,
    configs: Vec<String>,
    config_on_disk: Option<VmConfig>,
    asked: Vec<String>,
    socket_opens: bool,
    now: u64,
    refuse: Option<&'static str>,
}

fn host() -> Host {
    let mut paths = HashSet::new();
    paths.insert("/vmlinux".to_string());
    paths.insert("/rootfs.ext4".to_string());
    Host {
        paths,
        configs: vec![],
        config_on_disk: None,
        asked: vec![],
        socket_opens: true,
        now: 7,
        refuse: None,
    }
}

impl Host {
    fn perform(&mut self, effect: Effect) -> Reply {
        let what = format!("{:?}", effect);
        self.asked.push(what.clone());
        if let Some(word) = self.refuse {
            if what.contains(word) {
                return match effect {
                    Effect::Put { .. } => faulty(),
                    Effect::Spawn { .. } => Reply::SpawnFailed("no such file".to_string()),
                    _ => Reply::Failed(OsError::Storage(word.to_string())),
                };
            }
        }
        match effect {
            Effect::Exists { path } => {
                if self.paths.contains(&path) {
                    Reply::Yes
                } else {
                    Reply::No
                }
            }
            Effect::CreateDirAll { path } | Effect::CreateSparse { path, .. } => {
                self.paths.insert(path);
                Reply::Done
            }
            Effect::Copy { to, .. } => {
                self.paths.insert(to);
                Reply::Done
            }
            Effect::WriteConfig { path, config } => {
                self.paths.insert(path);
                self.config_on_disk = Some(config);
                Reply::Done
            }
            Effect::ReadConfig { .. } => Reply::Config(self.config_on_disk.clone().unwrap()),
            Effect::ReadConfigs { .. } => Reply::Configs(self.configs.clone()),
            Effect::RemoveDirAll { path } => {
                self.paths.retain(|p| !p.starts_with(&path));
                Reply::Done
            }
            Effect::RemoveFile { path } => {
                self.paths.remove(&path);
                Reply::Done
            }
            Effect::Spawn { argv, .. } => {
                if self.socket_opens {
                    self.paths.insert(argv[1].clone());
                }
                Reply::Started { pid: Some(42) }
            }
            Effect::Put { .. } => accepted(),
            Effect::Clock => Reply::Time { nanos: self.now },
            Effect::Sleep { millis } => {
                self.now += millis * 1_000_000;
                Reply::Done
            }
            Effect::ContentId { .. } => Reply::ContentId("cid".to_string()),
            _ => Reply::Done,
        }
    }
}

fn create(
    manager: &mut VmManager,
    host: &mut Host,
    image: &str,
    resources: ResourceLimits,
) -> Result<String, OsError> {
    let mut run = manager.create_vm("test", image, resources)?;
    loop {
        match run.effect(manager) {
            Some(effect) => {
                let reply = host.perform(effect);
                run.advance(manager, reply)?;
            }
            None => return Ok(run.created().unwrap().clone()),
        }
    }
}

fn destroy(manager: &mut VmManager, host: &mut Host, vm_id: &str) -> Result<(), OsError> {
    let mut run = manager.destroy_vm(vm_id);
    loop {
        match run.effect(manager) {
            Some(effect) => {
                let reply = host.perform(effect);
                run.advance(manager, reply)?;
            }
            None => return Ok(()),
        }
    }
}

fn with_image() -> VmManager {
    let mut manager = make_manager();
    manager.register_image(VmImage::new("img", "/vmlinux", "/rootfs.ext4"));
    manager
}

#[test]
fn list_vms_empty() {
    let mgr = make_manager();
    assert!(mgr.list_vms().is_empty());
}

#[test]
fn vm_stats_empty() {
    let mgr = make_manager();
    assert_eq!(mgr.vm_stats().len(), 0);
}

#[test]
fn host_capacity_readable() {
    let mgr = make_manager();
    let cap = mgr.host_capacity();
    assert_eq!(cap.total_vcpus, 8);
    assert_eq!(cap.available_vcpus, 8);
}

#[test]
fn create_vm_fails_without_image() {
    let mut mgr = make_manager();
    let result = create(&mut mgr, &mut host(), "nonexistent", ResourceLimits::small());
    match result {
        Err(OsError::Image(message)) => assert_eq!(message, "image 'nonexistent' not found"),
        other => panic!("{:?}", other),
    }
}

#[test]
fn destroy_vm_not_found() {
    let mut mgr = make_manager();
    let result = destroy(&mut mgr, &mut host(), "fake-id");
    match result {
        Err(OsError::VmNotFound(id)) => assert_eq!(id, "fake-id"),
        other => panic!("{:?}", other),
    }
}

#[test]
fn register_image() {
    let mut mgr = make_manager();
    let image = VmImage::new("test-img", "/vmlinux", "/rootfs.ext4");
    mgr.register_image(image);
    assert!(mgr.images().get("test-img").is_some());
}

#[test]
fn a_created_vm_runs() {
    let mut mgr = with_image();
    let mut host = host();
    let id = create(&mut mgr, &mut host, "img", ResourceLimits::medium()).unwrap();

    assert!(id.starts_with("vm-"));
    assert_eq!(mgr.vm_state(&id).unwrap(), VmState::Running);
    let config = mgr.vm_config(&id).unwrap();
    assert_eq!(config.name, "test");
    assert_eq!(config.kernel_image_path, "/vmlinux");
    assert_eq!(config.network.host_dev_name, "tap0");
    assert_eq!(config.resources.memory.size_mib, 512);
    assert_eq!(mgr.list_vms(), vec![(id.clone(), VmState::Running)]);
    assert_eq!(mgr.host_capacity().available_vcpus, 6);
    let saved = host.config_on_disk.as_ref().unwrap();
    assert_eq!(saved.vm_id, id);
    assert_eq!(saved.network.host_dev_name, "tap0");
    let stats = mgr.vm_stats();
    assert_eq!(stats.len(), 1);
    assert_eq!(*stats.get("running").unwrap(), 1);

    let order: Vec<usize> = ["LockIndex", "ReadConfigs", "Copy", "WriteConfig", "tuntap", "Spawn",
        "/machine-config", "/boot-source", "/drives/rootfs", "/network-interfaces/eth0",
        "InstanceStart"]
        .iter()
        .map(|word| host.asked.iter().position(|what| what.contains(word)).unwrap())
        .collect();
    assert!(order.windows(2).all(|w| w[0] < w[1]));
    assert!(!host.asked.iter().any(|what| what.contains("CreateSparse")));
}

#[test]
fn a_data_disk_is_made_where_one_is_asked_for() {
    let mut mgr = with_image();
    let mut host = host();
    let mut resources = ResourceLimits::small();
    resources.storage.data_disk_size_bytes = Some(4096);
    let id = create(&mut mgr, &mut host, "img", resources).unwrap();
    assert!(host.paths.contains(&format!("{}/vms/{}/data.ext4", BASE, id)));
}

#[test]
fn vms_share_no_network() {
    let mut mgr = with_image();
    let mut host = host();
    let a = create(&mut mgr, &mut host, "img", ResourceLimits::small()).unwrap();
    let b = create(&mut mgr, &mut host, "img", ResourceLimits::small()).unwrap();
    let a = mgr.vm_config(&a).unwrap();
    let b = mgr.vm_config(&b).unwrap();
    assert_eq!(a.network.host_dev_name, "tap0");
    assert_eq!(b.network.host_dev_name, "tap1");
    assert_ne!(a.network.guest_ip, b.network.guest_ip);
    assert_ne!(a.network.guest_mac, b.network.guest_mac);
    assert_eq!(mgr.list_vms().len(), 2);
    assert_eq!(*mgr.vm_stats().get("running").unwrap(), 2);
}

#[test]
fn the_index_is_above_those_on_disk() {
    let mut mgr = with_image();
    let mut host = host();
    host.configs = vec![
        "{\"network\":{\"host_dev_name\":\"tap7\"}}".to_string(),
        "{\"network\":{\"host_dev_name\":\"tap3\"}}".to_string(),
        "not json".to_string(),
        "{\"network\":{\"host_dev_name\":\"eth9\"}}".to_string(),
        "{\"network\":{\"host_dev_name\":12}}".to_string(),
        "{\"network\":[\"host_dev_name\"]}".to_string(),
        "{}".to_string(),
    ];
    let id = create(&mut mgr, &mut host, "img", ResourceLimits::small()).unwrap();
    assert_eq!(mgr.vm_config(&id).unwrap().network.host_dev_name, "tap8");
}

#[test]
fn next_index_from_texts() {
    let tap = |name: &str| format!("{{\"network\":{{\"host_dev_name\":\"{}\"}}}}", name);
    assert_eq!(VmManager::detect_next_vm_index(&vec![]), Some(0));
    assert_eq!(VmManager::detect_next_vm_index(&vec![tap("tap0")]), Some(1));
    assert_eq!(
        VmManager::detect_next_vm_index(&vec![tap("tap4"), tap("tap11"), tap("tap2")]),
        Some(12)
    );
    assert_eq!(VmManager::detect_next_vm_index(&vec![tap("tap+5")]), Some(6));
    assert_eq!(VmManager::detect_next_vm_index(&vec![tap("tap4294967296")]), Some(0));
    assert_eq!(VmManager::detect_next_vm_index(&vec![tap("tap4294967295")]), None);
    assert_eq!(index_of_tap("tap007"), Some(7));
    assert_eq!(index_of_tap("tap"), None);
    assert_eq!(index_of_tap("xtap1"), None);
    assert_eq!(index_in_config(&serde_json::Value::Null), None);
}

#[test]
fn a_manager_without_an_index_left_is_refused() {
    let configs = vec!["{\"network\":{\"host_dev_name\":\"tap4294967295\"}}".to_string()];
    let capacity = make_manager().host_capacity();
    match VmManager::new(VmStorage::new(BASE), capacity, &configs) {
        Err(OsError::Network(message)) => assert_eq!(message, "no VM index is left"),
        other => panic!("{:?}", other),
    }

    let mut mgr = with_image();
    let mut host = host();
    host.configs = configs;
    match create(&mut mgr, &mut host, "img", ResourceLimits::small()) {
        Err(OsError::Network(message)) => assert_eq!(message, "no VM index is left"),
        other => panic!("{:?}", other),
    }
}

#[test]
fn a_manager_starts_above_the_configs_on_disk() {
    let mut mgr = manager_on(&vec!["{\"network\":{\"host_dev_name\":\"tap4\"}}".to_string()]);
    mgr.register_image(VmImage::new("img", "/vmlinux", "/rootfs.ext4"));
    let id = create(&mut mgr, &mut host(), "img", ResourceLimits::small()).unwrap();
    assert_eq!(mgr.vm_config(&id).unwrap().network.host_dev_name, "tap5");
}

#[test]
fn an_index_without_addresses_gets_no_tap_device() {
    let mut mgr = with_image();
    let mut host = host();
    host.configs = vec!["{\"network\":{\"host_dev_name\":\"tap16383\"}}".to_string()];
    match create(&mut mgr, &mut host, "img", ResourceLimits::small()) {
        Err(OsError::InvalidId { kind, value, .. }) => {
            assert_eq!(kind, "TAP IP");
            assert_eq!(value, "172.16.256.1");
        }
        other => panic!("{:?}", other),
    }
    assert!(!host.asked.iter().any(|what| what.contains("tuntap")));
}

#[test]
fn creation_needs_both_files_of_the_image() {
    let mut mgr = with_image();
    let mut here = host();
    here.paths.remove("/vmlinux");
    match create(&mut mgr, &mut here, "img", ResourceLimits::small()) {
        Err(OsError::KernelNotFound(path)) => assert_eq!(path, "/vmlinux"),
        other => panic!("{:?}", other),
    }
    let mut here = host();
    here.paths.remove("/rootfs.ext4");
    match create(&mut mgr, &mut here, "img", ResourceLimits::small()) {
        Err(OsError::RootfsNotFound(path)) => assert_eq!(path, "/rootfs.ext4"),
        other => panic!("{:?}", other),
    }
    assert_eq!(mgr.host_capacity().available_vcpus, 8);
}

#[test]
fn creation_needs_room_on_the_host() {
    let mut mgr = with_image();
    let mut host = host();
    create(&mut mgr, &mut host, "img", ResourceLimits::large()).unwrap();
    create(&mut mgr, &mut host, "img", ResourceLimits::large()).unwrap();
    match create(&mut mgr, &mut host, "img", ResourceLimits::small()) {
        Err(OsError::ResourceLimitExceeded { resource, .. }) => {
            assert_eq!(resource, "host capacity")
        }
        other => panic!("{:?}", other),
    }
    assert_eq!(mgr.list_vms().len(), 2);
}

#[test]
fn a_failed_creation_adds_no_vm_and_keeps_its_reservation() {
    for word in ["LockIndex", "Copy", "WriteConfig", "Spawn", "/boot-source", "InstanceStart"] {
        let mut mgr = with_image();
        let mut host = host();
        host.refuse = Some(word);
        let result = create(&mut mgr, &mut host, "img", ResourceLimits::medium());
        assert!(result.is_err(), "{}", word);
        assert!(mgr.list_vms().is_empty());
        assert_eq!(mgr.host_capacity().available_vcpus, 6);
    }
}

#[test]
fn failures_of_the_boot_have_their_errors() {
    let mut mgr = with_image();
    let mut here = host();
    here.refuse = Some("Spawn");
    match create(&mut mgr, &mut here, "img", ResourceLimits::small()) {
        Err(OsError::Firecracker(message)) => {
            assert_eq!(message, "failed to spawn: no such file")
        }
        other => panic!("{:?}", other),
    }
    let mut here = host();
    here.refuse = Some("InstanceStart");
    match create(&mut mgr, &mut here, "img", ResourceLimits::small()) {
        Err(OsError::FirecrackerApi { status, body }) => {
            assert_eq!(status, 400);
            assert_eq!(body, "{\"fault_message\":\"no\"}");
        }
        other => panic!("{:?}", other),
    }
    let mut here = host();
    here.socket_opens = false;
    match create(&mut mgr, &mut here, "img", ResourceLimits::small()) {
        Err(OsError::Timeout(id)) => assert!(id.starts_with("vm-")),
        other => panic!("{:?}", other),
    }
    let looks = here.asked.iter().filter(|what| what.contains("Sleep")).count();
    assert_eq!(looks, 100);
}

#[test]
fn a_tap_device_that_cannot_be_set_up_is_passed_over() {
    let mut mgr = with_image();
    let mut host = host();
    host.refuse = Some("Ip {");
    assert!(create(&mut mgr, &mut host, "img", ResourceLimits::small()).is_ok());
}

#[test]
fn destroying_undoes_creating() {
    let mut mgr = with_image();
    let mut host = host();
    let before = host.paths.clone();
    let id = create(&mut mgr, &mut host, "img", ResourceLimits::medium()).unwrap();
    destroy(&mut mgr, &mut host, &id).unwrap();
    assert!(mgr.list_vms().is_empty());
    assert_eq!(mgr.host_capacity().available_vcpus, 8);
    assert_eq!(mgr.host_capacity().available_memory_mib, 8192);
    assert!(host.asked.iter().any(|what| what.contains("InstanceHalt")));
    assert!(host.asked.iter().any(|what| what.contains("Kill { pid: 42 }")));
    let dir = format!("{}/vms/{}", BASE, id);
    assert!(!host.paths.iter().any(|p| p.starts_with(&dir)));
    assert!(before.is_subset(&host.paths));
    assert!(mgr.vm_state(&id).is_err());
}

#[test]
fn a_vm_on_disk_can_be_destroyed() {
    let mut here = host();
    let id = {
        let mut mgr = with_image();
        create(&mut mgr, &mut here, "img", ResourceLimits::small()).unwrap()
    };
    here.asked.clear();
    let mut mgr = make_manager();
    destroy(&mut mgr, &mut here, &id).unwrap();
    assert!(here.asked[0].contains("vm-config.json"));
    assert!(here.asked.iter().any(|what| what.contains("InstanceHalt")));
    assert!(!here.asked.iter().any(|what| what.contains("Kill")));
    assert!(here.asked.iter().any(|what| what.contains("\"del\", \"tap0\"")));
    assert_eq!(mgr.host_capacity().available_vcpus, 8);
}

#[test]
fn a_vm_on_disk_without_a_socket_is_not_stopped() {
    let mut here = host();
    let id = {
        let mut mgr = with_image();
        create(&mut mgr, &mut here, "img", ResourceLimits::small()).unwrap()
    };
    here.paths.retain(|p| !p.ends_with(".sock"));
    here.asked.clear();
    destroy(&mut make_manager(), &mut here, &id).unwrap();
    assert!(!here.asked.iter().any(|what| what.contains("InstanceHalt")));
}

#[test]
fn a_tampered_tap_name_never_reaches_ip() {
    let mut here = host();
    let id = {
        let mut mgr = with_image();
        create(&mut mgr, &mut here, "img", ResourceLimits::small()).unwrap()
    };
    let mut config = here.config_on_disk.clone().unwrap();
    config.network.host_dev_name = "tap0 && reboot".to_string();
    here.config_on_disk = Some(config);
    here.asked.clear();
    destroy(&mut make_manager(), &mut here, &id).unwrap();
    assert!(!here.asked.iter().any(|what| what.contains("Ip {")));
    assert!(here.asked.iter().any(|what| what.contains("RemoveDirAll")));
}

#[test]
fn only_the_directory_can_stop_a_destruction() {
    for word in ["InstanceHalt", "Kill", "Ip {"] {
        let mut mgr = with_image();
        let mut host = host();
        let id = create(&mut mgr, &mut host, "img", ResourceLimits::small()).unwrap();
        host.refuse = Some(word);
        assert!(destroy(&mut mgr, &mut host, &id).is_ok(), "{}", word);
    }
    let mut mgr = with_image();
    let mut host = host();
    let id = create(&mut mgr, &mut host, "img", ResourceLimits::small()).unwrap();
    host.refuse = Some("RemoveDirAll");
    assert!(destroy(&mut mgr, &mut host, &id).is_err());
    assert!(mgr.list_vms().is_empty());
    assert_eq!(mgr.host_capacity().available_vcpus, 8);
}

#[test]
fn pausing_and_resuming() {
    let mut mgr = with_image();
    let id = create(&mut mgr, &mut host(), "img", ResourceLimits::small()).unwrap();
    match mgr.pause_request(&id) {
        Ok(Effect::Put { path, body, .. }) => {
            assert_eq!(path, "/actions");
            assert_eq!(body["action_type"], "Pause");
        }
        other => panic!("{:?}", other),
    }
    assert!(mgr.pause_vm(&id, faulty()).is_err());
    assert_eq!(mgr.vm_state(&id).unwrap(), VmState::Running);
    mgr.pause_vm(&id, accepted()).unwrap();
    assert_eq!(mgr.vm_state(&id).unwrap(), VmState::Paused);
    assert_eq!(*mgr.vm_stats().get("paused").unwrap(), 1);
    assert!(mgr.pause_vm(&id, accepted()).is_err());
    match mgr.resume_request(&id) {
        Ok(Effect::Put { body, .. }) => assert_eq!(body["action_type"], "Resume"),
        other => panic!("{:?}", other),
    }
    mgr.resume_vm(&id, accepted()).unwrap();
    assert_eq!(mgr.vm_state(&id).unwrap(), VmState::Running);
}

#[test]
fn an_unknown_vm_is_reported_by_each_query() {
    let mut mgr = make_manager();
    assert!(matches!(mgr.vm_state("x"), Err(OsError::VmNotFound(_))));
    assert!(matches!(mgr.vm_config("x"), Err(OsError::VmNotFound(_))));
    assert!(matches!(mgr.pause_request("x"), Err(OsError::VmNotFound(_))));
    assert!(matches!(mgr.resume_request("x"), Err(OsError::VmNotFound(_))));
    assert!(matches!(mgr.pause_vm("x", accepted()), Err(OsError::VmNotFound(_))));
    assert!(matches!(mgr.resume_vm("x", accepted()), Err(OsError::VmNotFound(_))));
}

#[test]
fn a_paused_vm_is_stopped_before_it_is_destroyed() {
    let mut mgr = with_image();
    let mut host = host();
    let id = create(&mut mgr, &mut host, "img", ResourceLimits::small()).unwrap();
    mgr.pause_vm(&id, accepted()).unwrap();
    host.asked.clear();
    destroy(&mut mgr, &mut host, &id).unwrap();
    assert!(host.asked[0].contains("InstanceHalt"));
}

#[test]
fn a_uuid_can_be_given() {
    let mgr = with_image();
    let run = mgr
        .create_vm_with_uuid("1234", "web", "img", ResourceLimits::large())
        .unwrap();
    assert_eq!(run.config.vm_id, "vm-1234");
    assert_eq!(run.config.name, "web");
    assert_eq!(run.config.kernel_image_path, "/vmlinux");
    assert_eq!(run.config.resources.cpu.vcpu_count, 4);
    assert_eq!(run.image.rootfs_path, "/rootfs.ext4");
    assert!(run.created().is_none());
    assert!(mgr
        .create_vm_with_uuid("1234", "web", "other", ResourceLimits::large())
        .is_err());
}

#[test]
fn the_lock_is_held_from_its_grant_to_the_end() {
    let mut mgr = with_image();
    let mut host = host();
    let mut run = mgr.create_vm("test", "img", ResourceLimits::small()).unwrap();
    let mut granted = false;
    while let Some(effect) = run.effect(&mgr) {
        assert_eq!(run.holds_lock(), granted);
        granted = granted || matches!(effect, Effect::LockIndex { .. });
        if matches!(effect, Effect::WriteConfig { .. } | Effect::ReadConfigs { .. }) {
            assert!(run.holds_lock());
        }
        let reply = host.perform(effect);
        run.advance(&mut mgr, reply).unwrap();
    }
    assert!(granted);
    assert!(!run.holds_lock());
    assert!(run.created().is_some());
}

#[test]
fn a_vm_on_disk_gives_back_what_its_config_names() {
    let mut here = host();
    let id = {
        let mut mgr = with_image();
        create(&mut mgr, &mut here, "img", ResourceLimits::medium()).unwrap()
    };
    let mut capacity = make_manager().host_capacity();
    capacity.available_vcpus = 3;
    capacity.available_memory_mib = 100;
    let mut mgr = VmManager::new(VmStorage::new(BASE), capacity, &vec![]).unwrap();
    destroy(&mut mgr, &mut here, &id).unwrap();
    assert_eq!(mgr.host_capacity().available_vcpus, 5);
    assert_eq!(mgr.host_capacity().available_memory_mib, 612);
}

#[test]
fn a_creation_needs_the_configs_on_disk() {
    let mut mgr = with_image();
    let mut host = host();
    let mut run = mgr.create_vm("test", "img", ResourceLimits::small()).unwrap();
    for _ in 0..4 {
        let effect = run.effect(&mgr).unwrap();
        let reply = host.perform(effect);
        run.advance(&mut mgr, reply).unwrap();
    }
    assert!(matches!(run.effect(&mgr), Some(Effect::ReadConfigs { .. })));
    assert!(run.advance(&mut mgr, Reply::Done).is_err());
    assert!(run.advance(&mut mgr, Reply::Configs(vec![])).is_ok());
}

#[test]
fn messages_of_errors() {
    let text = |s: &str| s.to_string();
    for (error, message) in [
        (OsError::VmNotFound(text("v")), "VM not found: v"),
        (OsError::VmAlreadyExists(text("v")), "VM already exists: v"),
        (
            OsError::InvalidState { current: text("created"), operation: text("stop") },
            "VM is in invalid state created for operation stop",
        ),
        (
            OsError::ResourceLimitExceeded {
                resource: text("host"),
                limit: text("1"),
                requested: text("2"),
            },
            "resource limit exceeded: host (limit: 1, requested: 2)",
        ),
        (OsError::Firecracker(text("x")), "firecracker error: x"),
        (
            OsError::FirecrackerApi { status: 400, body: text("b") },
            "firecracker API error: 400 b",
        ),
        (OsError::KernelNotFound(text("/k")), "kernel image not found: /k"),
        (OsError::RootfsNotFound(text("/r")), "rootfs not found: /r"),
        (OsError::Network(text("n")), "network configuration error: n"),
        (OsError::Storage(text("s")), "storage error: s"),
        (OsError::Image(text("i")), "image error: i"),
        (OsError::Socket(text("s")), "socket error: s"),
        (OsError::Timeout(text("v")), "timeout waiting for VM v"),
        (
            OsError::InvalidId { kind: "VM ID", value: text("a/b"), reason: "bad" },
            "invalid VM ID 'a/b': bad",
        ),
        (OsError::Monoce(text("m")), "monoce error: m"),
    ] {
        assert_eq!(error.message("unused"), message);
    }
    let io = OsError::Io(std::io::Error::from(std::io::ErrorKind::NotFound));
    assert_eq!(io.message("gone"), "IO error: gone");
    let json = serde_json::from_str::<serde_json::Value>("{").unwrap_err();
    assert_eq!(OsError::Json(json).message("eof"), "JSON error: eof");
}
