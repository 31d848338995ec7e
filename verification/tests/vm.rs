use monoce_os::error::OsError;
use monoce_os::resource::ResourceLimits;
use monoce_os::storage::VmStorage;
use monoce_os::vm::{MicroVm, VmConfig, VmState};

#[test]
fn vm_config_generates_id() {
    let config = VmConfig::new("test-vm");
    assert!(config.vm_id.starts_with("vm-"));
    assert_eq!(config.name, "test-vm");
}

#[test]
fn machine_config_json() {
    let config = VmConfig::new("test").with_resources(ResourceLimits::medium());
    let json = config.machine_config_json();
    assert_eq!(json["vcpu_count"], 2);
    assert_eq!(json["mem_size_mib"], 512);
}

#[test]
fn boot_source_json_with_net_args() {
    let config = VmConfig::new("test");
    let json = config.boot_source_json("ip=172.16.0.2::172.16.0.1:255.255.255.252::eth0:off");
    let args = json["boot_args"].as_str().unwrap();
    assert!(args.contains("console=ttyS0"));
    assert!(args.contains("172.16.0.2"));
}

#[test]
fn vm_state_display() {
    assert_eq!(VmState::Running.to_string(), "running");
    assert_eq!(VmState::Stopped.to_string(), "stopped");
}

#[test]
fn valid_state_transitions() {
    let storage = VmStorage::new("/tmp/test");
    let config = VmConfig::new("test");
    let mut vm = MicroVm::new(config, &storage);

    assert!(vm.transition(VmState::Booting).is_ok());
    assert!(vm.transition(VmState::Running).is_ok());
    assert!(vm.transition(VmState::Paused).is_ok());
    assert!(vm.transition(VmState::Running).is_ok());
    assert!(vm.transition(VmState::Stopping).is_ok());
    assert!(vm.transition(VmState::Stopped).is_ok());
}

#[test]
fn invalid_state_transition() {
    let storage = VmStorage::new("/tmp/test");
    let config = VmConfig::new("test");
    let mut vm = MicroVm::new(config, &storage);

    // Cannot go from Created directly to Running.
    assert!(vm.transition(VmState::Running).is_err());
}

#[test]
fn vm_config_builder_chain() {
    let config = VmConfig::new("chain")
        .with_resources(ResourceLimits::large())
        .with_kernel("/custom/vmlinux")
        .with_firecracker_bin("/usr/bin/firecracker");

    assert_eq!(config.resources.cpu.vcpu_count, 4);
    assert_eq!(config.kernel_image_path, "/custom/vmlinux");
    assert_eq!(config.firecracker_bin, "/usr/bin/firecracker");
}

#[test]
fn generated_ids_are_uuids_and_differ() {
    let a = VmConfig::new("a");
    let b = VmConfig::new("a");
    assert_ne!(a.vm_id, b.vm_id);
    assert_eq!(a.vm_id.len(), 3 + 36);
    for (i, c) in a.vm_id[3..].chars().enumerate() {
        if i == 8 || i == 13 || i == 18 || i == 23 {
            assert_eq!(c, '-');
        } else {
            assert!(c.is_ascii_hexdigit() && !c.is_ascii_uppercase());
        }
    }
    let digits: Vec<char> = a.vm_id[3..].chars().collect();
    assert_eq!(digits[14], '4');
    assert!(['8', '9', 'a', 'b'].contains(&digits[19]));
}

#[test]
fn defaults_of_a_config() {
    let config = VmConfig::with_uuid("0", "x");
    assert_eq!(config.vm_id, "vm-0");
    assert_eq!(config.kernel_image_path, "vmlinux");
    assert_eq!(config.firecracker_bin, "firecracker");
    assert_eq!(config.boot_args, "console=ttyS0 reboot=k panic=1 pci=off");
    assert_eq!(config.network.host_dev_name, "tap0");
}

#[test]
fn boot_args_without_extra() {
    let config = VmConfig::new("test");
    let json = config.boot_source_json("");
    assert_eq!(json["boot_args"], "console=ttyS0 reboot=k panic=1 pci=off");
    assert_eq!(json["kernel_image_path"], "vmlinux");
}

#[test]
fn an_illegal_transition_names_both_states() {
    let storage = VmStorage::new("/tmp/test");
    let mut vm = MicroVm::new(VmConfig::new("test"), &storage);
    match vm.transition(VmState::Stopped) {
        Err(OsError::InvalidState { current, operation }) => {
            assert_eq!(current, "created");
            assert_eq!(operation, "transition to stopped");
        }
        other => panic!("{:?}", other),
    }
    assert_eq!(vm.state, VmState::Created);
}

#[test]
fn stopped_and_failed_are_final() {
    let all = [
        VmState::Created,
        VmState::Booting,
        VmState::Running,
        VmState::Paused,
        VmState::Stopping,
        VmState::Stopped,
        VmState::Failed,
    ];
    let storage = VmStorage::new("/tmp/test");
    for end in [VmState::Stopped, VmState::Failed] {
        for next in all {
            let mut vm = MicroVm::new(VmConfig::new("test"), &storage);
            vm.state = end;
            assert!(vm.transition(next).is_err());
        }
    }
    for state in all {
        let mut vm = MicroVm::new(VmConfig::new("test"), &storage);
        vm.state = state;
        assert!(vm.transition(state).is_err());
    }
}

#[test]
fn an_instance_knows_its_paths() {
    let storage = VmStorage::new("/data");
    let vm = MicroVm::new(VmConfig::with_uuid("7", "x"), &storage);
    assert_eq!(vm.socket_path, "/data/vms/vm-7/firecracker.sock");
    assert_eq!(vm.log_path, "/data/vms/vm-7/firecracker.log");
    assert!(vm.pid.is_none());
}

#[test]
fn a_stopping_vm_never_runs_again() {
    let storage = VmStorage::new("/tmp/test");
    let mut vm = MicroVm::new(VmConfig::new("test"), &storage);
    vm.state = VmState::Stopping;
    assert!(vm.transition(VmState::Running).is_err());
    assert!(vm.transition(VmState::Booting).is_err());
    assert!(vm.transition(VmState::Failed).is_ok());
    assert!(vm.transition(VmState::Running).is_err());
}

#[test]
fn only_a_booting_or_paused_vm_comes_to_run() {
    let storage = VmStorage::new("/tmp/test");
    for (state, legal) in [
        (VmState::Created, false),
        (VmState::Booting, true),
        (VmState::Paused, true),
        (VmState::Stopping, false),
        (VmState::Stopped, false),
        (VmState::Failed, false),
    ] {
        let mut vm = MicroVm::new(VmConfig::new("test"), &storage);
        vm.state = state;
        assert_eq!(vm.transition(VmState::Running).is_ok(), legal);
    }
}
