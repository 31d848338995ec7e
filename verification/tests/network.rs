use monoce_os::effect::Effect;
use monoce_os::error::OsError;
use monoce_os::network::{is_valid_mask_short, is_valid_tap_name, NetworkConfig, TapSetup};
use monoce_os::resource::NetworkLimits;

#[test]
fn network_config_for_index_0() {
    let cfg = NetworkConfig::for_vm_index(0);
    assert_eq!(cfg.host_dev_name, "tap0");
    assert_eq!(cfg.gateway_ip, "172.16.0.1");
    assert_eq!(cfg.guest_ip, "172.16.0.2/30");
}

#[test]
fn network_config_for_index_5() {
    let cfg = NetworkConfig::for_vm_index(5);
    assert_eq!(cfg.host_dev_name, "tap5");
    assert_eq!(cfg.gateway_ip, "172.16.0.21");
    assert_eq!(cfg.guest_ip, "172.16.0.22/30");
}

#[test]
fn kernel_boot_args_format() {
    let cfg = NetworkConfig::for_vm_index(0);
    let args = cfg.kernel_boot_args();
    assert!(args.contains("172.16.0.2"));
    assert!(args.contains("172.16.0.1"));
    assert!(args.contains("eth0"));
}

#[test]
fn firecracker_json_has_required_fields() {
    let cfg = NetworkConfig::for_vm_index(0);
    let json = cfg.to_firecracker_json();
    assert_eq!(json["iface_id"], "eth0");
    assert!(json["guest_mac"].as_str().is_some());
    assert_eq!(json["host_dev_name"], "tap0");
}

#[test]
fn firecracker_json_with_rate_limits() {
    let cfg = NetworkConfig::for_vm_index(0).with_limits(NetworkLimits {
        rx_rate_bps: Some(10_000_000),
        tx_rate_bps: Some(5_000_000),
        rx_rate_pps: None,
        tx_rate_pps: None,
    });
    let json = cfg.to_firecracker_json();
    assert!(json.get("rx_rate_limiter").is_some());
    assert!(json.get("tx_rate_limiter").is_some());
}

#[test]
fn tap_setup_argv_shape() {
    let cfg = NetworkConfig::for_vm_index(0);
    let tap = TapSetup::from_config(&cfg);
    let setup = tap.setup_argv();
    assert_eq!(setup.len(), 4);
    assert_eq!(setup[0], vec!["link", "del", "tap0"]);
    assert_eq!(
        setup[2],
        vec!["addr", "add", "172.16.0.1/30", "dev", "tap0"]
    );
    assert_eq!(tap.teardown_argv(), vec![vec!["link", "del", "tap0"]]);
}

#[test]
fn generated_configs_validate() {
    for index in [0u32, 1, 5, 63, 64, 255] {
        let cfg = NetworkConfig::for_vm_index(index);
        cfg.validate().unwrap();
        TapSetup::from_config(&cfg).validate().unwrap();
    }
}

#[test]
fn rejects_tampered_tap_name() {
    for bad in ["tap0; rm -rf /", "eth0", "tap", "", "tap0 up", "../tap0"] {
        let mut cfg = NetworkConfig::for_vm_index(0);
        cfg.host_dev_name = bad.to_string();
        assert!(cfg.validate().is_err(), "expected {bad:?} to be rejected");

        let tap = TapSetup::from_config(&cfg);
        assert!(tap.validate().is_err(), "expected {bad:?} to be rejected");
    }
}

#[test]
fn rejects_tampered_addresses() {
    let mut cfg = NetworkConfig::for_vm_index(0);
    cfg.gateway_ip = "$(id)".to_string();
    assert!(cfg.validate().is_err());

    let mut cfg = NetworkConfig::for_vm_index(0);
    cfg.guest_ip = "not-an-ip/30".to_string();
    assert!(cfg.validate().is_err());

    let mut cfg = NetworkConfig::for_vm_index(0);
    cfg.mask_short = "/99".to_string();
    assert!(cfg.validate().is_err());

    let mut cfg = NetworkConfig::for_vm_index(0);
    cfg.mask_short = " dev eth0".to_string();
    assert!(cfg.validate().is_err());
}

#[test]
fn teardown_refuses_tampered_tap_name() {
    let mut cfg = NetworkConfig::for_vm_index(0);
    cfg.host_dev_name = "tap0 && reboot".to_string();
    let tap = TapSetup::from_config(&cfg);
    assert!(tap.setup().is_err());
    assert!(tap.teardown().is_err());
}

#[test]
fn each_index_has_its_own_addresses() {
    let a = NetworkConfig::for_vm_index(63);
    let b = NetworkConfig::for_vm_index(64);
    assert_eq!(a.gateway_ip, "172.16.0.253");
    assert_eq!(a.guest_ip, "172.16.0.254/30");
    assert_eq!(b.gateway_ip, "172.16.1.1");
    assert_eq!(b.guest_ip, "172.16.1.2/30");
    assert_eq!(a.guest_mac, "06:00:AC:00:00:FE");
    assert_ne!(a.guest_mac, b.guest_mac);
}

#[test]
fn the_last_index_with_valid_addresses() {
    let last = NetworkConfig::for_vm_index(0x3fff);
    assert_eq!(last.gateway_ip, "172.16.255.253");
    assert!(last.validate().is_ok());
    assert!(NetworkConfig::for_vm_index(0x4000).validate().is_err());
}

#[test]
fn the_greatest_index_is_given_a_name() {
    let cfg = NetworkConfig::for_vm_index(u32::MAX);
    assert_eq!(cfg.host_dev_name, "tap4294967295");
}

#[test]
fn boot_args_in_full() {
    assert_eq!(
        NetworkConfig::for_vm_index(0).kernel_boot_args(),
        "ip=172.16.0.2::172.16.0.1:255.255.255.252::eth0:off"
    );
}

#[test]
fn each_fault_of_a_network_has_its_error() {
    let mut cfg = NetworkConfig::for_vm_index(0);
    cfg.host_dev_name = "eth0".to_string();
    match cfg.validate() {
        Err(OsError::InvalidId { kind, value, .. }) => {
            assert_eq!(kind, "TAP device name");
            assert_eq!(value, "eth0");
        }
        other => panic!("{:?}", other),
    }

    let mut cfg = NetworkConfig::for_vm_index(0);
    cfg.mask_short = "/33".to_string();
    match TapSetup::from_config(&cfg).validate() {
        Err(OsError::InvalidId { kind, value, .. }) => {
            assert_eq!(kind, "netmask");
            assert_eq!(value, "/33");
        }
        other => panic!("{:?}", other),
    }

    let mut cfg = NetworkConfig::for_vm_index(0);
    cfg.gateway_ip = "1.2.3".to_string();
    match TapSetup::from_config(&cfg).validate() {
        Err(OsError::InvalidId { kind, value, .. }) => {
            assert_eq!(kind, "TAP IP");
            assert_eq!(value, "1.2.3");
        }
        other => panic!("{:?}", other),
    }
}

#[test]
fn tap_names_and_masks() {
    assert!(is_valid_tap_name("tap0"));
    assert!(is_valid_tap_name("tap4294967295"));
    assert!(!is_valid_tap_name("tap-1"));
    assert!(!is_valid_tap_name("Tap0"));
    assert!(is_valid_mask_short("/0"));
    assert!(is_valid_mask_short("/32"));
    assert!(!is_valid_mask_short("/33"));
    assert!(!is_valid_mask_short("30"));
    assert!(!is_valid_mask_short("/"));
}

#[test]
fn rate_limiters_in_full() {
    let cfg = NetworkConfig::for_vm_index(2).with_limits(NetworkLimits {
        rx_rate_bps: Some(8_000),
        tx_rate_bps: None,
        rx_rate_pps: None,
        tx_rate_pps: None,
    });
    let json = cfg.to_firecracker_json();
    assert_eq!(json["rx_rate_limiter"]["bandwidth"]["size"], 8_000);
    assert_eq!(json["rx_rate_limiter"]["bandwidth"]["refill_time"], 1000);
    assert!(json.get("tx_rate_limiter").is_none());
    assert_eq!(json["guest_mac"], cfg.guest_mac.as_str());
}

#[test]
fn tap_setup_runs_ip_and_switches_forwarding_on() {
    let tap = TapSetup::from_config(&NetworkConfig::for_vm_index(3));
    let effects = tap.setup().unwrap();
    assert_eq!(effects.len(), 5);
    match &effects[1] {
        Effect::Ip { argv } => {
            assert_eq!(*argv, vec!["tuntap", "add", "dev", "tap3", "mode", "tap"])
        }
        other => panic!("{:?}", other),
    }
    match &effects[3] {
        Effect::Ip { argv } => assert_eq!(*argv, vec!["link", "set", "dev", "tap3", "up"]),
        other => panic!("{:?}", other),
    }
    match &effects[4] {
        Effect::Write { path, contents } => {
            assert_eq!(path, "/proc/sys/net/ipv4/ip_forward");
            assert_eq!(contents, "1");
        }
        other => panic!("{:?}", other),
    }
    let effects = tap.teardown().unwrap();
    assert_eq!(effects.len(), 1);
    match &effects[0] {
        Effect::Ip { argv } => assert_eq!(*argv, vec!["link", "del", "tap3"]),
        other => panic!("{:?}", other),
    }
}

#[test]
fn limits_keep_a_config_valid() {
    let cfg = NetworkConfig::for_vm_index(7).with_limits(NetworkLimits::default());
    assert!(cfg.validate().is_ok());
}

#[test]
fn a_guest_ip_has_a_number_behind_its_slash_or_no_slash() {
    for good in ["172.16.0.2/30", "172.16.0.2", "172.16.0.2/99", "172.16.0.2/0"] {
        let mut cfg = NetworkConfig::for_vm_index(0);
        cfg.guest_ip = good.to_string();
        assert!(cfg.validate().is_ok(), "{}", good);
    }
    for bad in [
        "172.16.0.2/abc",
        "172.16.0.2/",
        "172.16.0.2/30/1",
        "172.16.0.2/+30",
        "172.16.0.2/30 ",
        "172.16.0/30",
        "/30",
    ] {
        let mut cfg = NetworkConfig::for_vm_index(0);
        cfg.guest_ip = bad.to_string();
        match cfg.validate() {
            Err(OsError::InvalidId { kind, value, reason }) => {
                assert_eq!(kind, "guest IP");
                assert_eq!(value, bad);
                assert_eq!(reason, "must be an IPv4 address, optionally with a /N suffix");
            }
            other => panic!("{:?}", other),
        }
    }
}
