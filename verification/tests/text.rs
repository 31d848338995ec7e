use monoce_os::cli::{
    capacity_report, created_report, destroyed_report, image_for, images_report, list_report,
    missing_report, parse_command, status_report, Command, ImageFile, VmOnDisk,
};
use monoce_os::error::OsError;
use monoce_os::host::{
    disk_budget, filesystem_bytes, num_cpus, total_disk_bytes, total_memory_mib,
};
use monoce_os::ipv4::is_address;
use monoce_os::path::{ancestors, join, names_one_component, parent};
use monoce_os::resource::HostCapacity;
use monoce_os::storage::VmStorage;
use monoce_os::table::Table;
use monoce_os::text::{
    cut_before, decimal, hexadecimal2, holds_text, parse_unsigned, same_text, strip_prefix,
};
use monoce_os::vm::VmConfig;
use monoce_os::words::{dashes, is_white_space, nth_word, pad, trim};

fn args(words: &[&str]) -> Vec<String> {
    words.iter().map(|w| w.to_string()).collect()
}

#[test]
fn numbers() {
    assert_eq!(decimal(0), "0");
    assert_eq!(decimal(u64::MAX), u64::MAX.to_string());
    assert_eq!(hexadecimal2(0), "00");
    assert_eq!(hexadecimal2(0xfe), "FE");
    assert_eq!(hexadecimal2(0x1ab), "1AB");
    for s in ["", "+", "-1", "1a", "+5", "007", "18446744073709551615", "18446744073709551616"] {
        assert_eq!(parse_unsigned(s, u64::MAX), s.parse::<u64>().ok(), "{}", s);
    }
    assert_eq!(parse_unsigned("33", 32), None);
    assert_eq!(parse_unsigned("32", 32), Some(32));
}

#[test]
fn parts_of_texts() {
    assert_eq!(strip_prefix("tap12", "tap"), Some("12"));
    assert_eq!(strip_prefix("tap", "tap"), Some(""));
    assert_eq!(strip_prefix("ta", "tap"), None);
    assert_eq!(strip_prefix("\u{e9}tap", "\u{e9}"), Some("tap"));
    assert!(same_text("\u{e9}", "\u{e9}"));
    assert!(!same_text("a", "ab"));
    assert_eq!(cut_before("10.0.0.1/30", '/'), "10.0.0.1");
    assert_eq!(cut_before("10.0.0.1", '/'), "10.0.0.1");
    assert!(holds_text("abcabd", "abd"));
    assert!(holds_text("abc", ""));
    assert!(!holds_text("abc", "abcd"));
}

#[test]
fn addresses() {
    for good in ["0.0.0.0", "255.255.255.255", "172.16.0.1", "10.0.0.1"] {
        assert!(is_address(good), "{}", good);
    }
    for bad in [
        "256.0.0.1",
        "1.2.3",
        "1.2.3.4.5",
        "01.2.3.4",
        "0.0.0.00",
        "1.2.3.",
        "",
        "1.2.3.4 ",
        "+1.2.3.4",
        "a.b.c.d",
        "1..2.3",
        "1.2.3.1000",
    ] {
        assert!(!is_address(bad), "{}", bad);
    }
}

#[test]
fn paths() {
    for (base, part) in [("/a", "b"), ("/a/", "b"), ("", "b"), ("/a", "/b"), ("/a", ""), ("/", "b")]
    {
        let joined = std::path::Path::new(base).join(part);
        assert_eq!(join(base, part), joined.to_str().unwrap());
    }
    assert!(names_one_component("vm-1"));
    assert!(names_one_component("..."));
    assert!(!names_one_component(".."));
    assert!(!names_one_component("a/"));
}

#[test]
fn white_space_is_that_of_unicode() {
    for n in 0..=0x10ffffu32 {
        if let Some(c) = char::from_u32(n) {
            assert_eq!(is_white_space(c), c.is_whitespace(), "{:x}", n);
        }
    }
}

#[test]
fn words_and_columns() {
    for s in ["", "  ", "a", " a b\tc \u{2003}d ", "a\u{85}b", "x  "] {
        let words: Vec<&str> = s.split_whitespace().collect();
        for k in 0..5 {
            assert_eq!(nth_word(s, k), words.get(k).copied(), "{:?} {}", s, k);
        }
        assert_eq!(trim(s), s.trim());
    }
    assert_eq!(pad("ab", 5), "ab   ");
    assert_eq!(pad("abcdef", 5), "abcdef");
    assert_eq!(pad("\u{e9}", 3), format!("{:<3}", "\u{e9}"));
    assert_eq!(dashes(3), "---");
}

#[test]
fn tables() {
    let mut table: Table<u32> = Table::new();
    table.insert("a", 1);
    table.insert("b", 2);
    table.insert("a", 3);
    assert_eq!(table.len(), 2);
    assert_eq!(table.get("a"), Some(&3));
    assert_eq!(table.values().iter().map(|v| **v).sum::<u32>(), 5);
    assert_eq!(table.remove("a"), Some(3));
    assert_eq!(table.remove("a"), None);
    assert_eq!(table.at(0).0, "b");
    assert_eq!(table.len(), 1);
}

#[test]
fn memory_of_the_host() {
    let meminfo = "MemFree:  1 kB\nMemTotal:       16384256 kB\nMemTotal: 1 kB\n";
    assert_eq!(total_memory_mib(Some(meminfo)), 16000);
    assert_eq!(total_memory_mib(Some("MemTotal:\nMemTotal: x kB\r\nMemTotal:  2048 kB")), 2);
    assert_eq!(total_memory_mib(Some("MemTotal:2048 kB")), 8192);
    assert_eq!(total_memory_mib(Some("")), 8192);
    assert_eq!(total_memory_mib(None), 8192);
}

#[test]
fn disk_of_the_host() {
    assert_eq!(disk_budget(" 1000\n"), Some(1000));
    assert_eq!(disk_budget("0"), None);
    assert_eq!(disk_budget("ten"), None);
    assert_eq!(filesystem_bytes(10, 4096, 512), Some(40960));
    assert_eq!(filesystem_bytes(10, 0, 512), Some(5120));
    assert_eq!(filesystem_bytes(u64::MAX, 2, 0), None);
    assert_eq!(total_disk_bytes(Some("5"), Some(9)), 5);
    assert_eq!(total_disk_bytes(Some("-5"), Some(9)), 9);
    assert_eq!(total_disk_bytes(None, Some(9)), 9);
    assert_eq!(total_disk_bytes(None, None), 100 * 1024 * 1024 * 1024);
}

#[test]
fn vcpus_of_the_host() {
    assert_eq!(num_cpus(Some(16)), 16);
    assert_eq!(num_cpus(None), 4);
}

#[test]
fn commands() {
    assert!(matches!(parse_command(&args(&["monoce-os"])), Command::Help));
    assert!(matches!(parse_command(&args(&[])), Command::Help));
    for word in ["help", "--help", "-h"] {
        assert!(matches!(parse_command(&args(&["monoce-os", word])), Command::Help));
    }
    assert!(matches!(parse_command(&args(&["m", "list", "x"])), Command::List));
    assert!(matches!(parse_command(&args(&["m", "capacity"])), Command::Capacity));
    assert!(matches!(parse_command(&args(&["m", "images"])), Command::Images));
    match parse_command(&args(&["m", "start"])) {
        Command::Unknown { message } => assert_eq!(message, "unknown command: start"),
        other => panic!("{:?}", other),
    }
    match parse_command(&args(&["m", "destroy", "vm-1"])) {
        Command::Destroy { vm_id } => assert_eq!(vm_id, "vm-1"),
        other => panic!("{:?}", other),
    }
    match parse_command(&args(&["m", "destroy"])) {
        Command::Refused { message } => assert_eq!(message, "usage: monoce-os destroy <vm-id>"),
        other => panic!("{:?}", other),
    }
    match parse_command(&args(&["m", "status", "vm-1"])) {
        Command::Status { vm_id } => assert_eq!(vm_id, "vm-1"),
        other => panic!("{:?}", other),
    }
    match parse_command(&args(&["m", "status", "../x"])) {
        Command::Invalid(OsError::InvalidId { value, .. }) => assert_eq!(value, "../x"),
        other => panic!("{:?}", other),
    }
    assert!(matches!(parse_command(&args(&["m", "status"])), Command::Refused { .. }));
}

#[test]
fn create_commands() {
    match parse_command(&args(&["m", "create", "web", "alpine"])) {
        Command::Create { name, image_name, resources } => {
            assert_eq!(name, "web");
            assert_eq!(image_name, "alpine");
            assert_eq!(resources.cpu.vcpu_count, 1);
        }
        other => panic!("{:?}", other),
    }
    match parse_command(&args(&["m", "create", "web", "alpine", "large"])) {
        Command::Create { resources, .. } => assert_eq!(resources.cpu.vcpu_count, 4),
        other => panic!("{:?}", other),
    }
    match parse_command(&args(&["m", "create", "web", "alpine", "medium"])) {
        Command::Create { resources, .. } => assert_eq!(resources.cpu.vcpu_count, 2),
        other => panic!("{:?}", other),
    }
    match parse_command(&args(&["m", "create", "web", "alpine", "huge"])) {
        Command::Refused { message } => {
            assert_eq!(message, "invalid size: huge (use small, medium, large)")
        }
        other => panic!("{:?}", other),
    }
    match parse_command(&args(&["m", "create", "web"])) {
        Command::Refused { message } => assert_eq!(
            message,
            "usage: monoce-os create <name> <image> [small|medium|large]"
        ),
        other => panic!("{:?}", other),
    }
    match parse_command(&args(&["m", "create", "web", "../etc/x", "huge"])) {
        Command::Invalid(OsError::InvalidId { kind, value, .. }) => {
            assert_eq!(kind, "image name");
            assert_eq!(value, "../etc/x");
        }
        other => panic!("{:?}", other),
    }
}

#[test]
fn images_lie_in_the_images_directory() {
    let storage = VmStorage::new("/data");
    let image = image_for(&storage, "alpine", &None);
    assert_eq!(image.name, "alpine");
    assert_eq!(image.kernel_path, "/data/images/vmlinux");
    assert_eq!(image.rootfs_path, "/data/images/alpine.ext4");
    let image = image_for(&storage, "alpine", &Some("/boot/k".to_string()));
    assert_eq!(image.kernel_path, "/boot/k");
}

#[test]
fn the_table_of_vms() {
    assert_eq!(list_report(&vec![]), vec!["no VMs found"]);
    let vms = vec![
        VmOnDisk { vm_id: "vm-a".to_string(), has_config: true, has_socket: true },
        VmOnDisk { vm_id: "vm-b".to_string(), has_config: false, has_socket: true },
        VmOnDisk { vm_id: "vm-c".to_string(), has_config: true, has_socket: false },
    ];
    assert_eq!(
        list_report(&vms),
        vec![
            format!("{:<40} {:<10}", "VM ID", "STATUS"),
            "-".repeat(52),
            format!("{:<40} {:<10}", "vm-a", "running"),
            format!("{:<40} {:<10}", "vm-c", "stopped"),
        ]
    );
}

#[test]
fn the_details_of_a_vm() {
    let storage = VmStorage::new("/data");
    let config = VmConfig::with_uuid("1", "web");
    assert_eq!(
        status_report(&config, &storage, "vm-1"),
        vec![
            "VM ID:     vm-1",
            "Name:      web",
            "vCPUs:     1",
            "Memory:    128 MiB",
            "Rootfs:    536870912 bytes",
            "Network:   172.16.0.2/30",
            "Socket:    /data/vms/vm-1/firecracker.sock",
        ]
    );
}

#[test]
fn the_capacity_of_the_host() {
    let host = HostCapacity {
        total_vcpus: 8,
        available_vcpus: 6,
        total_memory_mib: 8192,
        available_memory_mib: 7680,
        total_disk_bytes: 100 * 1024 * 1024 * 1024,
        available_disk_bytes: 98 * 1024 * 1024 * 1024 + 5,
    };
    assert_eq!(
        capacity_report(&host),
        vec![
            "Host Capacity:",
            "  vCPUs:   8 total, 6 available",
            "  Memory:  8192 MiB total, 7680 MiB available",
            "  Disk:    100 GiB total, 98 GiB available",
        ]
    );
}

#[test]
fn the_images_of_the_host() {
    let storage = VmStorage::new("/data");
    assert_eq!(images_report(&storage, &None), vec!["no images found (/data/images)"]);
    let files = vec![ImageFile { name: "vmlinux".to_string(), size_bytes: 5 * 1024 * 1024 + 1 }];
    assert_eq!(
        images_report(&storage, &Some(files)),
        vec!["Images directory: /data/images", "  vmlinux (5 MiB)"]
    );
}

#[test]
fn single_lines() {
    assert_eq!(created_report("vm-1"), "created VM: vm-1");
    assert_eq!(destroyed_report("vm-1"), "destroyed VM: vm-1");
    assert_eq!(missing_report("vm-1"), "VM not found: vm-1");
}

#[test]
fn ancestors_of_paths() {
    for path in ["/var/lib/monoce-os/vms", "data/vms", "/vms", "/", "", "a", "/a//b/", "../x/vms"] {
        let mut expected: Vec<String> = std::path::Path::new(path)
            .ancestors()
            .map(|p| p.to_str().unwrap().to_string())
            .collect();
        expected[0] = path.to_string();
        assert_eq!(ancestors(path), expected, "{}", path);
    }
    assert_eq!(parent("/a/b").as_deref(), Some("/a"));
    assert_eq!(parent("/").as_deref(), None);
}
