use monoce_os::error::OsError;
use monoce_os::resource::{CpuLimits, HostCapacity, MemoryLimits, ResourceLimits, VmDirEntry};

fn make_host() -> HostCapacity {
    HostCapacity {
        total_vcpus: 8,
        available_vcpus: 8,
        total_memory_mib: 8192,
        available_memory_mib: 8192,
        total_disk_bytes: 100 * 1024 * 1024 * 1024,
        available_disk_bytes: 100 * 1024 * 1024 * 1024,
    }
}

const TOTAL_DISK: u64 = 100 * 1024 * 1024 * 1024;

#[test]
fn small_fits_in_host() {
    let host = make_host();
    assert!(ResourceLimits::small().fits_in(&host));
}

#[test]
fn reserve_decreases_capacity() {
    let mut host = make_host();
    let limits = ResourceLimits::medium();
    host.reserve(&limits).unwrap();
    assert_eq!(host.available_vcpus, 6);
    assert_eq!(host.available_memory_mib, 8192 - 512);
}

#[test]
fn release_restores_capacity() {
    let mut host = make_host();
    let limits = ResourceLimits::medium();
    host.reserve(&limits).unwrap();
    host.release(&limits);
    assert_eq!(host.available_vcpus, 8);
    assert_eq!(host.available_memory_mib, 8192);
}

#[test]
fn reserve_fails_when_insufficient() {
    let mut host = make_host();
    host.available_vcpus = 1;
    let limits = ResourceLimits::medium();
    assert!(host.reserve(&limits).is_err());
}

#[test]
fn preset_sizes_ascending() {
    let s = ResourceLimits::small();
    let m = ResourceLimits::medium();
    let l = ResourceLimits::large();
    assert!(s.cpu.vcpu_count < m.cpu.vcpu_count);
    assert!(m.cpu.vcpu_count < l.cpu.vcpu_count);
    assert!(s.memory.size_mib < m.memory.size_mib);
    assert!(m.memory.size_mib < l.memory.size_mib);
}

#[test]
fn cfs_quota_defaults_to_none() {
    let cpu = CpuLimits::default();
    assert!(cpu.cfs_quota_us.is_none());
    assert_eq!(cpu.cfs_period_us, 100_000);
}

#[test]
fn swap_defaults_to_zero() {
    let mem = MemoryLimits::default();
    assert_eq!(mem.swap_limit_bytes, Some(0));
}

#[test]
fn derived_capacity_is_full_when_no_vms_exist() {
    let cap = HostCapacity::derive_from_dir(&vec![], 8, 8192, TOTAL_DISK);
    assert_eq!(cap.available_vcpus, 8);
    assert_eq!(cap.available_memory_mib, 8192);
    assert_eq!(cap.available_disk_bytes, TOTAL_DISK);
}

#[test]
fn derived_capacity_subtracts_on_disk_vms() {
    let medium = ResourceLimits::medium();
    let large = ResourceLimits::large();
    let entries = vec![VmDirEntry::Found(medium), VmDirEntry::Found(large)];

    let cap = HostCapacity::derive_from_dir(&entries, 8, 8192, TOTAL_DISK);
    assert_eq!(cap.total_vcpus, 8);
    assert_eq!(cap.available_vcpus, 8 - 2 - 4);
    assert_eq!(cap.available_memory_mib, 8192 - 512 - 2048);
    assert_eq!(
        cap.available_disk_bytes,
        TOTAL_DISK - medium.storage.rootfs_size_bytes - large.storage.rootfs_size_bytes
    );
}

#[test]
fn derived_capacity_skips_unparseable_configs() {
    let entries = vec![
        VmDirEntry::Found(ResourceLimits::medium()),
        VmDirEntry::Malformed,
        VmDirEntry::Unreadable,
        VmDirEntry::NotADirectory,
    ];
    let cap = HostCapacity::derive_from_dir(&entries, 8, 8192, TOTAL_DISK);
    assert_eq!(cap.available_vcpus, 6);
    assert_eq!(cap.available_memory_mib, 8192 - 512);
}

#[test]
fn derived_capacity_saturates_when_overcommitted() {
    let entries = vec![
        VmDirEntry::Found(ResourceLimits::large()),
        VmDirEntry::Found(ResourceLimits::large()),
        VmDirEntry::Found(ResourceLimits::large()),
    ];
    // Only 2 vCPUs and 1 GiB on the host, but 12 vCPUs already committed.
    let cap = HostCapacity::derive_from_dir(&entries, 2, 1024, TOTAL_DISK);
    assert_eq!(cap.available_vcpus, 0);
    assert_eq!(cap.available_memory_mib, 0);
}

#[test]
fn derived_capacity_rejects_a_new_vm_once_full() {
    let entries = vec![VmDirEntry::Found(ResourceLimits::large())];
    let mut cap = HostCapacity::derive_from_dir(&entries, 4, 8192, TOTAL_DISK);
    assert!(cap.reserve(&ResourceLimits::large()).is_err());
}

#[test]
fn a_refused_reservation_says_what_was_asked_and_changes_nothing() {
    let mut host = make_host();
    host.available_memory_mib = 100;
    match host.reserve(&ResourceLimits::small()) {
        Err(OsError::ResourceLimitExceeded { resource, limit, requested }) => {
            assert_eq!(resource, "host capacity");
            assert_eq!(limit, "vcpu=8, mem=100MiB, disk=107374182400B");
            assert_eq!(requested, "vcpu=1, mem=128MiB, disk=536870912B");
        }
        other => panic!("{:?}", other),
    }
    assert_eq!(host.available_vcpus, 8);
    assert_eq!(host.available_memory_mib, 100);
}

#[test]
fn an_exact_fit_is_a_fit() {
    let mut host = HostCapacity::derive_from_dir(&vec![], 4, 2048, 8 * 1024 * 1024 * 1024);
    assert!(host.reserve(&ResourceLimits::large()).is_ok());
    assert_eq!(host.available_vcpus, 0);
    assert_eq!(host.available_memory_mib, 0);
    assert_eq!(host.available_disk_bytes, 0);
    assert!(host.reserve(&ResourceLimits::small()).is_err());
}

#[test]
fn release_never_exceeds_the_totals() {
    let mut host = make_host();
    host.release(&ResourceLimits::large());
    assert_eq!(host.available_vcpus, 8);
    assert_eq!(host.available_memory_mib, 8192);
    assert_eq!(host.available_disk_bytes, TOTAL_DISK);

    let mut host = HostCapacity {
        total_vcpus: u32::MAX,
        available_vcpus: u32::MAX,
        total_memory_mib: u64::MAX,
        available_memory_mib: u64::MAX,
        total_disk_bytes: u64::MAX,
        available_disk_bytes: u64::MAX,
    };
    host.release(&ResourceLimits::large());
    assert_eq!(host.available_memory_mib, u64::MAX);
}

#[test]
fn reservations_commute() {
    let mut a = make_host();
    let mut b = make_host();
    a.reserve(&ResourceLimits::medium()).unwrap();
    a.reserve(&ResourceLimits::large()).unwrap();
    b.reserve(&ResourceLimits::large()).unwrap();
    b.reserve(&ResourceLimits::medium()).unwrap();
    assert_eq!(a.available_vcpus, b.available_vcpus);
    assert_eq!(a.available_memory_mib, b.available_memory_mib);
    assert_eq!(a.available_disk_bytes, b.available_disk_bytes);
}

#[test]
fn a_vm_on_disk_counts_like_a_reservation() {
    let mut host = HostCapacity::derive_from_dir(&vec![], 8, 8192, TOTAL_DISK);
    host.reserve(&ResourceLimits::medium()).unwrap();
    let entries = vec![VmDirEntry::Found(ResourceLimits::medium())];
    let derived = HostCapacity::derive_from_dir(&entries, 8, 8192, TOTAL_DISK);
    assert_eq!(host.available_vcpus, derived.available_vcpus);
    assert_eq!(host.available_memory_mib, derived.available_memory_mib);
    assert_eq!(host.available_disk_bytes, derived.available_disk_bytes);
}

#[test]
fn preset_sizes_in_full() {
    let small = ResourceLimits::small();
    assert_eq!(small.cpu.vcpu_count, 1);
    assert_eq!(small.memory.size_mib, 128);
    assert_eq!(small.storage.rootfs_size_bytes, 512 * 1024 * 1024);
    let medium = ResourceLimits::medium();
    assert_eq!(medium.cpu.vcpu_count, 2);
    assert_eq!(medium.memory.size_mib, 512);
    assert_eq!(medium.storage.rootfs_size_bytes, 2 * 1024 * 1024 * 1024);
    let large = ResourceLimits::large();
    assert_eq!(large.cpu.vcpu_count, 4);
    assert_eq!(large.memory.size_mib, 2048);
    assert_eq!(large.storage.rootfs_size_bytes, 8 * 1024 * 1024 * 1024);
}

#[test]
fn a_removed_directory_frees_its_share() {
    let medium = VmDirEntry::Found(ResourceLimits::medium());
    let large = VmDirEntry::Found(ResourceLimits::large());
    let both = HostCapacity::derive_from_dir(&vec![large, medium], 8, 8192, TOTAL_DISK);
    let one = HostCapacity::derive_from_dir(&vec![medium], 8, 8192, TOTAL_DISK);
    assert_eq!(one.available_vcpus - both.available_vcpus, 4);
    assert_eq!(one.available_memory_mib - both.available_memory_mib, 2048);
}

#[test]
fn the_order_of_the_directory_does_not_matter() {
    let medium = VmDirEntry::Found(ResourceLimits::medium());
    let large = VmDirEntry::Found(ResourceLimits::large());
    let a = HostCapacity::derive_from_dir(&vec![large, VmDirEntry::Malformed, medium], 5, 600, 9);
    let b = HostCapacity::derive_from_dir(&vec![medium, large, VmDirEntry::Malformed], 5, 600, 9);
    assert_eq!(a.available_vcpus, 0);
    assert_eq!(a.available_vcpus, b.available_vcpus);
    assert_eq!(a.available_memory_mib, b.available_memory_mib);
    assert_eq!(a.available_disk_bytes, b.available_disk_bytes);
}

#[test]
fn each_resource_saturates_on_its_own() {
    let entries = vec![VmDirEntry::Found(ResourceLimits::large())];
    let cap = HostCapacity::derive_from_dir(&entries, 2, 4096, TOTAL_DISK);
    assert_eq!(cap.available_vcpus, 0);
    assert_eq!(cap.available_memory_mib, 2048);
    assert_eq!(cap.available_disk_bytes, TOTAL_DISK - 8 * 1024 * 1024 * 1024);
    assert_eq!(cap.total_vcpus, 2);
}

#[test]
fn subtracting_saturates_commutes_and_agrees_with_reserving() {
    let medium = ResourceLimits::medium();
    let large = ResourceLimits::large();
    let mut a = make_host();
    let mut b = make_host();
    a.subtract(&medium);
    b.reserve(&medium).unwrap();
    assert_eq!(a.available_vcpus, b.available_vcpus);
    assert_eq!(a.available_memory_mib, b.available_memory_mib);
    assert_eq!(a.available_disk_bytes, b.available_disk_bytes);

    let mut a = HostCapacity::derive_from_dir(&vec![], 5, 2100, TOTAL_DISK);
    let mut b = a;
    a.subtract(&medium);
    a.subtract(&large);
    b.subtract(&large);
    b.subtract(&medium);
    assert_eq!(a.available_vcpus, 0);
    assert_eq!(a.available_memory_mib, 0);
    assert_eq!(a.available_disk_bytes, TOTAL_DISK - 10 * 1024 * 1024 * 1024);
    assert_eq!(a.available_disk_bytes, b.available_disk_bytes);
    assert_eq!(b.available_vcpus, 0);
    assert_eq!(a.total_vcpus, 5);
}
