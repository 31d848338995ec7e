//! Resource limits of a microVM, and the capacity of the host they are taken from.

use vstd::prelude::*;
use vstd::string::*;

use crate::error::{Failure, OsError, OsResult};
use crate::text;

verus! {

/// CPU resource limits for a microVM.
#[derive(Debug, Clone, Copy)]
pub struct CpuLimits {
    /// Number of vCPUs allocated to the VM.
    pub vcpu_count: u8,
    /// CPU quota in microseconds per 100ms period (CFS).
    /// None = no throttling beyond vcpu_count.
    pub cfs_quota_us: Option<u64>,
    /// CPU period in microseconds (default 100_000).
    pub cfs_period_us: u64,
}

impl Default for CpuLimits {
    fn default() -> (r: Self)
        ensures
            r == (CpuLimits { vcpu_count: 1, cfs_quota_us: None, cfs_period_us: 100_000 }),
    {
        CpuLimits { vcpu_count: 1, cfs_quota_us: None, cfs_period_us: 100_000 }
    }
}

/// Memory resource limits for a microVM.
#[derive(Debug, Clone, Copy)]
pub struct MemoryLimits {
    /// Memory allocated to the VM in MiB.
    pub size_mib: u64,
    /// Hard memory limit for the cgroup in bytes.
    /// Defaults to size_mib * 1024 * 1024.
    pub cgroup_limit_bytes: Option<u64>,
    /// Swap limit in bytes. None = no swap.
    pub swap_limit_bytes: Option<u64>,
}

impl Default for MemoryLimits {
    fn default() -> (r: Self)
        ensures
            r == (MemoryLimits {
                size_mib: 128,
                cgroup_limit_bytes: None,
                swap_limit_bytes: Some(0),
            }),
    {
        MemoryLimits { size_mib: 128, cgroup_limit_bytes: None, swap_limit_bytes: Some(0) }
    }
}

/// Storage / disk I/O limits for a microVM.
#[derive(Debug, Clone, Copy)]
pub struct StorageLimits {
    /// Maximum rootfs size in bytes.
    pub rootfs_size_bytes: u64,
    /// Additional data disk size in bytes. None = no data disk.
    pub data_disk_size_bytes: Option<u64>,
    /// Read rate limiter: bytes per second.
    pub read_rate_bps: Option<u64>,
    /// Write rate limiter: bytes per second.
    pub write_rate_bps: Option<u64>,
    /// Read operations per second.
    pub read_ops_ps: Option<u64>,
    /// Write operations per second.
    pub write_ops_ps: Option<u64>,
}

/// Storage limits that bound only the size of the rootfs.
pub open spec fn rootfs_only(rootfs_size_bytes: u64) -> StorageLimits {
    StorageLimits {
        rootfs_size_bytes,
        data_disk_size_bytes: None,
        read_rate_bps: None,
        write_rate_bps: None,
        read_ops_ps: None,
        write_ops_ps: None,
    }
}

impl Default for StorageLimits {
    fn default() -> (r: Self)
        ensures
            r == rootfs_only(0x2000_0000),
    {
        StorageLimits {
            rootfs_size_bytes: 512 * 1024 * 1024,  // 512 MiB
            data_disk_size_bytes: None,
            read_rate_bps: None,
            write_rate_bps: None,
            read_ops_ps: None,
            write_ops_ps: None,
        }
    }
}

/// Network I/O limits for a microVM.
#[derive(Debug, Clone, Copy)]
pub struct NetworkLimits {
    /// Inbound bandwidth limit in bytes per second.
    pub rx_rate_bps: Option<u64>,
    /// Outbound bandwidth limit in bytes per second.
    pub tx_rate_bps: Option<u64>,
    /// Inbound packet rate limit (packets per second).
    pub rx_rate_pps: Option<u64>,
    /// Outbound packet rate limit (packets per second).
    pub tx_rate_pps: Option<u64>,
}

/// No limits on the network.
pub open spec fn unlimited() -> NetworkLimits {
    NetworkLimits { rx_rate_bps: None, tx_rate_bps: None, rx_rate_pps: None, tx_rate_pps: None }
}

impl Default for NetworkLimits {
    fn default() -> (r: Self)
        ensures
            r == unlimited(),
    {
        NetworkLimits {
            rx_rate_bps: None,
            tx_rate_bps: None,
            rx_rate_pps: None,
            tx_rate_pps: None,
        }
    }
}

/// Complete resource limits for a microVM.
#[derive(Debug, Clone, Copy)]
pub struct ResourceLimits {
    pub cpu: CpuLimits,
    pub memory: MemoryLimits,
    pub storage: StorageLimits,
    pub network: NetworkLimits,
}

/// Limits that set a number of vCPUs, a memory size and a rootfs size, and
/// leave everything else at its default.
pub open spec fn sized(vcpu_count: u8, size_mib: u64, rootfs_size_bytes: u64) -> ResourceLimits {
    ResourceLimits {
        cpu: CpuLimits { vcpu_count, cfs_quota_us: None, cfs_period_us: 100_000 },
        memory: MemoryLimits { size_mib, cgroup_limit_bytes: None, swap_limit_bytes: Some(0) },
        storage: rootfs_only(rootfs_size_bytes),
        network: unlimited(),
    }
}

pub open spec fn small_limits() -> ResourceLimits {
    sized(1, 128, 0x2000_0000)
}

pub open spec fn medium_limits() -> ResourceLimits {
    sized(2, 512, 0x8000_0000)
}

pub open spec fn large_limits() -> ResourceLimits {
    sized(4, 2048, 0x2_0000_0000)
}

impl Default for ResourceLimits {
    fn default() -> (r: Self)
        ensures
            r == small_limits(),
    {
        ResourceLimits {
            cpu: CpuLimits::default(),
            memory: MemoryLimits::default(),
            storage: StorageLimits::default(),
            network: NetworkLimits::default(),
        }
    }
}

impl ResourceLimits {
    /// Create limits for a small VM (1 vCPU, 128 MiB RAM, 512 MiB disk).
    pub fn small() -> (r: Self)
        ensures
            r == small_limits(),
    {
        Self::default()
    }

    /// Create limits for a medium VM (2 vCPUs, 512 MiB RAM, 2 GiB disk).
    pub fn medium() -> (r: Self)
        ensures
            r == medium_limits(),
    {
        ResourceLimits {
            cpu: CpuLimits { vcpu_count: 2, ..CpuLimits::default() },
            memory: MemoryLimits { size_mib: 512, ..MemoryLimits::default() },
            storage: StorageLimits {
                rootfs_size_bytes: 2 * 1024 * 1024 * 1024,
                ..StorageLimits::default()
            },
            network: NetworkLimits::default(),
        }
    }

    /// Create limits for a large VM (4 vCPUs, 2048 MiB RAM, 8 GiB disk).
    pub fn large() -> (r: Self)
        ensures
            r == large_limits(),
    {
        ResourceLimits {
            cpu: CpuLimits { vcpu_count: 4, ..CpuLimits::default() },
            memory: MemoryLimits { size_mib: 2048, ..MemoryLimits::default() },
            storage: StorageLimits {
                rootfs_size_bytes: 8 * 1024 * 1024 * 1024,
                ..StorageLimits::default()
            },
            network: NetworkLimits::default(),
        }
    }

    /// Do these limits ask for no more than the host has available?
    pub open spec fn fits(self, host: HostCapacity) -> bool {
        &&& self.cpu.vcpu_count <= host.available_vcpus
        &&& self.memory.size_mib <= host.available_memory_mib
        &&& self.storage.rootfs_size_bytes <= host.available_disk_bytes
    }

    /// Check whether the requested resources fit within a host capacity.
    pub fn fits_in(&self, host: &HostCapacity) -> (r: bool)
        ensures
            r == self.fits(*host),
    {
        self.cpu.vcpu_count as u32 <= host.available_vcpus && self.memory.size_mib
            <= host.available_memory_mib && self.storage.rootfs_size_bytes
            <= host.available_disk_bytes
    }
}

/// Represents the available capacity on a host machine.
#[derive(Debug, Clone, Copy)]
pub struct HostCapacity {
    pub total_vcpus: u32,
    pub available_vcpus: u32,
    pub total_memory_mib: u64,
    pub available_memory_mib: u64,
    pub total_disk_bytes: u64,
    pub available_disk_bytes: u64,
}

/// What a look at one entry of the VM directory gave.
#[derive(Debug, Clone, Copy)]
pub enum VmDirEntry {
    /// The entry is no directory.
    NotADirectory,
    /// The directory holds no configuration that can be read.
    Unreadable,
    /// The configuration does not parse.
    Malformed,
    /// The resources that the configuration names.
    Found(ResourceLimits),
}

/// The larger of zero and `x`.
pub open spec fn floored(x: int) -> int {
    if x < 0 {
        0
    } else {
        x
    }
}

pub open spec fn smaller(x: int, y: int) -> int {
    if x < y {
        x
    } else {
        y
    }
}

/// How many vCPUs an entry of the VM directory takes.
pub open spec fn entry_vcpus(entry: VmDirEntry) -> nat {
    match entry {
        VmDirEntry::Found(limits) => limits.cpu.vcpu_count as nat,
        _ => 0,
    }
}

/// How much memory an entry of the VM directory takes.
pub open spec fn entry_memory(entry: VmDirEntry) -> nat {
    match entry {
        VmDirEntry::Found(limits) => limits.memory.size_mib as nat,
        _ => 0,
    }
}

/// How much disk an entry of the VM directory takes.
pub open spec fn entry_disk(entry: VmDirEntry) -> nat {
    match entry {
        VmDirEntry::Found(limits) => limits.storage.rootfs_size_bytes as nat,
        _ => 0,
    }
}

/// What a row of entries takes in all, where `take` says what one takes.
pub open spec fn committed(entries: Seq<VmDirEntry>, take: spec_fn(VmDirEntry) -> nat) -> nat
    decreases entries.len(),
{
    if entries.len() == 0 {
        0
    } else {
        committed(entries.drop_last(), take) + take(entries.last())
    }
}

/// The capacity of a host with these totals and these entries in its VM directory.
pub open spec fn derived(
    entries: Seq<VmDirEntry>,
    total_vcpus: u32,
    total_memory_mib: u64,
    total_disk_bytes: u64,
) -> HostCapacity {
    HostCapacity {
        total_vcpus,
        available_vcpus: floored(
            total_vcpus - committed(entries, |e: VmDirEntry| entry_vcpus(e)),
        ) as u32,
        total_memory_mib,
        available_memory_mib: floored(
            total_memory_mib - committed(entries, |e: VmDirEntry| entry_memory(e)),
        ) as u64,
        total_disk_bytes,
        available_disk_bytes: floored(
            total_disk_bytes - committed(entries, |e: VmDirEntry| entry_disk(e)),
        ) as u64,
    }
}

impl HostCapacity {
    /// Nothing is available beyond the totals.
    pub open spec fn wf(self) -> bool {
        &&& self.available_vcpus <= self.total_vcpus
        &&& self.available_memory_mib <= self.total_memory_mib
        &&& self.available_disk_bytes <= self.total_disk_bytes
    }

    /// The totals are those of `other`.
    pub open spec fn same_totals(self, other: HostCapacity) -> bool {
        &&& self.total_vcpus == other.total_vcpus
        &&& self.total_memory_mib == other.total_memory_mib
        &&& self.total_disk_bytes == other.total_disk_bytes
    }

    /// The capacity that is left once `limits` are taken.
    pub open spec fn less(self, limits: ResourceLimits) -> HostCapacity {
        HostCapacity {
            available_vcpus: floored(self.available_vcpus - limits.cpu.vcpu_count) as u32,
            available_memory_mib: floored(
                self.available_memory_mib - limits.memory.size_mib,
            ) as u64,
            available_disk_bytes: floored(
                self.available_disk_bytes - limits.storage.rootfs_size_bytes,
            ) as u64,
            ..self
        }
    }

    /// The capacity once `limits` are given back, never beyond the totals.
    pub open spec fn plus(self, limits: ResourceLimits) -> HostCapacity {
        HostCapacity {
            available_vcpus: smaller(
                self.available_vcpus + limits.cpu.vcpu_count,
                self.total_vcpus as int,
            ) as u32,
            available_memory_mib: smaller(
                self.available_memory_mib + limits.memory.size_mib,
                self.total_memory_mib as int,
            ) as u64,
            available_disk_bytes: smaller(
                self.available_disk_bytes + limits.storage.rootfs_size_bytes,
                self.total_disk_bytes as int,
            ) as u64,
            ..self
        }
    }

    /// Build capacity for a host by subtracting every VM already on disk.
    ///
    /// Each invocation is a separate process, so there is no in-memory
    /// reservation to inherit: availability has to be recovered from
    /// `vms/<id>/vm-config.json`. Deriving it rather than persisting a counter
    /// is self-healing: there is no tally that can drift from reality, and a
    /// removed VM directory frees its resources by construction.
    ///
    /// Unreadable or malformed configs are skipped: refusing to report capacity
    /// because one directory is corrupt would be worse than slightly
    /// overstating it.
    pub fn derive_from_dir(
        entries: &Vec<VmDirEntry>,
        total_vcpus: u32,
        total_memory_mib: u64,
        total_disk_bytes: u64,
    ) -> (r: Self)
        ensures
            r == derived(entries@, total_vcpus, total_memory_mib, total_disk_bytes),
            r.wf(),
    {
        let mut capacity = HostCapacity {
            total_vcpus,
            available_vcpus: total_vcpus,
            total_memory_mib,
            available_memory_mib: total_memory_mib,
            total_disk_bytes,
            available_disk_bytes: total_disk_bytes,
        };
        let ghost vcpus = |e: VmDirEntry| entry_vcpus(e);
        let ghost memory = |e: VmDirEntry| entry_memory(e);
        let ghost disk = |e: VmDirEntry| entry_disk(e);
        let mut i: usize = 0;
        while i < entries.len()
            invariant
                i <= entries.len(),
                vcpus == (|e: VmDirEntry| entry_vcpus(e)),
                memory == (|e: VmDirEntry| entry_memory(e)),
                disk == (|e: VmDirEntry| entry_disk(e)),
                capacity.total_vcpus == total_vcpus,
                capacity.total_memory_mib == total_memory_mib,
                capacity.total_disk_bytes == total_disk_bytes,
                capacity.available_vcpus == floored(
                    total_vcpus - committed(entries@.take(i as int), vcpus),
                ),
                capacity.available_memory_mib == floored(
                    total_memory_mib - committed(entries@.take(i as int), memory),
                ),
                capacity.available_disk_bytes == floored(
                    total_disk_bytes - committed(entries@.take(i as int), disk),
                ),
            decreases entries.len() - i,
        {
            match entries[i] {
                VmDirEntry::Found(limits) => capacity.subtract(&limits),
                _ => {},
            }
            proof {
                let next = entries@.take(i + 1);
                assert(next.drop_last() =~= entries@.take(i as int));
                assert(next.last() == entries@[i as int]);
            }
            i += 1;
        }
        assert(entries@.take(entries.len() as int) =~= entries@);
        capacity
    }

    /// Subtract a VM's resources, saturating at zero.
    ///
    /// Saturating rather than erroring: a host that is overcommitted should
    /// report "nothing available".
    pub fn subtract(&mut self, limits: &ResourceLimits)
        ensures
            *final(self) == old(self).less(*limits),
            final(self).available_vcpus == floored(
                old(self).available_vcpus - limits.cpu.vcpu_count,
            ),
            final(self).available_memory_mib == floored(
                old(self).available_memory_mib - limits.memory.size_mib,
            ),
            final(self).available_disk_bytes == floored(
                old(self).available_disk_bytes - limits.storage.rootfs_size_bytes,
            ),
            final(self).same_totals(*old(self)),
    {
        self.available_vcpus = self.available_vcpus.saturating_sub(limits.cpu.vcpu_count as u32);
        self.available_memory_mib =
        self.available_memory_mib.saturating_sub(limits.memory.size_mib);
        self.available_disk_bytes =
        self.available_disk_bytes.saturating_sub(limits.storage.rootfs_size_bytes);
    }

    /// Reserve resources for a VM, returning an error if insufficient.
    pub fn reserve(&mut self, limits: &ResourceLimits) -> (r: OsResult<()>)
        ensures
            r is Ok <==> limits.fits(*old(self)),
            r is Ok ==> *final(self) == old(self).less(*limits),
            r is Err ==> *final(self) == *old(self),
            r matches Err(e) ==> e@ == over_capacity(*old(self), *limits),
    {
        if !limits.fits_in(self) {
            return Err(
                OsError::ResourceLimitExceeded {
                    resource: "host capacity".to_string(),
                    limit: amounts(
                        self.available_vcpus as u64,
                        self.available_memory_mib,
                        self.available_disk_bytes,
                    ),
                    requested: amounts(
                        limits.cpu.vcpu_count as u64,
                        limits.memory.size_mib,
                        limits.storage.rootfs_size_bytes,
                    ),
                },
            );
        }
        self.available_vcpus = self.available_vcpus - limits.cpu.vcpu_count as u32;
        self.available_memory_mib = self.available_memory_mib - limits.memory.size_mib;
        self.available_disk_bytes = self.available_disk_bytes - limits.storage.rootfs_size_bytes;
        Ok(())
    }

    /// Release resources previously reserved by a VM.
    pub fn release(&mut self, limits: &ResourceLimits)
        ensures
            *final(self) == old(self).plus(*limits),
    {
        self.available_vcpus =
        capped_sum(
            self.available_vcpus as u64,
            limits.cpu.vcpu_count as u64,
            self.total_vcpus as u64,
        ) as u32;
        self.available_memory_mib =
        capped_sum(self.available_memory_mib, limits.memory.size_mib, self.total_memory_mib);
        self.available_disk_bytes =
        capped_sum(
            self.available_disk_bytes,
            limits.storage.rootfs_size_bytes,
            self.total_disk_bytes,
        );
    }
}

/// The smaller of `a + b` and `cap`.
fn capped_sum(a: u64, b: u64, cap: u64) -> (r: u64)
    ensures
        r == smaller(a + b, cap as int),
{
    if a >= cap || b >= cap - a {
        cap
    } else {
        a + b
    }
}

/// Amounts of vCPUs, memory and disk, as an error names them.
pub open spec fn amounts_text(vcpus: nat, memory_mib: nat, disk_bytes: nat) -> Seq<char> {
    "vcpu="@ + text::dec(vcpus) + ", mem="@ + text::dec(memory_mib) + "MiB, disk="@ + text::dec(
        disk_bytes,
    ) + "B"@
}

fn amounts(vcpus: u64, memory_mib: u64, disk_bytes: u64) -> (r: String)
    ensures
        r@ == amounts_text(vcpus as nat, memory_mib as nat, disk_bytes as nat),
{
    let mut s = "vcpu=".to_string();
    s.append(text::decimal(vcpus).as_str());
    s.append(", mem=");
    s.append(text::decimal(memory_mib).as_str());
    s.append("MiB, disk=");
    s.append(text::decimal(disk_bytes).as_str());
    s.append("B");
    s
}

/// The error for limits that the host cannot meet.
pub open spec fn over_capacity(host: HostCapacity, limits: ResourceLimits) -> Failure {
    Failure::ResourceLimitExceeded {
        resource: "host capacity"@,
        limit: amounts_text(
            host.available_vcpus as nat,
            host.available_memory_mib as nat,
            host.available_disk_bytes as nat,
        ),
        requested: amounts_text(
            limits.cpu.vcpu_count as nat,
            limits.memory.size_mib as nat,
            limits.storage.rootfs_size_bytes as nat,
        ),
    }
}

// ---------------------------------------------------------------------------
// Laws
// ---------------------------------------------------------------------------
/// What is reserved and then released is available again, and nothing else changes.
pub proof fn law_release_undoes_reserve(host: HostCapacity, limits: ResourceLimits)
    requires
        host.wf(),
        limits.fits(host),
    ensures
        host.less(limits).plus(limits) == host,
{
}

/// Taking and giving back resources keeps what is available within the totals,
/// and keeps the totals.
pub proof fn law_capacity_stays_within_totals(host: HostCapacity, limits: ResourceLimits)
    requires
        host.wf(),
    ensures
        host.less(limits).wf(),
        host.plus(limits).wf(),
        host.less(limits).same_totals(host),
        host.plus(limits).same_totals(host),
{
}

/// Taking resources takes of each as much as there is, whatever becomes of the
/// other two, and keeps the totals. Where the limits fit, it takes exactly what
/// they name.
pub proof fn law_subtraction_saturates(host: HostCapacity, limits: ResourceLimits)
    ensures
        host.less(limits).available_vcpus == floored(
            host.available_vcpus - limits.cpu.vcpu_count,
        ),
        host.less(limits).available_memory_mib == floored(
            host.available_memory_mib - limits.memory.size_mib,
        ),
        host.less(limits).available_disk_bytes == floored(
            host.available_disk_bytes - limits.storage.rootfs_size_bytes,
        ),
        host.less(limits).same_totals(host),
        limits.fits(host) ==> {
            &&& host.less(limits).available_vcpus == host.available_vcpus - limits.cpu.vcpu_count
            &&& host.less(limits).available_memory_mib == host.available_memory_mib
                - limits.memory.size_mib
            &&& host.less(limits).available_disk_bytes == host.available_disk_bytes
                - limits.storage.rootfs_size_bytes
        },
{
}

/// Taking resources twice leaves the same capacity in either order, whether or
/// not they fit.
pub proof fn law_subtractions_commute(host: HostCapacity, a: ResourceLimits, b: ResourceLimits)
    ensures
        host.less(a).less(b) == host.less(b).less(a),
{
}

/// Reservations that both succeed also succeed in the other order, and leave
/// the same capacity.
pub proof fn law_reservations_commute(host: HostCapacity, a: ResourceLimits, b: ResourceLimits)
    requires
        a.fits(host),
        b.fits(host.less(a)),
    ensures
        b.fits(host),
        a.fits(host.less(b)),
        host.less(a).less(b) == host.less(b).less(a),
{
}

/// An entry that leaves the VM directory frees what it took, wherever it stood.
pub proof fn law_removed_entry_frees_its_share(
    entries: Seq<VmDirEntry>,
    i: int,
    take: spec_fn(VmDirEntry) -> nat,
)
    requires
        0 <= i < entries.len(),
    ensures
        committed(entries.remove(i), take) + take(entries[i]) == committed(entries, take),
    decreases entries.len(),
{
    let rest = entries.remove(i);
    if i == entries.len() - 1 {
        assert(rest =~= entries.drop_last());
    } else {
        law_removed_entry_frees_its_share(entries.drop_last(), i, take);
        assert(rest.drop_last() =~= entries.drop_last().remove(i));
        assert(rest.last() == entries.last());
    }
}

/// A VM whose configuration appears in the directory takes from the derived
/// capacity exactly what reserving it takes.
pub proof fn law_derived_capacity_counts_each_vm(
    entries: Seq<VmDirEntry>,
    limits: ResourceLimits,
    total_vcpus: u32,
    total_memory_mib: u64,
    total_disk_bytes: u64,
)
    ensures
        derived(
            entries.push(VmDirEntry::Found(limits)),
            total_vcpus,
            total_memory_mib,
            total_disk_bytes,
        ) == derived(entries, total_vcpus, total_memory_mib, total_disk_bytes).less(limits),
{
    assert(entries.push(VmDirEntry::Found(limits)).drop_last() =~= entries);
}

/// A reservation against the derived capacity never overcommits the host: with
/// what the VMs on disk take, it stays within the totals.
pub proof fn law_reservations_never_overcommit(
    entries: Seq<VmDirEntry>,
    limits: ResourceLimits,
    total_vcpus: u32,
    total_memory_mib: u64,
    total_disk_bytes: u64,
)
    requires
        limits.fits(derived(entries, total_vcpus, total_memory_mib, total_disk_bytes)),
    ensures
        limits.cpu.vcpu_count > 0 ==> committed(entries, |e: VmDirEntry| entry_vcpus(e))
            + limits.cpu.vcpu_count <= total_vcpus,
        limits.memory.size_mib > 0 ==> committed(entries, |e: VmDirEntry| entry_memory(e))
            + limits.memory.size_mib <= total_memory_mib,
        limits.storage.rootfs_size_bytes > 0 ==> committed(entries, |e: VmDirEntry| entry_disk(e))
            + limits.storage.rootfs_size_bytes <= total_disk_bytes,
{
}

proof fn lemma_committed_by_multiset(
    a: Seq<VmDirEntry>,
    b: Seq<VmDirEntry>,
    take: spec_fn(VmDirEntry) -> nat,
)
    requires
        a.to_multiset() == b.to_multiset(),
    ensures
        committed(a, take) == committed(b, take),
    decreases a.len(),
{
    a.to_multiset_ensures();
    b.to_multiset_ensures();
    assert(a.len() == b.len());
    if a.len() > 0 {
        let last = a.last();
        let n = a.len() - 1;
        assert(a.contains(last));
        assert(b.to_multiset().count(last) > 0);
        assert(b.contains(last));
        let i = choose|i: int| 0 <= i < b.len() && b[i] == last;
        assert(a.remove(n) =~= a.drop_last());
        assert(a.remove(n).to_multiset() =~= a.to_multiset().remove(last));
        assert(b.remove(i).to_multiset() =~= b.to_multiset().remove(last));
        lemma_committed_by_multiset(a.drop_last(), b.remove(i), take);
        law_removed_entry_frees_its_share(b, i, take);
    }
}

/// The derived capacity does not depend on the order in which the directory
/// lists its entries.
pub proof fn law_derived_capacity_ignores_order(
    a: Seq<VmDirEntry>,
    b: Seq<VmDirEntry>,
    total_vcpus: u32,
    total_memory_mib: u64,
    total_disk_bytes: u64,
)
    requires
        a.to_multiset() == b.to_multiset(),
    ensures
        derived(a, total_vcpus, total_memory_mib, total_disk_bytes) == derived(
            b,
            total_vcpus,
            total_memory_mib,
            total_disk_bytes,
        ),
{
    lemma_committed_by_multiset(a, b, |e: VmDirEntry| entry_vcpus(e));
    lemma_committed_by_multiset(a, b, |e: VmDirEntry| entry_memory(e));
    lemma_committed_by_multiset(a, b, |e: VmDirEntry| entry_disk(e));
}

/// What is given back is added to each resource, up to its total.
pub proof fn law_release_adds(host: HostCapacity, limits: ResourceLimits)
    ensures
        ({
            let after = host.plus(limits);
            let vcpus = host.available_vcpus + limits.cpu.vcpu_count;
            let memory = host.available_memory_mib + limits.memory.size_mib;
            let disk = host.available_disk_bytes + limits.storage.rootfs_size_bytes;
            &&& vcpus <= host.total_vcpus ==> after.available_vcpus == vcpus
            &&& vcpus > host.total_vcpus ==> after.available_vcpus == host.total_vcpus
            &&& memory <= host.total_memory_mib ==> after.available_memory_mib == memory
            &&& memory > host.total_memory_mib ==> after.available_memory_mib
                == host.total_memory_mib
            &&& disk <= host.total_disk_bytes ==> after.available_disk_bytes == disk
            &&& disk > host.total_disk_bytes ==> after.available_disk_bytes
                == host.total_disk_bytes
            &&& after.same_totals(host)
        }),
{
}

/// What is taken comes off each resource, down to nothing.
pub proof fn law_taking_subtracts(host: HostCapacity, limits: ResourceLimits)
    ensures
        ({
            let after = host.less(limits);
            &&& limits.cpu.vcpu_count <= host.available_vcpus ==> after.available_vcpus
                == host.available_vcpus - limits.cpu.vcpu_count
            &&& limits.cpu.vcpu_count > host.available_vcpus ==> after.available_vcpus == 0
            &&& limits.memory.size_mib <= host.available_memory_mib ==> after.available_memory_mib
                == host.available_memory_mib - limits.memory.size_mib
            &&& limits.memory.size_mib > host.available_memory_mib ==> after.available_memory_mib
                == 0
            &&& limits.storage.rootfs_size_bytes <= host.available_disk_bytes
                ==> after.available_disk_bytes == host.available_disk_bytes
                - limits.storage.rootfs_size_bytes
            &&& limits.storage.rootfs_size_bytes > host.available_disk_bytes
                ==> after.available_disk_bytes == 0
            &&& after.total_vcpus == host.total_vcpus
            &&& after.total_memory_mib == host.total_memory_mib
            &&& after.total_disk_bytes == host.total_disk_bytes
        }),
{
}

/// Limits fit if and only if each resource they ask for is available.
pub proof fn law_fitting_is_per_resource(limits: ResourceLimits, host: HostCapacity)
    ensures
        limits.fits(host) <==> limits.cpu.vcpu_count <= host.available_vcpus
            && limits.memory.size_mib <= host.available_memory_mib
            && limits.storage.rootfs_size_bytes <= host.available_disk_bytes,
        over_capacity(host, limits) == (Failure::ResourceLimitExceeded {
            resource: "host capacity"@,
            limit: "vcpu="@ + text::dec(host.available_vcpus as nat) + ", mem="@ + text::dec(
                host.available_memory_mib as nat,
            ) + "MiB, disk="@ + text::dec(host.available_disk_bytes as nat) + "B"@,
            requested: "vcpu="@ + text::dec(limits.cpu.vcpu_count as nat) + ", mem="@ + text::dec(
                limits.memory.size_mib as nat,
            ) + "MiB, disk="@ + text::dec(limits.storage.rootfs_size_bytes as nat) + "B"@,
        }),
{
}

/// What the three sizes are. In all else they are the defaults: no quota in a
/// period of a tenth of a second, no swap, no data disk and no rate limits.
pub proof fn law_preset_sizes()
    ensures
        small_limits().cpu.vcpu_count == 1,
        small_limits().memory.size_mib == 128,
        small_limits().storage.rootfs_size_bytes == 512 * 1024 * 1024,
        medium_limits().cpu.vcpu_count == 2,
        medium_limits().memory.size_mib == 512,
        medium_limits().storage.rootfs_size_bytes == 2 * 1024 * 1024 * 1024,
        large_limits().cpu.vcpu_count == 4,
        large_limits().memory.size_mib == 2048,
        large_limits().storage.rootfs_size_bytes == 8 * 1024 * 1024 * 1024,
        forall|limits: ResourceLimits|
            limits == small_limits() || limits == medium_limits() || limits == large_limits() ==> {
                &&& #[trigger] limits.cpu.cfs_quota_us is None
                &&& limits.cpu.cfs_period_us == 100_000
                &&& limits.memory.cgroup_limit_bytes is None
                &&& limits.memory.swap_limit_bytes == Some(0u64)
                &&& limits.storage.data_disk_size_bytes is None
                &&& limits.storage.read_rate_bps is None
                &&& limits.storage.write_rate_bps is None
                &&& limits.storage.read_ops_ps is None
                &&& limits.storage.write_ops_ps is None
                &&& limits.network.rx_rate_bps is None
                &&& limits.network.tx_rate_bps is None
                &&& limits.network.rx_rate_pps is None
                &&& limits.network.tx_rate_pps is None
            },
{
}

/// A host without VMs has all it has available. An entry that is no directory,
/// or whose configuration cannot be read or parsed, takes nothing.
pub proof fn law_derived_capacity_starts_full(
    entries: Seq<VmDirEntry>,
    entry: VmDirEntry,
    total_vcpus: u32,
    total_memory_mib: u64,
    total_disk_bytes: u64,
)
    ensures
        derived(seq![], total_vcpus, total_memory_mib, total_disk_bytes) == (HostCapacity {
            total_vcpus,
            available_vcpus: total_vcpus,
            total_memory_mib,
            available_memory_mib: total_memory_mib,
            total_disk_bytes,
            available_disk_bytes: total_disk_bytes,
        }),
        !(entry is Found) ==> derived(
            entries.push(entry),
            total_vcpus,
            total_memory_mib,
            total_disk_bytes,
        ) == derived(entries, total_vcpus, total_memory_mib, total_disk_bytes),
{
    assert(entries.push(entry).drop_last() =~= entries);
}

} // verus!
