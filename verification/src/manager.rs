//! The manager of all microVMs on a host.

use vstd::prelude::*;
use vstd::string::*;

use crate::boot;
use crate::effect::{Effect, Reply};
use crate::error;
use crate::error::{Failure, OsError, OsResult};
use crate::image::{ImageRegistry, VmImage, VmImageView};
use crate::json;
use crate::json::Json;
use crate::network;
use crate::resource;
use crate::resource::{HostCapacity, ResourceLimits};
use crate::storage::VmStorage;
use crate::table;
use crate::table::Table;
use crate::text;
use crate::vm;
use crate::vm::{MicroVm, MicroVmView, VmConfig, VmId, VmState};

verus! {

/// Central manager for all microVMs on a host.
#[derive(Debug)]
pub struct VmManager {
    vms: Table<MicroVm>,
    storage: VmStorage,
    capacity: HostCapacity,
    images: ImageRegistry,
    next_vm_index: u32,
}

/// What a manager knows.
pub struct ManagerView {
    /// The VMs by ID.
    pub vms: Map<Seq<char>, MicroVmView>,
    /// The base directory of the storage.
    pub base: Seq<char>,
    pub capacity: HostCapacity,
    /// The images by name.
    pub images: Map<Seq<char>, VmImageView>,
    /// The least index that the next VM can get.
    pub next_vm_index: u32,
}

impl View for VmManager {
    type V = ManagerView;

    closed spec fn view(&self) -> ManagerView {
        ManagerView {
            vms: self.vms@.map_values(|vm: MicroVm| vm@),
            base: self.storage@,
            capacity: self.capacity,
            images: self.images@.map_values(|image: VmImage| image@),
            next_vm_index: self.next_vm_index,
        }
    }
}

// ---------------------------------------------------------------------------
// The index of a VM
// ---------------------------------------------------------------------------
/// The name of the TAP device in the text of a VM configuration.
pub open spec fn tap_name_in(config: Json) -> Option<Seq<char>> {
    match config.member("network"@) {
        Some(network) => match network.member("host_dev_name"@) {
            Some(name) => name.text(),
            None => None,
        },
        None => None,
    }
}

/// The index that the name of a TAP device tells.
pub open spec fn tap_index(name: Seq<char>) -> Option<u32> {
    match text::stripped(name, "tap"@) {
        Some(rest) => match text::unsigned_value(rest) {
            Some(index) => if index <= u32::MAX {
                Some(index as u32)
            } else {
                None
            },
            None => None,
        },
        None => None,
    }
}

/// The index that a VM configuration tells by the name of its TAP device,
/// where its text is JSON.
pub open spec fn config_index(config: Option<Json>) -> Option<u32> {
    match config {
        Some(config) => match tap_name_in(config) {
            Some(name) => tap_index(name),
            None => None,
        },
        None => None,
    }
}

/// The greater of two indices, where there is one.
pub open spec fn greater(a: Option<u32>, b: Option<u32>) -> Option<u32> {
    match (a, b) {
        (Some(x), Some(y)) => if x >= y {
            Some(x)
        } else {
            Some(y)
        },
        (Some(x), None) => Some(x),
        (None, y) => y,
    }
}

/// The greatest index that any of these configurations tells.
pub open spec fn highest_index(configs: Seq<Option<Json>>) -> Option<u32>
    decreases configs.len(),
{
    if configs.len() == 0 {
        None
    } else {
        greater(highest_index(configs.drop_last()), config_index(configs.last()))
    }
}

/// The first index above all that these configurations tell, where there is one.
pub open spec fn index_above(configs: Seq<Option<Json>>) -> Option<u32> {
    match highest_index(configs) {
        None => Some(0),
        Some(highest) => if highest < u32::MAX {
            Some((highest + 1) as u32)
        } else {
            None
        },
    }
}

/// What `serde_json` reads from each of these texts.
pub open spec fn readings(texts: Seq<String>) -> Seq<Option<Json>> {
    texts.map_values(|text: String| json::parsed(text@))
}

/// The error for a host on which every index is taken.
pub open spec fn no_index_left() -> Failure {
    Failure::Network("no VM index is left"@)
}

fn index_error() -> (r: OsError)
    ensures
        r@ == no_index_left(),
{
    OsError::Network("no VM index is left".to_string())
}

/// The index that a VM configuration tells by the name of its TAP device.
pub fn index_in_config(config: &serde_json::Value) -> (r: Option<u32>)
    ensures
        r == config_index(Some(json::json_of(*config))),
{
    let network = match json::member(config, "network") {
        Some(network) => network,
        None => {
            return None;
        },
    };
    let name = match json::member(network, "host_dev_name") {
        Some(name) => name,
        None => {
            return None;
        },
    };
    match json::as_text(name) {
        Some(name) => index_of_tap(name),
        None => None,
    }
}

/// The index that the name of a TAP device tells.
pub fn index_of_tap(name: &str) -> (r: Option<u32>)
    ensures
        r == tap_index(name@),
{
    match text::strip_prefix(name, "tap") {
        Some(rest) => match text::parse_unsigned(rest, u32::MAX as u64) {
            Some(index) => Some(index as u32),
            None => None,
        },
        None => None,
    }
}

impl VmManager {
    /// Find the highest VM index used in existing VM configs on disk, so that
    /// the next VM gets a unique network assignment. Texts that are not JSON,
    /// and configs that tell no index, are passed over.
    pub fn detect_next_vm_index(configs: &Vec<String>) -> (r: Option<u32>)
        ensures
            r == index_above(readings(configs@)),
    {
        let ghost all = readings(configs@);
        let mut highest: Option<u32> = None;
        let mut i: usize = 0;
        while i < configs.len()
            invariant
                i <= configs@.len(),
                all == readings(configs@),
                highest == highest_index(all.take(i as int)),
            decreases configs@.len() - i,
        {
            let found = match json::parse(configs[i].as_str()) {
                Ok(config) => index_in_config(&config),
                Err(_) => None,
            };
            proof {
                let next = all.take(i + 1);
                assert(next.drop_last() =~= all.take(i as int));
                assert(next.last() == json::parsed(configs@[i as int]@));
                assert(found == config_index(next.last()));
            }
            highest =
            match (highest, found) {
                (Some(x), Some(y)) => if x >= y {
                    Some(x)
                } else {
                    Some(y)
                },
                (Some(x), None) => Some(x),
                (None, y) => y,
            };
            i += 1;
        }
        assert(all.take(all.len() as int) =~= all);
        match highest {
            None => Some(0),
            Some(highest) => highest.checked_add(1),
        }
    }

    /// A manager without VMs and images, given the text of each VM
    /// configuration on disk.
    ///
    /// The next VM index is determined from the VMs on disk, to avoid collisions
    /// of addresses and TAP devices between processes.
    pub fn new(storage: VmStorage, capacity: HostCapacity, configs: &Vec<String>) -> (r: OsResult<
        Self,
    >)
        ensures
            match r {
                Ok(manager) => Some(manager@.next_vm_index) == index_above(readings(configs@))
                    && manager@ == (ManagerView {
                    vms: Map::empty(),
                    base: storage@,
                    capacity,
                    images: Map::empty(),
                    next_vm_index: manager@.next_vm_index,
                }),
                Err(e) => index_above(readings(configs@)) is None && e@ == no_index_left(),
            },
    {
        match Self::detect_next_vm_index(configs) {
            Some(next_vm_index) => {
                let manager = VmManager {
                    vms: Table::new(),
                    storage,
                    capacity,
                    images: ImageRegistry::new(),
                    next_vm_index,
                };
                assert(manager@.vms =~= Map::empty());
                assert(manager@.images =~= Map::empty());
                Ok(manager)
            },
            None => Err(index_error()),
        }
    }
}

// ---------------------------------------------------------------------------
// What a manager is asked
// ---------------------------------------------------------------------------
/// How many VMs are in a state.
pub open spec fn count_in_state(vms: Map<Seq<char>, MicroVmView>, state: VmState) -> nat {
    vms.dom().filter(|id: Seq<char>| vms[id].state == state).len()
}

/// Is `listed` a row of all VMs and their states, in any order?
pub open spec fn lists_states(
    listed: Seq<(VmId, VmState)>,
    vms: Map<Seq<char>, MicroVmView>,
) -> bool {
    exists|ids: Seq<Seq<char>>|
        {
            &&& #[trigger] table::names_all(ids, vms)
            &&& listed.len() == ids.len()
            &&& forall|i: int|
                0 <= i < ids.len() ==> (#[trigger] listed[i]).0@ == ids[i] && listed[i].1
                    == vms[ids[i]].state
        }
}

/// How often a state occurs among these VMs.
spec fn counted(ids: Seq<Seq<char>>, vms: Map<Seq<char>, MicroVmView>, state: VmState) -> nat
    decreases ids.len(),
{
    if ids.len() == 0 {
        0
    } else {
        counted(ids.drop_last(), vms, state) + if vms[ids.last()].state == state {
            1nat
        } else {
            0
        }
    }
}

proof fn lemma_counted(ids: Seq<Seq<char>>, vms: Map<Seq<char>, MicroVmView>, state: VmState)
    requires
        ids.no_duplicates(),
    ensures
        ids.to_set().finite(),
        counted(ids, vms, state) == ids.to_set().filter(
            |id: Seq<char>| vms[id].state == state,
        ).len(),
        counted(ids, vms, state) <= ids.len(),
    decreases ids.len(),
{
    let f = |id: Seq<char>| vms[id].state == state;
    if ids.len() == 0 {
        assert(ids.to_set() =~= Set::empty());
        assert(ids.to_set().filter(f) =~= Set::empty());
    } else {
        let rest = ids.drop_last();
        let last = ids.last();
        lemma_counted(rest, vms, state);
        assert(!rest.contains(last));
        assert(ids.to_set() =~= rest.to_set().insert(last)) by {
            assert forall|id: Seq<char>| ids.contains(id) implies rest.contains(id) || id
                == last by {
                let k = choose|k: int| 0 <= k < ids.len() && ids[k] == id;
                if k < rest.len() {
                    assert(rest[k] == id);
                }
            }
            assert forall|id: Seq<char>| rest.contains(id) || id == last implies ids.contains(
                id,
            ) by {
                if rest.contains(id) {
                    let k = choose|k: int| 0 <= k < rest.len() && rest[k] == id;
                    assert(ids[k] == id);
                } else {
                    assert(ids[ids.len() - 1] == id);
                }
            }
        }
        if f(last) {
            assert(ids.to_set().filter(f) =~= rest.to_set().filter(f).insert(last));
        } else {
            assert(ids.to_set().filter(f) =~= rest.to_set().filter(f));
        }
    }
}

/// The error for a VM that the manager does not have.
pub open spec fn not_found(vm_id: Seq<char>) -> Failure {
    Failure::VmNotFound(vm_id)
}

impl VmManager {
    /// A row of all names in the table of VMs is a row of all VM IDs.
    proof fn lemma_ids(&self)
        requires
            table::names_all(self.vms.names(), self.vms@),
        ensures
            table::names_all(self.vms.names(), self@.vms),
    {
        assert forall|id: Seq<char>| #[trigger]
            self@.vms.contains_key(id) <==> self.vms.names().contains(id) by {
            assert(self.vms@.contains_key(id) <==> self@.vms.contains_key(id));
        }
    }

    pub(crate) fn storage(&self) -> (r: &VmStorage)
        ensures
            r@ == self@.base,
    {
        &self.storage
    }

    /// The images that VMs can be created from.
    pub fn images(&self) -> (r: &ImageRegistry)
        ensures
            r@.map_values(|image: VmImage| image@) == self@.images,
    {
        &self.images
    }

    /// Register a VM image (kernel + rootfs).
    pub fn register_image(&mut self, image: VmImage)
        ensures
            final(self)@ == (ManagerView {
                images: old(self)@.images.insert(image@.name, image@),
                ..old(self)@
            }),
    {
        let ghost before = self@;
        self.images.register(image);
        assert(self@.images =~= before.images.insert(image@.name, image@));
    }

    fn find(&self, vm_id: &str) -> (r: OsResult<&MicroVm>)
        ensures
            match r {
                Ok(vm) => self@.vms.contains_key(vm_id@) && vm@ == self@.vms[vm_id@],
                Err(e) => !self@.vms.contains_key(vm_id@) && e@ == not_found(vm_id@),
            },
    {
        match self.vms.get(vm_id) {
            Some(vm) => Ok(vm),
            None => Err(OsError::VmNotFound(vm_id.to_string())),
        }
    }

    /// Get the state of a VM.
    pub fn vm_state(&self, vm_id: &str) -> (r: OsResult<VmState>)
        ensures
            match r {
                Ok(state) => self@.vms.contains_key(vm_id@) && state == self@.vms[vm_id@].state,
                Err(e) => !self@.vms.contains_key(vm_id@) && e@ == not_found(vm_id@),
            },
    {
        match self.find(vm_id) {
            Ok(vm) => Ok(vm.state),
            Err(e) => Err(e),
        }
    }

    /// Get the config of a VM.
    pub fn vm_config(&self, vm_id: &str) -> (r: OsResult<VmConfig>)
        ensures
            match r {
                Ok(config) => self@.vms.contains_key(vm_id@) && config@
                    == self@.vms[vm_id@].config,
                Err(e) => !self@.vms.contains_key(vm_id@) && e@ == not_found(vm_id@),
            },
    {
        match self.find(vm_id) {
            Ok(vm) => Ok(vm.config.clone()),
            Err(e) => Err(e),
        }
    }

    /// List all VM IDs and their states, in any order.
    pub fn list_vms(&self) -> (r: Vec<(VmId, VmState)>)
        ensures
            lists_states(r@, self@.vms),
    {
        let mut listed: Vec<(VmId, VmState)> = Vec::new();
        let n = self.vms.len();
        let mut i: usize = 0;
        while i < n
            invariant
                n == self.vms.names().len(),
                i <= n,
                listed@.len() == i,
                forall|j: int|
                    0 <= j < i ==> (#[trigger] listed@[j]).0@ == self.vms.names()[j]
                        && listed@[j].1 == self@.vms[self.vms.names()[j]].state,
            decreases n - i,
        {
            let (id, vm) = self.vms.at(i);
            listed.push((id.clone(), vm.state));
            i += 1;
        }
        proof {
            self.lemma_ids();
        }
        listed
    }

    /// Get current host capacity.
    pub fn host_capacity(&self) -> (r: HostCapacity)
        ensures
            r == self@.capacity,
    {
        self.capacity
    }

    /// Get count of VMs in each state that occurs, by the name of the state.
    pub fn vm_stats(&self) -> (r: Table<usize>)
        ensures
            forall|state: VmState|
                {
                    &&& #[trigger] r@.contains_key(state.name()) <==> count_in_state(
                        self@.vms,
                        state,
                    ) > 0
                    &&& r@.contains_key(state.name()) ==> r@[state.name()] == count_in_state(
                        self@.vms,
                        state,
                    )
                },
            forall|name: Seq<char>| #[trigger]
                r@.contains_key(name) ==> exists|state: VmState| name == #[trigger] state.name(),
    {
        let mut stats: Table<usize> = Table::new();
        let n = self.vms.len();
        let ghost ids = self.vms.names();
        let ghost vms = self@.vms;
        proof {
            self.lemma_ids();
        }
        let mut i: usize = 0;
        while i < n
            invariant
                n == ids.len(),
                ids == self.vms.names(),
                vms == self@.vms,
                ids.no_duplicates(),
                i <= n,
                forall|state: VmState|
                    {
                        &&& #[trigger] stats@.contains_key(state.name()) <==> counted(
                            ids.take(i as int),
                            vms,
                            state,
                        ) > 0
                        &&& stats@.contains_key(state.name()) ==> stats@[state.name()] == counted(
                            ids.take(i as int),
                            vms,
                            state,
                        )
                    },
                forall|name: Seq<char>| #[trigger]
                    stats@.contains_key(name) ==> exists|state: VmState|
                        name == #[trigger] state.name(),
            decreases n - i,
        {
            let vm = self.vms.at(i).1;
            let name = vm.state.to_string();
            let ghost here = ids.take(i as int);
            let ghost next = ids.take(i + 1);
            proof {
                assert(next.drop_last() =~= here);
                assert(here.no_duplicates());
                lemma_counted(here, vms, vm.state);
                assert(vms[ids[i as int]].state == vm.state);
                assert forall|state: VmState| state != vm.state implies #[trigger] state.name()
                    != vm.state.name() by {
                    vm::lemma_state_names_differ(state, vm.state);
                }
            }
            let count: usize = match stats.get(name.as_str()) {
                Some(count) => *count + 1,
                None => 1,
            };
            stats.insert(name.as_str(), count);
            i += 1;
        }
        proof {
            assert(ids.take(n as int) =~= ids);
            assert forall|state: VmState| counted(ids, vms, state) == #[trigger] count_in_state(
                vms,
                state,
            ) by {
                lemma_counted(ids, vms, state);
                assert(ids.to_set() =~= vms.dom());
            }
        }
        stats
    }
}

// ---------------------------------------------------------------------------
// Pausing and resuming
// ---------------------------------------------------------------------------
impl ManagerView {
    /// What the reply to a request for `next` does to a VM of the manager.
    pub open spec fn switched(self, vm_id: Seq<char>, next: VmState, reply: Reply) -> (
        ManagerView,
        Option<Failure>,
    ) {
        if self.vms.contains_key(vm_id) {
            let (after, fault) = boot::switch_step(self.vms[vm_id], next, reply);
            (ManagerView { vms: self.vms.insert(vm_id, after), ..self }, fault)
        } else {
            (self, Some(not_found(vm_id)))
        }
    }
}

impl VmManager {
    /// The request that pauses a VM.
    pub fn pause_request(&self, vm_id: &str) -> (r: OsResult<Effect>)
        ensures
            match r {
                Ok(request) => self@.vms.contains_key(vm_id@) && request@
                    == self@.vms[vm_id@].act("Pause"@),
                Err(e) => !self@.vms.contains_key(vm_id@) && e@ == not_found(vm_id@),
            },
    {
        match self.find(vm_id) {
            Ok(vm) => Ok(vm.pause_request()),
            Err(e) => Err(e),
        }
    }

    /// Pause a running VM, with the reply to the request that pauses it.
    pub fn pause_vm(&mut self, vm_id: &str, reply: Reply) -> (r: OsResult<()>)
        ensures
            old(self)@.switched(vm_id@, VmState::Paused, reply) == (
                final(self)@,
                error::error_of(r),
            ),
            r is Ok <==> old(self)@.vms.contains_key(vm_id@) && reply.put_fault() is None && old(
                self,
            )@.vms[vm_id@].state == VmState::Running,
            r is Ok ==> final(self)@.vms[vm_id@].state == VmState::Paused,
    {
        let ghost before = self@;
        match self.take_vm(vm_id) {
            Some(vm) => {
                let mut vm = vm;
                let r = vm.pause(reply);
                self.insert_vm(vm_id, vm);
                assert(self@.vms =~= before.switched(vm_id@, VmState::Paused, reply).0.vms);
                r
            },
            None => {
                assert(self@.vms =~= before.vms);
                Err(OsError::VmNotFound(vm_id.to_string()))
            },
        }
    }

    /// The request that resumes a VM.
    pub fn resume_request(&self, vm_id: &str) -> (r: OsResult<Effect>)
        ensures
            match r {
                Ok(request) => self@.vms.contains_key(vm_id@) && request@
                    == self@.vms[vm_id@].act("Resume"@),
                Err(e) => !self@.vms.contains_key(vm_id@) && e@ == not_found(vm_id@),
            },
    {
        match self.find(vm_id) {
            Ok(vm) => Ok(vm.resume_request()),
            Err(e) => Err(e),
        }
    }

    /// Resume a paused VM, with the reply to the request that resumes it.
    pub fn resume_vm(&mut self, vm_id: &str, reply: Reply) -> (r: OsResult<()>)
        ensures
            old(self)@.switched(vm_id@, VmState::Running, reply) == (
                final(self)@,
                error::error_of(r),
            ),
            r is Ok <==> old(self)@.vms.contains_key(vm_id@) && reply.put_fault() is None && (old(
                self,
            )@.vms[vm_id@].state == VmState::Paused || old(self)@.vms[vm_id@].state
                == VmState::Booting),
            r is Ok ==> final(self)@.vms[vm_id@].state == VmState::Running,
    {
        let ghost before = self@;
        match self.take_vm(vm_id) {
            Some(vm) => {
                let mut vm = vm;
                let r = vm.resume(reply);
                self.insert_vm(vm_id, vm);
                assert(self@.vms =~= before.switched(vm_id@, VmState::Running, reply).0.vms);
                r
            },
            None => {
                assert(self@.vms =~= before.vms);
                Err(OsError::VmNotFound(vm_id.to_string()))
            },
        }
    }
}

// ---------------------------------------------------------------------------
// What the creation and the destruction of a VM do to a manager
// ---------------------------------------------------------------------------
/// The index that a VM gets, given the next index of the manager and the
/// first index above those on disk: the greater of the two. None is left once
/// the last one would have to be given out.
pub open spec fn allocated(next_vm_index: u32, above_disk: Option<u32>) -> Option<u32> {
    match above_disk {
        Some(fresh) => {
            let index = if fresh >= next_vm_index {
                fresh
            } else {
                next_vm_index
            };
            if index < u32::MAX {
                Some(index)
            } else {
                None
            }
        },
        None => None,
    }
}

impl VmManager {
    /// Takes a VM out of the manager.
    pub(crate) fn take_vm(&mut self, vm_id: &str) -> (r: Option<MicroVm>)
        ensures
            final(self)@ == (ManagerView {
                vms: old(self)@.vms.remove(vm_id@),
                ..old(self)@
            }),
            match r {
                Some(vm) => old(self)@.vms.contains_key(vm_id@) && vm@ == old(self)@.vms[vm_id@],
                None => !old(self)@.vms.contains_key(vm_id@),
            },
    {
        let ghost before = self@;
        let taken = self.vms.remove(vm_id);
        assert(self@.vms =~= before.vms.remove(vm_id@));
        taken
    }

    /// Puts a VM under an ID, in place of what was there.
    pub(crate) fn insert_vm(&mut self, vm_id: &str, vm: MicroVm)
        ensures
            final(self)@ == (ManagerView {
                vms: old(self)@.vms.insert(vm_id@, vm@),
                ..old(self)@
            }),
    {
        let ghost before = self@;
        self.vms.insert(vm_id, vm);
        assert(self@.vms =~= before.vms.insert(vm_id@, vm@));
    }

    /// Reserves host resources.
    pub(crate) fn reserve(&mut self, limits: &ResourceLimits) -> (r: OsResult<()>)
        ensures
            match r {
                Ok(_) => limits.fits(old(self)@.capacity) && final(self)@ == (ManagerView {
                    capacity: old(self)@.capacity.less(*limits),
                    ..old(self)@
                }),
                Err(e) => !limits.fits(old(self)@.capacity) && final(self)@ == old(self)@ && e@
                    == resource::over_capacity(old(self)@.capacity, *limits),
            },
    {
        self.capacity.reserve(limits)
    }

    /// Releases host resources.
    pub(crate) fn release(&mut self, limits: &ResourceLimits)
        ensures
            final(self)@ == (ManagerView {
                capacity: old(self)@.capacity.plus(*limits),
                ..old(self)@
            }),
    {
        self.capacity.release(limits);
    }

    /// Gives out the next VM index, given the text of each VM configuration on
    /// disk. What is on disk counts, for another process may have put it there.
    pub(crate) fn allocate_index(&mut self, configs: &Vec<String>) -> (r: OsResult<u32>)
        ensures
            match r {
                Ok(index) => allocated(
                    old(self)@.next_vm_index,
                    index_above(readings(configs@)),
                ) == Some(index) && final(self)@ == (ManagerView {
                    next_vm_index: (index + 1) as u32,
                    ..old(self)@
                }),
                Err(e) => allocated(old(self)@.next_vm_index, index_above(readings(configs@)))
                    is None && final(self)@ == old(self)@ && e@ == no_index_left(),
            },
    {
        let fresh = match Self::detect_next_vm_index(configs) {
            Some(fresh) => fresh,
            None => {
                return Err(index_error());
            },
        };
        let index: u32 = if fresh >= self.next_vm_index {
            fresh
        } else {
            self.next_vm_index
        };
        if index == u32::MAX {
            return Err(index_error());
        }
        self.next_vm_index = index + 1;
        Ok(index)
    }
}

// ---------------------------------------------------------------------------
// Laws
// ---------------------------------------------------------------------------
proof fn lemma_highest_index(configs: Seq<Option<Json>>, i: int)
    requires
        0 <= i < configs.len(),
        config_index(configs[i]) is Some,
    ensures
        highest_index(configs) is Some,
        highest_index(configs)->0 >= config_index(configs[i])->0,
    decreases configs.len(),
{
    if i < configs.len() - 1 {
        assert(configs.drop_last()[i] == configs[i]);
        lemma_highest_index(configs.drop_last(), i);
    }
}

/// A new VM gets an index above the index of every VM on disk, and above every
/// index that the manager gave out before.
pub proof fn law_new_index_is_above_all(
    next_vm_index: u32,
    configs: Seq<Option<Json>>,
    i: int,
)
    requires
        allocated(next_vm_index, index_above(configs)) is Some,
        0 <= i < configs.len(),
        config_index(configs[i]) is Some,
    ensures
        allocated(next_vm_index, index_above(configs))->0 >= next_vm_index,
        allocated(next_vm_index, index_above(configs))->0 > config_index(configs[i])->0,
{
    lemma_highest_index(configs, i);
}

/// The TAP device that the manager makes for an index tells that index.
pub proof fn law_tap_name_tells_its_index(index: u32)
    ensures
        tap_index(network::network_for(index as nat).host_dev_name) == Some(index),
{
    let digits = text::dec(index as nat);
    let name = "tap"@ + digits;
    text::lemma_dec(index as nat);
    assert(name.skip("tap"@.len() as int) =~= digits);
    assert("tap"@.is_prefix_of(name));
    assert(text::is_digit(digits[0]));
}

/// A new VM never gets the TAP device, the addresses or the MAC that the
/// manager made for a VM whose configuration is on disk.
pub proof fn law_new_vm_shares_no_network_with_disk(
    next_vm_index: u32,
    configs: Seq<Option<Json>>,
    i: int,
    index: u32,
)
    requires
        allocated(next_vm_index, index_above(configs)) == Some(index),
        0 <= i < configs.len(),
        configs[i] is Some,
        tap_name_in(configs[i]->0) is Some,
    ensures
        network::network_for(index as nat).host_dev_name != tap_name_in(configs[i]->0)->0,
        forall|taken: u32|
            tap_name_in(configs[i]->0)->0 == (#[trigger] network::network_for(
                taken as nat,
            )).host_dev_name ==> {
                let theirs = network::network_for(taken as nat);
                let ours = network::network_for(index as nat);
                &&& ours.guest_ip != theirs.guest_ip
                &&& ours.gateway_ip != theirs.gateway_ip
                &&& ours.guest_mac != theirs.guest_mac
            },
{
    law_tap_name_tells_its_index(index);
    let name = tap_name_in(configs[i]->0)->0;
    if config_index(configs[i]) is Some {
        law_new_index_is_above_all(next_vm_index, configs, i);
    }
    assert forall|taken: u32| name == (#[trigger] network::network_for(
        taken as nat,
    )).host_dev_name implies {
        let theirs = network::network_for(taken as nat);
        let ours = network::network_for(index as nat);
        &&& ours.guest_ip != theirs.guest_ip
        &&& ours.gateway_ip != theirs.gateway_ip
        &&& ours.guest_mac != theirs.guest_mac
    } by {
        law_tap_name_tells_its_index(taken);
        network::law_indices_get_distinct_networks(index, taken);
    }
}

impl ManagerView {
    /// Every VM of the manager has an index below the next one, as the name of
    /// its TAP device tells, and no two VMs have the same.
    pub open spec fn has_vms_apart(self) -> bool {
        &&& forall|id: Seq<char>| #[trigger]
            self.vms.contains_key(id) ==> {
                &&& tap_index(self.vms[id].config.network.host_dev_name) is Some
                &&& tap_index(self.vms[id].config.network.host_dev_name)->0 < self.next_vm_index
            }
        &&& forall|a: Seq<char>, b: Seq<char>|
            #![trigger self.vms.contains_key(a), self.vms.contains_key(b)]
            self.vms.contains_key(a) && self.vms.contains_key(b) && a != b ==> tap_index(
                self.vms[a].config.network.host_dev_name,
            ) != tap_index(self.vms[b].config.network.host_dev_name)
    }
}

/// A manager without VMs has them apart, and keeps them apart when a VM is
/// paused or resumed, or an image is registered.
pub proof fn law_vms_stay_apart(
    manager: ManagerView,
    vm_id: Seq<char>,
    next: VmState,
    reply: Reply,
    image: VmImageView,
)
    ensures
        manager.vms.dom() == Set::<Seq<char>>::empty() ==> manager.has_vms_apart(),
        manager.has_vms_apart() ==> manager.switched(vm_id, next, reply).0.has_vms_apart(),
        manager.has_vms_apart() ==> (ManagerView {
            images: manager.images.insert(image.name, image),
            ..manager
        }).has_vms_apart(),
{
    if manager.has_vms_apart() {
        let after = manager.switched(vm_id, next, reply).0;
        assert forall|id: Seq<char>| #[trigger] after.vms.contains_key(id) implies {
            &&& manager.vms.contains_key(id)
            &&& after.vms[id].config == manager.vms[id].config
        } by {}
    }
}

/// A VM that is paused and then resumed leaves the manager as it was.
pub proof fn law_resuming_undoes_pausing(
    manager: ManagerView,
    vm_id: Seq<char>,
    paused: Reply,
    resumed: Reply,
)
    requires
        manager.vms.contains_key(vm_id),
        manager.vms[vm_id].state == VmState::Running,
        paused.put_fault() is None,
        resumed.put_fault() is None,
    ensures
        manager.switched(vm_id, VmState::Paused, paused).1 is None,
        manager.switched(vm_id, VmState::Paused, paused).0.switched(
            vm_id,
            VmState::Running,
            resumed,
        ) == (manager, None::<Failure>),
{
    let between = manager.switched(vm_id, VmState::Paused, paused).0;
    let after = between.switched(vm_id, VmState::Running, resumed).0;
    assert(after.vms =~= manager.vms);
}

proof fn lemma_highest_is_told(configs: Seq<Option<Json>>)
    requires
        highest_index(configs) is Some,
    ensures
        exists|i: int|
            0 <= i < configs.len() && #[trigger] config_index(configs[i]) == highest_index(configs),
    decreases configs.len(),
{
    let rest = configs.drop_last();
    if config_index(configs.last()) == highest_index(configs) {
        assert(config_index(configs[configs.len() - 1]) == highest_index(configs));
    } else {
        lemma_highest_is_told(rest);
        let i = choose|i: int|
            0 <= i < rest.len() && #[trigger] config_index(rest[i]) == highest_index(rest);
        assert(config_index(configs[i]) == highest_index(configs));
    }
}

/// A new VM gets the least index that is not below the next one and above every
/// index on disk: the next one itself, or one that follows on an index on disk.
/// None is left only where the last index would be given out or is taken.
pub proof fn law_new_index_is_the_least(next_vm_index: u32, configs: Seq<Option<Json>>)
    ensures
        match allocated(next_vm_index, index_above(configs)) {
            Some(index) => {
                &&& next_vm_index <= index < 0xFFFF_FFFF
                &&& forall|i: int|
                    0 <= i < configs.len() && #[trigger] config_index(configs[i]) is Some
                        ==> config_index(configs[i])->0 < index
                &&& index == next_vm_index || exists|i: int|
                    0 <= i < configs.len() && #[trigger] config_index(configs[i]) is Some
                        && config_index(configs[i])->0 + 1 == index
            },
            None => next_vm_index == 0xFFFF_FFFF || exists|i: int|
                0 <= i < configs.len() && #[trigger] config_index(configs[i]) is Some
                    && config_index(configs[i])->0 >= 0xFFFF_FFFE,
        },
{
    assert forall|i: int|
        0 <= i < configs.len() && #[trigger] config_index(configs[i]) is Some implies {
        &&& highest_index(configs) is Some
        &&& config_index(configs[i])->0 <= highest_index(configs)->0
    } by {
        lemma_highest_index(configs, i);
    }
    if highest_index(configs) is Some {
        lemma_highest_is_told(configs);
    }
}

/// A manager starts with the index that follows on the greatest one on disk, and
/// with zero where there is none.
pub proof fn law_first_index(configs: Seq<Option<Json>>)
    ensures
        (forall|i: int| 0 <= i < configs.len() ==> config_index(#[trigger] configs[i]) is None)
            ==> index_above(configs) == Some(0u32),
        match index_above(configs) {
            Some(index) => index == 0 || exists|i: int|
                0 <= i < configs.len() && #[trigger] config_index(configs[i]) is Some
                    && config_index(configs[i])->0 + 1 == index,
            None => exists|i: int|
                0 <= i < configs.len() && #[trigger] config_index(configs[i]) == Some(
                    0xFFFF_FFFFu32,
                ),
        },
        no_index_left() == Failure::Network("no VM index is left"@),
{
    if highest_index(configs) is Some {
        lemma_highest_is_told(configs);
    }
}

/// A configuration tells the index that follows on `tap` in the name of the host
/// device of its network, and none where that name is another or not there.
pub proof fn law_config_tells_the_index_of_its_tap(config: Json, network: Json, index: u32)
    requires
        config.member("network"@) == Some(network),
    ensures
        network.member("host_dev_name"@) == Some(Json::Text("tap"@ + text::dec(index as nat)))
            ==> config_index(Some(config)) == Some(index),
        network.member("host_dev_name"@) is None ==> config_index(Some(config)) is None,
        network.member("host_dev_name"@) matches Some(Json::Text(name)) ==> (!"tap"@.is_prefix_of(
            name,
        ) ==> config_index(Some(config)) is None),
        config_index(None) is None,
{
    let digits = text::dec(index as nat);
    let name = "tap"@ + digits;
    text::law_decimal_text_reads_back(index as nat);
    assert(name.skip("tap"@.len() as int) =~= digits);
    assert("tap"@.is_prefix_of(name));
}

/// Pausing or resuming a VM changes the state of that VM, and nothing else.
pub proof fn law_switching_changes_one_state(
    manager: ManagerView,
    vm_id: Seq<char>,
    next: VmState,
    reply: Reply,
)
    ensures
        ({
            let (after, fault) = manager.switched(vm_id, next, reply);
            &&& !manager.vms.contains_key(vm_id) ==> fault == Some(Failure::VmNotFound(vm_id))
            &&& fault is Some ==> after == manager
            &&& fault is None <==> manager.vms.contains_key(vm_id) && reply.put_fault() is None
                && manager.vms[vm_id].state.may_become(next)
            &&& fault is None ==> after == (ManagerView {
                vms: manager.vms.insert(
                    vm_id,
                    MicroVmView { state: next, ..manager.vms[vm_id] },
                ),
                ..manager
            })
        }),
{
    let (after, fault) = manager.switched(vm_id, next, reply);
    if fault is Some {
        assert(after.vms =~= manager.vms);
    }
}

/// Each VM counts for its own state, and for no other.
pub proof fn law_counting_states(
    vms: Map<Seq<char>, MicroVmView>,
    vm_id: Seq<char>,
    vm: MicroVmView,
    state: VmState,
)
    requires
        vms.dom().finite(),
        !vms.contains_key(vm_id),
    ensures
        count_in_state(Map::empty(), state) == 0,
        count_in_state(vms.insert(vm_id, vm), vm.state) == count_in_state(vms, vm.state) + 1,
        state != vm.state ==> count_in_state(vms.insert(vm_id, vm), state) == count_in_state(
            vms,
            state,
        ),
{
    let after = vms.insert(vm_id, vm);
    let none = Map::<Seq<char>, MicroVmView>::empty();
    assert(none.dom().filter(|id: Seq<char>| none[id].state == state) =~= Set::empty());
    let own = vms.dom().filter(|id: Seq<char>| vms[id].state == vm.state);
    let rest = vms.dom().filter(|id: Seq<char>| vms[id].state == state);
    assert(after.dom().filter(|id: Seq<char>| after[id].state == vm.state) =~= own.insert(vm_id));
    assert(!own.contains(vm_id));
    assert(own.finite());
    if state != vm.state {
        assert(after.dom().filter(|id: Seq<char>| after[id].state == state) =~= rest);
    }
}

} // verus!
