//! Destroying a microVM: stopping it, and giving back what it took.

use vstd::prelude::*;
use vstd::string::*;

use crate::boot;
use crate::boot::{Stop, StopPhase};
use crate::create;
use crate::create::{CreateStageView, CreationView, FindStep};
use crate::effect;
use crate::effect::{Effect, EffectView, Reply};
use crate::error;
use crate::error::{Failure, OsError, OsResult};
use crate::manager;
use crate::manager::{ManagerView, VmManager};
use crate::network;
use crate::network::{TapSetup, TapView};
use crate::resource;
use crate::storage;
use crate::vm;
use crate::vm::{MicroVm, MicroVmView, VmConfigView, VmState};

verus! {

/// How far the destruction of a VM has come: what is to be done next.
#[derive(Debug)]
pub enum DestroyStage {
    /// The manager does not have the VM: look for its configuration on disk.
    FindConfig,
    ReadConfig,
    /// The VM was read from disk: see whether it has an API socket.
    FindSocket { vm: MicroVm },
    Stopping { vm: MicroVm, phase: StopPhase },
    /// Delete the TAP device.
    TearDownTap { tap: TapSetup },
    /// See whether the VM has a directory.
    FindDir,
    RemoveDir,
    /// Nothing is left of the VM.
    Destroyed,
}

/// What is known of how far the destruction of a VM has come.
pub enum DestroyStageView {
    FindConfig,
    ReadConfig,
    FindSocket { vm: MicroVmView },
    Stopping { vm: MicroVmView, phase: StopPhase },
    TearDownTap { tap: TapView },
    FindDir,
    RemoveDir,
    Destroyed,
}

impl View for DestroyStage {
    type V = DestroyStageView;

    open spec fn view(&self) -> DestroyStageView {
        match *self {
            DestroyStage::FindConfig => DestroyStageView::FindConfig,
            DestroyStage::ReadConfig => DestroyStageView::ReadConfig,
            DestroyStage::FindSocket { vm } => DestroyStageView::FindSocket { vm: vm@ },
            DestroyStage::Stopping { vm, phase } => DestroyStageView::Stopping { vm: vm@, phase },
            DestroyStage::TearDownTap { tap } => DestroyStageView::TearDownTap { tap: tap@ },
            DestroyStage::FindDir => DestroyStageView::FindDir,
            DestroyStage::RemoveDir => DestroyStageView::RemoveDir,
            DestroyStage::Destroyed => DestroyStageView::Destroyed,
        }
    }
}

/// The destruction of a VM, on its way.
#[derive(Debug)]
pub struct Destruction {
    pub vm_id: String,
    pub stage: DestroyStage,
}

/// What is known of the destruction of a VM.
pub struct DestructionView {
    pub vm_id: Seq<char>,
    pub stage: DestroyStageView,
}

impl View for Destruction {
    type V = DestructionView;

    open spec fn view(&self) -> DestructionView {
        DestructionView { vm_id: self.vm_id@, stage: self.stage@ }
    }
}

/// What follows once a VM does not run any more, and what the manager is then:
/// the resources are released, and the TAP device is torn down unless its
/// configuration is one that the manager could not have made.
pub open spec fn settled(manager: ManagerView, vm: MicroVmView) -> (DestroyStageView, ManagerView) {
    let tap = network::tap_of(vm.config.network);
    (
        if tap.fault() is None {
            DestroyStageView::TearDownTap { tap }
        } else {
            DestroyStageView::FindDir
        },
        ManagerView { capacity: manager.capacity.plus(vm.config.resources), ..manager },
    )
}

/// What follows once the VM is known: it is stopped if it runs or is paused.
pub open spec fn halted(manager: ManagerView, vm: MicroVmView) -> (DestroyStageView, ManagerView) {
    if vm.state == VmState::Running || vm.state == VmState::Paused {
        (
            DestroyStageView::Stopping {
                vm: MicroVmView { state: VmState::Stopping, ..vm },
                phase: StopPhase::AskGuest,
            },
            manager,
        )
    } else {
        settled(manager, vm)
    }
}

/// How the destruction of a VM begins, and what the manager is then: a VM of the
/// manager is taken out of it, any other has to be found on disk.
pub open spec fn destruction_of(manager: ManagerView, vm_id: Seq<char>) -> (
    DestructionView,
    ManagerView,
) {
    if manager.vms.contains_key(vm_id) {
        let (stage, after) = halted(
            ManagerView { vms: manager.vms.remove(vm_id), ..manager },
            manager.vms[vm_id],
        );
        (DestructionView { vm_id, stage }, after)
    } else {
        (DestructionView { vm_id, stage: DestroyStageView::FindConfig }, manager)
    }
}

/// The configuration that a reply gives.
pub open spec fn replied_config(reply: Reply) -> Option<VmConfigView> {
    match reply {
        Reply::Config(config) => Some(config@),
        _ => None,
    }
}

impl DestructionView {
    /// What is asked of the host in each stage.
    pub open spec fn effect(self, base: Seq<char>) -> Option<EffectView> {
        match self.stage {
            DestroyStageView::FindConfig => Some(
                EffectView::Exists { path: storage::config_path(base, self.vm_id) },
            ),
            DestroyStageView::ReadConfig => Some(
                EffectView::ReadConfig { path: storage::config_path(base, self.vm_id) },
            ),
            DestroyStageView::FindSocket { vm } => Some(
                EffectView::Exists { path: storage::socket_path(base, self.vm_id) },
            ),
            DestroyStageView::Stopping { vm, phase } => boot::stop_effect(phase, vm),
            DestroyStageView::TearDownTap { tap } => Some(
                EffectView::Ip { argv: tap.delete_words() },
            ),
            DestroyStageView::FindDir => Some(
                EffectView::Exists { path: storage::vm_dir(base, self.vm_id) },
            ),
            DestroyStageView::RemoveDir => storage::vm_removal(base, self.vm_id, true),
            DestroyStageView::Destroyed => None,
        }
    }

    /// What a reply does to a destruction and to the manager: where the
    /// destruction goes on, what the manager is then, and the error where there
    /// is one.
    ///
    /// A VM that was read from disk counts as running if it has an API socket.
    /// Neither a VM that cannot be stopped nor a TAP device that cannot be torn
    /// down keeps the VM from being destroyed.
    pub open spec fn step(self, manager: ManagerView, reply: Reply) -> (
        DestructionView,
        ManagerView,
        Option<Failure>,
    ) {
        match self.stage {
            DestroyStageView::FindConfig => if reply is Yes {
                (self.at(DestroyStageView::ReadConfig), manager, None)
            } else {
                (self, manager, Some(manager::not_found(self.vm_id)))
            },
            DestroyStageView::ReadConfig => match replied_config(reply) {
                Some(config) => (
                    self.at(
                        DestroyStageView::FindSocket { vm: vm::created(config, manager.base) },
                    ),
                    manager,
                    None,
                ),
                None => (self, manager, Some(reply.misfit())),
            },
            DestroyStageView::FindSocket { vm } => {
                let found = if reply is Yes {
                    MicroVmView { state: VmState::Running, ..vm }
                } else {
                    vm
                };
                let (stage, after) = halted(manager, found);
                (self.at(stage), after, None)
            },
            DestroyStageView::Stopping { vm, phase } => {
                let (next, stopped, fault) = boot::stop_step(phase, vm, reply);
                if fault is Some || next is Stopped {
                    let (stage, after) = settled(manager, stopped);
                    (self.at(stage), after, None)
                } else {
                    (
                        self.at(DestroyStageView::Stopping { vm: stopped, phase: next }),
                        manager,
                        None,
                    )
                }
            },
            DestroyStageView::TearDownTap { tap } => (
                self.at(DestroyStageView::FindDir),
                manager,
                None,
            ),
            DestroyStageView::FindDir => if reply is Yes {
                (self.at(DestroyStageView::RemoveDir), manager, None)
            } else {
                (self.at(DestroyStageView::Destroyed), manager, None)
            },
            DestroyStageView::RemoveDir => if reply.fault() is Some {
                (self, manager, reply.fault())
            } else {
                (self.at(DestroyStageView::Destroyed), manager, None)
            },
            DestroyStageView::Destroyed => (self, manager, None),
        }
    }

    pub open spec fn at(self, stage: DestroyStageView) -> DestructionView {
        DestructionView { stage, ..self }
    }
}

impl VmManager {
    /// Stop and destroy a microVM.
    pub fn destroy_vm(&mut self, vm_id: &str) -> (r: Destruction)
        ensures
            destruction_of(old(self)@, vm_id@) == (r@, final(self)@),
    {
        let ghost before = self@;
        let stage = match self.take_vm(vm_id) {
            Some(vm) => self.halt(vm),
            None => {
                assert(self@.vms =~= before.vms);
                DestroyStage::FindConfig
            },
        };
        Destruction { vm_id: vm_id.to_string(), stage }
    }

    fn settle(&mut self, vm: MicroVm) -> (r: DestroyStage)
        ensures
            settled(old(self)@, vm@) == (r@, final(self)@),
    {
        self.release(&vm.config.resources);
        let tap = TapSetup::from_config(&vm.config.network);
        match tap.validate() {
            Ok(_) => DestroyStage::TearDownTap { tap },
            Err(_) => DestroyStage::FindDir,
        }
    }

    fn halt(&mut self, vm: MicroVm) -> (r: DestroyStage)
        ensures
            halted(old(self)@, vm@) == (r@, final(self)@),
    {
        let mut vm = vm;
        match vm.stop() {
            Ok(stop) => DestroyStage::Stopping { vm, phase: stop.phase },
            Err(_) => self.settle(vm),
        }
    }
}

impl Destruction {
    /// What has to be done next, until nothing is left of the VM.
    pub fn effect(&self, manager: &VmManager) -> (r: Option<Effect>)
        ensures
            effect::asked(r) == self@.effect(manager@.base),
    {
        let storage = manager.storage();
        let vm_id = self.vm_id.as_str();
        match &self.stage {
            DestroyStage::FindConfig => Some(Effect::Exists { path: storage.config_path(vm_id) }),
            DestroyStage::ReadConfig => Some(
                Effect::ReadConfig { path: storage.config_path(vm_id) },
            ),
            DestroyStage::FindSocket { vm } => Some(
                Effect::Exists { path: storage.socket_path(vm_id) },
            ),
            DestroyStage::Stopping { vm, phase } => (Stop { phase: *phase }).effect(vm),
            DestroyStage::TearDownTap { tap } => Some(tap.deletion()),
            DestroyStage::FindDir => Some(Effect::Exists { path: storage.vm_dir(vm_id) }),
            DestroyStage::RemoveDir => storage.cleanup_vm(vm_id, true),
            DestroyStage::Destroyed => None,
        }
    }

    /// Goes on with the reply to the effect that was asked for.
    pub fn advance(&mut self, manager: &mut VmManager, reply: Reply) -> (r: OsResult<()>)
        ensures
            old(self)@.step(old(manager)@, reply) == (
                final(self)@,
                final(manager)@,
                error::error_of(r),
            ),
    {
        let mut stage = DestroyStage::Destroyed;
        std::mem::swap(&mut stage, &mut self.stage);
        match stage {
            DestroyStage::FindConfig => {
                if reply.is_yes() {
                    self.stage = DestroyStage::ReadConfig;
                    Ok(())
                } else {
                    self.stage = DestroyStage::FindConfig;
                    Err(OsError::VmNotFound(self.vm_id.clone()))
                }
            },
            DestroyStage::ReadConfig => match reply {
                Reply::Config(config) => {
                    let vm = MicroVm::new(config, manager.storage());
                    self.stage = DestroyStage::FindSocket { vm };
                    Ok(())
                },
                other => {
                    self.stage = DestroyStage::ReadConfig;
                    Err(other.refuse())
                },
            },
            DestroyStage::FindSocket { vm } => {
                let mut vm = vm;
                if reply.is_yes() {
                    vm.state = VmState::Running;
                }
                self.stage = manager.halt(vm);
                Ok(())
            },
            DestroyStage::Stopping { vm, phase } => {
                let mut vm = vm;
                let mut stop = Stop { phase };
                let failed = stop.advance(&mut vm, reply).is_err();
                match (failed, stop.phase) {
                    (true, _) | (_, StopPhase::Stopped) => {
                        self.stage = manager.settle(vm);
                    },
                    (_, phase) => {
                        self.stage = DestroyStage::Stopping { vm, phase };
                    },
                }
                Ok(())
            },
            DestroyStage::TearDownTap { tap: _ } => {
                self.stage = DestroyStage::FindDir;
                Ok(())
            },
            DestroyStage::FindDir => {
                self.stage = if reply.is_yes() {
                    DestroyStage::RemoveDir
                } else {
                    DestroyStage::Destroyed
                };
                Ok(())
            },
            DestroyStage::RemoveDir => match reply.done() {
                Ok(_) => {
                    self.stage = DestroyStage::Destroyed;
                    Ok(())
                },
                Err(e) => {
                    self.stage = DestroyStage::RemoveDir;
                    Err(e)
                },
            },
            DestroyStage::Destroyed => Ok(()),
        }
    }
}

// ---------------------------------------------------------------------------
// Laws
// ---------------------------------------------------------------------------
/// What comes of a destruction and of the manager after a row of replies, of
/// which those that follow an error are not used.
pub open spec fn destruction_run(
    destruction: DestructionView,
    manager: ManagerView,
    replies: Seq<Reply>,
) -> (DestructionView, ManagerView, Option<Failure>)
    decreases replies.len(),
{
    if replies.len() == 0 {
        (destruction, manager, None)
    } else {
        let (d, m, fault) = destruction_run(destruction, manager, replies.drop_last());
        if fault is Some {
            (d, m, fault)
        } else {
            d.step(m, replies.last())
        }
    }
}

/// Have the resources of the VM been released in this stage?
pub open spec fn is_settled(stage: DestroyStageView) -> bool {
    match stage {
        DestroyStageView::FindConfig => false,
        DestroyStageView::ReadConfig => false,
        DestroyStageView::FindSocket { vm } => false,
        DestroyStageView::Stopping { vm, phase } => false,
        _ => true,
    }
}

/// What holds of the destruction of a VM of the manager on the way, given the
/// manager as it was before.
spec fn on_the_way(
    before: ManagerView,
    vm_id: Seq<char>,
    destruction: DestructionView,
    manager: ManagerView,
) -> bool {
    let vm = before.vms[vm_id];
    let without = ManagerView { vms: before.vms.remove(vm_id), ..before };
    &&& destruction.vm_id == vm_id
    &&& match destruction.stage {
        DestroyStageView::Stopping { vm: stopping, phase } => {
            &&& manager == without
            &&& stopping == (MicroVmView { state: VmState::Stopping, ..vm })
            &&& !(phase is Stopped)
        },
        _ => is_settled(destruction.stage) && manager == (ManagerView {
            capacity: before.capacity.plus(vm.config.resources),
            ..without
        }),
    }
}

proof fn lemma_run_stays_on_the_way(before: ManagerView, vm_id: Seq<char>, replies: Seq<Reply>)
    requires
        before.vms.contains_key(vm_id),
    ensures
        ({
            let (d, m) = destruction_of(before, vm_id);
            let (after, manager, _) = destruction_run(d, m, replies);
            on_the_way(before, vm_id, after, manager)
        }),
    decreases replies.len(),
{
    if replies.len() > 0 {
        lemma_run_stays_on_the_way(before, vm_id, replies.drop_last());
    }
}

/// From the moment on at which it is to be destroyed, a VM does not belong to
/// the manager any more, whatever comes of its destruction. The other VMs,
/// the images and the next index stay as they were.
pub proof fn law_vm_to_be_destroyed_is_gone(
    manager: ManagerView,
    vm_id: Seq<char>,
    replies: Seq<Reply>,
)
    ensures
        ({
            let (d, m) = destruction_of(manager, vm_id);
            let after = destruction_run(d, m, replies).1;
            &&& after.vms == manager.vms.remove(vm_id)
            &&& after.images == manager.images
            &&& after.base == manager.base
            &&& after.next_vm_index == manager.next_vm_index
        }),
    decreases replies.len(),
{
    if replies.len() > 0 {
        law_vm_to_be_destroyed_is_gone(manager, vm_id, replies.drop_last());
    } else {
        assert(!manager.vms.contains_key(vm_id) ==> manager.vms.remove(vm_id) =~= manager.vms);
    }
}

/// What a VM of the manager took of the host is given back once, after it was
/// stopped, and has been given back when nothing is left of it.
pub proof fn law_destruction_releases_once(
    manager: ManagerView,
    vm_id: Seq<char>,
    replies: Seq<Reply>,
)
    requires
        manager.vms.contains_key(vm_id),
    ensures
        ({
            let (d, m) = destruction_of(manager, vm_id);
            let (after, left, _) = destruction_run(d, m, replies);
            let freed = manager.capacity.plus(manager.vms[vm_id].config.resources);
            &&& is_settled(after.stage) ==> left.capacity == freed
            &&& !is_settled(after.stage) ==> left.capacity == manager.capacity
        }),
{
    lemma_run_stays_on_the_way(manager, vm_id, replies);
}

/// Creating a VM and then destroying it leaves the manager with the VMs and the
/// capacity that it had before.
pub proof fn law_destroying_undoes_creating(
    request: CreationView,
    manager: ManagerView,
    replies: Seq<Reply>,
    vm_id: Seq<char>,
    more: Seq<Reply>,
)
    requires
        manager.capacity.wf(),
        !manager.vms.contains_key(vm_id),
        request.stage == CreateStageView::Finding(FindStep::FindKernel),
        create::creation_run(request, manager, replies).0.stage == CreateStageView::Created(vm_id),
        ({
            let (d, m) = destruction_of(
                create::creation_run(request, manager, replies).1,
                vm_id,
            );
            destruction_run(d, m, more).0.stage is Destroyed
        }),
    ensures
        ({
            let (d, m) = destruction_of(
                create::creation_run(request, manager, replies).1,
                vm_id,
            );
            let after = destruction_run(d, m, more).1;
            after.vms == manager.vms && after.capacity == manager.capacity
        }),
{
    let created = create::creation_run(request, manager, replies).1;
    create::law_created_vm_runs(request, manager, replies, vm_id);
    law_vm_to_be_destroyed_is_gone(created, vm_id, more);
    law_destruction_releases_once(created, vm_id, more);
    resource::law_release_undoes_reserve(manager.capacity, request.config.resources);
    assert(created.vms.remove(vm_id) =~= manager.vms);
}

/// A VM that the manager does not have and that is not on disk is reported as
/// not found, and nothing changes.
pub proof fn law_unknown_vm_is_not_found(manager: ManagerView, vm_id: Seq<char>, reply: Reply)
    requires
        !manager.vms.contains_key(vm_id),
        !(reply is Yes),
    ensures
        ({
            let (d, m) = destruction_of(manager, vm_id);
            &&& d.effect(manager.base) == Some(
                EffectView::Exists { path: storage::config_path(manager.base, vm_id) },
            )
            &&& d.step(m, reply) == (d, manager, Some(Failure::VmNotFound(vm_id)))
        }),
{
}

/// Nothing counts as destroyed whose directory is there: it was not found, or
/// it was removed.
pub proof fn law_destroyed_vm_has_no_directory(
    destruction: DestructionView,
    manager: ManagerView,
    reply: Reply,
)
    requires
        !(destruction.stage is Destroyed),
        destruction.step(manager, reply).0.stage is Destroyed,
    ensures
        ({
            let dir = storage::vm_dir(manager.base, destruction.vm_id);
            let asked = destruction.effect(manager.base);
            ||| asked == Some(EffectView::Exists { path: dir }) && !(reply is Yes)
            ||| asked == Some(EffectView::RemoveDirAll { path: dir }) && reply.fault() is None
        }),
{
}

/// How many steps lie between a stage and the end of a destruction.
pub open spec fn destruction_distance(stage: DestroyStageView) -> nat {
    match stage {
        DestroyStageView::FindConfig => 10,
        DestroyStageView::ReadConfig => 9,
        DestroyStageView::FindSocket { vm } => 8,
        DestroyStageView::Stopping { vm, phase } => match phase {
            StopPhase::AskGuest => 7,
            StopPhase::KillAtOnce => 6,
            StopPhase::Wait => 5,
            StopPhase::KillLeftover => 4,
            StopPhase::Stopped => 4,
        },
        DestroyStageView::TearDownTap { tap } => 3,
        DestroyStageView::FindDir => 2,
        DestroyStageView::RemoveDir => 1,
        DestroyStageView::Destroyed => 0,
    }
}

/// Each reply brings a destruction closer to its end, or ends it with an error:
/// no VM takes more than ten replies to destroy.
pub proof fn law_destruction_always_ends(
    destruction: DestructionView,
    manager: ManagerView,
    reply: Reply,
)
    requires
        !(destruction.stage is Destroyed),
    ensures
        ({
            let (next, after, fault) = destruction.step(manager, reply);
            fault is Some || destruction_distance(next.stage) < destruction_distance(
                destruction.stage,
            )
        }),
        destruction_distance(destruction.stage) <= 10,
{
}

/// Once a VM was found, the only thing that can keep it from being destroyed
/// is a directory that cannot be removed.
pub proof fn law_only_the_directory_can_stop_a_destruction(
    destruction: DestructionView,
    manager: ManagerView,
    reply: Reply,
)
    requires
        !(destruction.stage is FindConfig),
        !(destruction.stage is ReadConfig),
        destruction.step(manager, reply).2 is Some,
    ensures
        destruction.stage is RemoveDir,
        destruction.step(manager, reply).2 == reply.fault(),
{
}

/// The TAP device of the stage, if there is one, is one that the manager could
/// have made.
spec fn has_no_foreign_tap(stage: DestroyStageView) -> bool {
    stage matches DestroyStageView::TearDownTap { tap } ==> tap.fault() is None
}

proof fn lemma_run_has_no_foreign_tap(manager: ManagerView, vm_id: Seq<char>, replies: Seq<Reply>)
    ensures
        ({
            let (d, m) = destruction_of(manager, vm_id);
            has_no_foreign_tap(destruction_run(d, m, replies).0.stage)
        }),
    decreases replies.len(),
{
    if replies.len() > 0 {
        lemma_run_has_no_foreign_tap(manager, vm_id, replies.drop_last());
    }
}

/// Whatever a VM configuration on disk says, destroying the VM runs `ip` only
/// to delete a device with the name of a TAP device.
pub proof fn law_destruction_runs_ip_on_tap_devices_only(
    manager: ManagerView,
    vm_id: Seq<char>,
    replies: Seq<Reply>,
    argv: Seq<Seq<char>>,
)
    requires
        ({
            let (d, m) = destruction_of(manager, vm_id);
            destruction_run(d, m, replies).0.effect(manager.base) == Some(EffectView::Ip { argv })
        }),
    ensures
        argv.len() == 3,
        argv[0] == "link"@,
        argv[1] == "del"@,
        network::is_tap_name(argv[2]),
{
    lemma_run_has_no_foreign_tap(manager, vm_id, replies);
}

/// What holds of the destruction of a VM that the manager does not have on the
/// way, given the manager as it was before and the replies so far.
spec fn on_the_way_from_disk(
    before: ManagerView,
    destruction: DestructionView,
    manager: ManagerView,
    fault: Option<Failure>,
    replies: Seq<Reply>,
) -> bool {
    let read = replied_config(replies[1]);
    match destruction.stage {
        DestroyStageView::FindConfig => manager == before && (fault is None ==> replies.len()
            == 0),
        DestroyStageView::ReadConfig => {
            &&& manager == before
            &&& replies.len() >= 1
            &&& replies[0] is Yes
            &&& fault is None ==> replies.len() == 1
        },
        DestroyStageView::FindSocket { vm } => {
            &&& manager == before
            &&& replies.len() >= 2
            &&& replies[0] is Yes
            &&& read == Some(vm.config)
        },
        DestroyStageView::Stopping { vm, phase } => {
            &&& manager == before
            &&& replies.len() >= 2
            &&& replies[0] is Yes
            &&& read == Some(vm.config)
        },
        _ => {
            &&& replies.len() >= 2
            &&& replies[0] is Yes
            &&& read is Some
            &&& manager == (ManagerView {
                capacity: before.capacity.plus(read->0.resources),
                ..before
            })
        },
    }
}

proof fn lemma_run_from_disk(before: ManagerView, vm_id: Seq<char>, replies: Seq<Reply>)
    requires
        !before.vms.contains_key(vm_id),
    ensures
        ({
            let (d, m) = destruction_of(before, vm_id);
            let (after, manager, fault) = destruction_run(d, m, replies);
            on_the_way_from_disk(before, after, manager, fault, replies)
        }),
    decreases replies.len(),
{
    if replies.len() > 0 {
        let earlier = replies.drop_last();
        lemma_run_from_disk(before, vm_id, earlier);
        if earlier.len() >= 1 {
            assert(earlier[0] == replies[0]);
        }
        if earlier.len() >= 2 {
            assert(earlier[1] == replies[1]);
        }
    }
}

/// What a VM that was read from disk took of the host is given back once, after
/// it was stopped: what its configuration names, which is the second reply.
/// Nothing else of the manager changes, and nothing changes before.
pub proof fn law_destruction_from_disk_releases_once(
    manager: ManagerView,
    vm_id: Seq<char>,
    replies: Seq<Reply>,
)
    requires
        !manager.vms.contains_key(vm_id),
    ensures
        ({
            let (d, m) = destruction_of(manager, vm_id);
            let (after, left, _) = destruction_run(d, m, replies);
            &&& is_settled(after.stage) ==> {
                &&& replies.len() >= 2
                &&& replied_config(replies[1]) is Some
                &&& left == (ManagerView {
                    capacity: manager.capacity.plus(replied_config(replies[1])->0.resources),
                    ..manager
                })
            }
            &&& !is_settled(after.stage) ==> left == manager
        }),
{
    lemma_run_from_disk(manager, vm_id, replies);
}

/// A destruction keeps the VMs of a manager apart, whatever comes of it.
pub proof fn law_destruction_keeps_vms_apart(
    manager: ManagerView,
    vm_id: Seq<char>,
    replies: Seq<Reply>,
)
    requires
        manager.has_vms_apart(),
    ensures
        ({
            let (d, m) = destruction_of(manager, vm_id);
            destruction_run(d, m, replies).1.has_vms_apart()
        }),
{
    law_vm_to_be_destroyed_is_gone(manager, vm_id, replies);
    let (d, m) = destruction_of(manager, vm_id);
    let after = destruction_run(d, m, replies).1;
    assert forall|id: Seq<char>| #[trigger] after.vms.contains_key(id) implies {
        &&& manager.vms.contains_key(id)
        &&& after.vms[id] == manager.vms[id]
    } by {}
}

// ---------------------------------------------------------------------------
// What is asked over a whole destruction
// ---------------------------------------------------------------------------
/// What a destruction has asked of the host, one effect for each reply.
pub open spec fn destruction_asked(
    destruction: DestructionView,
    manager: ManagerView,
    replies: Seq<Reply>,
) -> Seq<EffectView>
    decreases replies.len(),
{
    if replies.len() == 0 {
        seq![]
    } else {
        let earlier = destruction_asked(destruction, manager, replies.drop_last());
        let (d, m, fault) = destruction_run(destruction, manager, replies.drop_last());
        match d.effect(m.base) {
            Some(effect) => if fault is Some {
                earlier
            } else {
                earlier.push(effect)
            },
            None => earlier,
        }
    }
}

/// What is asked to find a VM that the manager does not have.
spec fn search_part(before: ManagerView, vm_id: Seq<char>) -> Seq<EffectView> {
    if before.vms.contains_key(vm_id) {
        seq![]
    } else {
        seq![
            EffectView::Exists { path: storage::config_path(before.base, vm_id) },
            EffectView::ReadConfig { path: storage::config_path(before.base, vm_id) },
            EffectView::Exists { path: storage::socket_path(before.base, vm_id) },
        ]
    }
}

/// The VM that is destroyed.
spec fn subject(before: ManagerView, vm_id: Seq<char>, replies: Seq<Reply>) -> MicroVmView {
    if before.vms.contains_key(vm_id) {
        before.vms[vm_id]
    } else {
        let config = replied_config(replies[1])->0;
        MicroVmView {
            config,
            state: if replies[2] is Yes {
                VmState::Running
            } else {
                VmState::Created
            },
            pid: None,
            socket_path: storage::socket_path(before.base, config.vm_id),
            log_path: storage::log_path(before.base, config.vm_id),
        }
    }
}

/// What is asked to stop a VM, up to the phase that comes next.
spec fn stop_part(vm: MicroVmView, refused: bool, phase: StopPhase) -> Seq<EffectView> {
    let halt = EffectView::Put {
        socket: vm.socket_path,
        path: "/actions"@,
        body: crate::json::Json::Object(
            map!["action_type"@ => crate::json::Json::Text("InstanceHalt"@)],
        ),
    };
    let kill = match vm.pid {
        Some(pid) => seq![EffectView::Kill { pid }],
        None => seq![],
    };
    let at_once = if refused {
        kill
    } else {
        seq![]
    };
    let sleep = EffectView::Sleep { millis: 3000 };
    match phase {
        StopPhase::AskGuest => seq![],
        StopPhase::KillAtOnce => seq![halt],
        StopPhase::Wait => seq![halt] + at_once,
        StopPhase::KillLeftover => seq![halt] + at_once + seq![sleep],
        StopPhase::Stopped => seq![halt] + at_once + seq![sleep] + kill,
    }
}

/// What is asked to stop a VM, if it runs or is paused.
spec fn halt_part(vm: MicroVmView, refused: bool) -> Seq<EffectView> {
    if vm.state == VmState::Running || vm.state == VmState::Paused {
        stop_part(vm, refused, StopPhase::Stopped)
    } else {
        seq![]
    }
}

/// What is asked to delete the TAP device, if it is one that the manager makes.
spec fn tap_part(vm: MicroVmView) -> Seq<EffectView> {
    if network::tap_of(vm.config.network).fault() is None {
        seq![
            EffectView::Ip { argv: seq!["link"@, "del"@, vm.config.network.host_dev_name] },
        ]
    } else {
        seq![]
    }
}

/// What holds of a destruction without an error so far.
spec fn destruction_so_far(
    before: ManagerView,
    vm_id: Seq<char>,
    destruction: DestructionView,
    manager: ManagerView,
    asked: Seq<EffectView>,
    replies: Seq<Reply>,
) -> bool {
    let pre = search_part(before, vm_id);
    let here = before.vms.contains_key(vm_id);
    let vm = subject(before, vm_id, replies);
    let refused = replies[pre.len() as int].put_fault() is Some;
    let dir = storage::vm_dir(before.base, vm_id);
    let all = pre + halt_part(vm, refused) + tap_part(vm);
    &&& manager.base == before.base
    &&& destruction.vm_id == vm_id
    &&& !(destruction.stage is Destroyed) ==> asked.len() == replies.len()
    &&& asked.len() <= replies.len()
    &&& match destruction.stage {
        DestroyStageView::FindConfig => !here && asked == Seq::<EffectView>::empty(),
        DestroyStageView::ReadConfig => !here && asked == pre.take(1) && replies[0] is Yes,
        DestroyStageView::FindSocket { vm: found } => {
            &&& !here
            &&& asked == pre.take(2)
            &&& replies[0] is Yes
            &&& replied_config(replies[1]) == Some(found.config)
            &&& found == vm::created(found.config, before.base)
        },
        DestroyStageView::Stopping { vm: stopping, phase } => {
            &&& !here ==> replies[0] is Yes && replied_config(replies[1]) is Some
            &&& vm.state == VmState::Running || vm.state == VmState::Paused
            &&& stopping == (MicroVmView { state: VmState::Stopping, ..vm })
            &&& asked == pre + stop_part(vm, refused, phase)
            &&& phase is KillAtOnce ==> vm.pid is Some && refused
            &&& phase is KillLeftover ==> vm.pid is Some
            &&& !(phase is Stopped)
        },
        DestroyStageView::TearDownTap { tap } => {
            &&& !here ==> replies[0] is Yes && replied_config(replies[1]) is Some
            &&& tap == network::tap_of(vm.config.network)
            &&& tap.fault() is None
            &&& asked == pre + halt_part(vm, refused)
        },
        DestroyStageView::FindDir => {
            &&& !here ==> replies[0] is Yes && replied_config(replies[1]) is Some
            &&& asked == all
        },
        DestroyStageView::RemoveDir => {
            &&& !here ==> replies[0] is Yes && replied_config(replies[1]) is Some
            &&& asked == all.push(EffectView::Exists { path: dir })
            &&& replies[all.len() as int] is Yes
        },
        DestroyStageView::Destroyed => {
            &&& !here ==> replies[0] is Yes && replied_config(replies[1]) is Some
            &&& replies.len() > all.len()
            &&& asked == if replies[all.len() as int] is Yes {
                all.push(EffectView::Exists { path: dir }).push(
                    EffectView::RemoveDirAll { path: dir },
                )
            } else {
                all.push(EffectView::Exists { path: dir })
            }
            &&& replies[all.len() as int] is Yes ==> replies.len() > all.len() + 1
                && replies[all.len() as int + 1] is Done
        },
    }
}

/// What is known of the VM does not change by one more reply.
proof fn lemma_replies_stay(
    before: ManagerView,
    vm_id: Seq<char>,
    earlier: Seq<Reply>,
    reply: Reply,
)
    ensures
        forall|i: int| 0 <= i < earlier.len() ==> #[trigger] earlier.push(reply)[i] == earlier[i],
        earlier.push(reply)[earlier.len() as int] == reply,
        before.vms.contains_key(vm_id) || earlier.len() >= 3 ==> subject(
            before,
            vm_id,
            earlier.push(reply),
        ) == subject(before, vm_id, earlier),
{
}

#[verifier::rlimit(40)]
#[verifier::spinoff_prover]
proof fn lemma_search_step(
    before: ManagerView,
    vm_id: Seq<char>,
    destruction: DestructionView,
    manager: ManagerView,
    asked: Seq<EffectView>,
    earlier: Seq<Reply>,
    reply: Reply,
)
    requires
        destruction_so_far(before, vm_id, destruction, manager, asked, earlier),
        destruction.step(manager, reply).2 is None,
        destruction.stage is FindConfig || destruction.stage is ReadConfig
            || destruction.stage is FindSocket,
    ensures
        destruction_so_far(
            before,
            vm_id,
            destruction.step(manager, reply).0,
            destruction.step(manager, reply).1,
            match destruction.effect(manager.base) {
                Some(effect) => asked.push(effect),
                None => asked,
            },
            earlier.push(reply),
        ),
{
    let replies = earlier.push(reply);
    let pre = search_part(before, vm_id);
    let vm = subject(before, vm_id, replies);
    let refused = replies[pre.len() as int].put_fault() is Some;
    let none = Seq::<EffectView>::empty();
    lemma_replies_stay(before, vm_id, earlier, reply);
    let effect = destruction.effect(manager.base)->0;
    let after = asked.push(effect);
    if destruction.stage is FindConfig {
        assert(after =~= pre.take(1));
    } else if destruction.stage is ReadConfig {
        assert(after =~= pre.take(2));
    } else {
        assert(after =~= pre);
        assert(pre + none =~= pre);
        assert(pre + none + none =~= pre);
    }
}

#[verifier::rlimit(40)]
#[verifier::spinoff_prover]
proof fn lemma_stop_step(
    before: ManagerView,
    vm_id: Seq<char>,
    destruction: DestructionView,
    manager: ManagerView,
    asked: Seq<EffectView>,
    earlier: Seq<Reply>,
    reply: Reply,
)
    requires
        destruction_so_far(before, vm_id, destruction, manager, asked, earlier),
        destruction.step(manager, reply).2 is None,
        destruction.stage is Stopping,
    ensures
        destruction_so_far(
            before,
            vm_id,
            destruction.step(manager, reply).0,
            destruction.step(manager, reply).1,
            match destruction.effect(manager.base) {
                Some(effect) => asked.push(effect),
                None => asked,
            },
            earlier.push(reply),
        ),
{
    let replies = earlier.push(reply);
    let pre = search_part(before, vm_id);
    let vm = subject(before, vm_id, replies);
    let refused = replies[pre.len() as int].put_fault() is Some;
    let none = Seq::<EffectView>::empty();
    lemma_replies_stay(before, vm_id, earlier, reply);
    let phase = destruction.stage->Stopping_phase;
    let next = boot::stop_next(phase, vm.pid, reply);
    let effect = destruction.effect(manager.base)->0;
    let after = asked.push(effect);
    assert(earlier.len() >= pre.len());
    match phase {
        StopPhase::AskGuest => {
            assert(refused == (reply.put_fault() is Some));
            assert(after =~= pre + stop_part(vm, refused, next));
        },
        StopPhase::KillAtOnce => {
            assert(after =~= pre + stop_part(vm, refused, next));
        },
        StopPhase::Wait => {
            assert(after =~= pre + stop_part(vm, refused, next));
        },
        StopPhase::KillLeftover => {
            assert(after =~= pre + stop_part(vm, refused, next));
        },
        StopPhase::Stopped => {},
    }
    assert(after + none =~= after);
}

#[verifier::rlimit(40)]
#[verifier::spinoff_prover]
proof fn lemma_clearing_step(
    before: ManagerView,
    vm_id: Seq<char>,
    destruction: DestructionView,
    manager: ManagerView,
    asked: Seq<EffectView>,
    earlier: Seq<Reply>,
    reply: Reply,
)
    requires
        destruction_so_far(before, vm_id, destruction, manager, asked, earlier),
        destruction.step(manager, reply).2 is None,
        is_settled(destruction.stage),
    ensures
        destruction_so_far(
            before,
            vm_id,
            destruction.step(manager, reply).0,
            destruction.step(manager, reply).1,
            match destruction.effect(manager.base) {
                Some(effect) => asked.push(effect),
                None => asked,
            },
            earlier.push(reply),
        ),
{
    let replies = earlier.push(reply);
    let pre = search_part(before, vm_id);
    let vm = subject(before, vm_id, replies);
    let refused = replies[pre.len() as int].put_fault() is Some;
    let none = Seq::<EffectView>::empty();
    lemma_replies_stay(before, vm_id, earlier, reply);
    if destruction.stage is TearDownTap {
        let effect = destruction.effect(manager.base)->0;
        assert(asked.push(effect) =~= pre + halt_part(vm, refused) + tap_part(vm));
    }
}

proof fn lemma_destruction_step_so_far(
    before: ManagerView,
    vm_id: Seq<char>,
    destruction: DestructionView,
    manager: ManagerView,
    asked: Seq<EffectView>,
    earlier: Seq<Reply>,
    reply: Reply,
)
    requires
        destruction_so_far(before, vm_id, destruction, manager, asked, earlier),
        destruction.step(manager, reply).2 is None,
    ensures
        destruction_so_far(
            before,
            vm_id,
            destruction.step(manager, reply).0,
            destruction.step(manager, reply).1,
            match destruction.effect(manager.base) {
                Some(effect) => asked.push(effect),
                None => asked,
            },
            earlier.push(reply),
        ),
{
    if is_settled(destruction.stage) {
        lemma_clearing_step(before, vm_id, destruction, manager, asked, earlier, reply);
    } else if destruction.stage is Stopping {
        lemma_stop_step(before, vm_id, destruction, manager, asked, earlier, reply);
    } else {
        lemma_search_step(before, vm_id, destruction, manager, asked, earlier, reply);
    }
}

proof fn lemma_destruction_so_far(before: ManagerView, vm_id: Seq<char>, replies: Seq<Reply>)
    requires
        ({
            let (d, m) = destruction_of(before, vm_id);
            destruction_run(d, m, replies).2 is None
        }),
    ensures
        ({
            let (d, m) = destruction_of(before, vm_id);
            let (after, left, _) = destruction_run(d, m, replies);
            destruction_so_far(
                before,
                vm_id,
                after,
                left,
                destruction_asked(d, m, replies),
                replies,
            )
        }),
    decreases replies.len(),
{
    let (d, m) = destruction_of(before, vm_id);
    if replies.len() > 0 {
        let earlier = replies.drop_last();
        lemma_destruction_so_far(before, vm_id, earlier);
        let (now, left, _) = destruction_run(d, m, earlier);
        lemma_destruction_step_so_far(
            before,
            vm_id,
            now,
            left,
            destruction_asked(d, m, earlier),
            earlier,
            replies.last(),
        );
        assert(earlier.push(replies.last()) =~= replies);
    } else {
        let pre = search_part(before, vm_id);
        let vm = subject(before, vm_id, replies);
        let none = Seq::<EffectView>::empty();
        assert(pre + none =~= pre);
        assert(none + none =~= none);
        assert(none + none + none =~= none);
    }
}

proof fn lemma_destroyed_has_no_error(
    destruction: DestructionView,
    manager: ManagerView,
    replies: Seq<Reply>,
)
    ensures
        destruction_run(destruction, manager, replies).0.stage is Destroyed ==> destruction_run(
            destruction,
            manager,
            replies,
        ).2 is None,
    decreases replies.len(),
{
    if replies.len() > 0 {
        lemma_destroyed_has_no_error(destruction, manager, replies.drop_last());
    }
}

/// For a VM that was destroyed, this and nothing else was asked, in this order.
/// If the manager did not have it: its configuration was found and read, and its
/// socket looked for. If it ran or was paused, or was read from disk and has a
/// socket: InstanceHalt was sent to it, its process was killed at once if that
/// was refused, three seconds were waited, and its process was killed. Whatever
/// its state was: its TAP device was deleted, if it has the name, address and
/// mask of one that the manager makes. Then its directory was looked for, and
/// removed if it was there.
pub proof fn law_destroyed_vm_was_taken_down(
    manager: ManagerView,
    vm_id: Seq<char>,
    replies: Seq<Reply>,
)
    requires
        ({
            let (d, m) = destruction_of(manager, vm_id);
            destruction_run(d, m, replies).0.stage is Destroyed
        }),
    ensures
        ({
            let (d, m) = destruction_of(manager, vm_id);
            let asked = destruction_asked(d, m, replies);
            let base = manager.base;
            let here = manager.vms.contains_key(vm_id);
            let config = if here {
                manager.vms[vm_id].config
            } else {
                replied_config(replies[1])->0
            };
            let runs = if here {
                manager.vms[vm_id].state == VmState::Running || manager.vms[vm_id].state
                    == VmState::Paused
            } else {
                replies[2] is Yes
            };
            let socket = if here {
                manager.vms[vm_id].socket_path
            } else {
                storage::socket_path(base, config.vm_id)
            };
            let kill = if here && manager.vms[vm_id].pid is Some {
                seq![EffectView::Kill { pid: manager.vms[vm_id].pid->0 }]
            } else {
                seq![]
            };
            let search = if here {
                seq![]
            } else {
                seq![
                    EffectView::Exists { path: storage::config_path(base, vm_id) },
                    EffectView::ReadConfig { path: storage::config_path(base, vm_id) },
                    EffectView::Exists { path: storage::socket_path(base, vm_id) },
                ]
            };
            let at_once = if replies[search.len() as int].put_fault() is Some {
                kill
            } else {
                seq![]
            };
            let stop = if runs {
                seq![
                    EffectView::Put {
                        socket,
                        path: "/actions"@,
                        body: crate::json::Json::Object(
                            map!["action_type"@ => crate::json::Json::Text("InstanceHalt"@)],
                        ),
                    },
                ] + at_once + seq![EffectView::Sleep { millis: 3000 }] + kill
            } else {
                seq![]
            };
            let tap = if network::tap_of(config.network).fault() is None {
                seq![EffectView::Ip { argv: seq!["link"@, "del"@, config.network.host_dev_name] }]
            } else {
                seq![]
            };
            let dir = storage::vm_dir(base, vm_id);
            let taken_down = search + stop + tap;
            let found = replies[taken_down.len() as int] is Yes;
            &&& !here ==> replies[0] is Yes && replied_config(replies[1]) is Some
            &&& replies.len() > taken_down.len()
            &&& found ==> replies[taken_down.len() as int + 1] is Done
            &&& asked == if found {
                taken_down.push(EffectView::Exists { path: dir }).push(
                    EffectView::RemoveDirAll { path: dir },
                )
            } else {
                taken_down.push(EffectView::Exists { path: dir })
            }
        }),
{
    let (d, m) = destruction_of(manager, vm_id);
    lemma_destroyed_has_no_error(d, m, replies);
    lemma_destruction_so_far(manager, vm_id, replies);
}

/// Destroying a VM asks that its own TAP device be deleted, whether it was
/// running, paused or neither, and whether the manager had it or it was read
/// from disk.
pub proof fn law_destruction_deletes_the_tap_device(
    manager: ManagerView,
    vm_id: Seq<char>,
    replies: Seq<Reply>,
)
    requires
        ({
            let (d, m) = destruction_of(manager, vm_id);
            destruction_run(d, m, replies).0.stage is Destroyed
        }),
    ensures
        ({
            let (d, m) = destruction_of(manager, vm_id);
            let config = if manager.vms.contains_key(vm_id) {
                manager.vms[vm_id].config
            } else {
                replied_config(replies[1])->0
            };
            network::tap_of(config.network).fault() is None ==> destruction_asked(
                d,
                m,
                replies,
            ).contains(
                EffectView::Ip { argv: seq!["link"@, "del"@, config.network.host_dev_name] },
            )
        }),
{
    let (d, m) = destruction_of(manager, vm_id);
    lemma_destroyed_has_no_error(d, m, replies);
    lemma_destruction_so_far(manager, vm_id, replies);
    let vm = subject(manager, vm_id, replies);
    if network::tap_of(vm.config.network).fault() is None {
        let pre = search_part(manager, vm_id);
        let refused = replies[pre.len() as int].put_fault() is Some;
        let k = pre.len() as int + halt_part(vm, refused).len();
        assert(destruction_asked(d, m, replies)[k] == tap_part(vm)[0]);
    }
}

/// What a VM that was destroyed took of the host is given back: what its
/// configuration names, up to the totals. It is taken out of the manager, and
/// nothing else of the manager changes.
pub proof fn law_destroyed_vm_gave_back_its_resources(
    manager: ManagerView,
    vm_id: Seq<char>,
    replies: Seq<Reply>,
)
    requires
        ({
            let (d, m) = destruction_of(manager, vm_id);
            destruction_run(d, m, replies).0.stage is Destroyed
        }),
    ensures
        ({
            let (d, m) = destruction_of(manager, vm_id);
            let after = destruction_run(d, m, replies).1;
            let limits = if manager.vms.contains_key(vm_id) {
                manager.vms[vm_id].config.resources
            } else {
                replied_config(replies[1])->0.resources
            };
            let vcpus = manager.capacity.available_vcpus + limits.cpu.vcpu_count;
            let memory = manager.capacity.available_memory_mib + limits.memory.size_mib;
            let disk = manager.capacity.available_disk_bytes + limits.storage.rootfs_size_bytes;
            &&& after == (ManagerView {
                vms: manager.vms.remove(vm_id),
                capacity: after.capacity,
                ..manager
            })
            &&& vcpus <= manager.capacity.total_vcpus ==> after.capacity.available_vcpus == vcpus
            &&& vcpus > manager.capacity.total_vcpus ==> after.capacity.available_vcpus
                == manager.capacity.total_vcpus
            &&& memory <= manager.capacity.total_memory_mib
                ==> after.capacity.available_memory_mib == memory
            &&& memory > manager.capacity.total_memory_mib
                ==> after.capacity.available_memory_mib == manager.capacity.total_memory_mib
            &&& disk <= manager.capacity.total_disk_bytes ==> after.capacity.available_disk_bytes
                == disk
            &&& disk > manager.capacity.total_disk_bytes ==> after.capacity.available_disk_bytes
                == manager.capacity.total_disk_bytes
            &&& after.capacity.total_vcpus == manager.capacity.total_vcpus
            &&& after.capacity.total_memory_mib == manager.capacity.total_memory_mib
            &&& after.capacity.total_disk_bytes == manager.capacity.total_disk_bytes
        }),
{
    law_vm_to_be_destroyed_is_gone(manager, vm_id, replies);
    if manager.vms.contains_key(vm_id) {
        law_destruction_releases_once(manager, vm_id, replies);
        resource::law_release_adds(manager.capacity, manager.vms[vm_id].config.resources);
    } else {
        law_destruction_from_disk_releases_once(manager, vm_id, replies);
        resource::law_release_adds(
            manager.capacity,
            replied_config(replies[1])->0.resources,
        );
    }
}

/// A VM that the manager does not have is destroyed all the same if its
/// configuration is found and read. What is read is a VM without a process, with
/// the socket of its ID. A configuration that cannot be read is an error, and
/// nothing changes.
pub proof fn law_vm_on_disk_is_found(
    manager: ManagerView,
    vm_id: Seq<char>,
    reply: Reply,
)
    requires
        !manager.vms.contains_key(vm_id),
    ensures
        ({
            let (d, m) = destruction_of(manager, vm_id);
            let (found, m1, f1) = d.step(m, Reply::Yes);
            let (read, m2, f2) = found.step(m1, reply);
            &&& m == manager && m1 == manager && m2 == manager
            &&& f1 is None
            &&& match reply {
                Reply::Config(config) => {
                    &&& f2 is None
                    &&& read.vm_id == vm_id
                    &&& read.stage matches DestroyStageView::FindSocket { vm } && vm.config
                        == config@ && vm.pid is None && vm.state == VmState::Created
                        && vm.socket_path == storage::socket_path(manager.base, config@.vm_id)
                },
                Reply::Failed(e) => f2 == Some(e@) && read == found,
                _ => f2 is Some && read == found,
            }
        }),
{
}

} // verus!
