//! Starting, stopping, pausing and resuming a microVM.
//!
//! Each procedure names the effect it needs next, and goes on with the reply.

use vstd::prelude::*;
use vstd::string::*;

use crate::api;
use crate::effect;
use crate::effect::{Effect, EffectView, Reply};
use crate::error;
use crate::error::{Failure, OsError, OsResult};
use crate::json::Json;
use crate::storage;
use crate::storage::VmStorage;
use crate::vm;
use crate::vm::{MicroVm, MicroVmView, VmState};

verus! {

/// How long a VM may take to open its API socket.
pub const SOCKET_WAIT_NANOS: u64 = 5_000_000_000;

/// How long to wait between two looks at the API socket.
pub const SOCKET_POLL_MILLIS: u64 = 50;

/// How long a VM may take to shut down before it is killed.
pub const SHUTDOWN_MILLIS: u64 = 3000;

// ---------------------------------------------------------------------------
// Requests that a VM is sent
// ---------------------------------------------------------------------------
impl MicroVmView {
    /// A PUT request to the API of this VM.
    pub open spec fn put(self, path: Seq<char>, body: Json) -> EffectView {
        EffectView::Put { socket: self.socket_path, path, body }
    }

    /// A request that this VM take an action.
    pub open spec fn act(self, action_type: Seq<char>) -> EffectView {
        self.put("/actions"@, api::action_payload(action_type))
    }
}

impl MicroVm {
    fn configure_machine(&self) -> (r: Effect)
        ensures
            r@ == self@.put("/machine-config"@, self@.config.machine_payload()),
    {
        Effect::Put {
            socket: self.socket_path.clone(),
            path: "/machine-config".to_string(),
            body: self.config.machine_config_json(),
        }
    }

    fn configure_boot_source(&self) -> (r: Effect)
        ensures
            r@ == self@.put(
                "/boot-source"@,
                self@.config.boot_payload(self@.config.network.boot_args()),
            ),
    {
        let net_args = self.config.network.kernel_boot_args();
        Effect::Put {
            socket: self.socket_path.clone(),
            path: "/boot-source".to_string(),
            body: self.config.boot_source_json(net_args.as_str()),
        }
    }

    fn configure_rootfs(&self, storage: &VmStorage) -> (r: Effect)
        ensures
            r@ == self@.put(
                "/drives/rootfs"@,
                storage::rootfs_drive(storage@, self@.config.vm_id, None).payload(),
            ),
    {
        let drive = storage.rootfs_drive_config(self.config.vm_id.as_str(), None);
        Effect::Put {
            socket: self.socket_path.clone(),
            path: "/drives/rootfs".to_string(),
            body: VmStorage::drive_to_firecracker_json(&drive),
        }
    }

    fn configure_network(&self) -> (r: Effect)
        ensures
            r@ == self@.put(
                "/network-interfaces/"@ + self@.config.network.iface_id,
                self@.config.network.payload(),
            ),
    {
        let mut path = "/network-interfaces/".to_string();
        path.append(self.config.network.iface_id.as_str());
        Effect::Put {
            socket: self.socket_path.clone(),
            path,
            body: self.config.network.to_firecracker_json(),
        }
    }

    /// The request that the VM take an action.
    pub fn send_action(&self, action_type: &str) -> (r: Effect)
        ensures
            r@ == self@.act(action_type@),
    {
        Effect::Put {
            socket: self.socket_path.clone(),
            path: "/actions".to_string(),
            body: api::action(action_type),
        }
    }
}

// ---------------------------------------------------------------------------
// Starting
// ---------------------------------------------------------------------------
/// How far the start of a VM has come: what is to be done next.
#[derive(Debug, Clone, Copy)]
pub enum BootPhase {
    /// Create the directory of the VM.
    Prepare,
    /// Look for a socket that an earlier run left.
    FindStaleSocket,
    /// Remove that socket.
    RemoveStaleSocket,
    /// Start the Firecracker process.
    Spawn,
    /// Set the time by which the socket has to be there.
    SetDeadline,
    /// See whether there is time left.
    CheckTime { deadline: u64 },
    /// See whether the socket is there.
    CheckSocket { deadline: u64 },
    /// Wait before the next look.
    Wait { deadline: u64 },
    ConfigureMachine,
    ConfigureBootSource,
    ConfigureRootfs,
    ConfigureNetwork,
    /// Tell Firecracker to start the instance.
    StartInstance,
    /// The VM runs.
    Booted,
}

/// What is asked of the host in each phase.
pub open spec fn boot_effect(phase: BootPhase, vm: MicroVmView, base: Seq<char>) -> Option<
    EffectView,
> {
    match phase {
        BootPhase::Prepare => Some(
            EffectView::CreateDirAll { path: storage::vm_dir(base, vm.config.vm_id) },
        ),
        BootPhase::FindStaleSocket => Some(EffectView::Exists { path: vm.socket_path }),
        BootPhase::RemoveStaleSocket => Some(EffectView::RemoveFile { path: vm.socket_path }),
        BootPhase::Spawn => Some(
            EffectView::Spawn {
                program: vm.config.firecracker_bin,
                argv: seq!["--api-sock"@, vm.socket_path],
            },
        ),
        BootPhase::SetDeadline => Some(EffectView::Clock),
        BootPhase::CheckTime { deadline } => Some(EffectView::Clock),
        BootPhase::CheckSocket { deadline } => Some(EffectView::Exists { path: vm.socket_path }),
        BootPhase::Wait { deadline } => Some(EffectView::Sleep { millis: SOCKET_POLL_MILLIS }),
        BootPhase::ConfigureMachine => Some(
            vm.put("/machine-config"@, vm.config.machine_payload()),
        ),
        BootPhase::ConfigureBootSource => Some(
            vm.put("/boot-source"@, vm.config.boot_payload(vm.config.network.boot_args())),
        ),
        BootPhase::ConfigureRootfs => Some(
            vm.put(
                "/drives/rootfs"@,
                storage::rootfs_drive(base, vm.config.vm_id, None).payload(),
            ),
        ),
        BootPhase::ConfigureNetwork => Some(
            vm.put(
                "/network-interfaces/"@ + vm.config.network.iface_id,
                vm.config.network.payload(),
            ),
        ),
        BootPhase::StartInstance => Some(vm.act("InstanceStart"@)),
        BootPhase::Booted => None,
    }
}

/// The sum of two clock readings, as far as a reading goes.
pub open spec fn later(nanos: u64, span: u64) -> u64 {
    if nanos + span > u64::MAX {
        u64::MAX
    } else {
        (nanos + span) as u64
    }
}

/// `next`, unless `fault` names an error.
pub open spec fn unless<P>(fault: Option<Failure>, next: P) -> Result<P, Failure> {
    match fault {
        Some(f) => Err(f),
        None => Ok(next),
    }
}

/// The phase that follows on a reply, or the error that ends the start.
pub open spec fn boot_next(phase: BootPhase, reply: Reply, vm_id: Seq<char>) -> Result<
    BootPhase,
    Failure,
> {
    match phase {
        BootPhase::Prepare => unless(reply.fault(), BootPhase::FindStaleSocket),
        BootPhase::FindStaleSocket => if reply is Yes {
            Ok(BootPhase::RemoveStaleSocket)
        } else {
            Ok(BootPhase::Spawn)
        },
        BootPhase::RemoveStaleSocket => unless(reply.fault(), BootPhase::Spawn),
        BootPhase::Spawn => match reply {
            Reply::SpawnFailed(reason) => Err(
                Failure::Firecracker("failed to spawn: "@ + reason@),
            ),
            Reply::Started { pid } => Ok(BootPhase::SetDeadline),
            _ => Err(reply.misfit()),
        },
        BootPhase::SetDeadline => match reply {
            Reply::Time { nanos } => Ok(
                BootPhase::CheckTime { deadline: later(nanos, SOCKET_WAIT_NANOS) },
            ),
            _ => Err(reply.misfit()),
        },
        BootPhase::CheckTime { deadline } => match reply {
            Reply::Time { nanos } => if nanos < deadline {
                Ok(BootPhase::CheckSocket { deadline })
            } else {
                Err(Failure::Timeout(vm_id))
            },
            _ => Err(reply.misfit()),
        },
        BootPhase::CheckSocket { deadline } => if reply is Yes {
            Ok(BootPhase::ConfigureMachine)
        } else {
            Ok(BootPhase::Wait { deadline })
        },
        BootPhase::Wait { deadline } => Ok(BootPhase::CheckTime { deadline }),
        BootPhase::ConfigureMachine => unless(reply.put_fault(), BootPhase::ConfigureBootSource),
        BootPhase::ConfigureBootSource => unless(reply.put_fault(), BootPhase::ConfigureRootfs),
        BootPhase::ConfigureRootfs => unless(reply.put_fault(), BootPhase::ConfigureNetwork),
        BootPhase::ConfigureNetwork => unless(reply.put_fault(), BootPhase::StartInstance),
        BootPhase::StartInstance => unless(reply.put_fault(), BootPhase::Booted),
        BootPhase::Booted => Ok(BootPhase::Booted),
    }
}

/// What a reply does to the start of a VM and to the VM: where it goes on,
/// what the VM is then, and the error where there is one.
///
/// The VM gets the process ID that was handed out, and runs once Firecracker
/// has accepted the start of the instance.
pub open spec fn boot_step(phase: BootPhase, vm: MicroVmView, reply: Reply) -> (
    BootPhase,
    MicroVmView,
    Option<Failure>,
) {
    match boot_next(phase, reply, vm.config.vm_id) {
        Err(f) => (phase, vm, Some(f)),
        Ok(next) => if phase is StartInstance {
            if vm.state.may_become(VmState::Running) {
                (next, MicroVmView { state: VmState::Running, ..vm }, None)
            } else {
                (phase, vm, Some(vm::illegal_transition(vm.state, VmState::Running)))
            }
        } else if phase is Spawn {
            (next, MicroVmView { pid: started_pid(reply), ..vm }, None)
        } else {
            (next, vm, None)
        },
    }
}

/// The process ID that a reply gives.
pub open spec fn started_pid(reply: Reply) -> Option<u32> {
    match reply {
        Reply::Started { pid } => pid,
        _ => None,
    }
}

/// The start of a VM, on its way.
#[derive(Debug, Clone, Copy)]
pub struct Boot {
    pub phase: BootPhase,
}

impl MicroVm {
    /// Start the Firecracker process and configure the VM via the API socket.
    pub fn start(&mut self) -> (r: OsResult<Boot>)
        ensures
            r is Ok <==> old(self).state == VmState::Created,
            r matches Ok(boot) ==> boot.phase == BootPhase::Prepare && *final(self) == (MicroVm {
                state: VmState::Booting,
                ..*old(self)
            }),
            r matches Err(e) ==> e@ == vm::illegal_transition(old(self).state, VmState::Booting)
                && *final(self) == *old(self),
    {
        match self.transition(VmState::Booting) {
            Ok(_) => Ok(Boot { phase: BootPhase::Prepare }),
            Err(e) => Err(e),
        }
    }
}

impl Boot {
    /// What has to be done next, until the VM runs.
    pub fn effect(&self, vm: &MicroVm, storage: &VmStorage) -> (r: Option<Effect>)
        ensures
            effect::asked(r) == boot_effect(self.phase, vm@, storage@),
    {
        match self.phase {
            BootPhase::Prepare => Some(
                Effect::CreateDirAll { path: storage.vm_dir(vm.config.vm_id.as_str()) },
            ),
            BootPhase::FindStaleSocket => Some(Effect::Exists { path: vm.socket_path.clone() }),
            BootPhase::RemoveStaleSocket => Some(
                Effect::RemoveFile { path: vm.socket_path.clone() },
            ),
            BootPhase::Spawn => {
                let argv = vec!["--api-sock".to_string(), vm.socket_path.clone()];
                assert(argv.deep_view() =~= seq!["--api-sock"@, vm@.socket_path]);
                Some(Effect::Spawn { program: vm.config.firecracker_bin.clone(), argv })
            },
            BootPhase::SetDeadline => Some(Effect::Clock),
            BootPhase::CheckTime { deadline } => Some(Effect::Clock),
            BootPhase::CheckSocket { deadline } => Some(
                Effect::Exists { path: vm.socket_path.clone() },
            ),
            BootPhase::Wait { deadline } => Some(Effect::Sleep { millis: SOCKET_POLL_MILLIS }),
            BootPhase::ConfigureMachine => Some(vm.configure_machine()),
            BootPhase::ConfigureBootSource => Some(vm.configure_boot_source()),
            BootPhase::ConfigureRootfs => Some(vm.configure_rootfs(storage)),
            BootPhase::ConfigureNetwork => Some(vm.configure_network()),
            BootPhase::StartInstance => Some(vm.send_action("InstanceStart")),
            BootPhase::Booted => None,
        }
    }

    fn next(&self, vm: &MicroVm, reply: Reply) -> (r: OsResult<BootPhase>)
        ensures
            match r {
                Ok(next) => boot_next(self.phase, reply, vm@.config.vm_id) == Ok::<
                    BootPhase,
                    Failure,
                >(next),
                Err(e) => boot_next(self.phase, reply, vm@.config.vm_id) == Err::<
                    BootPhase,
                    Failure,
                >(e@),
            },
    {
        let next = match self.phase {
            BootPhase::Prepare => {
                reply.done()?;
                BootPhase::FindStaleSocket
            },
            BootPhase::FindStaleSocket => if reply.is_yes() {
                BootPhase::RemoveStaleSocket
            } else {
                BootPhase::Spawn
            },
            BootPhase::RemoveStaleSocket => {
                reply.done()?;
                BootPhase::Spawn
            },
            BootPhase::Spawn => match reply {
                Reply::SpawnFailed(reason) => {
                    let mut message = "failed to spawn: ".to_string();
                    message.append(reason.as_str());
                    return Err(OsError::Firecracker(message));
                },
                Reply::Started { pid: _ } => BootPhase::SetDeadline,
                other => {
                    return Err(other.refuse());
                },
            },
            BootPhase::SetDeadline => match reply {
                Reply::Time { nanos } => BootPhase::CheckTime {
                    deadline: nanos.saturating_add(SOCKET_WAIT_NANOS),
                },
                other => {
                    return Err(other.refuse());
                },
            },
            BootPhase::CheckTime { deadline } => match reply {
                Reply::Time { nanos } => if nanos < deadline {
                    BootPhase::CheckSocket { deadline }
                } else {
                    return Err(OsError::Timeout(vm.config.vm_id.clone()));
                },
                other => {
                    return Err(other.refuse());
                },
            },
            BootPhase::CheckSocket { deadline } => if reply.is_yes() {
                BootPhase::ConfigureMachine
            } else {
                BootPhase::Wait { deadline }
            },
            BootPhase::Wait { deadline } => BootPhase::CheckTime { deadline },
            BootPhase::ConfigureMachine => {
                reply.put_done()?;
                BootPhase::ConfigureBootSource
            },
            BootPhase::ConfigureBootSource => {
                reply.put_done()?;
                BootPhase::ConfigureRootfs
            },
            BootPhase::ConfigureRootfs => {
                reply.put_done()?;
                BootPhase::ConfigureNetwork
            },
            BootPhase::ConfigureNetwork => {
                reply.put_done()?;
                BootPhase::StartInstance
            },
            BootPhase::StartInstance => {
                reply.put_done()?;
                BootPhase::Booted
            },
            BootPhase::Booted => BootPhase::Booted,
        };
        Ok(next)
    }

    /// Goes on with the reply to the effect that was asked for.
    pub fn advance(&mut self, vm: &mut MicroVm, reply: Reply) -> (r: OsResult<()>)
        ensures
            boot_step(old(self).phase, old(vm)@, reply) == (
                final(self).phase,
                final(vm)@,
                error::error_of(r),
            ),
    {
        let pid = match &reply {
            Reply::Started { pid } => *pid,
            _ => None,
        };
        let next = self.next(vm, reply)?;
        match self.phase {
            BootPhase::Spawn => {
                vm.pid = pid;
            },
            BootPhase::StartInstance => {
                vm.transition(VmState::Running)?;
            },
            _ => {},
        }
        self.phase = next;
        Ok(())
    }
}

// ---------------------------------------------------------------------------
// Stopping
// ---------------------------------------------------------------------------
/// How far the stop of a VM has come: what is to be done next.
#[derive(Debug, Clone, Copy)]
pub enum StopPhase {
    /// Send InstanceHalt.
    AskGuest,
    /// Kill the process of a VM that did not take the request.
    KillAtOnce,
    /// Give the guest time to shut down.
    Wait,
    /// Kill what is left of the process.
    KillLeftover,
    /// The VM has stopped.
    Stopped,
}

/// What is asked of the host in each phase.
pub open spec fn stop_effect(phase: StopPhase, vm: MicroVmView) -> Option<EffectView> {
    match phase {
        StopPhase::AskGuest => Some(vm.act("InstanceHalt"@)),
        StopPhase::KillAtOnce => kill_effect(vm.pid),
        StopPhase::Wait => Some(EffectView::Sleep { millis: SHUTDOWN_MILLIS }),
        StopPhase::KillLeftover => kill_effect(vm.pid),
        StopPhase::Stopped => None,
    }
}

/// Killing the process of a VM, where it has one.
pub open spec fn kill_effect(pid: Option<u32>) -> Option<EffectView> {
    match pid {
        Some(pid) => Some(EffectView::Kill { pid }),
        None => None,
    }
}

/// The phase that follows on a reply. A VM without a process is not killed.
pub open spec fn stop_next(phase: StopPhase, pid: Option<u32>, reply: Reply) -> StopPhase {
    match phase {
        StopPhase::AskGuest => if reply.put_fault() is Some && pid is Some {
            StopPhase::KillAtOnce
        } else {
            StopPhase::Wait
        },
        StopPhase::KillAtOnce => StopPhase::Wait,
        StopPhase::Wait => if pid is Some {
            StopPhase::KillLeftover
        } else {
            StopPhase::Stopped
        },
        StopPhase::KillLeftover => StopPhase::Stopped,
        StopPhase::Stopped => StopPhase::Stopped,
    }
}

/// What a reply does to the stop of a VM and to the VM. The VM has stopped
/// once nothing is left to be done.
pub open spec fn stop_step(phase: StopPhase, vm: MicroVmView, reply: Reply) -> (
    StopPhase,
    MicroVmView,
    Option<Failure>,
) {
    let next = stop_next(phase, vm.pid, reply);
    if next is Stopped && !(phase is Stopped) {
        if vm.state.may_become(VmState::Stopped) {
            (next, MicroVmView { state: VmState::Stopped, ..vm }, None)
        } else {
            (phase, vm, Some(vm::illegal_transition(vm.state, VmState::Stopped)))
        }
    } else {
        (next, vm, None)
    }
}

/// The stop of a VM, on its way.
#[derive(Debug, Clone, Copy)]
pub struct Stop {
    pub phase: StopPhase,
}

impl MicroVm {
    /// Stop the microVM by sending InstanceHalt. What is left of its process is killed.
    pub fn stop(&mut self) -> (r: OsResult<Stop>)
        ensures
            r is Ok <==> old(self).state == VmState::Running || old(self).state
                == VmState::Paused,
            r matches Ok(stop) ==> stop.phase == StopPhase::AskGuest && *final(self) == (MicroVm {
                state: VmState::Stopping,
                ..*old(self)
            }),
            r matches Err(e) ==> e@ == vm::illegal_transition(old(self).state, VmState::Stopping)
                && *final(self) == *old(self),
    {
        match self.transition(VmState::Stopping) {
            Ok(_) => Ok(Stop { phase: StopPhase::AskGuest }),
            Err(e) => Err(e),
        }
    }

    /// Force-kill the Firecracker process.
    fn kill(&self) -> (r: Option<Effect>)
        ensures
            effect::asked(r) == kill_effect(self.pid),
    {
        match self.pid {
            Some(pid) => Some(Effect::Kill { pid }),
            None => None,
        }
    }
}

impl Stop {
    /// What has to be done next, until the VM has stopped.
    pub fn effect(&self, vm: &MicroVm) -> (r: Option<Effect>)
        ensures
            effect::asked(r) == stop_effect(self.phase, vm@),
    {
        match self.phase {
            StopPhase::AskGuest => Some(vm.send_action("InstanceHalt")),
            StopPhase::KillAtOnce => vm.kill(),
            StopPhase::Wait => Some(Effect::Sleep { millis: SHUTDOWN_MILLIS }),
            StopPhase::KillLeftover => vm.kill(),
            StopPhase::Stopped => None,
        }
    }

    /// Goes on with the reply to the effect that was asked for.
    pub fn advance(&mut self, vm: &mut MicroVm, reply: Reply) -> (r: OsResult<()>)
        ensures
            stop_step(old(self).phase, old(vm)@, reply) == (
                final(self).phase,
                final(vm)@,
                error::error_of(r),
            ),
    {
        let next = match self.phase {
            StopPhase::AskGuest => if reply.put_done().is_err() && vm.pid.is_some() {
                StopPhase::KillAtOnce
            } else {
                StopPhase::Wait
            },
            StopPhase::KillAtOnce => StopPhase::Wait,
            StopPhase::Wait => if vm.pid.is_some() {
                StopPhase::KillLeftover
            } else {
                vm.transition(VmState::Stopped)?;
                StopPhase::Stopped
            },
            StopPhase::KillLeftover => {
                vm.transition(VmState::Stopped)?;
                StopPhase::Stopped
            },
            StopPhase::Stopped => StopPhase::Stopped,
        };
        self.phase = next;
        Ok(())
    }
}

// ---------------------------------------------------------------------------
// Pausing and resuming
// ---------------------------------------------------------------------------
/// What the reply to a request for `next` does to a VM: it goes over to `next`
/// once the request is accepted, where that is legal.
pub open spec fn switch_step(vm: MicroVmView, next: VmState, reply: Reply) -> (
    MicroVmView,
    Option<Failure>,
) {
    if reply.put_fault() is Some {
        (vm, reply.put_fault())
    } else if vm.state.may_become(next) {
        (MicroVmView { state: next, ..vm }, None)
    } else {
        (vm, Some(vm::illegal_transition(vm.state, next)))
    }
}

impl MicroVm {
    /// The request that pauses the VM.
    pub fn pause_request(&self) -> (r: Effect)
        ensures
            r@ == self@.act("Pause"@),
            r@ matches EffectView::Put { socket, path, body } && socket == self@.socket_path && path
                == "/actions"@ && body.member("action_type"@) == Some(Json::Text("Pause"@)),
    {
        self.send_action("Pause")
    }

    /// Pause the microVM, with the reply to the request that pauses it.
    pub fn pause(&mut self, reply: Reply) -> (r: OsResult<()>)
        ensures
            switch_step(old(self)@, VmState::Paused, reply) == (final(self)@, error::error_of(r)),
            r is Ok <==> reply.put_fault() is None && old(self)@.state == VmState::Running,
            r is Ok ==> final(self)@ == (MicroVmView { state: VmState::Paused, ..old(self)@ }),
            r is Err ==> final(self)@ == old(self)@,
    {
        reply.put_done()?;
        self.transition(VmState::Paused)
    }

    /// The request that resumes the VM.
    pub fn resume_request(&self) -> (r: Effect)
        ensures
            r@ == self@.act("Resume"@),
            r@ matches EffectView::Put { socket, path, body } && socket == self@.socket_path && path
                == "/actions"@ && body.member("action_type"@) == Some(Json::Text("Resume"@)),
    {
        self.send_action("Resume")
    }

    /// Resume a paused microVM, with the reply to the request that resumes it.
    pub fn resume(&mut self, reply: Reply) -> (r: OsResult<()>)
        ensures
            switch_step(old(self)@, VmState::Running, reply) == (final(self)@, error::error_of(r)),
            r is Ok <==> reply.put_fault() is None && (old(self)@.state == VmState::Paused || old(
                self,
            )@.state == VmState::Booting),
            r is Ok ==> final(self)@ == (MicroVmView { state: VmState::Running, ..old(self)@ }),
            r is Err ==> final(self)@ == old(self)@,
    {
        reply.put_done()?;
        self.transition(VmState::Running)
    }
}

// ---------------------------------------------------------------------------
// Laws
// ---------------------------------------------------------------------------
/// A start that fails leaves the VM as it was, in the phase in which it failed.
pub proof fn law_failed_start_changes_nothing(phase: BootPhase, vm: MicroVmView, reply: Reply)
    requires
        boot_step(phase, vm, reply).2 is Some,
    ensures
        boot_step(phase, vm, reply).0 == phase,
        boot_step(phase, vm, reply).1 == vm,
{
}

/// A VM that is being started runs only once Firecracker has accepted the
/// start of the instance: `curl` sent the request, and nothing is wrong with
/// what it left behind. The VM is booting until then.
pub proof fn law_vm_runs_only_when_firecracker_started_it(
    phase: BootPhase,
    vm: MicroVmView,
    reply: Reply,
)
    requires
        vm.state == VmState::Booting,
    ensures
        ({
            let (next, after, fault) = boot_step(phase, vm, reply);
            &&& after.state == VmState::Running <==> phase is StartInstance && (reply matches
                Reply::Output(output) && output.fault() is None)
            &&& after.state == VmState::Running || after.state == VmState::Booting
            &&& after.state == VmState::Running ==> next is Booted && fault is None
        }),
{
}

/// The start never changes the configuration or the paths of a VM.
pub proof fn law_start_keeps_the_configuration(phase: BootPhase, vm: MicroVmView, reply: Reply)
    ensures
        boot_step(phase, vm, reply).1.config == vm.config,
        boot_step(phase, vm, reply).1.socket_path == vm.socket_path,
        boot_step(phase, vm, reply).1.log_path == vm.log_path,
{
}

/// How many phases lie between a phase and the end of the start.
pub open spec fn boot_distance(phase: BootPhase) -> nat {
    match phase {
        BootPhase::Prepare => 10,
        BootPhase::FindStaleSocket => 9,
        BootPhase::RemoveStaleSocket => 8,
        BootPhase::Spawn => 7,
        BootPhase::SetDeadline => 6,
        BootPhase::CheckTime { deadline } => 5,
        BootPhase::CheckSocket { deadline } => 5,
        BootPhase::Wait { deadline } => 5,
        BootPhase::ConfigureMachine => 4,
        BootPhase::ConfigureBootSource => 3,
        BootPhase::ConfigureRootfs => 2,
        BootPhase::ConfigureNetwork => 1,
        BootPhase::StartInstance => 0,
        BootPhase::Booted => 0,
    }
}

/// Each reply brings the start of a VM closer to its end, ends it with an
/// error, or finds it waiting for the socket.
pub proof fn law_start_moves_on(phase: BootPhase, vm: MicroVmView, reply: Reply)
    requires
        !(phase is Booted),
    ensures
        ({
            let (next, after, fault) = boot_step(phase, vm, reply);
            ||| fault is Some
            ||| next is Booted
            ||| boot_distance(next) < boot_distance(phase)
            ||| (next is CheckTime || next is CheckSocket || next is Wait) && (phase is CheckTime
                || phase is CheckSocket || phase is Wait)
        }),
{
}

/// Waiting for the socket ends with a timeout once the clock has reached the
/// deadline, which is five seconds after the wait began.
pub proof fn law_wait_for_socket_times_out(vm: MicroVmView, began: u64, now: u64)
    requires
        now >= began + 5_000_000_000,
    ensures
        ({
            let (waiting, same, _) = boot_step(
                BootPhase::SetDeadline,
                vm,
                Reply::Time { nanos: began },
            );
            &&& same == vm
            &&& boot_step(waiting, vm, Reply::Time { nanos: now }) == (
                waiting,
                vm,
                Some(Failure::Timeout(vm.config.vm_id)),
            )
        }),
{
}

/// The requests that configure a VM are sent in a fixed order, each only after
/// the one before was accepted, and the instance is started last.
pub proof fn law_configuration_precedes_start(vm: MicroVmView, accepted: Seq<Reply>)
    requires
        vm.state == VmState::Booting,
        accepted.len() == 5,
        forall|i: int| 0 <= i < 5 ==> (#[trigger] accepted[i]).put_fault() is None,
    ensures
        ({
            let (p1, v1, _) = boot_step(BootPhase::ConfigureMachine, vm, accepted[0]);
            let (p2, v2, _) = boot_step(p1, v1, accepted[1]);
            let (p3, v3, _) = boot_step(p2, v2, accepted[2]);
            let (p4, v4, _) = boot_step(p3, v3, accepted[3]);
            let (p5, v5, _) = boot_step(p4, v4, accepted[4]);
            &&& p1 == BootPhase::ConfigureBootSource
            &&& p2 == BootPhase::ConfigureRootfs
            &&& p3 == BootPhase::ConfigureNetwork
            &&& p4 == BootPhase::StartInstance
            &&& p5 == BootPhase::Booted
            &&& v5 == (MicroVmView { state: VmState::Running, ..vm })
        }),
{
}

/// A VM that is stopping has stopped after at most four replies, whatever they
/// are, and no stop of it fails.
pub proof fn law_stop_always_ends(vm: MicroVmView, replies: Seq<Reply>)
    requires
        vm.state == VmState::Stopping,
        replies.len() == 4,
    ensures
        ({
            let (p1, v1, f1) = stop_step(StopPhase::AskGuest, vm, replies[0]);
            let (p2, v2, f2) = stop_step(p1, v1, replies[1]);
            let (p3, v3, f3) = stop_step(p2, v2, replies[2]);
            let (p4, v4, f4) = stop_step(p3, v3, replies[3]);
            &&& f1 is None && f2 is None && f3 is None && f4 is None
            &&& p4 is Stopped
            &&& v4 == (MicroVmView { state: VmState::Stopped, ..vm })
        }),
{
}

/// A process that is left is killed before its VM counts as stopped.
pub proof fn law_stop_kills_the_process(phase: StopPhase, vm: MicroVmView, reply: Reply)
    requires
        vm.pid is Some,
        !(phase is Stopped),
        stop_step(phase, vm, reply).0 is Stopped,
    ensures
        stop_effect(phase, vm) == Some(EffectView::Kill { pid: vm.pid->0 }),
{
}

/// A VM that is paused and then resumed is as it was before.
pub proof fn law_resume_undoes_pause(vm: MicroVmView, paused: Reply, resumed: Reply)
    requires
        vm.state == VmState::Running,
        paused.put_fault() is None,
        resumed.put_fault() is None,
    ensures
        switch_step(vm, VmState::Paused, paused).1 is None,
        switch_step(switch_step(vm, VmState::Paused, paused).0, VmState::Running, resumed) == (
            vm,
            None::<Failure>,
        ),
{
}

/// What the host is asked while a VM stops. Firecracker is asked to halt the
/// instance. Where it does not take the request, the process is killed at once.
/// Three seconds later the process is killed in any case, where there is one.
pub proof fn law_stopping_halts_and_kills(vm: MicroVmView, replies: Seq<Reply>)
    requires
        vm.state == VmState::Stopping,
        replies.len() == 3,
    ensures
        ({
            let (p1, v1, f1) = stop_step(StopPhase::AskGuest, vm, replies[0]);
            let (p2, v2, f2) = stop_step(p1, v1, replies[1]);
            let (p3, v3, f3) = stop_step(p2, v2, replies[2]);
            let first = stop_effect(StopPhase::AskGuest, vm);
            let second = stop_effect(p1, v1);
            let third = stop_effect(p2, v2);
            let fourth = stop_effect(p3, v3);
            let wait = Some(EffectView::Sleep { millis: 3000 });
            &&& first == Some(
                EffectView::Put {
                    socket: vm.socket_path,
                    path: "/actions"@,
                    body: Json::Object(map!["action_type"@ => Json::Text("InstanceHalt"@)]),
                },
            )
            &&& match vm.pid {
                Some(pid) => if replies[0].put_fault() is Some {
                    &&& second == Some(EffectView::Kill { pid })
                    &&& third == wait
                    &&& fourth == Some(EffectView::Kill { pid })
                    &&& v3.state == VmState::Stopping
                } else {
                    &&& second == wait
                    &&& third == Some(EffectView::Kill { pid })
                    &&& fourth is None
                    &&& v3.state == VmState::Stopped
                },
                None => {
                    &&& second == wait
                    &&& third is None
                    &&& v2.state == VmState::Stopped
                },
            }
        }),
{
}

/// A VM goes over to the state that was asked for if and only if Firecracker has
/// accepted the request and the transition is legal. Otherwise it stays as it
/// was, and what went wrong is reported.
pub proof fn law_switching_takes_an_accepted_request(
    vm: MicroVmView,
    next: VmState,
    reply: Reply,
)
    ensures
        ({
            let (after, fault) = switch_step(vm, next, reply);
            &&& fault is None <==> reply.put_fault() is None && vm.state.may_become(next)
            &&& fault is None ==> after == (MicroVmView { state: next, ..vm })
            &&& fault is Some ==> after == vm
            &&& reply.put_fault() is Some ==> fault == reply.put_fault()
            &&& reply.put_fault() is None && fault is Some ==> fault == Some(
                Failure::InvalidState {
                    current: vm.state.name(),
                    operation: "transition to "@ + next.name(),
                },
            )
        }),
{
}

} // verus!
