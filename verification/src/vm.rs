//! A microVM: its configuration, its state, and the payloads Firecracker is sent.

use vstd::prelude::*;
use vstd::string::*;

use crate::error::{Failure, OsError, OsResult};
use crate::json;
use crate::json::Json;
use crate::network;
use crate::network::{NetworkConfig, NetworkView};
use crate::resource;
use crate::resource::ResourceLimits;
use crate::storage;
use crate::storage::VmStorage;

verus! {

/// Unique VM identifier.
pub type VmId = String;

// ---------------------------------------------------------------------------
// States
// ---------------------------------------------------------------------------
/// Runtime state of a microVM.
#[derive(Debug, Clone, Copy, PartialEq, Eq, Structural)]
pub enum VmState {
    /// VM config created, not yet started.
    Created,
    /// Firecracker process is booting.
    Booting,
    /// VM is running.
    Running,
    /// VM is paused (Firecracker Pause action).
    Paused,
    /// VM is stopping.
    Stopping,
    /// VM has stopped.
    Stopped,
    /// VM encountered an error.
    Failed,
}

impl VmState {
    /// How the state is written.
    pub open spec fn name(self) -> Seq<char> {
        match self {
            VmState::Created => "created"@,
            VmState::Booting => "booting"@,
            VmState::Running => "running"@,
            VmState::Paused => "paused"@,
            VmState::Stopping => "stopping"@,
            VmState::Stopped => "stopped"@,
            VmState::Failed => "failed"@,
        }
    }

    /// May a VM in this state go over to `next`?
    pub open spec fn may_become(self, next: VmState) -> bool {
        match self {
            VmState::Created => next == VmState::Booting,
            VmState::Booting => next == VmState::Running || next == VmState::Failed,
            VmState::Running => next == VmState::Paused || next == VmState::Stopping || next
                == VmState::Failed,
            VmState::Paused => next == VmState::Running || next == VmState::Stopping,
            VmState::Stopping => next == VmState::Stopped || next == VmState::Failed,
            VmState::Stopped => false,
            VmState::Failed => false,
        }
    }

    /// Writes the state.
    pub fn to_string(&self) -> (r: String)
        ensures
            r@ == self.name(),
    {
        match self {
            VmState::Created => "created".to_string(),
            VmState::Booting => "booting".to_string(),
            VmState::Running => "running".to_string(),
            VmState::Paused => "paused".to_string(),
            VmState::Stopping => "stopping".to_string(),
            VmState::Stopped => "stopped".to_string(),
            VmState::Failed => "failed".to_string(),
        }
    }
}

/// No two states are written alike.
pub proof fn lemma_state_names_differ(a: VmState, b: VmState)
    requires
        a != b,
    ensures
        a.name() != b.name(),
{
    reveal_strlit("created");
    reveal_strlit("booting");
    reveal_strlit("running");
    reveal_strlit("paused");
    reveal_strlit("stopping");
    reveal_strlit("stopped");
    reveal_strlit("failed");
    assert(a.name()[0] != b.name()[0] || a.name().len() != b.name().len() || a.name()[4]
        != b.name()[4]);
}

// ---------------------------------------------------------------------------
// Configuration
// ---------------------------------------------------------------------------
/// Full VM configuration.
#[derive(Debug)]
pub struct VmConfig {
    /// Unique VM identifier.
    pub vm_id: VmId,
    /// Human-readable VM name.
    pub name: String,
    /// Resource limits (CPU, memory, storage, network).
    pub resources: ResourceLimits,
    /// Network configuration.
    pub network: NetworkConfig,
    /// Kernel image path.
    pub kernel_image_path: String,
    /// Kernel boot arguments.
    pub boot_args: String,
    /// Path to Firecracker binary.
    pub firecracker_bin: String,
}

/// What a VM configuration says.
pub struct VmConfigView {
    pub vm_id: Seq<char>,
    pub name: Seq<char>,
    pub resources: ResourceLimits,
    pub network: NetworkView,
    pub kernel_image_path: Seq<char>,
    pub boot_args: Seq<char>,
    pub firecracker_bin: Seq<char>,
}

impl View for VmConfig {
    type V = VmConfigView;

    open spec fn view(&self) -> VmConfigView {
        VmConfigView {
            vm_id: self.vm_id@,
            name: self.name@,
            resources: self.resources,
            network: self.network@,
            kernel_image_path: self.kernel_image_path@,
            boot_args: self.boot_args@,
            firecracker_bin: self.firecracker_bin@,
        }
    }
}

impl Clone for VmConfig {
    fn clone(&self) -> (r: Self)
        ensures
            r@ == self@,
    {
        VmConfig {
            vm_id: self.vm_id.clone(),
            name: self.name.clone(),
            resources: self.resources,
            network: self.network.clone(),
            kernel_image_path: self.kernel_image_path.clone(),
            boot_args: self.boot_args.clone(),
            firecracker_bin: self.firecracker_bin.clone(),
        }
    }
}

/// The kernel arguments that every VM boots with.
pub open spec fn default_boot_args() -> Seq<char> {
    "console=ttyS0 reboot=k panic=1 pci=off"@
}

/// The configuration of a VM with this UUID and this name, before anything
/// else is set.
pub open spec fn default_config(uuid: Seq<char>, name: Seq<char>) -> VmConfigView {
    VmConfigView {
        vm_id: "vm-"@ + uuid,
        name,
        resources: resource::small_limits(),
        network: network::network_for(0),
        kernel_image_path: "vmlinux"@,
        boot_args: default_boot_args(),
        firecracker_bin: "firecracker"@,
    }
}

/// `args`, followed by a space and `extra` where `extra` is not empty.
pub open spec fn extended_args(args: Seq<char>, extra: Seq<char>) -> Seq<char> {
    if extra.len() == 0 {
        args
    } else {
        args + " "@ + extra
    }
}

/// The payload of the boot-source call of the Firecracker API.
pub open spec fn boot_source(kernel_image_path: Seq<char>, args: Seq<char>) -> Json {
    Json::Object(
        map![
            "kernel_image_path"@ => Json::Text(kernel_image_path),
            "boot_args"@ => Json::Text(args),
        ],
    )
}

impl VmConfigView {
    /// The payload of the machine-config call of the Firecracker API.
    pub open spec fn machine_payload(self) -> Json {
        Json::Object(
            map![
                "vcpu_count"@ => Json::Integer(self.resources.cpu.vcpu_count as int),
                "mem_size_mib"@ => Json::Integer(self.resources.memory.size_mib as int),
            ],
        )
    }

    /// The payload of the boot-source call of the Firecracker API.
    pub open spec fn boot_payload(self, net_boot_args: Seq<char>) -> Json {
        boot_source(self.kernel_image_path, extended_args(self.boot_args, net_boot_args))
    }
}

/// Is `s` a random UUID (version 4) in lower-case hexadecimal, in groups of
/// 8, 4, 4, 4 and 12 digits?
pub open spec fn is_uuid(s: Seq<char>) -> bool {
    &&& s.len() == 36
    &&& forall|i: int|
        0 <= i < 36 ==> if i == 8 || i == 13 || i == 18 || i == 23 {
            #[trigger] s[i] == '-'
        } else {
            '0' <= s[i] <= '9' || 'a' <= s[i] <= 'f'
        }
    &&& s[14] == '4'
    &&& s[19] == '8' || s[19] == '9' || s[19] == 'a' || s[19] == 'b'
}

/// Calls `uuid::Uuid::new_v4`, and writes the UUID with its `Display`: which
/// one it is rests on chance, but it is always one of version 4 and of the
/// standard variant, in hyphenated lower-case form.
#[verifier::external_body]
fn random_uuid() -> (r: String)
    ensures
        is_uuid(r@),
{
    uuid::Uuid::new_v4().to_string()
}

/// Writes `args`, and a space and `extra` where `extra` is not empty.
pub(crate) fn extend_args(args: &str, extra: &str) -> (r: String)
    ensures
        r@ == extended_args(args@, extra@),
{
    let mut all = args.to_string();
    if !extra.is_empty() {
        all.append(" ");
        all.append(extra);
    }
    all
}

pub(crate) fn boot_source_payload(kernel_image_path: &str, args: &str) -> (r: serde_json::Value)
    ensures
        json::json_of(r) == boot_source(kernel_image_path@, args@),
{
    let mut payload = json::no_fields();
    json::put(&mut payload, "kernel_image_path", json::text(kernel_image_path));
    json::put(&mut payload, "boot_args", json::text(args));
    json::object(payload)
}

impl VmConfig {
    /// Create a new VM config with defaults and generated ID.
    pub fn new(name: &str) -> (r: Self)
        ensures
            exists|uuid: Seq<char>| is_uuid(uuid) && r@ == #[trigger] default_config(uuid, name@),
    {
        let uuid = random_uuid();
        Self::with_uuid(uuid.as_str(), name)
    }

    /// Create a new VM config with defaults, for a given UUID.
    pub fn with_uuid(uuid: &str, name: &str) -> (r: Self)
        ensures
            r@ == default_config(uuid@, name@),
    {
        let mut vm_id = "vm-".to_string();
        vm_id.append(uuid);
        VmConfig {
            vm_id,
            name: name.to_string(),
            resources: ResourceLimits::default(),
            network: NetworkConfig::for_vm_index(0),
            kernel_image_path: "vmlinux".to_string(),
            boot_args: "console=ttyS0 reboot=k panic=1 pci=off".to_string(),
            firecracker_bin: "firecracker".to_string(),
        }
    }

    pub fn with_resources(self, resources: ResourceLimits) -> (r: Self)
        ensures
            r@ == (VmConfigView { resources, ..self@ }),
    {
        let mut config = self;
        config.resources = resources;
        config
    }

    pub fn with_network(self, network: NetworkConfig) -> (r: Self)
        ensures
            r@ == (VmConfigView { network: network@, ..self@ }),
    {
        let mut config = self;
        config.network = network;
        config
    }

    pub fn with_kernel(self, path: &str) -> (r: Self)
        ensures
            r@ == (VmConfigView { kernel_image_path: path@, ..self@ }),
    {
        let mut config = self;
        config.kernel_image_path = path.to_string();
        config
    }

    pub fn with_firecracker_bin(self, path: &str) -> (r: Self)
        ensures
            r@ == (VmConfigView { firecracker_bin: path@, ..self@ }),
    {
        let mut config = self;
        config.firecracker_bin = path.to_string();
        config
    }

    /// Generate the Firecracker machine-config API payload.
    pub fn machine_config_json(&self) -> (r: serde_json::Value)
        ensures
            json::json_of(r) == self@.machine_payload(),
            json::json_of(r).member("vcpu_count"@) == Some(
                Json::Integer(self.resources.cpu.vcpu_count as int),
            ),
            json::json_of(r).member("mem_size_mib"@) == Some(
                Json::Integer(self.resources.memory.size_mib as int),
            ),
            forall|key: Seq<char>| #[trigger]
                json::json_of(r).member(key) is Some ==> key == "vcpu_count"@ || key
                    == "mem_size_mib"@,
    {
        proof {
            law_machine_payload(self@);
        }
        let mut payload = json::no_fields();
        json::put(
            &mut payload,
            "vcpu_count",
            json::number(self.resources.cpu.vcpu_count as u64),
        );
        json::put(&mut payload, "mem_size_mib", json::number(self.resources.memory.size_mib));
        json::object(payload)
    }

    /// Generate the full Firecracker boot-source API payload.
    pub fn boot_source_json(&self, net_boot_args: &str) -> (r: serde_json::Value)
        ensures
            json::json_of(r) == self@.boot_payload(net_boot_args@),
            json::json_of(r).member("kernel_image_path"@) == Some(
                Json::Text(self.kernel_image_path@),
            ),
            json::json_of(r).member("boot_args"@) == Some(
                Json::Text(
                    if net_boot_args@.len() == 0 {
                        self.boot_args@
                    } else {
                        self.boot_args@ + " "@ + net_boot_args@
                    },
                ),
            ),
    {
        proof {
            law_boot_payload(self@, net_boot_args@);
        }
        let args = extend_args(self.boot_args.as_str(), net_boot_args);
        boot_source_payload(self.kernel_image_path.as_str(), args.as_str())
    }
}

// ---------------------------------------------------------------------------
// Instances
// ---------------------------------------------------------------------------
/// Represents a live or defined microVM instance.
#[derive(Debug)]
pub struct MicroVm {
    pub config: VmConfig,
    pub state: VmState,
    /// PID of the Firecracker process (set after boot).
    pub pid: Option<u32>,
    /// Firecracker API socket path.
    pub socket_path: String,
    /// Log file path.
    pub log_path: String,
}

/// What is known of an instance.
pub struct MicroVmView {
    pub config: VmConfigView,
    pub state: VmState,
    pub pid: Option<u32>,
    pub socket_path: Seq<char>,
    pub log_path: Seq<char>,
}

impl View for MicroVm {
    type V = MicroVmView;

    open spec fn view(&self) -> MicroVmView {
        MicroVmView {
            config: self.config@,
            state: self.state,
            pid: self.pid,
            socket_path: self.socket_path@,
            log_path: self.log_path@,
        }
    }
}

/// An instance that has not been started.
pub open spec fn created(config: VmConfigView, base: Seq<char>) -> MicroVmView {
    MicroVmView {
        config,
        state: VmState::Created,
        pid: None,
        socket_path: storage::socket_path(base, config.vm_id),
        log_path: storage::log_path(base, config.vm_id),
    }
}

/// The error for a transition that is not legal.
pub open spec fn illegal_transition(state: VmState, next: VmState) -> Failure {
    Failure::InvalidState {
        current: state.name(),
        operation: "transition to "@ + next.name(),
    }
}

impl MicroVm {
    pub fn new(config: VmConfig, storage: &VmStorage) -> (r: Self)
        ensures
            r@ == created(config@, storage@),
            r.config == config,
    {
        let socket_path = storage.socket_path(config.vm_id.as_str());
        let log_path = storage.log_path(config.vm_id.as_str());
        MicroVm { config, state: VmState::Created, pid: None, socket_path, log_path }
    }

    /// Transition to a new state, validating the transition is legal.
    pub fn transition(&mut self, new_state: VmState) -> (r: OsResult<()>)
        ensures
            r is Ok <==> old(self).state.may_become(new_state),
            r is Ok ==> *final(self) == (MicroVm { state: new_state, ..*old(self) }),
            r is Err ==> *final(self) == *old(self),
            r matches Err(e) ==> e@ == illegal_transition(old(self).state, new_state),
    {
        let valid = match (self.state, new_state) {
            (VmState::Created, VmState::Booting) => true,
            (VmState::Booting, VmState::Running) => true,
            (VmState::Booting, VmState::Failed) => true,
            (VmState::Running, VmState::Paused) => true,
            (VmState::Running, VmState::Stopping) => true,
            (VmState::Running, VmState::Failed) => true,
            (VmState::Paused, VmState::Running) => true,
            (VmState::Paused, VmState::Stopping) => true,
            (VmState::Stopping, VmState::Stopped) => true,
            (VmState::Stopping, VmState::Failed) => true,
            _ => false,
        };
        if !valid {
            let mut operation = "transition to ".to_string();
            operation.append(new_state.to_string().as_str());
            return Err(OsError::InvalidState { current: self.state.to_string(), operation });
        }
        self.state = new_state;
        Ok(())
    }
}

// ---------------------------------------------------------------------------
// Laws
// ---------------------------------------------------------------------------
/// A row of states in which each may follow the one before.
pub open spec fn is_history(states: Seq<VmState>) -> bool {
    forall|i: int|
        0 <= i < states.len() - 1 ==> (#[trigger] states[i]).may_become(states[i + 1])
}

/// Nothing follows a VM that has stopped or failed.
pub proof fn law_stopped_and_failed_are_final(next: VmState)
    ensures
        !VmState::Stopped.may_become(next),
        !VmState::Failed.may_become(next),
{
}

/// No state follows itself, and no VM returns to where it was created.
pub proof fn law_transitions_move_on(state: VmState)
    ensures
        !state.may_become(state),
        !state.may_become(VmState::Created),
{
}

/// A VM that has left its booting state never boots again.
pub proof fn law_a_vm_boots_once(states: Seq<VmState>, i: int, j: int)
    requires
        is_history(states),
        0 <= i < j < states.len(),
        states[i] != VmState::Created,
    ensures
        states[j] != VmState::Booting,
        states[j] != VmState::Created,
    decreases j,
{
    if i < j - 1 {
        law_a_vm_boots_once(states, i, j - 1);
    }
    assert(states[j - 1].may_become(states[j]));
}

/// Once a VM is stopping, it comes to rest and never runs again.
pub proof fn law_stopping_never_runs_again(states: Seq<VmState>, i: int, j: int)
    requires
        is_history(states),
        0 <= i < j < states.len(),
        states[i] == VmState::Stopping,
    ensures
        states[j] == VmState::Stopped || states[j] == VmState::Failed,
        j == i + 1,
    decreases j,
{
    if i < j - 1 {
        law_stopping_never_runs_again(states, i, j - 1);
    }
    assert(states[j - 1].may_become(states[j]));
}

/// A VM that runs was created, booted, and was only ever running or paused since.
pub proof fn law_a_running_vm_was_booted(states: Seq<VmState>, j: int)
    requires
        is_history(states),
        states.len() > 0,
        states[0] == VmState::Created,
        0 <= j < states.len(),
        states[j] == VmState::Running || states[j] == VmState::Paused,
    ensures
        j >= 2,
        states[1] == VmState::Booting,
        forall|k: int|
            2 <= k <= j ==> #[trigger] states[k] == VmState::Running || states[k]
                == VmState::Paused,
    decreases j,
{
    if j > 0 {
        assert(states[j - 1].may_become(states[j]));
        if states[j - 1] == VmState::Booting {
            if j - 1 > 0 {
                assert(states[j - 2].may_become(states[j - 1]));
                if j - 2 > 0 {
                    assert(states[j - 3].may_become(states[j - 2]));
                }
            }
        } else {
            law_a_running_vm_was_booted(states, j - 1);
        }
    }
}

/// Different UUIDs make different VM IDs, and different VM IDs are kept in
/// different directories.
pub proof fn law_uuids_make_distinct_vms(
    a: Seq<char>,
    b: Seq<char>,
    name_a: Seq<char>,
    name_b: Seq<char>,
    base: Seq<char>,
)
    requires
        is_uuid(a),
        is_uuid(b),
        a != b,
    ensures
        default_config(a, name_a).vm_id != default_config(b, name_b).vm_id,
        crate::path::is_component(default_config(a, name_a).vm_id),
        storage::vm_dir(base, default_config(a, name_a).vm_id) != storage::vm_dir(
            base,
            default_config(b, name_b).vm_id,
        ),
{
    reveal_strlit("vm-");
    let x = "vm-"@ + a;
    let y = "vm-"@ + b;
    lemma_id_is_component(a);
    lemma_id_is_component(b);
    assert(x.skip(3) =~= a);
    assert(y.skip(3) =~= b);
    storage::law_checked_ids_share_no_directory(base, x, y);
}

proof fn lemma_id_is_component(uuid: Seq<char>)
    requires
        is_uuid(uuid),
    ensures
        crate::path::is_component("vm-"@ + uuid),
{
    reveal_strlit("vm-");
    let x = "vm-"@ + uuid;
    assert(x[0] == 'v');
    assert forall|i: int| 0 <= i < x.len() implies x[i] != '/' && x[i] != '\0' by {
        if i >= 3 {
            assert(x[i] == uuid[i - 3]);
        }
    }
}

/// Firecracker is told the vCPUs and the memory of the limits of a VM, which are
/// what was reserved for it, and nothing else.
pub proof fn law_machine_payload(config: VmConfigView)
    ensures
        config.machine_payload().member("vcpu_count"@) == Some(
            Json::Integer(config.resources.cpu.vcpu_count as int),
        ),
        config.machine_payload().member("mem_size_mib"@) == Some(
            Json::Integer(config.resources.memory.size_mib as int),
        ),
        forall|key: Seq<char>| #[trigger]
            config.machine_payload().member(key) is Some ==> key == "vcpu_count"@ || key
                == "mem_size_mib"@,
{
    reveal_strlit("vcpu_count");
    reveal_strlit("mem_size_mib");
    assert("vcpu_count"@.len() != "mem_size_mib"@.len());
}

/// The boot source names a kernel and arguments, and nothing else.
pub proof fn law_boot_source(kernel: Seq<char>, args: Seq<char>, extra: Seq<char>)
    ensures
        boot_source(kernel, args).member("kernel_image_path"@) == Some(Json::Text(kernel)),
        boot_source(kernel, args).member("boot_args"@) == Some(Json::Text(args)),
        forall|key: Seq<char>| #[trigger]
            boot_source(kernel, args).member(key) is Some ==> key == "kernel_image_path"@ || key
                == "boot_args"@,
        extra.len() == 0 ==> extended_args(args, extra) == args,
        extra.len() > 0 ==> extended_args(args, extra) == args + " "@ + extra,
{
    reveal_strlit("kernel_image_path");
    reveal_strlit("boot_args");
    assert("kernel_image_path"@.len() != "boot_args"@.len());
}

/// The boot source of a VM is its own kernel, with its own arguments and, behind
/// a space, those of its network.
pub proof fn law_boot_payload(config: VmConfigView, net_boot_args: Seq<char>)
    ensures
        config.boot_payload(net_boot_args).member("kernel_image_path"@) == Some(
            Json::Text(config.kernel_image_path),
        ),
        config.boot_payload(net_boot_args).member("boot_args"@) == Some(
            Json::Text(
                if net_boot_args.len() == 0 {
                    config.boot_args
                } else {
                    config.boot_args + " "@ + net_boot_args
                },
            ),
        ),
{
    law_boot_source(
        config.kernel_image_path,
        extended_args(config.boot_args, net_boot_args),
        net_boot_args,
    );
}

/// The ten transitions that are legal.
pub proof fn law_legal_transitions(state: VmState, next: VmState)
    ensures
        state.may_become(next) <==> {
            ||| state == VmState::Created && next == VmState::Booting
            ||| state == VmState::Booting && next == VmState::Running
            ||| state == VmState::Booting && next == VmState::Failed
            ||| state == VmState::Running && next == VmState::Paused
            ||| state == VmState::Running && next == VmState::Stopping
            ||| state == VmState::Running && next == VmState::Failed
            ||| state == VmState::Paused && next == VmState::Running
            ||| state == VmState::Paused && next == VmState::Stopping
            ||| state == VmState::Stopping && next == VmState::Stopped
            ||| state == VmState::Stopping && next == VmState::Failed
        },
        illegal_transition(state, next) == (Failure::InvalidState {
            current: state.name(),
            operation: "transition to "@ + next.name(),
        }),
{
}

/// How the states are written.
pub proof fn law_names_of_states()
    ensures
        VmState::Created.name() == "created"@,
        VmState::Booting.name() == "booting"@,
        VmState::Running.name() == "running"@,
        VmState::Paused.name() == "paused"@,
        VmState::Stopping.name() == "stopping"@,
        VmState::Stopped.name() == "stopped"@,
        VmState::Failed.name() == "failed"@,
{
}

/// What a VM is before anything is set, and what an instance of it is before it
/// is started.
pub proof fn law_defaults_of_a_vm(
    uuid: Seq<char>,
    name: Seq<char>,
    config: VmConfigView,
    base: Seq<char>,
)
    ensures
        ({
            let new = default_config(uuid, name);
            &&& new.vm_id == "vm-"@ + uuid
            &&& new.name == name
            &&& new.resources.cpu.vcpu_count == 1
            &&& new.resources.memory.size_mib == 128
            &&& new.network == network::network_for(0)
            &&& new.kernel_image_path == "vmlinux"@
            &&& new.boot_args == "console=ttyS0 reboot=k panic=1 pci=off"@
            &&& new.firecracker_bin == "firecracker"@
        }),
        created(config, base).config == config,
        created(config, base).state == VmState::Created,
        created(config, base).pid is None,
        created(config, base).socket_path == storage::socket_path(base, config.vm_id),
        created(config, base).log_path == storage::log_path(base, config.vm_id),
{
}

} // verus!
