//! Creating a microVM: from a request for it to a VM that runs.

use vstd::prelude::*;
use vstd::string::*;

use crate::boot;
use crate::boot::{Boot, BootPhase};
use crate::effect;
use crate::effect::{Effect, EffectView, Reply};
use crate::error;
use crate::error::{Failure, OsError, OsResult};
use crate::image::{VmImage, VmImageView};
use crate::json::Json;
use crate::manager;
use crate::manager::{ManagerView, VmManager};
use crate::network;
use crate::network::{NetworkConfig, NetworkView, TapSetup};
use crate::resource;
use crate::resource::ResourceLimits;
use crate::storage;
use crate::storage::VmStorage;
use crate::vm;
use crate::vm::{MicroVm, MicroVmView, VmConfig, VmConfigView, VmId, VmState};

verus! {

// ---------------------------------------------------------------------------
// From a configuration to a VM that runs
// ---------------------------------------------------------------------------
/// How far a configured VM has come: what is to be done next.
#[derive(Debug, Clone, Copy)]
pub enum ProvisionStep {
    /// Create the directory of the VM.
    PrepareDir,
    /// Copy the rootfs of the image into it.
    CopyRootfs,
    /// Create the directory of the data disk.
    PrepareDataDir { size_bytes: u64 },
    CreateDataDisk { size_bytes: u64 },
    /// Save the configuration.
    WriteConfig,
    /// Set up the TAP device, of which so many steps are done.
    SetUpTap { done: usize },
    /// Start the VM.
    Start { phase: BootPhase },
}

/// How many steps it takes to set up a TAP device.
pub const TAP_STEPS: usize = 5;

/// A VM on its way from its configuration to running.
#[derive(Debug)]
pub struct Provision {
    pub vm: MicroVm,
    pub step: ProvisionStep,
}

/// What is known of a VM on its way.
pub struct ProvisionView {
    pub vm: MicroVmView,
    pub step: ProvisionStep,
}

impl View for Provision {
    type V = ProvisionView;

    open spec fn view(&self) -> ProvisionView {
        ProvisionView { vm: self.vm@, step: self.step }
    }
}

impl ProvisionView {
    /// What is asked of the host in each step. `source` is the rootfs of the image.
    pub open spec fn effect(self, source: Seq<char>, base: Seq<char>) -> Option<EffectView> {
        let vm_id = self.vm.config.vm_id;
        match self.step {
            ProvisionStep::PrepareDir => Some(storage::base_image_copy(base, vm_id, source)[0]),
            ProvisionStep::CopyRootfs => Some(storage::base_image_copy(base, vm_id, source)[1]),
            ProvisionStep::PrepareDataDir { size_bytes } => Some(
                storage::sparse_image(
                    base,
                    vm_id,
                    storage::data_disk_path(base, vm_id),
                    size_bytes,
                )[0],
            ),
            ProvisionStep::CreateDataDisk { size_bytes } => Some(
                storage::sparse_image(
                    base,
                    vm_id,
                    storage::data_disk_path(base, vm_id),
                    size_bytes,
                )[1],
            ),
            ProvisionStep::WriteConfig => Some(
                EffectView::WriteConfig {
                    path: storage::config_path(base, vm_id),
                    config: self.vm.config,
                },
            ),
            ProvisionStep::SetUpTap { done } => {
                let tap = network::tap_of(self.vm.config.network);
                if tap.fault() is None && done < TAP_STEPS {
                    Some(tap.setup_effects()[done as int])
                } else {
                    None
                }
            },
            ProvisionStep::Start { phase } => boot::boot_effect(phase, self.vm, base),
        }
    }

    /// What a reply does to a VM on its way, and the error where there is one.
    ///
    /// A data disk is made only where the limits name a size for it. Nothing
    /// is made of the TAP device unless its configuration is one that the
    /// manager could have made, and what comes of its setup is passed over.
    pub open spec fn step(self, reply: Reply) -> (ProvisionView, Option<Failure>) {
        match self.step {
            ProvisionStep::PrepareDir => self.unless(reply.fault(), ProvisionStep::CopyRootfs),
            ProvisionStep::CopyRootfs => self.unless(
                reply.fault(),
                match self.vm.config.resources.storage.data_disk_size_bytes {
                    Some(size_bytes) => ProvisionStep::PrepareDataDir { size_bytes },
                    None => ProvisionStep::WriteConfig,
                },
            ),
            ProvisionStep::PrepareDataDir { size_bytes } => self.unless(
                reply.fault(),
                ProvisionStep::CreateDataDisk { size_bytes },
            ),
            ProvisionStep::CreateDataDisk { size_bytes } => self.unless(
                reply.fault(),
                ProvisionStep::WriteConfig,
            ),
            ProvisionStep::WriteConfig => if reply.fault() is Some {
                (self, reply.fault())
            } else {
                self.unless(
                    network::tap_of(self.vm.config.network).fault(),
                    ProvisionStep::SetUpTap { done: 0 },
                )
            },
            ProvisionStep::SetUpTap { done } => if done + 1 < TAP_STEPS {
                (
                    ProvisionView {
                        step: ProvisionStep::SetUpTap { done: (done + 1) as usize },
                        ..self
                    },
                    None,
                )
            } else if self.vm.state == VmState::Created {
                (
                    ProvisionView {
                        vm: MicroVmView { state: VmState::Booting, ..self.vm },
                        step: ProvisionStep::Start { phase: BootPhase::Prepare },
                    },
                    None,
                )
            } else {
                (self, Some(vm::illegal_transition(self.vm.state, VmState::Booting)))
            },
            ProvisionStep::Start { phase } => {
                let (next, vm, fault) = boot::boot_step(phase, self.vm, reply);
                (ProvisionView { vm, step: ProvisionStep::Start { phase: next } }, fault)
            },
        }
    }

    /// Goes on with `next`, unless `fault` names an error.
    pub open spec fn unless(self, fault: Option<Failure>, next: ProvisionStep) -> (
        ProvisionView,
        Option<Failure>,
    ) {
        match fault {
            Some(_) => (self, fault),
            None => (ProvisionView { step: next, ..self }, None),
        }
    }

    /// The VM runs.
    pub open spec fn finished(self) -> bool {
        self.step == (ProvisionStep::Start { phase: BootPhase::Booted })
    }
}

/// The effect at a place in a row.
fn pick(effects: Vec<Effect>, i: usize) -> (r: Option<Effect>)
    ensures
        effect::asked(r) == (if i < effect::asked_all(effects@).len() {
            Some(effect::asked_all(effects@)[i as int])
        } else {
            None
        }),
{
    let mut effects = effects;
    if i < effects.len() {
        Some(effects.remove(i))
    } else {
        None
    }
}

impl Provision {
    /// What has to be done next, until the VM runs.
    pub fn effect(&self, source: &str, storage: &VmStorage) -> (r: Option<Effect>)
        ensures
            effect::asked(r) == self@.effect(source@, storage@),
    {
        let vm_id = self.vm.config.vm_id.as_str();
        match self.step {
            ProvisionStep::PrepareDir => pick(storage.copy_base_image(vm_id, source), 0),
            ProvisionStep::CopyRootfs => pick(storage.copy_base_image(vm_id, source), 1),
            ProvisionStep::PrepareDataDir { size_bytes } => pick(
                storage.create_data_disk(vm_id, size_bytes),
                0,
            ),
            ProvisionStep::CreateDataDisk { size_bytes } => pick(
                storage.create_data_disk(vm_id, size_bytes),
                1,
            ),
            ProvisionStep::WriteConfig => Some(
                Effect::WriteConfig {
                    path: storage.config_path(vm_id),
                    config: self.vm.config.clone(),
                },
            ),
            ProvisionStep::SetUpTap { done } => {
                match TapSetup::from_config(&self.vm.config.network).setup() {
                    Ok(effects) => pick(effects, done),
                    Err(_) => None,
                }
            },
            ProvisionStep::Start { phase } => (Boot { phase }).effect(&self.vm, storage),
        }
    }

    /// Goes on with the reply to the effect that was asked for.
    pub fn advance(&mut self, reply: Reply) -> (r: OsResult<()>)
        ensures
            old(self)@.step(reply) == (final(self)@, error::error_of(r)),
    {
        let next = match self.step {
            ProvisionStep::PrepareDir => {
                reply.done()?;
                ProvisionStep::CopyRootfs
            },
            ProvisionStep::CopyRootfs => {
                reply.done()?;
                match self.vm.config.resources.storage.data_disk_size_bytes {
                    Some(size_bytes) => ProvisionStep::PrepareDataDir { size_bytes },
                    None => ProvisionStep::WriteConfig,
                }
            },
            ProvisionStep::PrepareDataDir { size_bytes } => {
                reply.done()?;
                ProvisionStep::CreateDataDisk { size_bytes }
            },
            ProvisionStep::CreateDataDisk { size_bytes } => {
                reply.done()?;
                ProvisionStep::WriteConfig
            },
            ProvisionStep::WriteConfig => {
                reply.done()?;
                TapSetup::from_config(&self.vm.config.network).validate()?;
                ProvisionStep::SetUpTap { done: 0 }
            },
            ProvisionStep::SetUpTap { done } => if done < TAP_STEPS - 1 {
                ProvisionStep::SetUpTap { done: done + 1 }
            } else {
                let boot = self.vm.start()?;
                ProvisionStep::Start { phase: boot.phase }
            },
            ProvisionStep::Start { phase } => {
                let mut boot = Boot { phase };
                boot.advance(&mut self.vm, reply)?;
                ProvisionStep::Start { phase: boot.phase }
            },
        };
        self.step = next;
        Ok(())
    }
}

// ---------------------------------------------------------------------------
// From a request to a VM that runs
// ---------------------------------------------------------------------------
/// What is to be done before a requested VM can be configured.
#[derive(Debug, Clone, Copy)]
pub enum FindStep {
    FindKernel,
    FindRootfs,
    /// Create the directory of all VMs.
    PrepareVmsDir,
    /// Keep other processes from giving out an index.
    LockIndex,
    /// Read the configurations of the VMs on disk.
    ReadConfigs,
}

/// How far the creation of a VM has come.
#[derive(Debug)]
pub enum CreateStage {
    Finding(FindStep),
    Provisioning(Provision),
    /// The VM runs and belongs to the manager.
    Created(VmId),
}

/// What is known of how far the creation of a VM has come.
pub enum CreateStageView {
    Finding(FindStep),
    Provisioning(ProvisionView),
    Created(Seq<char>),
}

impl View for CreateStage {
    type V = CreateStageView;

    open spec fn view(&self) -> CreateStageView {
        match *self {
            CreateStage::Finding(step) => CreateStageView::Finding(step),
            CreateStage::Provisioning(provision) => CreateStageView::Provisioning(provision@),
            CreateStage::Created(vm_id) => CreateStageView::Created(vm_id@),
        }
    }
}

/// The creation of a VM, on its way.
#[derive(Debug)]
pub struct Creation {
    /// The configuration that was asked for. The VM gets its network later.
    pub config: VmConfig,
    pub image: VmImage,
    pub stage: CreateStage,
}

/// What is known of the creation of a VM.
pub struct CreationView {
    pub config: VmConfigView,
    pub image: VmImageView,
    pub stage: CreateStageView,
}

impl View for Creation {
    type V = CreationView;

    open spec fn view(&self) -> CreationView {
        CreationView { config: self.config@, image: self.image@, stage: self.stage@ }
    }
}

/// A request for a VM, before anything is done about it.
pub open spec fn requested(
    uuid: Seq<char>,
    name: Seq<char>,
    image: VmImageView,
    resources: ResourceLimits,
) -> CreationView {
    CreationView {
        config: VmConfigView {
            resources,
            kernel_image_path: image.kernel_path,
            ..vm::default_config(uuid, name)
        },
        image,
        stage: CreateStageView::Finding(FindStep::FindKernel),
    }
}

/// Is this a request for such a VM, with some UUID?
pub open spec fn is_request(
    creation: CreationView,
    name: Seq<char>,
    image: VmImageView,
    resources: ResourceLimits,
) -> bool {
    exists|uuid: Seq<char>|
        vm::is_uuid(uuid) && creation == #[trigger] requested(uuid, name, image, resources)
}

/// The error for an image that is not registered.
pub open spec fn no_image(name: Seq<char>) -> Failure {
    Failure::Image("image '"@ + name + "' not found"@)
}

/// The configuration with the network of an index, under the limits of the configuration.
pub open spec fn networked(config: VmConfigView, index: u32) -> VmConfigView {
    VmConfigView {
        network: NetworkView {
            rate_limits: Some(config.resources.network),
            ..network::network_for(index as nat)
        },
        ..config
    }
}

/// The configurations that a reply gives, each as far as its text is JSON.
pub open spec fn replied_configs(reply: Reply) -> Seq<Option<Json>> {
    match reply {
        Reply::Configs(texts) => manager::readings(texts@),
        _ => seq![],
    }
}

impl CreationView {
    /// What is asked of the host in each stage.
    pub open spec fn effect(self, base: Seq<char>) -> Option<EffectView> {
        match self.stage {
            CreateStageView::Finding(step) => match step {
                FindStep::FindKernel => Some(EffectView::Exists { path: self.image.kernel_path }),
                FindStep::FindRootfs => Some(EffectView::Exists { path: self.image.rootfs_path }),
                FindStep::PrepareVmsDir => Some(
                    EffectView::CreateDirAll { path: storage::vms_dir(base) },
                ),
                FindStep::LockIndex => Some(
                    EffectView::LockIndex { path: storage::index_lock_path(base) },
                ),
                FindStep::ReadConfigs => Some(
                    EffectView::ReadConfigs { dir: storage::vms_dir(base) },
                ),
            },
            CreateStageView::Provisioning(provision) => provision.effect(
                self.image.rootfs_path,
                base,
            ),
            CreateStageView::Created(_) => None,
        }
    }

    /// What a reply does to a creation and to the manager: where the creation
    /// goes on, what the manager is then, and the error where there is one.
    ///
    /// The resources are reserved once both files of the image are found. The
    /// index is given out under the lock. The VM belongs to the manager once it
    /// runs. A creation that fails keeps what it has reserved.
    pub open spec fn step(self, manager: ManagerView, reply: Reply) -> (
        CreationView,
        ManagerView,
        Option<Failure>,
    ) {
        match self.stage {
            CreateStageView::Finding(step) => match step {
                FindStep::FindKernel => if self.image.missing(reply is Yes, true) is Some {
                    (self, manager, self.image.missing(reply is Yes, true))
                } else {
                    (self.finding(FindStep::FindRootfs), manager, None)
                },
                FindStep::FindRootfs => if self.image.missing(true, reply is Yes) is Some {
                    (self, manager, self.image.missing(true, reply is Yes))
                } else if self.config.resources.fits(manager.capacity) {
                    (
                        self.finding(FindStep::PrepareVmsDir),
                        ManagerView {
                            capacity: manager.capacity.less(self.config.resources),
                            ..manager
                        },
                        None,
                    )
                } else {
                    (
                        self,
                        manager,
                        Some(resource::over_capacity(manager.capacity, self.config.resources)),
                    )
                },
                FindStep::PrepareVmsDir => if reply.fault() is Some {
                    (self, manager, reply.fault())
                } else {
                    (self.finding(FindStep::LockIndex), manager, None)
                },
                FindStep::LockIndex => if reply.fault() is Some {
                    (self, manager, reply.fault())
                } else {
                    (self.finding(FindStep::ReadConfigs), manager, None)
                },
                FindStep::ReadConfigs => if !(reply is Configs) {
                    (self, manager, Some(reply.misfit()))
                } else {
                    match manager::allocated(
                        manager.next_vm_index,
                        manager::index_above(replied_configs(reply)),
                    ) {
                        Some(index) => (
                            CreationView {
                                stage: CreateStageView::Provisioning(
                                    ProvisionView {
                                        vm: vm::created(
                                            networked(self.config, index),
                                            manager.base,
                                        ),
                                        step: ProvisionStep::PrepareDir,
                                    },
                                ),
                                ..self
                            },
                            ManagerView { next_vm_index: (index + 1) as u32, ..manager },
                            None,
                        ),
                        None => (self, manager, Some(manager::no_index_left())),
                    }
                },
            },
            CreateStageView::Provisioning(provision) => {
                let (next, fault) = provision.step(reply);
                let vm_id = next.vm.config.vm_id;
                if fault is None && next.finished() {
                    (
                        CreationView { stage: CreateStageView::Created(vm_id), ..self },
                        ManagerView { vms: manager.vms.insert(vm_id, next.vm), ..manager },
                        None,
                    )
                } else {
                    (
                        CreationView { stage: CreateStageView::Provisioning(next), ..self },
                        manager,
                        fault,
                    )
                }
            },
            CreateStageView::Created(_) => (self, manager, None),
        }
    }

    pub open spec fn finding(self, step: FindStep) -> CreationView {
        CreationView { stage: CreateStageView::Finding(step), ..self }
    }
}

/// Is the lock on the VM index held in this stage? It is from its grant until
/// the creation has ended.
pub open spec fn holds_lock(stage: CreateStageView) -> bool {
    match stage {
        CreateStageView::Finding(step) => step is ReadConfigs,
        CreateStageView::Provisioning(_) => true,
        CreateStageView::Created(_) => false,
    }
}

impl VmManager {
    /// Create and start a new microVM.
    pub fn create_vm(&self, name: &str, image_name: &str, resources: ResourceLimits) -> (r:
        OsResult<Creation>)
        ensures
            match r {
                Ok(creation) => self@.images.contains_key(image_name@) && is_request(
                    creation@,
                    name@,
                    self@.images[image_name@],
                    resources,
                ),
                Err(e) => !self@.images.contains_key(image_name@) && e@ == no_image(image_name@),
            },
    {
        let config = VmConfig::new(name);
        let ghost uuid = choose|uuid: Seq<char>|
            vm::is_uuid(uuid) && config@ == #[trigger] vm::default_config(uuid, name@);
        let r = self.request(config, image_name, resources);
        assert(r matches Ok(creation) ==> creation@ == requested(
            uuid,
            name@,
            self@.images[image_name@],
            resources,
        ));
        r
    }

    /// Create and start a new microVM with a given UUID.
    pub fn create_vm_with_uuid(
        &self,
        uuid: &str,
        name: &str,
        image_name: &str,
        resources: ResourceLimits,
    ) -> (r: OsResult<Creation>)
        ensures
            match r {
                Ok(creation) => self@.images.contains_key(image_name@) && creation@ == requested(
                    uuid@,
                    name@,
                    self@.images[image_name@],
                    resources,
                ),
                Err(e) => !self@.images.contains_key(image_name@) && e@ == no_image(image_name@),
            },
    {
        self.request(VmConfig::with_uuid(uuid, name), image_name, resources)
    }

    fn request(&self, config: VmConfig, image_name: &str, resources: ResourceLimits) -> (r:
        OsResult<Creation>)
        ensures
            match r {
                Ok(creation) => self@.images.contains_key(image_name@) && creation@
                    == (CreationView {
                    config: VmConfigView {
                        resources,
                        kernel_image_path: self@.images[image_name@].kernel_path,
                        ..config@
                    },
                    image: self@.images[image_name@],
                    stage: CreateStageView::Finding(FindStep::FindKernel),
                }),
                Err(e) => !self@.images.contains_key(image_name@) && e@ == no_image(image_name@),
            },
    {
        match self.images().get(image_name) {
            Some(image) => {
                let config = config.with_resources(resources).with_kernel(
                    image.kernel_path.as_str(),
                );
                Ok(
                    Creation {
                        config,
                        image: image.clone(),
                        stage: CreateStage::Finding(FindStep::FindKernel),
                    },
                )
            },
            None => {
                let mut message = "image '".to_string();
                message.append(image_name);
                message.append("' not found");
                Err(OsError::Image(message))
            },
        }
    }
}

impl Creation {
    /// What has to be done next, until the VM runs.
    pub fn effect(&self, manager: &VmManager) -> (r: Option<Effect>)
        ensures
            effect::asked(r) == self@.effect(manager@.base),
    {
        let storage = manager.storage();
        match &self.stage {
            CreateStage::Finding(step) => match step {
                FindStep::FindKernel => Some(
                    Effect::Exists { path: self.image.kernel_path.clone() },
                ),
                FindStep::FindRootfs => Some(
                    Effect::Exists { path: self.image.rootfs_path.clone() },
                ),
                FindStep::PrepareVmsDir => Some(Effect::CreateDirAll { path: storage.vms_dir() }),
                FindStep::LockIndex => Some(
                    Effect::LockIndex { path: storage.index_lock_path() },
                ),
                FindStep::ReadConfigs => Some(Effect::ReadConfigs { dir: storage.vms_dir() }),
            },
            CreateStage::Provisioning(provision) => provision.effect(
                self.image.rootfs_path.as_str(),
                storage,
            ),
            CreateStage::Created(_) => None,
        }
    }

    fn find(&self, step: FindStep, manager: &mut VmManager, reply: Reply) -> (r: OsResult<
        CreateStage,
    >)
        requires
            self@.stage == CreateStageView::Finding(step),
        ensures
            match r {
                Ok(stage) => self@.step(old(manager)@, reply) == (
                    CreationView { stage: stage@, ..self@ },
                    final(manager)@,
                    None::<Failure>,
                ),
                Err(e) => self@.step(old(manager)@, reply) == (
                    self@,
                    final(manager)@,
                    Some(e@),
                ),
            },
    {
        let next = match step {
            FindStep::FindKernel => {
                self.image.validate(reply.is_yes(), true)?;
                CreateStage::Finding(FindStep::FindRootfs)
            },
            FindStep::FindRootfs => {
                self.image.validate(true, reply.is_yes())?;
                manager.reserve(&self.config.resources)?;
                CreateStage::Finding(FindStep::PrepareVmsDir)
            },
            FindStep::PrepareVmsDir => {
                reply.done()?;
                CreateStage::Finding(FindStep::LockIndex)
            },
            FindStep::LockIndex => {
                reply.done()?;
                CreateStage::Finding(FindStep::ReadConfigs)
            },
            FindStep::ReadConfigs => {
                let ghost replied = replied_configs(reply);
                let texts: Vec<String> = match reply {
                    Reply::Configs(texts) => texts,
                    other => {
                        return Err(other.refuse());
                    },
                };
                assert(manager::readings(texts@) =~= replied);
                let index = manager.allocate_index(&texts)?;
                let network = NetworkConfig::for_vm_index(index).with_limits(
                    self.config.resources.network,
                );
                let config = self.config.clone().with_network(network);
                let vm = MicroVm::new(config, manager.storage());
                CreateStage::Provisioning(Provision { vm, step: ProvisionStep::PrepareDir })
            },
        };
        Ok(next)
    }

    /// Goes on with the reply to the effect that was asked for.
    pub fn advance(&mut self, manager: &mut VmManager, reply: Reply) -> (r: OsResult<()>)
        ensures
            old(self)@.step(old(manager)@, reply) == (
                final(self)@,
                final(manager)@,
                error::error_of(r),
            ),
    {
        match &self.stage {
            CreateStage::Finding(step) => {
                let step = *step;
                let stage = self.find(step, manager, reply)?;
                self.stage = stage;
                return Ok(());
            },
            CreateStage::Provisioning(_) => {},
            CreateStage::Created(_) => {
                return Ok(());
            },
        }
        let mut stage = CreateStage::Finding(FindStep::FindKernel);
        std::mem::swap(&mut stage, &mut self.stage);
        match stage {
            CreateStage::Provisioning(provision) => {
                let mut provision = provision;
                let r = provision.advance(reply);
                match (&r, provision.step) {
                    (Ok(_), ProvisionStep::Start { phase: BootPhase::Booted }) => {
                        let vm_id = provision.vm.config.vm_id.clone();
                        manager.insert_vm(vm_id.as_str(), provision.vm);
                        self.stage = CreateStage::Created(vm_id);
                    },
                    _ => {
                        self.stage = CreateStage::Provisioning(provision);
                    },
                }
                r
            },
            _ => Ok(()),
        }
    }

    /// Is the lock on the VM index to be held, as long as the creation goes on?
    pub fn holds_lock(&self) -> (r: bool)
        ensures
            r == holds_lock(self@.stage),
    {
        match &self.stage {
            CreateStage::Finding(FindStep::ReadConfigs) => true,
            CreateStage::Finding(_) => false,
            CreateStage::Provisioning(_) => true,
            CreateStage::Created(_) => false,
        }
    }

    /// The ID of the VM, once it runs.
    pub fn created(&self) -> (r: Option<&VmId>)
        ensures
            match r {
                Some(vm_id) => self@.stage == CreateStageView::Created(vm_id@),
                None => !(self@.stage is Created),
            },
    {
        match &self.stage {
            CreateStage::Created(vm_id) => Some(vm_id),
            _ => None,
        }
    }
}

// ---------------------------------------------------------------------------
// Laws
// ---------------------------------------------------------------------------
/// What comes of a creation and of the manager after a row of replies, of
/// which those that follow an error are not used.
pub open spec fn creation_run(
    creation: CreationView,
    manager: ManagerView,
    replies: Seq<Reply>,
) -> (CreationView, ManagerView, Option<Failure>)
    decreases replies.len(),
{
    if replies.len() == 0 {
        (creation, manager, None)
    } else {
        let (c, m, fault) = creation_run(creation, manager, replies.drop_last());
        if fault is Some {
            (c, m, fault)
        } else {
            c.step(m, replies.last())
        }
    }
}

/// The manager once the resources of a creation are reserved.
spec fn reserved(creation: CreationView, manager: ManagerView) -> ManagerView {
    ManagerView {
        capacity: manager.capacity.less(creation.config.resources),
        ..manager
    }
}

/// What holds of a creation and of the manager on the way, given both as they
/// were at the request.
spec fn on_the_way(
    first: CreationView,
    before: ManagerView,
    creation: CreationView,
    manager: ManagerView,
) -> bool {
    let taken = reserved(first, before);
    let config = networked(first.config, (manager.next_vm_index - 1) as u32);
    &&& creation.config == first.config
    &&& creation.image == first.image
    &&& match creation.stage {
        CreateStageView::Finding(step) => match step {
            FindStep::FindKernel => manager == before,
            FindStep::FindRootfs => manager == before,
            _ => manager == taken && first.config.resources.fits(before.capacity),
        },
        CreateStageView::Provisioning(provision) => {
            &&& first.config.resources.fits(before.capacity)
            &&& before.next_vm_index < manager.next_vm_index
            &&& manager == (ManagerView { next_vm_index: manager.next_vm_index, ..taken })
            &&& provision.vm.config == config
            &&& provision.vm.socket_path == storage::socket_path(before.base, config.vm_id)
            &&& provision.vm.log_path == storage::log_path(before.base, config.vm_id)
            &&& !provision.finished()
            &&& if provision.step is Start {
                provision.vm.state == VmState::Booting
            } else {
                provision.vm.state == VmState::Created
            }
        },
        CreateStageView::Created(vm_id) => {
            &&& first.config.resources.fits(before.capacity)
            &&& before.next_vm_index < manager.next_vm_index
            &&& vm_id == first.config.vm_id
            &&& manager == (ManagerView {
                next_vm_index: manager.next_vm_index,
                vms: before.vms.insert(vm_id, manager.vms[vm_id]),
                ..taken
            })
            &&& manager.vms[vm_id].config == config
            &&& manager.vms[vm_id].state == VmState::Running
            &&& manager.vms[vm_id].socket_path == storage::socket_path(before.base, vm_id)
            &&& manager.vms[vm_id].log_path == storage::log_path(before.base, vm_id)
        },
    }
}

proof fn lemma_step_stays_on_the_way(
    first: CreationView,
    before: ManagerView,
    creation: CreationView,
    manager: ManagerView,
    reply: Reply,
)
    requires
        on_the_way(first, before, creation, manager),
    ensures
        on_the_way(
            first,
            before,
            creation.step(manager, reply).0,
            creation.step(manager, reply).1,
        ),
{
    if let CreateStageView::Provisioning(provision) = creation.stage {
        let (next, fault) = provision.step(reply);
        let vm_id = next.vm.config.vm_id;
        assert(manager.vms.insert(vm_id, next.vm)[vm_id] == next.vm);
    }
}

proof fn lemma_run_stays_on_the_way(
    first: CreationView,
    manager: ManagerView,
    replies: Seq<Reply>,
)
    requires
        first.stage == CreateStageView::Finding(FindStep::FindKernel),
    ensures
        on_the_way(
            first,
            manager,
            creation_run(first, manager, replies).0,
            creation_run(first, manager, replies).1,
        ),
    decreases replies.len(),
{
    if replies.len() > 0 {
        lemma_run_stays_on_the_way(first, manager, replies.drop_last());
        let (c, m, fault) = creation_run(first, manager, replies.drop_last());
        if fault is None {
            lemma_step_stays_on_the_way(first, manager, c, m, replies.last());
        }
    }
}

/// A creation that ends well adds one VM to the manager, under its own ID. The
/// VM runs, with the configuration that was asked for and the network of an
/// index that the manager had not given out. Its resources fitted, and are taken
/// from what is available. Nothing else of the manager changes.
pub proof fn law_created_vm_runs(
    request: CreationView,
    manager: ManagerView,
    replies: Seq<Reply>,
    vm_id: Seq<char>,
)
    requires
        request.stage == CreateStageView::Finding(FindStep::FindKernel),
        creation_run(request, manager, replies).0.stage == CreateStageView::Created(vm_id),
    ensures
        ({
            let after = creation_run(request, manager, replies).1;
            let vm = after.vms[vm_id];
            &&& vm_id == request.config.vm_id
            &&& vm.state == VmState::Running
            &&& vm.config == networked(request.config, (after.next_vm_index - 1) as u32)
            &&& vm.socket_path == storage::socket_path(manager.base, vm_id)
            &&& request.config.resources.fits(manager.capacity)
            &&& manager.next_vm_index < after.next_vm_index
            &&& after == (ManagerView {
                vms: manager.vms.insert(vm_id, vm),
                capacity: manager.capacity.less(request.config.resources),
                next_vm_index: after.next_vm_index,
                ..manager
            })
        }),
{
    lemma_run_stays_on_the_way(request, manager, replies);
}

/// How many replies a creation has had that has come to this step.
spec fn replies_before(step: FindStep) -> nat {
    match step {
        FindStep::FindKernel => 0,
        FindStep::FindRootfs => 1,
        FindStep::PrepareVmsDir => 2,
        FindStep::LockIndex => 3,
        FindStep::ReadConfigs => 4,
    }
}

proof fn lemma_run_reads_the_disk(first: CreationView, manager: ManagerView, replies: Seq<Reply>)
    requires
        first.stage == CreateStageView::Finding(FindStep::FindKernel),
    ensures
        ({
            let (c, m, fault) = creation_run(first, manager, replies);
            match c.stage {
                CreateStageView::Finding(step) => {
                    &&& m.next_vm_index == manager.next_vm_index
                    &&& fault is None ==> replies.len() == replies_before(step)
                },
                _ => {
                    &&& replies.len() >= 5
                    &&& m.next_vm_index > 0
                    &&& manager::allocated(
                        manager.next_vm_index,
                        manager::index_above(replied_configs(replies[4])),
                    ) == Some((m.next_vm_index - 1) as u32)
                },
            }
        }),
    decreases replies.len(),
{
    if replies.len() > 0 {
        let earlier = replies.drop_last();
        lemma_run_reads_the_disk(first, manager, earlier);
        if earlier.len() >= 5 {
            assert(earlier[4] == replies[4]);
        }
    }
}

/// A VM that was created has an index above every index on disk, as the
/// configurations tell that were read under the lock. It shares no TAP device
/// with any of them, and no address and no MAC with those that the manager made.
pub proof fn law_created_vm_is_above_the_disk(
    request: CreationView,
    manager: ManagerView,
    replies: Seq<Reply>,
    vm_id: Seq<char>,
    i: int,
)
    requires
        request.stage == CreateStageView::Finding(FindStep::FindKernel),
        creation_run(request, manager, replies).0.stage == CreateStageView::Created(vm_id),
        0 <= i < replied_configs(replies[4]).len(),
    ensures
        replies.len() >= 5,
        ({
            let after = creation_run(request, manager, replies).1;
            let config = replied_configs(replies[4])[i];
            let ours = after.vms[vm_id].config.network;
            &&& manager::config_index(config) matches Some(index) ==> after.next_vm_index - 1
                > index
            &&& config is Some && manager::tap_name_in(config->0) is Some ==> {
                &&& ours.host_dev_name != manager::tap_name_in(config->0)->0
                &&& forall|taken: u32|
                    manager::tap_name_in(config->0)->0 == (#[trigger] network::network_for(
                        taken as nat,
                    )).host_dev_name ==> {
                        let theirs = network::network_for(taken as nat);
                        &&& ours.guest_ip != theirs.guest_ip
                        &&& ours.gateway_ip != theirs.gateway_ip
                        &&& ours.guest_mac != theirs.guest_mac
                    }
            }
        }),
{
    let after = creation_run(request, manager, replies).1;
    let configs = replied_configs(replies[4]);
    let index = (after.next_vm_index - 1) as u32;
    law_created_vm_runs(request, manager, replies, vm_id);
    lemma_run_reads_the_disk(request, manager, replies);
    if manager::config_index(configs[i]) is Some {
        manager::law_new_index_is_above_all(manager.next_vm_index, configs, i);
    }
    if configs[i] is Some && manager::tap_name_in(configs[i]->0) is Some {
        manager::law_new_vm_shares_no_network_with_disk(
            manager.next_vm_index,
            configs,
            i,
            index,
        );
    }
}

/// As long as a creation has not ended well, the VMs of the manager are those
/// it had before.
pub proof fn law_unfinished_creation_adds_no_vm(
    request: CreationView,
    manager: ManagerView,
    replies: Seq<Reply>,
)
    requires
        request.stage == CreateStageView::Finding(FindStep::FindKernel),
        !(creation_run(request, manager, replies).0.stage is Created),
    ensures
        creation_run(request, manager, replies).1.vms == manager.vms,
        creation_run(request, manager, replies).1.images == manager.images,
        creation_run(request, manager, replies).1.base == manager.base,
{
    lemma_run_stays_on_the_way(request, manager, replies);
}

/// A creation never takes more of the host than is available: whatever has
/// been taken had fitted, and it is taken once.
pub proof fn law_creation_reserves_once(
    request: CreationView,
    manager: ManagerView,
    replies: Seq<Reply>,
)
    requires
        request.stage == CreateStageView::Finding(FindStep::FindKernel),
    ensures
        ({
            let after = creation_run(request, manager, replies).1;
            ||| after.capacity == manager.capacity
            ||| request.config.resources.fits(manager.capacity) && after.capacity
                == manager.capacity.less(request.config.resources)
        }),
{
    lemma_run_stays_on_the_way(request, manager, replies);
}

/// Two VMs that a manager creates one after the other share no TAP device, no
/// address and no MAC.
pub proof fn law_created_vms_share_no_network(
    first: CreationView,
    second: CreationView,
    manager: ManagerView,
    replies: Seq<Reply>,
    between: ManagerView,
    more: Seq<Reply>,
    a: Seq<char>,
    b: Seq<char>,
)
    requires
        first.stage == CreateStageView::Finding(FindStep::FindKernel),
        second.stage == CreateStageView::Finding(FindStep::FindKernel),
        creation_run(first, manager, replies).0.stage == CreateStageView::Created(a),
        between.next_vm_index >= creation_run(first, manager, replies).1.next_vm_index,
        creation_run(second, between, more).0.stage == CreateStageView::Created(b),
    ensures
        ({
            let x = creation_run(first, manager, replies).1.vms[a].config.network;
            let y = creation_run(second, between, more).1.vms[b].config.network;
            &&& x.host_dev_name != y.host_dev_name
            &&& x.guest_ip != y.guest_ip
            &&& x.gateway_ip != y.gateway_ip
            &&& x.guest_mac != y.guest_mac
        }),
{
    law_created_vm_runs(first, manager, replies, a);
    law_created_vm_runs(second, between, more, b);
    let i = (creation_run(first, manager, replies).1.next_vm_index - 1) as u32;
    let j = (creation_run(second, between, more).1.next_vm_index - 1) as u32;
    network::law_indices_get_distinct_networks(i, j);
}

/// The configuration of a VM never changes while it is provisioned: what is
/// saved is what the VM runs with.
pub proof fn law_provisioning_keeps_the_configuration(provision: ProvisionView, reply: Reply)
    ensures
        provision.step(reply).0.vm.config == provision.vm.config,
        provision.step(reply).0.vm.socket_path == provision.vm.socket_path,
{
}

/// The lock is held from its grant to the end of the creation. The index is
/// given out, the configurations on disk are read, and the configuration of the
/// VM is saved, only while it is held.
pub proof fn law_lock_is_held_to_the_end(
    creation: CreationView,
    manager: ManagerView,
    reply: Reply,
)
    ensures
        ({
            let (next, after, fault) = creation.step(manager, reply);
            &&& !holds_lock(creation.stage) ==> (holds_lock(next.stage) <==> creation.stage
                == CreateStageView::Finding(FindStep::LockIndex) && reply.fault() is None)
            &&& holds_lock(creation.stage) ==> holds_lock(next.stage) || next.stage is Created
            &&& next.stage is Created && !(creation.stage is Created) ==> holds_lock(
                creation.stage,
            )
            &&& after.next_vm_index != manager.next_vm_index ==> holds_lock(creation.stage)
            &&& creation.effect(manager.base) matches Some(EffectView::ReadConfigs { dir })
                ==> holds_lock(creation.stage)
            &&& creation.effect(manager.base) matches Some(
                EffectView::WriteConfig { path, config },
            ) ==> holds_lock(creation.stage)
        }),
{
}

/// Creating a VM runs `ip` only for a TAP device whose name, address and mask
/// are such as the manager makes.
pub proof fn law_creation_runs_ip_on_valid_taps_only(
    creation: CreationView,
    base: Seq<char>,
    argv: Seq<Seq<char>>,
)
    requires
        creation.effect(base) == Some(EffectView::Ip { argv }),
    ensures
        creation.stage is Provisioning,
        network::tap_of(
            creation.stage->Provisioning_0.vm.config.network,
        ).fault() is None,
        network::tap_of(
            creation.stage->Provisioning_0.vm.config.network,
        ).setup_words().contains(argv),
{
    let provision = creation.stage->Provisioning_0;
    let tap = network::tap_of(provision.vm.config.network);
    let done = provision.step->SetUpTap_done;
    assert(tap.setup_effects()[done as int] == EffectView::Ip { argv });
    assert(tap.setup_words()[done as int] == argv);
}

/// How many steps lie between a stage and the end of a creation.
pub open spec fn creation_distance(stage: CreateStageView) -> nat {
    match stage {
        CreateStageView::Finding(step) => match step {
            FindStep::FindKernel => 30,
            FindStep::FindRootfs => 29,
            FindStep::PrepareVmsDir => 28,
            FindStep::LockIndex => 27,
            FindStep::ReadConfigs => 26,
        },
        CreateStageView::Provisioning(provision) => match provision.step {
            ProvisionStep::PrepareDir => 25,
            ProvisionStep::CopyRootfs => 24,
            ProvisionStep::PrepareDataDir { size_bytes } => 23,
            ProvisionStep::CreateDataDisk { size_bytes } => 22,
            ProvisionStep::WriteConfig => 21,
            ProvisionStep::SetUpTap { done } => if done < TAP_STEPS {
                (20 - done) as nat
            } else {
                15
            },
            ProvisionStep::Start { phase } => boot::boot_distance(phase) + 1,
        },
        CreateStageView::Created(_) => 0,
    }
}

/// Is the creation waiting for the API socket of its VM?
pub open spec fn waits_for_socket(stage: CreateStageView) -> bool {
    match stage {
        CreateStageView::Provisioning(provision) => match provision.step {
            ProvisionStep::Start { phase } => phase is CheckTime || phase is CheckSocket
                || phase is Wait,
            _ => false,
        },
        _ => false,
    }
}

/// Each reply brings a creation closer to its end, ends it with an error, or
/// finds it waiting for the socket.
pub proof fn law_creation_moves_on(creation: CreationView, manager: ManagerView, reply: Reply)
    requires
        !(creation.stage is Created),
        creation.stage matches CreateStageView::Provisioning(p) ==> !p.finished(),
    ensures
        ({
            let (next, after, fault) = creation.step(manager, reply);
            ||| fault is Some
            ||| creation_distance(next.stage) < creation_distance(creation.stage)
            ||| waits_for_socket(creation.stage) && waits_for_socket(next.stage)
        }),
{
}

/// A creation keeps the VMs of a manager apart, whatever comes of it: no VM has
/// the next index or a greater one, and no two have the same.
pub proof fn law_creation_keeps_vms_apart(
    request: CreationView,
    manager: ManagerView,
    replies: Seq<Reply>,
)
    requires
        request.stage == CreateStageView::Finding(FindStep::FindKernel),
        manager.has_vms_apart(),
    ensures
        creation_run(request, manager, replies).1.has_vms_apart(),
{
    lemma_run_stays_on_the_way(request, manager, replies);
    let (creation, after, _) = creation_run(request, manager, replies);
    if let CreateStageView::Created(vm_id) = creation.stage {
        let index = (after.next_vm_index - 1) as u32;
        manager::law_tap_name_tells_its_index(index);
        assert(manager::tap_index(after.vms[vm_id].config.network.host_dev_name) == Some(index));
        lemma_run_reads_the_disk(request, manager, replies);
        assert forall|id: Seq<char>| #[trigger] after.vms.contains_key(id) && id != vm_id implies {
            &&& manager.vms.contains_key(id)
            &&& after.vms[id] == manager.vms[id]
        } by {}
    }
}

/// What is asked for: a new VM with the name and the limits of the request and
/// the kernel of the image, which is looked for first. Its network has the
/// addresses of its index and the limits of the request.
pub proof fn law_requested_vm(
    uuid: Seq<char>,
    name: Seq<char>,
    image: VmImageView,
    resources: ResourceLimits,
    config: VmConfigView,
    index: u32,
)
    ensures
        ({
            let request = requested(uuid, name, image, resources);
            &&& request.config.vm_id == "vm-"@ + uuid
            &&& request.config.name == name
            &&& request.config.resources == resources
            &&& request.config.kernel_image_path == image.kernel_path
            &&& request.config.boot_args == "console=ttyS0 reboot=k panic=1 pci=off"@
            &&& request.config.firecracker_bin == "firecracker"@
            &&& request.image == image
            &&& request.stage == CreateStageView::Finding(FindStep::FindKernel)
        }),
        networked(config, index).network == (NetworkView {
            rate_limits: Some(config.resources.network),
            ..network::network_for(index as nat)
        }),
        networked(config, index) == (VmConfigView {
            network: networked(config, index).network,
            ..config
        }),
        no_image(name) == Failure::Image("image '"@ + name + "' not found"@),
{
}

/// What a creation takes of the host is taken as soon as both files of the image
/// are found, and stays taken, whatever comes of the creation. Until then the
/// manager is as it was.
pub proof fn law_creation_reserves_once_the_files_are_found(
    request: CreationView,
    manager: ManagerView,
    replies: Seq<Reply>,
)
    requires
        request.stage == CreateStageView::Finding(FindStep::FindKernel),
    ensures
        ({
            let (creation, after, _) = creation_run(request, manager, replies);
            match creation.stage {
                CreateStageView::Finding(FindStep::FindKernel) => after == manager,
                CreateStageView::Finding(FindStep::FindRootfs) => after == manager,
                _ => {
                    let limits = request.config.resources;
                    &&& after.capacity.available_vcpus == manager.capacity.available_vcpus
                        - limits.cpu.vcpu_count
                    &&& after.capacity.available_memory_mib
                        == manager.capacity.available_memory_mib - limits.memory.size_mib
                    &&& after.capacity.available_disk_bytes
                        == manager.capacity.available_disk_bytes
                        - limits.storage.rootfs_size_bytes
                    &&& after.capacity.total_vcpus == manager.capacity.total_vcpus
                    &&& after.capacity.total_memory_mib == manager.capacity.total_memory_mib
                    &&& after.capacity.total_disk_bytes == manager.capacity.total_disk_bytes
                },
            }
        }),
{
    lemma_run_stays_on_the_way(request, manager, replies);
}

/// A VM that was created has the next index of the manager, or the one that
/// follows on an index on disk, as the configurations tell that were read. Its
/// network is that of its index, under the limits that were asked for.
pub proof fn law_created_vm_has_the_least_index(
    request: CreationView,
    manager: ManagerView,
    replies: Seq<Reply>,
    vm_id: Seq<char>,
)
    requires
        request.stage == CreateStageView::Finding(FindStep::FindKernel),
        creation_run(request, manager, replies).0.stage == CreateStageView::Created(vm_id),
    ensures
        ({
            let after = creation_run(request, manager, replies).1;
            let index = after.next_vm_index - 1;
            let configs = replied_configs(replies[4]);
            &&& replies.len() >= 5
            &&& after.vms[vm_id].config.network == (NetworkView {
                rate_limits: Some(request.config.resources.network),
                ..network::network_for(index as nat)
            })
            &&& index == manager.next_vm_index || exists|i: int|
                0 <= i < configs.len() && #[trigger] manager::config_index(configs[i]) is Some
                    && manager::config_index(configs[i])->0 + 1 == index
        }),
{
    law_created_vm_runs(request, manager, replies, vm_id);
    lemma_run_reads_the_disk(request, manager, replies);
    manager::law_new_index_is_the_least(
        manager.next_vm_index,
        replied_configs(replies[4]),
    );
}

/// The configurations that a reply gives are those of its texts, in their order.
pub proof fn law_replied_configs(texts: Vec<String>)
    ensures
        replied_configs(Reply::Configs(texts)).len() == texts@.len(),
        forall|i: int|
            0 <= i < texts@.len() ==> #[trigger] replied_configs(Reply::Configs(texts))[i]
                == crate::json::parsed(texts@[i]@),
{
}

} // verus!
