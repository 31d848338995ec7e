//! Where the files of a VM lie, and the drives that Firecracker is given.

use vstd::prelude::*;
use vstd::string::*;

use crate::effect;
use crate::effect::{Effect, EffectView};
use crate::error::{Failure, OsError, OsResult};
use crate::json;
use crate::json::Json;
use crate::path;

verus! {

/// Manages on-disk storage for VM images, rootfs, and data disks.
#[derive(Debug)]
pub struct VmStorage {
    /// Base directory for all VM storage.
    base_path: String,
}

impl View for VmStorage {
    type V = Seq<char>;

    /// The base directory.
    closed spec fn view(&self) -> Seq<char> {
        self.base_path@
    }
}

impl Clone for VmStorage {
    fn clone(&self) -> (r: Self)
        ensures
            r@ == self@,
    {
        VmStorage { base_path: self.base_path.clone() }
    }
}

// ---------------------------------------------------------------------------
// Layout
// ---------------------------------------------------------------------------
/// The directory that holds one directory for each VM.
pub open spec fn vms_dir(base: Seq<char>) -> Seq<char> {
    path::joined(base, "vms"@)
}

/// The directory of a VM.
pub open spec fn vm_dir(base: Seq<char>, vm_id: Seq<char>) -> Seq<char> {
    path::joined(vms_dir(base), vm_id)
}

/// A file in the directory of a VM.
pub open spec fn vm_file(base: Seq<char>, vm_id: Seq<char>, name: Seq<char>) -> Seq<char> {
    path::joined(vm_dir(base, vm_id), name)
}

pub open spec fn rootfs_path(base: Seq<char>, vm_id: Seq<char>) -> Seq<char> {
    vm_file(base, vm_id, "rootfs.ext4"@)
}

pub open spec fn data_disk_path(base: Seq<char>, vm_id: Seq<char>) -> Seq<char> {
    vm_file(base, vm_id, "data.ext4"@)
}

pub open spec fn socket_path(base: Seq<char>, vm_id: Seq<char>) -> Seq<char> {
    vm_file(base, vm_id, "firecracker.sock"@)
}

pub open spec fn log_path(base: Seq<char>, vm_id: Seq<char>) -> Seq<char> {
    vm_file(base, vm_id, "firecracker.log"@)
}

pub open spec fn config_path(base: Seq<char>, vm_id: Seq<char>) -> Seq<char> {
    vm_file(base, vm_id, "vm-config.json"@)
}

/// The directory of kernels and base images.
pub open spec fn images_dir(base: Seq<char>) -> Seq<char> {
    path::joined(base, "images"@)
}

/// The file that is locked while a VM gets its index.
pub open spec fn index_lock_path(base: Seq<char>) -> Seq<char> {
    path::joined(vms_dir(base), ".vm-index.lock"@)
}

impl VmStorage {
    pub fn new(base_path: &str) -> (r: Self)
        ensures
            r@ == base_path@,
    {
        VmStorage { base_path: base_path.to_string() }
    }

    /// Directory that holds the storage of every VM.
    pub fn vms_dir(&self) -> (r: String)
        ensures
            r@ == vms_dir(self@),
    {
        path::join(self.base_path.as_str(), "vms")
    }

    /// Directory for a specific VM's storage.
    pub fn vm_dir(&self, vm_id: &str) -> (r: String)
        ensures
            r@ == vm_dir(self@, vm_id@),
    {
        path::join(self.vms_dir().as_str(), vm_id)
    }

    fn vm_file(&self, vm_id: &str, name: &str) -> (r: String)
        ensures
            r@ == vm_file(self@, vm_id@, name@),
    {
        path::join(self.vm_dir(vm_id).as_str(), name)
    }

    /// Path to the VM's rootfs image.
    pub fn rootfs_path(&self, vm_id: &str) -> (r: String)
        ensures
            r@ == rootfs_path(self@, vm_id@),
    {
        self.vm_file(vm_id, "rootfs.ext4")
    }

    /// Path to the VM's data disk image.
    pub fn data_disk_path(&self, vm_id: &str) -> (r: String)
        ensures
            r@ == data_disk_path(self@, vm_id@),
    {
        self.vm_file(vm_id, "data.ext4")
    }

    /// Path to the VM's socket file.
    pub fn socket_path(&self, vm_id: &str) -> (r: String)
        ensures
            r@ == socket_path(self@, vm_id@),
    {
        self.vm_file(vm_id, "firecracker.sock")
    }

    /// Path to the VM's log file.
    pub fn log_path(&self, vm_id: &str) -> (r: String)
        ensures
            r@ == log_path(self@, vm_id@),
    {
        self.vm_file(vm_id, "firecracker.log")
    }

    /// Path to the VM's config JSON.
    pub fn config_path(&self, vm_id: &str) -> (r: String)
        ensures
            r@ == config_path(self@, vm_id@),
    {
        self.vm_file(vm_id, "vm-config.json")
    }

    /// Directory for cached kernel and base images.
    pub fn images_dir(&self) -> (r: String)
        ensures
            r@ == images_dir(self@),
    {
        path::join(self.base_path.as_str(), "images")
    }

    /// Path for a kernel image.
    pub fn kernel_path(&self, kernel_name: &str) -> (r: String)
        ensures
            r@ == path::joined(images_dir(self@), kernel_name@),
    {
        path::join(self.images_dir().as_str(), kernel_name)
    }

    /// Path of the file that is locked while a VM gets its index.
    pub fn index_lock_path(&self) -> (r: String)
        ensures
            r@ == index_lock_path(self@),
    {
        path::join(self.vms_dir().as_str(), ".vm-index.lock")
    }
}

// ---------------------------------------------------------------------------
// Names that become part of a path
// ---------------------------------------------------------------------------
/// The error for a name that is not one component of a path.
pub open spec fn not_a_component(kind: Seq<char>, value: Seq<char>) -> Failure {
    Failure::InvalidId { kind, value, reason: "must be a single path component"@ }
}

/// Check that a VM ID names a directory right below the VM directory.
pub fn validate_vm_id(vm_id: &str) -> (r: OsResult<()>)
    ensures
        match r {
            Ok(_) => path::is_component(vm_id@),
            Err(e) => !path::is_component(vm_id@) && e@ == not_a_component("VM ID"@, vm_id@),
        },
{
    if path::names_one_component(vm_id) {
        Ok(())
    } else {
        Err(
            OsError::InvalidId {
                kind: "VM ID",
                value: vm_id.to_string(),
                reason: "must be a single path component",
            },
        )
    }
}

/// Check that an image name names a file right below the images directory.
pub fn validate_image_name(name: &str) -> (r: OsResult<()>)
    ensures
        match r {
            Ok(_) => path::is_component(name@),
            Err(e) => !path::is_component(name@) && e@ == not_a_component("image name"@, name@),
        },
{
    if path::names_one_component(name) {
        Ok(())
    } else {
        Err(
            OsError::InvalidId {
                kind: "image name",
                value: name.to_string(),
                reason: "must be a single path component",
            },
        )
    }
}

// ---------------------------------------------------------------------------
// What is done to the files of a VM
// ---------------------------------------------------------------------------
/// Making a sparse image in the directory of a VM.
pub open spec fn sparse_image(
    base: Seq<char>,
    vm_id: Seq<char>,
    path: Seq<char>,
    size_bytes: u64,
) -> Seq<EffectView> {
    seq![
        EffectView::CreateDirAll { path: vm_dir(base, vm_id) },
        EffectView::CreateSparse { path, size_bytes },
    ]
}

/// Making a copy of a base image the rootfs of a VM.
pub open spec fn base_image_copy(base: Seq<char>, vm_id: Seq<char>, source: Seq<char>) -> Seq<
    EffectView,
> {
    seq![
        EffectView::CreateDirAll { path: vm_dir(base, vm_id) },
        EffectView::Copy { from: source, to: rootfs_path(base, vm_id) },
    ]
}

/// Removing the directory of a VM, where there is one.
pub open spec fn vm_removal(base: Seq<char>, vm_id: Seq<char>, found: bool) -> Option<EffectView> {
    if found {
        Some(EffectView::RemoveDirAll { path: vm_dir(base, vm_id) })
    } else {
        None
    }
}

/// Each procedure says what to do, in order. The first failure ends it.
impl VmStorage {
    /// Ensure all required directories exist for a VM.
    pub fn prepare_vm_dirs(&self, vm_id: &str) -> (r: Effect)
        ensures
            r@ == (EffectView::CreateDirAll { path: vm_dir(self@, vm_id@) }),
    {
        Effect::CreateDirAll { path: self.vm_dir(vm_id) }
    }

    fn create_sparse_image(&self, vm_id: &str, path: String, size_bytes: u64) -> (r: Vec<Effect>)
        ensures
            effect::asked_all(r@) == sparse_image(self@, vm_id@, path@, size_bytes),
    {
        let ghost wanted = sparse_image(self@, vm_id@, path@, size_bytes);
        let r = vec![self.prepare_vm_dirs(vm_id), Effect::CreateSparse { path, size_bytes }];
        assert(effect::asked_all(r@) =~= wanted);
        r
    }

    /// Create a sparse rootfs image of the given size in bytes.
    pub fn create_rootfs(&self, vm_id: &str, size_bytes: u64) -> (r: Vec<Effect>)
        ensures
            effect::asked_all(r@) == sparse_image(
                self@,
                vm_id@,
                rootfs_path(self@, vm_id@),
                size_bytes,
            ),
    {
        self.create_sparse_image(vm_id, self.rootfs_path(vm_id), size_bytes)
    }

    /// Create a sparse data disk image.
    pub fn create_data_disk(&self, vm_id: &str, size_bytes: u64) -> (r: Vec<Effect>)
        ensures
            effect::asked_all(r@) == sparse_image(
                self@,
                vm_id@,
                data_disk_path(self@, vm_id@),
                size_bytes,
            ),
    {
        self.create_sparse_image(vm_id, self.data_disk_path(vm_id), size_bytes)
    }

    /// Copy a base image to the VM's rootfs location.
    pub fn copy_base_image(&self, vm_id: &str, source: &str) -> (r: Vec<Effect>)
        ensures
            effect::asked_all(r@) == base_image_copy(self@, vm_id@, source@),
    {
        let r = vec![
            self.prepare_vm_dirs(vm_id),
            Effect::Copy { from: source.to_string(), to: self.rootfs_path(vm_id) },
        ];
        assert(effect::asked_all(r@) =~= base_image_copy(self@, vm_id@, source@));
        r
    }

    /// Compute the content address of a file on disk.
    pub fn compute_cid(&self, path: &str) -> (r: Effect)
        ensures
            r@ == (EffectView::ContentId { path: path@ }),
    {
        Effect::ContentId { path: path.to_string() }
    }

    /// Remove all storage for a VM, given whether its directory exists.
    pub fn cleanup_vm(&self, vm_id: &str, found: bool) -> (r: Option<Effect>)
        ensures
            effect::asked(r) == vm_removal(self@, vm_id@, found),
    {
        if found {
            Some(Effect::RemoveDirAll { path: self.vm_dir(vm_id) })
        } else {
            None
        }
    }
}

// ---------------------------------------------------------------------------
// Drives
// ---------------------------------------------------------------------------
/// Drive configuration for Firecracker.
#[derive(Debug)]
pub struct DriveConfig {
    pub drive_id: String,
    pub path_on_host: String,
    pub is_root_device: bool,
    pub is_read_only: bool,
    pub rate_limiter: Option<DriveRateLimiter>,
}

/// Rate limiter for a Firecracker block device.
#[derive(Debug, Clone, Copy)]
pub struct DriveRateLimiter {
    pub bandwidth: Option<TokenBucket>,
    pub ops: Option<TokenBucket>,
}

#[derive(Debug, Clone, Copy)]
pub struct TokenBucket {
    pub size: u64,
    pub one_time_burst: Option<u64>,
    pub refill_time: u64,
}

/// What a drive configuration says.
pub struct DriveView {
    pub drive_id: Seq<char>,
    pub path_on_host: Seq<char>,
    pub is_root_device: bool,
    pub is_read_only: bool,
    pub rate_limiter: Option<DriveRateLimiter>,
}

impl View for DriveConfig {
    type V = DriveView;

    open spec fn view(&self) -> DriveView {
        DriveView {
            drive_id: self.drive_id@,
            path_on_host: self.path_on_host@,
            is_root_device: self.is_root_device,
            is_read_only: self.is_read_only,
            rate_limiter: self.rate_limiter,
        }
    }
}

impl Clone for DriveConfig {
    fn clone(&self) -> (r: Self)
        ensures
            r@ == self@,
    {
        DriveConfig {
            drive_id: self.drive_id.clone(),
            path_on_host: self.path_on_host.clone(),
            is_root_device: self.is_root_device,
            is_read_only: self.is_read_only,
            rate_limiter: self.rate_limiter,
        }
    }
}

/// The drive that a VM boots from.
pub open spec fn rootfs_drive(
    base: Seq<char>,
    vm_id: Seq<char>,
    rate_limiter: Option<DriveRateLimiter>,
) -> DriveView {
    DriveView {
        drive_id: "rootfs"@,
        path_on_host: rootfs_path(base, vm_id),
        is_root_device: true,
        is_read_only: false,
        rate_limiter,
    }
}

/// The data drive of a VM.
pub open spec fn data_drive(
    base: Seq<char>,
    vm_id: Seq<char>,
    rate_limiter: Option<DriveRateLimiter>,
) -> DriveView {
    DriveView {
        drive_id: "data"@,
        path_on_host: data_disk_path(base, vm_id),
        is_root_device: false,
        is_read_only: false,
        rate_limiter,
    }
}

impl TokenBucket {
    pub open spec fn payload(self) -> Json {
        Json::Object(
            map![
                "size"@ => Json::Integer(self.size as int),
                "one_time_burst"@ => json::number_or_null(self.one_time_burst),
                "refill_time"@ => Json::Integer(self.refill_time as int),
            ],
        )
    }

    fn to_json(&self) -> (r: serde_json::Value)
        ensures
            json::json_of(r) == self.payload(),
    {
        let mut bucket = json::no_fields();
        json::put(&mut bucket, "size", json::number(self.size));
        json::put(&mut bucket, "one_time_burst", json::optional_number(self.one_time_burst));
        json::put(&mut bucket, "refill_time", json::number(self.refill_time));
        json::object(bucket)
    }
}

/// `fields` with a token bucket under `key`, where there is one.
pub open spec fn with_bucket(
    fields: Map<Seq<char>, Json>,
    key: Seq<char>,
    bucket: Option<TokenBucket>,
) -> Map<Seq<char>, Json> {
    match bucket {
        Some(bucket) => fields.insert(key, bucket.payload()),
        None => fields,
    }
}

impl DriveRateLimiter {
    pub open spec fn payload(self) -> Json {
        Json::Object(
            with_bucket(
                with_bucket(Map::empty(), "bandwidth"@, self.bandwidth),
                "ops"@,
                self.ops,
            ),
        )
    }
}

impl DriveView {
    /// The payload of the drives call of the Firecracker API.
    pub open spec fn payload(self) -> Json {
        let fields = map![
            "drive_id"@ => Json::Text(self.drive_id),
            "path_on_host"@ => Json::Text(self.path_on_host),
            "is_root_device"@ => Json::Bool(self.is_root_device),
            "is_read_only"@ => Json::Bool(self.is_read_only),
        ];
        Json::Object(
            match self.rate_limiter {
                Some(limiter) => fields.insert("rate_limiter"@, limiter.payload()),
                None => fields,
            },
        )
    }
}

impl VmStorage {
    /// Build a Firecracker drive config for the rootfs.
    pub fn rootfs_drive_config(
        &self,
        vm_id: &str,
        rate_limiter: Option<DriveRateLimiter>,
    ) -> (r: DriveConfig)
        ensures
            r@ == rootfs_drive(self@, vm_id@, rate_limiter),
    {
        DriveConfig {
            drive_id: "rootfs".to_string(),
            path_on_host: self.rootfs_path(vm_id),
            is_root_device: true,
            is_read_only: false,
            rate_limiter,
        }
    }

    /// Build a Firecracker drive config for the data disk.
    pub fn data_drive_config(
        &self,
        vm_id: &str,
        rate_limiter: Option<DriveRateLimiter>,
    ) -> (r: DriveConfig)
        ensures
            r@ == data_drive(self@, vm_id@, rate_limiter),
    {
        DriveConfig {
            drive_id: "data".to_string(),
            path_on_host: self.data_disk_path(vm_id),
            is_root_device: false,
            is_read_only: false,
            rate_limiter,
        }
    }

    /// Convert a drive config to Firecracker API JSON.
    pub fn drive_to_firecracker_json(drive: &DriveConfig) -> (r: serde_json::Value)
        ensures
            json::json_of(r) == drive@.payload(),
    {
        let mut payload = json::no_fields();
        json::put(&mut payload, "drive_id", json::text(drive.drive_id.as_str()));
        json::put(&mut payload, "path_on_host", json::text(drive.path_on_host.as_str()));
        json::put(&mut payload, "is_root_device", json::boolean(drive.is_root_device));
        json::put(&mut payload, "is_read_only", json::boolean(drive.is_read_only));
        if let Some(limiter) = drive.rate_limiter {
            let mut buckets = json::no_fields();
            if let Some(bandwidth) = limiter.bandwidth {
                json::put(&mut buckets, "bandwidth", bandwidth.to_json());
            }
            if let Some(ops) = limiter.ops {
                json::put(&mut buckets, "ops", ops.to_json());
            }
            json::put(&mut payload, "rate_limiter", json::object(buckets));
        }
        json::object(payload)
    }
}

// ---------------------------------------------------------------------------
// The VMs that have storage
// ---------------------------------------------------------------------------
/// An entry of a directory. It has no name where its name is no text.
#[derive(Debug)]
pub struct DirEntry {
    pub name: Option<String>,
    pub is_dir: bool,
}

/// The names of the directories among `entries`, in their order.
pub open spec fn dir_names(entries: Seq<DirEntry>) -> Seq<Seq<char>>
    decreases entries.len(),
{
    if entries.len() == 0 {
        seq![]
    } else {
        let names = dir_names(entries.drop_last());
        match entries.last().name {
            Some(name) => if entries.last().is_dir {
                names.push(name@)
            } else {
                names
            },
            None => names,
        }
    }
}

impl VmStorage {
    /// List all VM IDs that have storage directories, from the entries of the
    /// VM directory.
    pub fn list_vms(entries: &Vec<DirEntry>) -> (r: Vec<String>)
        ensures
            r.deep_view() == dir_names(entries@),
    {
        let mut vms: Vec<String> = Vec::new();
        assert(vms.deep_view() =~= seq![]);
        let mut i: usize = 0;
        while i < entries.len()
            invariant
                i <= entries.len(),
                vms.deep_view() == dir_names(entries@.take(i as int)),
            decreases entries.len() - i,
        {
            let ghost before = vms.deep_view();
            if entries[i].is_dir {
                if let Some(name) = &entries[i].name {
                    vms.push(name.clone());
                    assert(vms.deep_view() =~= before.push(name@));
                }
            }
            proof {
                let next = entries@.take(i + 1);
                assert(next.drop_last() =~= entries@.take(i as int));
                assert(next.last() == entries@[i as int]);
            }
            i += 1;
        }
        assert(entries@.take(entries.len() as int) =~= entries@);
        vms
    }
}

// ---------------------------------------------------------------------------
// Laws
// ---------------------------------------------------------------------------
/// The VM directory does not end with a separator, whatever the base is.
proof fn lemma_vms_dir(base: Seq<char>)
    ensures
        vms_dir(base).len() > 0,
        vms_dir(base).last() != '/',
{
    reveal_strlit("vms");
}

/// A VM ID that was checked names a directory right below the VM directory.
pub proof fn law_checked_id_stays_below_the_vm_directory(base: Seq<char>, vm_id: Seq<char>)
    requires
        path::is_component(vm_id),
    ensures
        vm_dir(base, vm_id) == vms_dir(base) + seq!['/'] + vm_id,
{
    lemma_vms_dir(base);
    path::lemma_component(vms_dir(base), vm_id, vm_id);
}

/// Two VMs with different IDs that were checked share no directory.
pub proof fn law_checked_ids_share_no_directory(base: Seq<char>, a: Seq<char>, b: Seq<char>)
    requires
        path::is_component(a),
        path::is_component(b),
        a != b,
    ensures
        vm_dir(base, a) != vm_dir(base, b),
{
    lemma_vms_dir(base);
    path::lemma_component(vms_dir(base), a, b);
}

/// The files of a VM lie right below its directory, and are different files.
pub proof fn law_files_of_a_vm_are_apart(base: Seq<char>, vm_id: Seq<char>)
    requires
        path::is_component(vm_id),
    ensures
        rootfs_path(base, vm_id) == vm_dir(base, vm_id) + seq!['/'] + "rootfs.ext4"@,
        data_disk_path(base, vm_id) == vm_dir(base, vm_id) + seq!['/'] + "data.ext4"@,
        socket_path(base, vm_id) == vm_dir(base, vm_id) + seq!['/'] + "firecracker.sock"@,
        log_path(base, vm_id) == vm_dir(base, vm_id) + seq!['/'] + "firecracker.log"@,
        config_path(base, vm_id) == vm_dir(base, vm_id) + seq!['/'] + "vm-config.json"@,
        rootfs_path(base, vm_id) != data_disk_path(base, vm_id),
        rootfs_path(base, vm_id) != socket_path(base, vm_id),
        rootfs_path(base, vm_id) != log_path(base, vm_id),
        rootfs_path(base, vm_id) != config_path(base, vm_id),
        data_disk_path(base, vm_id) != socket_path(base, vm_id),
        data_disk_path(base, vm_id) != log_path(base, vm_id),
        data_disk_path(base, vm_id) != config_path(base, vm_id),
        socket_path(base, vm_id) != log_path(base, vm_id),
        socket_path(base, vm_id) != config_path(base, vm_id),
        log_path(base, vm_id) != config_path(base, vm_id),
{
    law_checked_id_stays_below_the_vm_directory(base, vm_id);
    let dir = vm_dir(base, vm_id);
    assert(vm_id.contains(vm_id.last()));
    assert(dir.last() == vm_id.last());
    reveal_strlit("rootfs.ext4");
    reveal_strlit("data.ext4");
    reveal_strlit("firecracker.sock");
    reveal_strlit("firecracker.log");
    reveal_strlit("vm-config.json");
    let n = dir.len() + 1;
    assert(rootfs_path(base, vm_id).len() == n + 11);
    assert(data_disk_path(base, vm_id).len() == n + 9);
    assert(socket_path(base, vm_id).len() == n + 16);
    assert(log_path(base, vm_id).len() == n + 15);
    assert(config_path(base, vm_id).len() == n + 14);
}

/// Where everything lies below the base directory.
pub proof fn law_layout(base: Seq<char>, vm_id: Seq<char>)
    requires
        base.len() > 0,
        base.last() != '/',
        path::is_component(vm_id),
    ensures
        vms_dir(base) == base + "/vms"@,
        images_dir(base) == base + "/images"@,
        index_lock_path(base) == base + "/vms/.vm-index.lock"@,
        vm_dir(base, vm_id) == base + "/vms/"@ + vm_id,
        rootfs_path(base, vm_id) == base + "/vms/"@ + vm_id + "/rootfs.ext4"@,
        data_disk_path(base, vm_id) == base + "/vms/"@ + vm_id + "/data.ext4"@,
        socket_path(base, vm_id) == base + "/vms/"@ + vm_id + "/firecracker.sock"@,
        log_path(base, vm_id) == base + "/vms/"@ + vm_id + "/firecracker.log"@,
        config_path(base, vm_id) == base + "/vms/"@ + vm_id + "/vm-config.json"@,
{
    law_checked_id_stays_below_the_vm_directory(base, vm_id);
    law_files_of_a_vm_are_apart(base, vm_id);
    reveal_strlit("vms");
    reveal_strlit("/vms");
    reveal_strlit("/vms/");
    reveal_strlit("images");
    reveal_strlit("/images");
    reveal_strlit(".vm-index.lock");
    reveal_strlit("/vms/.vm-index.lock");
    reveal_strlit("rootfs.ext4");
    reveal_strlit("/rootfs.ext4");
    reveal_strlit("data.ext4");
    reveal_strlit("/data.ext4");
    reveal_strlit("firecracker.sock");
    reveal_strlit("/firecracker.sock");
    reveal_strlit("firecracker.log");
    reveal_strlit("/firecracker.log");
    reveal_strlit("vm-config.json");
    reveal_strlit("/vm-config.json");
    assert(vms_dir(base) =~= base + "/vms"@);
    assert(images_dir(base) =~= base + "/images"@);
    assert(index_lock_path(base) =~= base + "/vms/.vm-index.lock"@);
    let dir = base + "/vms/"@ + vm_id;
    assert(vm_dir(base, vm_id) =~= dir);
    assert(rootfs_path(base, vm_id) =~= dir + "/rootfs.ext4"@);
    assert(data_disk_path(base, vm_id) =~= dir + "/data.ext4"@);
    assert(socket_path(base, vm_id) =~= dir + "/firecracker.sock"@);
    assert(log_path(base, vm_id) =~= dir + "/firecracker.log"@);
    assert(config_path(base, vm_id) =~= dir + "/vm-config.json"@);
}

/// The drives of a VM are its own files: the rootfs is the root device, the data
/// disk is not, and both can be written to.
pub proof fn law_drives_of_a_vm(
    base: Seq<char>,
    vm_id: Seq<char>,
    limiter: Option<DriveRateLimiter>,
    size_bytes: u64,
    path: Seq<char>,
    source: Seq<char>,
)
    ensures
        ({
            let rootfs = rootfs_drive(base, vm_id, limiter);
            let data = data_drive(base, vm_id, limiter);
            &&& rootfs.drive_id == "rootfs"@
            &&& rootfs.path_on_host == rootfs_path(base, vm_id)
            &&& rootfs.is_root_device && !rootfs.is_read_only
            &&& rootfs.rate_limiter == limiter
            &&& data.drive_id == "data"@
            &&& data.path_on_host == data_disk_path(base, vm_id)
            &&& !data.is_root_device && !data.is_read_only
            &&& data.rate_limiter == limiter
        }),
        sparse_image(base, vm_id, path, size_bytes) == seq![
            EffectView::CreateDirAll { path: vm_dir(base, vm_id) },
            EffectView::CreateSparse { path, size_bytes },
        ],
        base_image_copy(base, vm_id, source) == seq![
            EffectView::CreateDirAll { path: vm_dir(base, vm_id) },
            EffectView::Copy { from: source, to: rootfs_path(base, vm_id) },
        ],
        vm_removal(base, vm_id, true) == Some(
            EffectView::RemoveDirAll { path: vm_dir(base, vm_id) },
        ),
        vm_removal(base, vm_id, false) is None,
{
}

/// A value of a token bucket of the limiter of a drive, in the payload.
pub open spec fn bucket_member(payload: Json, bucket: Seq<char>, name: Seq<char>) -> Option<Json> {
    match payload.member("rate_limiter"@) {
        Some(limiter) => match limiter.member(bucket) {
            Some(found) => found.member(name),
            None => None,
        },
        None => None,
    }
}

/// Does a payload tell the values of a token bucket, and those only if there is one?
pub open spec fn tells_bucket(payload: Json, name: Seq<char>, bucket: Option<TokenBucket>) -> bool {
    match bucket {
        Some(bucket) => {
            &&& bucket_member(payload, name, "size"@) == Some(Json::Integer(bucket.size as int))
            &&& bucket_member(payload, name, "one_time_burst"@) == Some(
                match bucket.one_time_burst {
                    Some(burst) => Json::Integer(burst as int),
                    None => Json::Null,
                },
            )
            &&& bucket_member(payload, name, "refill_time"@) == Some(
                Json::Integer(bucket.refill_time as int),
            )
        },
        None => payload.member("rate_limiter"@) matches Some(limiter) ==> limiter.member(name)
            is None,
    }
}

/// Firecracker is told of a drive what its configuration says, and a limiter
/// with each of its two buckets where the configuration has one.
pub proof fn law_drive_payload(drive: DriveView)
    ensures
        drive.payload().member("drive_id"@) == Some(Json::Text(drive.drive_id)),
        drive.payload().member("path_on_host"@) == Some(Json::Text(drive.path_on_host)),
        drive.payload().member("is_root_device"@) == Some(Json::Bool(drive.is_root_device)),
        drive.payload().member("is_read_only"@) == Some(Json::Bool(drive.is_read_only)),
        drive.payload().member("rate_limiter"@) is Some <==> drive.rate_limiter is Some,
        forall|key: Seq<char>| #[trigger]
            drive.payload().member(key) is Some ==> key == "drive_id"@ || key == "path_on_host"@
                || key == "is_root_device"@ || key == "is_read_only"@ || key == "rate_limiter"@,
        drive.rate_limiter matches Some(limiter) ==> tells_bucket(
            drive.payload(),
            "bandwidth"@,
            limiter.bandwidth,
        ) && tells_bucket(drive.payload(), "ops"@, limiter.ops),
{
    reveal_strlit("drive_id");
    reveal_strlit("path_on_host");
    reveal_strlit("is_root_device");
    reveal_strlit("is_read_only");
    reveal_strlit("rate_limiter");
    reveal_strlit("bandwidth");
    reveal_strlit("ops");
    reveal_strlit("size");
    reveal_strlit("one_time_burst");
    reveal_strlit("refill_time");
    assert("drive_id"@[0] == 'd' && "path_on_host"@[0] == 'p' && "rate_limiter"@[0] == 'r');
    assert("is_root_device"@[0] == 'i' && "is_read_only"@[0] == 'i');
    assert("is_root_device"@.len() != "is_read_only"@.len());
    assert("bandwidth"@.len() != "ops"@.len());
    assert("size"@[0] == 's' && "one_time_burst"@[0] == 'o' && "refill_time"@[0] == 'r');
}

/// The VMs that have storage are the directories whose name is a text, each in
/// its place.
pub proof fn law_listed_vms(entries: Seq<DirEntry>, entry: DirEntry)
    ensures
        dir_names(seq![]) == Seq::<Seq<char>>::empty(),
        entry.is_dir && entry.name is Some ==> dir_names(entries.push(entry)) == dir_names(
            entries,
        ).push(entry.name->0@),
        !(entry.is_dir && entry.name is Some) ==> dir_names(entries.push(entry)) == dir_names(
            entries,
        ),
{
    assert(entries.push(entry).drop_last() =~= entries);
}

/// How a name is refused that is not one component of a path.
pub proof fn law_refused_names(kind: Seq<char>, value: Seq<char>)
    ensures
        not_a_component(kind, value) == (Failure::InvalidId {
            kind,
            value,
            reason: "must be a single path component"@,
        }),
{
}

} // verus!
