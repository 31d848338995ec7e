//! VM images: a kernel and a rootfs under a name.

use vstd::prelude::*;
use vstd::string::*;

use crate::effect;
use crate::effect::{Effect, EffectView, Reply};
use crate::error;
use crate::error::{Failure, OsError, OsResult};
use crate::json;
use crate::json::Json;
use crate::table;
use crate::table::Table;
use crate::vm;

verus! {

/// Represents a VM image (kernel + rootfs) tracked by content address.
#[derive(Debug)]
pub struct VmImage {
    /// Human-readable name (e.g. "alpine-3.20", "ubuntu-24.04").
    pub name: String,
    /// Content address of the kernel binary.
    pub kernel_cid: Option<String>,
    /// Content address of the rootfs image.
    pub rootfs_cid: Option<String>,
    /// Path to the kernel binary on disk.
    pub kernel_path: String,
    /// Path to the base rootfs image on disk.
    pub rootfs_path: String,
    /// Default kernel boot arguments.
    pub boot_args: String,
}

/// What an image says.
pub struct VmImageView {
    pub name: Seq<char>,
    pub kernel_cid: Option<Seq<char>>,
    pub rootfs_cid: Option<Seq<char>>,
    pub kernel_path: Seq<char>,
    pub rootfs_path: Seq<char>,
    pub boot_args: Seq<char>,
}

/// The text that is there, where one is.
pub open spec fn text_of(s: Option<String>) -> Option<Seq<char>> {
    match s {
        Some(s) => Some(s@),
        None => None,
    }
}

impl View for VmImage {
    type V = VmImageView;

    open spec fn view(&self) -> VmImageView {
        VmImageView {
            name: self.name@,
            kernel_cid: text_of(self.kernel_cid),
            rootfs_cid: text_of(self.rootfs_cid),
            kernel_path: self.kernel_path@,
            rootfs_path: self.rootfs_path@,
            boot_args: self.boot_args@,
        }
    }
}

fn copy_text(s: &Option<String>) -> (r: Option<String>)
    ensures
        text_of(r) == text_of(*s),
{
    match s {
        Some(s) => Some(s.clone()),
        None => None,
    }
}

impl Clone for VmImage {
    fn clone(&self) -> (r: Self)
        ensures
            r@ == self@,
    {
        VmImage {
            name: self.name.clone(),
            kernel_cid: copy_text(&self.kernel_cid),
            rootfs_cid: copy_text(&self.rootfs_cid),
            kernel_path: self.kernel_path.clone(),
            rootfs_path: self.rootfs_path.clone(),
            boot_args: self.boot_args.clone(),
        }
    }
}

/// An image whose contents have not been addressed, with the default boot arguments.
pub open spec fn plain_image(
    name: Seq<char>,
    kernel_path: Seq<char>,
    rootfs_path: Seq<char>,
) -> VmImageView {
    VmImageView {
        name,
        kernel_cid: None,
        rootfs_cid: None,
        kernel_path,
        rootfs_path,
        boot_args: vm::default_boot_args(),
    }
}

impl VmImageView {
    /// The first file of the image that is not there.
    pub open spec fn missing(self, kernel_found: bool, rootfs_found: bool) -> Option<Failure> {
        if !kernel_found {
            Some(Failure::KernelNotFound(self.kernel_path))
        } else if !rootfs_found {
            Some(Failure::RootfsNotFound(self.rootfs_path))
        } else {
            None
        }
    }

    /// The payload of the boot-source call of the Firecracker API.
    pub open spec fn boot_payload(self, extra_boot_args: Seq<char>) -> Json {
        vm::boot_source(self.kernel_path, vm::extended_args(self.boot_args, extra_boot_args))
    }
}

impl VmImage {
    pub fn new(name: &str, kernel_path: &str, rootfs_path: &str) -> (r: Self)
        ensures
            r@ == plain_image(name@, kernel_path@, rootfs_path@),
            r.name@ == name@,
            r.kernel_path@ == kernel_path@,
            r.rootfs_path@ == rootfs_path@,
            r.kernel_cid is None,
            r.rootfs_cid is None,
            r.boot_args@ == "console=ttyS0 reboot=k panic=1 pci=off"@,
    {
        VmImage {
            name: name.to_string(),
            kernel_cid: None,
            rootfs_cid: None,
            kernel_path: kernel_path.to_string(),
            rootfs_path: rootfs_path.to_string(),
            boot_args: "console=ttyS0 reboot=k panic=1 pci=off".to_string(),
        }
    }

    pub fn with_boot_args(self, args: &str) -> (r: Self)
        ensures
            r@ == (VmImageView { boot_args: args@, ..self@ }),
    {
        let mut image = self;
        image.boot_args = args.to_string();
        image
    }

    /// Validate that the kernel and rootfs exist on disk, given whether each does.
    pub fn validate(&self, kernel_found: bool, rootfs_found: bool) -> (r: OsResult<()>)
        ensures
            match r {
                Ok(_) => self@.missing(kernel_found, rootfs_found) is None,
                Err(e) => self@.missing(kernel_found, rootfs_found) == Some(e@),
            },
            r is Ok <==> kernel_found && rootfs_found,
            r matches Err(e) ==> e@ == (if kernel_found {
                Failure::RootfsNotFound(self.rootfs_path@)
            } else {
                Failure::KernelNotFound(self.kernel_path@)
            }),
    {
        if !kernel_found {
            return Err(OsError::KernelNotFound(self.kernel_path.clone()));
        }
        if !rootfs_found {
            return Err(OsError::RootfsNotFound(self.rootfs_path.clone()));
        }
        Ok(())
    }

    /// Generate the Firecracker boot-source API payload.
    pub fn boot_source_json(&self, extra_boot_args: &str) -> (r: serde_json::Value)
        ensures
            json::json_of(r) == self@.boot_payload(extra_boot_args@),
            json::json_of(r).member("kernel_image_path"@) == Some(Json::Text(self.kernel_path@)),
            json::json_of(r).member("boot_args"@) == Some(
                Json::Text(
                    if extra_boot_args@.len() == 0 {
                        self.boot_args@
                    } else {
                        self.boot_args@ + " "@ + extra_boot_args@
                    },
                ),
            ),
    {
        proof {
            law_boot_source_of_an_image(self@, extra_boot_args@);
        }
        let args = vm::extend_args(self.boot_args.as_str(), extra_boot_args);
        vm::boot_source_payload(self.kernel_path.as_str(), args.as_str())
    }
}

// ---------------------------------------------------------------------------
// Content addresses
// ---------------------------------------------------------------------------
/// How far the addressing of an image has come: what is to be done next.
#[derive(Debug, Clone, Copy)]
pub enum CidPhase {
    FindKernel,
    FindRootfs,
    AddressKernel,
    AddressRootfs,
    Addressed,
}

/// What is asked of the host in each phase.
pub open spec fn cid_effect(phase: CidPhase, image: VmImageView) -> Option<EffectView> {
    match phase {
        CidPhase::FindKernel => Some(EffectView::Exists { path: image.kernel_path }),
        CidPhase::FindRootfs => Some(EffectView::Exists { path: image.rootfs_path }),
        CidPhase::AddressKernel => Some(EffectView::ContentId { path: image.kernel_path }),
        CidPhase::AddressRootfs => Some(EffectView::ContentId { path: image.rootfs_path }),
        CidPhase::Addressed => None,
    }
}

/// The content address that a reply gives.
pub open spec fn replied_cid(reply: Reply) -> Option<Seq<char>> {
    match reply {
        Reply::ContentId(cid) => Some(cid@),
        _ => None,
    }
}

/// What a reply does to the addressing of an image and to the image: where it
/// goes on, what the image is then, and the error where there is one.
pub open spec fn cid_step(phase: CidPhase, image: VmImageView, reply: Reply) -> (
    CidPhase,
    VmImageView,
    Option<Failure>,
) {
    match phase {
        CidPhase::FindKernel => if reply is Yes {
            (CidPhase::FindRootfs, image, None)
        } else {
            (phase, image, Some(Failure::KernelNotFound(image.kernel_path)))
        },
        CidPhase::FindRootfs => if reply is Yes {
            (CidPhase::AddressKernel, image, None)
        } else {
            (phase, image, Some(Failure::RootfsNotFound(image.rootfs_path)))
        },
        CidPhase::AddressKernel => if replied_cid(reply) is None {
            (phase, image, Some(reply.misfit()))
        } else {
            (
                CidPhase::AddressRootfs,
                VmImageView { kernel_cid: replied_cid(reply), ..image },
                None,
            )
        },
        CidPhase::AddressRootfs => if replied_cid(reply) is None {
            (phase, image, Some(reply.misfit()))
        } else {
            (CidPhase::Addressed, VmImageView { rootfs_cid: replied_cid(reply), ..image }, None)
        },
        CidPhase::Addressed => (phase, image, None),
    }
}

/// The addressing of an image, on its way.
#[derive(Debug, Clone, Copy)]
pub struct Addressing {
    pub phase: CidPhase,
}

/// The content address that came back.
fn address(reply: Reply) -> (r: OsResult<String>)
    ensures
        match r {
            Ok(cid) => replied_cid(reply) == Some(cid@),
            Err(e) => replied_cid(reply) is None && e@ == reply.misfit(),
        },
{
    match reply {
        Reply::ContentId(cid) => Ok(cid),
        other => Err(other.refuse()),
    }
}

impl VmImage {
    /// Compute content addresses for the kernel and rootfs from their on-disk contents.
    pub fn compute_cids(&self) -> (r: Addressing)
        ensures
            r.phase == CidPhase::FindKernel,
    {
        Addressing { phase: CidPhase::FindKernel }
    }
}

impl Addressing {
    /// What has to be done next, until both files have an address.
    pub fn effect(&self, image: &VmImage) -> (r: Option<Effect>)
        ensures
            effect::asked(r) == cid_effect(self.phase, image@),
    {
        match self.phase {
            CidPhase::FindKernel => Some(Effect::Exists { path: image.kernel_path.clone() }),
            CidPhase::FindRootfs => Some(Effect::Exists { path: image.rootfs_path.clone() }),
            CidPhase::AddressKernel => Some(
                Effect::ContentId { path: image.kernel_path.clone() },
            ),
            CidPhase::AddressRootfs => Some(
                Effect::ContentId { path: image.rootfs_path.clone() },
            ),
            CidPhase::Addressed => None,
        }
    }

    /// Goes on with the reply to the effect that was asked for.
    pub fn advance(&mut self, image: &mut VmImage, reply: Reply) -> (r: OsResult<()>)
        ensures
            cid_step(old(self).phase, old(image)@, reply) == (
                final(self).phase,
                final(image)@,
                error::error_of(r),
            ),
    {
        let next = match self.phase {
            CidPhase::FindKernel => {
                image.validate(reply.is_yes(), true)?;
                CidPhase::FindRootfs
            },
            CidPhase::FindRootfs => {
                image.validate(true, reply.is_yes())?;
                CidPhase::AddressKernel
            },
            CidPhase::AddressKernel => {
                image.kernel_cid = Some(address(reply)?);
                CidPhase::AddressRootfs
            },
            CidPhase::AddressRootfs => {
                image.rootfs_cid = Some(address(reply)?);
                CidPhase::Addressed
            },
            CidPhase::Addressed => CidPhase::Addressed,
        };
        self.phase = next;
        Ok(())
    }
}

// ---------------------------------------------------------------------------
// The registry
// ---------------------------------------------------------------------------
/// Registry of available VM images.
#[derive(Debug)]
pub struct ImageRegistry {
    images: Table<VmImage>,
}

impl View for ImageRegistry {
    type V = Map<Seq<char>, VmImage>;

    /// The images by name.
    closed spec fn view(&self) -> Map<Seq<char>, VmImage> {
        self.images@
    }
}

impl Default for ImageRegistry {
    fn default() -> (r: Self)
        ensures
            r@ == Map::<Seq<char>, VmImage>::empty(),
    {
        ImageRegistry { images: Table::new() }
    }
}

impl ImageRegistry {
    #[verifier::type_invariant]
    spec fn wf(self) -> bool {
        forall|name: Seq<char>| #[trigger]
            self.images@.contains_key(name) ==> self.images@[name].name@ == name
    }

    pub fn new() -> (r: Self)
        ensures
            r@ == Map::<Seq<char>, VmImage>::empty(),
    {
        ImageRegistry { images: Table::new() }
    }

    /// Makes an image available under its name, in place of an image of that name.
    /// Each image stands under its own name.
    pub fn register(&mut self, image: VmImage)
        ensures
            final(self)@ == old(self)@.insert(image.name@, image),
    {
        proof {
            use_type_invariant(&*self);
        }
        let name = image.name.clone();
        let mut images: Table<VmImage> = Table::new();
        std::mem::swap(&mut images, &mut self.images);
        images.insert(name.as_str(), image);
        self.images = images;
    }

    pub fn get(&self, name: &str) -> (r: Option<&VmImage>)
        ensures
            match r {
                Some(image) => self@.contains_key(name@) && *image == self@[name@] && image.name@
                    == name@,
                None => !self@.contains_key(name@),
            },
    {
        proof {
            use_type_invariant(self);
        }
        self.images.get(name)
    }

    /// All images, in any order.
    pub fn list(&self) -> (r: Vec<&VmImage>)
        ensures
            table::lists(r@, self@),
            r@.len() == self@.len(),
    {
        self.images.values()
    }

    pub fn remove(&mut self, name: &str) -> (r: Option<VmImage>)
        ensures
            final(self)@ == old(self)@.remove(name@),
            match r {
                Some(image) => old(self)@.contains_key(name@) && image == old(self)@[name@],
                None => !old(self)@.contains_key(name@),
            },
    {
        proof {
            use_type_invariant(&*self);
        }
        let mut images: Table<VmImage> = Table::new();
        std::mem::swap(&mut images, &mut self.images);
        let removed = images.remove(name);
        self.images = images;
        removed
    }
}

// ---------------------------------------------------------------------------
// Laws
// ---------------------------------------------------------------------------
/// An image whose two files are found and read gets both addresses, and
/// nothing else of it changes.
pub proof fn law_addressing_sets_both_cids(image: VmImageView, kernel: Reply, rootfs: Reply)
    requires
        kernel is ContentId,
        rootfs is ContentId,
    ensures
        ({
            let (p1, i1, f1) = cid_step(CidPhase::FindKernel, image, Reply::Yes);
            let (p2, i2, f2) = cid_step(p1, i1, Reply::Yes);
            let (p3, i3, f3) = cid_step(p2, i2, kernel);
            let (p4, i4, f4) = cid_step(p3, i3, rootfs);
            &&& f1 is None && f2 is None && f3 is None && f4 is None
            &&& p4 is Addressed
            &&& i4 == (VmImageView {
                kernel_cid: replied_cid(kernel),
                rootfs_cid: replied_cid(rootfs),
                ..image
            })
        }),
{
}

/// An addressing that ends well has set both addresses: each step over a file
/// sets its address, and keeps the other one.
pub proof fn law_addressed_image_has_both_cids(phase: CidPhase, image: VmImageView, reply: Reply)
    requires
        phase is AddressRootfs ==> image.kernel_cid is Some,
        cid_step(phase, image, reply).2 is None,
    ensures
        cid_step(phase, image, reply).0 is AddressRootfs ==> cid_step(
            phase,
            image,
            reply,
        ).1.kernel_cid is Some,
        phase is AddressRootfs ==> {
            let (next, after, _) = cid_step(phase, image, reply);
            next is Addressed && after.kernel_cid is Some && after.rootfs_cid is Some
        },
{
}

/// An image is never addressed while one of its files is missing: the
/// addressing ends with the error that validation gives, and the image stays
/// as it was.
pub proof fn law_addressing_finds_what_validation_finds(
    image: VmImageView,
    kernel: Reply,
    rootfs: Reply,
)
    requires
        image.missing(kernel is Yes, rootfs is Yes) is Some,
    ensures
        ({
            let (p1, i1, f1) = cid_step(CidPhase::FindKernel, image, kernel);
            let (p2, i2, f2) = cid_step(p1, i1, rootfs);
            let fault = image.missing(kernel is Yes, rootfs is Yes);
            &&& i1 == image && i2 == image
            &&& if kernel is Yes {
                f1 is None && f2 == fault
            } else {
                f1 == fault
            }
        }),
{
}

/// A registered image is the one found under its name, and the other names
/// keep theirs.
pub proof fn law_registered_image_is_found(
    images: Map<Seq<char>, VmImage>,
    image: VmImage,
    other: Seq<char>,
)
    requires
        other != image.name@,
    ensures
        ({
            let after = images.insert(image.name@, image);
            &&& after.contains_key(image.name@)
            &&& after[image.name@] == image
            &&& after.contains_key(other) == images.contains_key(other)
            &&& images.contains_key(other) ==> after[other] == images[other]
        }),
{
}

/// Removing an image that was not registered before undoes its registration.
pub proof fn law_removal_undoes_registration(images: Map<Seq<char>, VmImage>, image: VmImage)
    requires
        !images.contains_key(image.name@),
    ensures
        images.insert(image.name@, image).remove(image.name@) == images,
{
    assert(images.insert(image.name@, image).remove(image.name@) =~= images);
}

/// What a new image says, and which of its files is reported missing: the kernel
/// first.
pub proof fn law_plain_image(
    name: Seq<char>,
    kernel_path: Seq<char>,
    rootfs_path: Seq<char>,
    kernel_found: bool,
    rootfs_found: bool,
)
    ensures
        ({
            let image = plain_image(name, kernel_path, rootfs_path);
            let missing = image.missing(kernel_found, rootfs_found);
            &&& image.name == name
            &&& image.kernel_path == kernel_path
            &&& image.rootfs_path == rootfs_path
            &&& image.kernel_cid is None && image.rootfs_cid is None
            &&& image.boot_args == "console=ttyS0 reboot=k panic=1 pci=off"@
            &&& !kernel_found ==> missing == Some(Failure::KernelNotFound(kernel_path))
            &&& kernel_found && !rootfs_found ==> missing == Some(
                Failure::RootfsNotFound(rootfs_path),
            )
            &&& kernel_found && rootfs_found ==> missing is None
        }),
{
}

/// An image is booted from its own kernel, with its own arguments and, behind a
/// space, those that are added.
pub proof fn law_boot_source_of_an_image(image: VmImageView, extra_boot_args: Seq<char>)
    ensures
        image.boot_payload(extra_boot_args).member("kernel_image_path"@) == Some(
            Json::Text(image.kernel_path),
        ),
        image.boot_payload(extra_boot_args).member("boot_args"@) == Some(
            Json::Text(
                if extra_boot_args.len() == 0 {
                    image.boot_args
                } else {
                    image.boot_args + " "@ + extra_boot_args
                },
            ),
        ),
{
    vm::law_boot_source(
        image.kernel_path,
        vm::extended_args(image.boot_args, extra_boot_args),
        extra_boot_args,
    );
}

/// What the host is asked while an image is addressed: whether each file is
/// there, then the address of each, the kernel first. The kernel gets the third
/// reply, the rootfs the fourth.
pub proof fn law_addressing_reads_both_files(image: VmImageView, kernel: String, rootfs: String)
    ensures
        ({
            let (p1, i1, f1) = cid_step(CidPhase::FindKernel, image, Reply::Yes);
            let (p2, i2, f2) = cid_step(p1, i1, Reply::Yes);
            let (p3, i3, f3) = cid_step(p2, i2, Reply::ContentId(kernel));
            let (p4, i4, f4) = cid_step(p3, i3, Reply::ContentId(rootfs));
            &&& cid_effect(CidPhase::FindKernel, image) == Some(
                EffectView::Exists { path: image.kernel_path },
            )
            &&& cid_effect(p1, i1) == Some(EffectView::Exists { path: image.rootfs_path })
            &&& cid_effect(p2, i2) == Some(EffectView::ContentId { path: image.kernel_path })
            &&& cid_effect(p3, i3) == Some(EffectView::ContentId { path: image.rootfs_path })
            &&& cid_effect(p4, i4) is None
            &&& i4.kernel_cid == Some(kernel@)
            &&& i4.rootfs_cid == Some(rootfs@)
        }),
{
}

} // verus!
