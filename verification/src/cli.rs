//! The command line: what the arguments ask for, and what is printed.

use vstd::prelude::*;
use vstd::string::*;

use crate::error::{Failure, OsError};
use crate::image;
use crate::image::VmImage;
use crate::path;
use crate::resource;
use crate::resource::{HostCapacity, ResourceLimits};
use crate::storage;
use crate::storage::VmStorage;
use crate::text;
use crate::vm::{VmConfig, VmConfigView};
use crate::words;

verus! {

// ---------------------------------------------------------------------------
// Arguments
// ---------------------------------------------------------------------------
/// What the arguments ask for.
#[derive(Debug)]
pub enum Command {
    Create { name: String, image_name: String, resources: ResourceLimits },
    Destroy { vm_id: String },
    List,
    Status { vm_id: String },
    Capacity,
    Images,
    Help,
    /// The arguments of a command are not right. The message says why.
    Refused { message: String },
    /// There is no such command. The help follows on the message.
    Unknown { message: String },
    /// An argument cannot be a name.
    Invalid(OsError),
}

/// What a command says.
pub enum CommandView {
    Create { name: Seq<char>, image_name: Seq<char>, resources: ResourceLimits },
    Destroy { vm_id: Seq<char> },
    List,
    Status { vm_id: Seq<char> },
    Capacity,
    Images,
    Help,
    Refused { message: Seq<char> },
    Unknown { message: Seq<char> },
    Invalid(Failure),
}

impl View for Command {
    type V = CommandView;

    open spec fn view(&self) -> CommandView {
        match *self {
            Command::Create { name, image_name, resources } => CommandView::Create {
                name: name@,
                image_name: image_name@,
                resources,
            },
            Command::Destroy { vm_id } => CommandView::Destroy { vm_id: vm_id@ },
            Command::List => CommandView::List,
            Command::Status { vm_id } => CommandView::Status { vm_id: vm_id@ },
            Command::Capacity => CommandView::Capacity,
            Command::Images => CommandView::Images,
            Command::Help => CommandView::Help,
            Command::Refused { message } => CommandView::Refused { message: message@ },
            Command::Unknown { message } => CommandView::Unknown { message: message@ },
            Command::Invalid(e) => CommandView::Invalid(e@),
        }
    }
}

/// The limits that the name of a size stands for.
pub open spec fn limits_named(size: Seq<char>) -> Option<ResourceLimits> {
    if size == "small"@ {
        Some(resource::small_limits())
    } else if size == "medium"@ {
        Some(resource::medium_limits())
    } else if size == "large"@ {
        Some(resource::large_limits())
    } else {
        None
    }
}

/// What the arguments of `create` ask for: a name, an image and, optionally, a size.
pub open spec fn create_command(args: Seq<Seq<char>>) -> CommandView {
    if args.len() < 2 {
        CommandView::Refused {
            message: "usage: monoce-os create <name> <image> [small|medium|large]"@,
        }
    } else if !path::is_component(args[1]) {
        CommandView::Invalid(storage::not_a_component("image name"@, args[1]))
    } else {
        let size = if args.len() > 2 {
            args[2]
        } else {
            "small"@
        };
        match limits_named(size) {
            Some(resources) => CommandView::Create {
                name: args[0],
                image_name: args[1],
                resources,
            },
            None => CommandView::Refused {
                message: "invalid size: "@ + size + " (use small, medium, large)"@,
            },
        }
    }
}

/// What the arguments of `destroy` ask for.
pub open spec fn destroy_command(args: Seq<Seq<char>>) -> CommandView {
    if args.len() == 0 {
        CommandView::Refused { message: "usage: monoce-os destroy <vm-id>"@ }
    } else {
        CommandView::Destroy { vm_id: args[0] }
    }
}

/// What the arguments of `status` ask for.
pub open spec fn status_command(args: Seq<Seq<char>>) -> CommandView {
    if args.len() == 0 {
        CommandView::Refused { message: "usage: monoce-os status <vm-id>"@ }
    } else if !path::is_component(args[0]) {
        CommandView::Invalid(storage::not_a_component("VM ID"@, args[0]))
    } else {
        CommandView::Status { vm_id: args[0] }
    }
}

/// What the arguments of the program ask for. The first is the program itself.
pub open spec fn command_of(args: Seq<Seq<char>>) -> CommandView {
    if args.len() < 2 {
        CommandView::Help
    } else {
        let command = args[1];
        let rest = args.skip(2);
        if command == "create"@ {
            create_command(rest)
        } else if command == "destroy"@ {
            destroy_command(rest)
        } else if command == "list"@ {
            CommandView::List
        } else if command == "status"@ {
            status_command(rest)
        } else if command == "capacity"@ {
            CommandView::Capacity
        } else if command == "images"@ {
            CommandView::Images
        } else if command == "help"@ || command == "--help"@ || command == "-h"@ {
            CommandView::Help
        } else {
            CommandView::Unknown { message: "unknown command: "@ + command }
        }
    }
}

fn limits_for(size: &str) -> (r: Option<ResourceLimits>)
    ensures
        r == limits_named(size@),
{
    if text::same_text(size, "small") {
        Some(ResourceLimits::small())
    } else if text::same_text(size, "medium") {
        Some(ResourceLimits::medium())
    } else if text::same_text(size, "large") {
        Some(ResourceLimits::large())
    } else {
        None
    }
}

fn refused(message: &str) -> (r: Command)
    ensures
        r@ == (CommandView::Refused { message: message@ }),
{
    Command::Refused { message: message.to_string() }
}

fn parse_create(args: &Vec<String>) -> (r: Command)
    requires
        args@.len() >= 2,
    ensures
        r@ == create_command(args.deep_view().skip(2)),
{
    if args.len() < 4 {
        return refused("usage: monoce-os create <name> <image> [small|medium|large]");
    }
    if let Err(e) = storage::validate_image_name(args[3].as_str()) {
        return Command::Invalid(e);
    }
    let size = if args.len() > 4 {
        args[4].as_str()
    } else {
        "small"
    };
    match limits_for(size) {
        Some(resources) => Command::Create {
            name: args[2].clone(),
            image_name: args[3].clone(),
            resources,
        },
        None => {
            let mut message = "invalid size: ".to_string();
            message.append(size);
            message.append(" (use small, medium, large)");
            Command::Refused { message }
        },
    }
}

fn parse_destroy(args: &Vec<String>) -> (r: Command)
    requires
        args@.len() >= 2,
    ensures
        r@ == destroy_command(args.deep_view().skip(2)),
{
    if args.len() < 3 {
        return refused("usage: monoce-os destroy <vm-id>");
    }
    Command::Destroy { vm_id: args[2].clone() }
}

fn parse_status(args: &Vec<String>) -> (r: Command)
    requires
        args@.len() >= 2,
    ensures
        r@ == status_command(args.deep_view().skip(2)),
{
    if args.len() < 3 {
        return refused("usage: monoce-os status <vm-id>");
    }
    if let Err(e) = storage::validate_vm_id(args[2].as_str()) {
        return Command::Invalid(e);
    }
    Command::Status { vm_id: args[2].clone() }
}

/// Reads the arguments of the program.
pub fn parse_command(args: &Vec<String>) -> (r: Command)
    ensures
        r@ == command_of(args.deep_view()),
{
    if args.len() < 2 {
        return Command::Help;
    }
    let command = args[1].as_str();
    if text::same_text(command, "create") {
        parse_create(args)
    } else if text::same_text(command, "destroy") {
        parse_destroy(args)
    } else if text::same_text(command, "list") {
        Command::List
    } else if text::same_text(command, "status") {
        parse_status(args)
    } else if text::same_text(command, "capacity") {
        Command::Capacity
    } else if text::same_text(command, "images") {
        Command::Images
    } else if text::same_text(command, "help") || text::same_text(command, "--help")
        || text::same_text(command, "-h") {
        Command::Help
    } else {
        let mut message = "unknown command: ".to_string();
        message.append(command);
        Command::Unknown { message }
    }
}

// ---------------------------------------------------------------------------
// Images on disk
// ---------------------------------------------------------------------------
/// The image of a name: its rootfs lies with the images, and so does its
/// kernel unless another one is named.
pub open spec fn image_on_disk(
    base: Seq<char>,
    image_name: Seq<char>,
    kernel: Option<Seq<char>>,
) -> image::VmImageView {
    let images = storage::images_dir(base);
    image::plain_image(
        image_name,
        match kernel {
            Some(kernel) => kernel,
            None => path::joined(images, "vmlinux"@),
        },
        path::joined(images, image_name + ".ext4"@),
    )
}

/// The image of a name, with the kernel that is named in place of the default one.
pub fn image_for(storage: &VmStorage, image_name: &str, kernel: &Option<String>) -> (r: VmImage)
    ensures
        r@ == image_on_disk(storage@, image_name@, image::text_of(*kernel)),
{
    let kernel_path = match kernel {
        Some(kernel) => kernel.clone(),
        None => storage.kernel_path("vmlinux"),
    };
    let mut file = image_name.to_string();
    file.append(".ext4");
    let rootfs_path = path::join(storage.images_dir().as_str(), file.as_str());
    VmImage::new(image_name, kernel_path.as_str(), rootfs_path.as_str())
}

// ---------------------------------------------------------------------------
// What is printed
// ---------------------------------------------------------------------------
/// A row of lines.
pub open spec fn printed(lines: Vec<String>) -> Seq<Seq<char>> {
    lines.deep_view()
}

/// What was found in the directory of a VM.
#[derive(Debug)]
pub struct VmOnDisk {
    pub vm_id: String,
    pub has_config: bool,
    pub has_socket: bool,
}

/// A line of the table of VMs.
pub open spec fn vm_line(vm_id: Seq<char>, status: Seq<char>) -> Seq<char> {
    words::padded(vm_id, 40) + " "@ + words::padded(status, 10)
}

/// The line of a VM: it counts as running if it has an API socket.
pub open spec fn vm_on_disk_line(vm: VmOnDisk) -> Seq<char> {
    vm_line(
        vm.vm_id@,
        if vm.has_socket {
            "running"@
        } else {
            "stopped"@
        },
    )
}

/// The lines of all VMs that have a configuration.
pub open spec fn vm_lines(vms: Seq<VmOnDisk>) -> Seq<Seq<char>>
    decreases vms.len(),
{
    if vms.len() == 0 {
        seq![]
    } else if vms.last().has_config {
        vm_lines(vms.drop_last()).push(vm_on_disk_line(vms.last()))
    } else {
        vm_lines(vms.drop_last())
    }
}

/// The table of VMs.
pub open spec fn vm_table(vms: Seq<VmOnDisk>) -> Seq<Seq<char>> {
    if vm_lines(vms).len() == 0 {
        seq!["no VMs found"@]
    } else {
        seq![vm_line("VM ID"@, "STATUS"@), words::repeated('-', 52)] + vm_lines(vms)
    }
}

fn write_vm_line(vm_id: &str, status: &str) -> (r: String)
    ensures
        r@ == vm_line(vm_id@, status@),
{
    let mut line = words::pad(vm_id, 40);
    line.append(" ");
    line.append(words::pad(status, 10).as_str());
    line
}

/// The table of all VMs on disk that have a configuration.
pub fn list_report(vms: &Vec<VmOnDisk>) -> (r: Vec<String>)
    ensures
        printed(r) == vm_table(vms@),
{
    let mut lines: Vec<String> = vec![write_vm_line("VM ID", "STATUS"), words::dashes(52)];
    let ghost head = seq![vm_line("VM ID"@, "STATUS"@), words::repeated('-', 52)];
    let mut i: usize = 0;
    assert(printed(lines) =~= head + vm_lines(vms@.take(0)));
    while i < vms.len()
        invariant
            i <= vms@.len(),
            head.len() == 2,
            printed(lines) == head + vm_lines(vms@.take(i as int)),
        decreases vms@.len() - i,
    {
        let vm = &vms[i];
        let ghost before = printed(lines);
        assert(vms@.take(i + 1).drop_last() =~= vms@.take(i as int));
        if vm.has_config {
            let line = write_vm_line(
                vm.vm_id.as_str(),
                if vm.has_socket {
                    "running"
                } else {
                    "stopped"
                },
            );
            lines.push(line);
            assert(printed(lines) =~= before.push(vm_on_disk_line(*vm)));
        }
        i += 1;
        assert(printed(lines) =~= head + vm_lines(vms@.take(i as int)));
    }
    assert(vms@.take(vms@.len() as int) =~= vms@);
    if lines.len() == 2 {
        let none = vec!["no VMs found".to_string()];
        assert(printed(none) =~= seq!["no VMs found"@]);
        return none;
    }
    lines
}

/// What is told of a VM.
pub open spec fn vm_details(config: VmConfigView, socket_path: Seq<char>) -> Seq<Seq<char>> {
    seq![
        "VM ID:     "@ + config.vm_id,
        "Name:      "@ + config.name,
        "vCPUs:     "@ + text::dec(config.resources.cpu.vcpu_count as nat),
        "Memory:    "@ + text::dec(config.resources.memory.size_mib as nat) + " MiB"@,
        "Rootfs:    "@ + text::dec(config.resources.storage.rootfs_size_bytes as nat)
            + " bytes"@,
        "Network:   "@ + config.network.guest_ip,
        "Socket:    "@ + socket_path,
    ]
}

fn labelled(label: &str, value: &str) -> (r: String)
    ensures
        r@ == label@ + value@,
{
    let mut line = label.to_string();
    line.append(value);
    line
}

fn measured(label: &str, n: u64, unit: &str) -> (r: String)
    ensures
        r@ == label@ + text::dec(n as nat) + unit@,
{
    let mut line = label.to_string();
    line.append(text::decimal(n).as_str());
    line.append(unit);
    line
}

/// What is told of the VM that was asked for.
pub fn status_report(config: &VmConfig, storage: &VmStorage, vm_id: &str) -> (r: Vec<String>)
    ensures
        printed(r) == vm_details(config@, storage::socket_path(storage@, vm_id@)),
{
    let r = vec![
        labelled("VM ID:     ", config.vm_id.as_str()),
        labelled("Name:      ", config.name.as_str()),
        labelled(
            "vCPUs:     ",
            text::decimal(config.resources.cpu.vcpu_count as u64).as_str(),
        ),
        measured("Memory:    ", config.resources.memory.size_mib, " MiB"),
        measured("Rootfs:    ", config.resources.storage.rootfs_size_bytes, " bytes"),
        labelled("Network:   ", config.network.guest_ip.as_str()),
        labelled("Socket:    ", storage.socket_path(vm_id).as_str()),
    ];
    assert(printed(r) =~= vm_details(config@, storage::socket_path(storage@, vm_id@)));
    r
}

/// A line that gives a total and what is available of it.
pub open spec fn capacity_line(
    label: Seq<char>,
    total: nat,
    available: nat,
    unit: Seq<char>,
) -> Seq<char> {
    label + text::dec(total) + unit + " total, "@ + text::dec(available) + unit + " available"@
}

/// What is told of the capacity of the host. Disk is given in GiB, rounded down.
pub open spec fn capacity_lines(host: HostCapacity) -> Seq<Seq<char>> {
    seq![
        "Host Capacity:"@,
        capacity_line(
            "  vCPUs:   "@,
            host.total_vcpus as nat,
            host.available_vcpus as nat,
            ""@,
        ),
        capacity_line(
            "  Memory:  "@,
            host.total_memory_mib as nat,
            host.available_memory_mib as nat,
            " MiB"@,
        ),
        capacity_line(
            "  Disk:    "@,
            host.total_disk_bytes as nat / 0x4000_0000,
            host.available_disk_bytes as nat / 0x4000_0000,
            " GiB"@,
        ),
    ]
}

fn write_capacity_line(label: &str, total: u64, available: u64, unit: &str) -> (r: String)
    ensures
        r@ == capacity_line(label@, total as nat, available as nat, unit@),
{
    let mut line = measured(label, total, unit);
    line.append(" total, ");
    line.append(text::decimal(available).as_str());
    line.append(unit);
    line.append(" available");
    line
}

/// What is told of the capacity of the host.
pub fn capacity_report(host: &HostCapacity) -> (r: Vec<String>)
    ensures
        printed(r) == capacity_lines(*host),
{
    let r = vec![
        "Host Capacity:".to_string(),
        write_capacity_line(
            "  vCPUs:   ",
            host.total_vcpus as u64,
            host.available_vcpus as u64,
            "",
        ),
        write_capacity_line(
            "  Memory:  ",
            host.total_memory_mib,
            host.available_memory_mib,
            " MiB",
        ),
        write_capacity_line(
            "  Disk:    ",
            host.total_disk_bytes / 0x4000_0000,
            host.available_disk_bytes / 0x4000_0000,
            " GiB",
        ),
    ];
    assert(printed(r) =~= capacity_lines(*host));
    r
}

/// A file in the images directory.
#[derive(Debug)]
pub struct ImageFile {
    pub name: String,
    pub size_bytes: u64,
}

/// The line of an image file. Its size is given in MiB, rounded down.
pub open spec fn image_line(file: ImageFile) -> Seq<char> {
    "  "@ + file.name@ + " ("@ + text::dec(file.size_bytes as nat / 0x10_0000) + " MiB)"@
}

/// What is told of the images directory, of which `files` is the contents
/// where it exists.
pub open spec fn image_lines(dir: Seq<char>, files: Option<Seq<ImageFile>>) -> Seq<Seq<char>> {
    match files {
        Some(files) => seq!["Images directory: "@ + dir] + files.map_values(
            |file: ImageFile| image_line(file),
        ),
        None => seq!["no images found ("@ + dir + ")"@],
    }
}

/// The files that were found, where any could be looked for.
pub open spec fn files_in(files: Option<Vec<ImageFile>>) -> Option<Seq<ImageFile>> {
    match files {
        Some(files) => Some(files@),
        None => None,
    }
}

/// What is told of the images directory.
pub fn images_report(storage: &VmStorage, files: &Option<Vec<ImageFile>>) -> (r: Vec<String>)
    ensures
        printed(r) == image_lines(storage::images_dir(storage@), files_in(*files)),
{
    let dir = storage.images_dir();
    match files {
        Some(files) => {
            let mut lines: Vec<String> = vec![labelled("Images directory: ", dir.as_str())];
            let ghost head = seq!["Images directory: "@ + dir@];
            let ghost wanted = files@.map_values(|file: ImageFile| image_line(file));
            let mut i: usize = 0;
            assert(printed(lines) =~= head + wanted.take(0));
            while i < files.len()
                invariant
                    i <= files@.len(),
                    wanted == files@.map_values(|file: ImageFile| image_line(file)),
                    printed(lines) == head + wanted.take(i as int),
                decreases files@.len() - i,
            {
                let file = &files[i];
                let ghost before = printed(lines);
                let mut line = labelled("  ", file.name.as_str());
                line.append(" (");
                line.append(text::decimal(file.size_bytes / 0x10_0000).as_str());
                line.append(" MiB)");
                assert(line@ == image_line(*file));
                lines.push(line);
                i += 1;
                assert(printed(lines) =~= before.push(wanted[i - 1]));
                assert(printed(lines) =~= head + wanted.take(i as int));
            }
            assert(wanted.take(wanted.len() as int) =~= wanted);
            lines
        },
        None => {
            let mut line = labelled("no images found (", dir.as_str());
            line.append(")");
            let r = vec![line];
            assert(printed(r) =~= seq!["no images found ("@ + dir@ + ")"@]);
            r
        },
    }
}

/// What is told of a VM that was created.
pub fn created_report(vm_id: &str) -> (r: String)
    ensures
        r@ == "created VM: "@ + vm_id@,
{
    labelled("created VM: ", vm_id)
}

/// What is told of a VM that was destroyed.
pub fn destroyed_report(vm_id: &str) -> (r: String)
    ensures
        r@ == "destroyed VM: "@ + vm_id@,
{
    labelled("destroyed VM: ", vm_id)
}

/// What is told of a VM that has no configuration on disk.
pub fn missing_report(vm_id: &str) -> (r: String)
    ensures
        r@ == "VM not found: "@ + vm_id@,
{
    labelled("VM not found: ", vm_id)
}

// ---------------------------------------------------------------------------
// Laws
// ---------------------------------------------------------------------------
/// A VM is only created from an image, and its status only shown, under a name
/// that stays below the directory it belongs to.
pub proof fn law_names_from_the_command_line_are_components(args: Seq<Seq<char>>)
    ensures
        match command_of(args) {
            CommandView::Create { name, image_name, resources } => path::is_component(image_name),
            CommandView::Status { vm_id } => path::is_component(vm_id),
            _ => true,
        },
{
}

/// The rootfs of the image that a VM is created from lies right below the
/// images directory.
pub proof fn law_image_stays_below_the_images_directory(
    args: Seq<Seq<char>>,
    base: Seq<char>,
    kernel: Option<Seq<char>>,
)
    requires
        command_of(args) is Create,
    ensures
        ({
            let name = command_of(args)->Create_image_name;
            image_on_disk(base, name, kernel).rootfs_path == storage::images_dir(base) + seq!['/']
                + name + ".ext4"@
        }),
{
    let name = command_of(args)->Create_image_name;
    let images = storage::images_dir(base);
    let file = name + ".ext4"@;
    reveal_strlit("images");
    assert(images.last() == 's');
    assert(name.contains(name[0]));
    assert(file[0] == name[0]);
    assert(images + seq!['/'] + file =~= images + seq!['/'] + name + ".ext4"@);
}

/// A VM that is created gets the limits of one of the three sizes.
pub proof fn law_created_vms_have_a_preset_size(args: Seq<Seq<char>>)
    requires
        command_of(args) is Create,
    ensures
        command_of(args)->Create_resources == resource::small_limits()
            || command_of(args)->Create_resources == resource::medium_limits()
            || command_of(args)->Create_resources == resource::large_limits(),
{
}

/// Every VM with a configuration is in the table, which has one line for each
/// of them below its two lines of heading.
pub proof fn law_every_configured_vm_is_listed(vms: Seq<VmOnDisk>, i: int)
    requires
        0 <= i < vms.len(),
        vms[i].has_config,
    ensures
        vm_table(vms).contains(vm_on_disk_line(vms[i])),
        vm_table(vms).len() == 2 + vms.filter(|vm: VmOnDisk| vm.has_config).len(),
{
    lemma_vm_lines(vms, i);
    let k = choose|k: int|
        0 <= k < vm_lines(vms).len() && vm_lines(vms)[k] == vm_on_disk_line(vms[i]);
    assert(vm_table(vms)[k + 2] == vm_on_disk_line(vms[i]));
    lemma_vm_lines_count(vms);
}

proof fn lemma_vm_lines(vms: Seq<VmOnDisk>, i: int)
    requires
        0 <= i < vms.len(),
        vms[i].has_config,
    ensures
        vm_lines(vms).contains(vm_on_disk_line(vms[i])),
    decreases vms.len(),
{
    let rest = vms.drop_last();
    if i < rest.len() {
        lemma_vm_lines(rest, i);
        let k = choose|k: int|
            0 <= k < vm_lines(rest).len() && vm_lines(rest)[k] == vm_on_disk_line(rest[i]);
        assert(vm_lines(vms)[k] == vm_on_disk_line(vms[i]));
    } else {
        assert(vm_lines(vms)[vm_lines(rest).len() as int] == vm_on_disk_line(vms[i]));
    }
}

proof fn lemma_vm_lines_count(vms: Seq<VmOnDisk>)
    ensures
        vm_lines(vms).len() == vms.filter(|vm: VmOnDisk| vm.has_config).len(),
    decreases vms.len(),
{
    reveal(Seq::filter);
    if vms.len() > 0 {
        lemma_vm_lines_count(vms.drop_last());
    }
}

proof fn lemma_names_of_commands()
    ensures
        "create"@.len() == 6 && "create"@[0] == 'c',
        "destroy"@.len() == 7,
        "list"@.len() == 4 && "list"@[0] == 'l',
        "status"@.len() == 6 && "status"@[0] == 's',
        "capacity"@.len() == 8,
        "images"@.len() == 6 && "images"@[0] == 'i',
        "help"@.len() == 4 && "help"@[0] == 'h',
        "--help"@.len() == 6 && "--help"@[0] == '-',
        "-h"@.len() == 2,
        "small"@.len() == 5 && "small"@[0] == 's',
        "medium"@.len() == 6,
        "large"@.len() == 5 && "large"@[0] == 'l',
{
    reveal_strlit("create");
    reveal_strlit("destroy");
    reveal_strlit("list");
    reveal_strlit("status");
    reveal_strlit("capacity");
    reveal_strlit("images");
    reveal_strlit("help");
    reveal_strlit("--help");
    reveal_strlit("-h");
    reveal_strlit("small");
    reveal_strlit("medium");
    reveal_strlit("large");
}

/// What each command does with its first argument. What follows is ignored.
pub proof fn law_commands(program: Seq<char>, arg: Seq<char>, rest: Seq<Seq<char>>)
    ensures
        command_of(seq![]) is Help,
        command_of(seq![program]) is Help,
        command_of(seq![program, "help"@] + rest) is Help,
        command_of(seq![program, "--help"@] + rest) is Help,
        command_of(seq![program, "-h"@] + rest) is Help,
        command_of(seq![program, "list"@] + rest) is List,
        command_of(seq![program, "capacity"@] + rest) is Capacity,
        command_of(seq![program, "images"@] + rest) is Images,
        command_of(seq![program, "destroy"@, arg] + rest) == (CommandView::Destroy { vm_id: arg }),
        command_of(seq![program, "destroy"@]) == (CommandView::Refused {
            message: "usage: monoce-os destroy <vm-id>"@,
        }),
        path::is_component(arg) ==> command_of(seq![program, "status"@, arg] + rest) == (
        CommandView::Status { vm_id: arg }),
        !path::is_component(arg) ==> command_of(seq![program, "status"@, arg] + rest)
            == CommandView::Invalid(storage::not_a_component("VM ID"@, arg)),
        command_of(seq![program, "status"@]) == (CommandView::Refused {
            message: "usage: monoce-os status <vm-id>"@,
        }),
        arg != "create"@ && arg != "destroy"@ && arg != "list"@ && arg != "status"@ && arg
            != "capacity"@ && arg != "images"@ && arg != "help"@ && arg != "--help"@ && arg
            != "-h"@ ==> command_of(seq![program, arg] + rest) == (CommandView::Unknown {
            message: "unknown command: "@ + arg,
        }),
{
    lemma_names_of_commands();
    let destroy = seq![program, "destroy"@, arg] + rest;
    assert(destroy.skip(2)[0] == arg);
    let status = seq![program, "status"@, arg] + rest;
    assert(status.skip(2)[0] == arg);
}

/// What is created: a VM under the first name, from the image of the second one,
/// of the size that follows. It is small where none follows.
pub proof fn law_create_command(
    program: Seq<char>,
    name: Seq<char>,
    image_name: Seq<char>,
    size: Seq<char>,
    rest: Seq<Seq<char>>,
)
    ensures
        ({
            let plain = command_of(seq![program, "create"@, name, image_name]);
            let sized = command_of(seq![program, "create"@, name, image_name, size] + rest);
            let usage = CommandView::Refused {
                message: "usage: monoce-os create <name> <image> [small|medium|large]"@,
            };
            let create = |resources: ResourceLimits|
                CommandView::Create { name, image_name, resources };
            &&& command_of(seq![program, "create"@]) == usage
            &&& command_of(seq![program, "create"@, name]) == usage
            &&& !path::is_component(image_name) ==> {
                &&& plain == CommandView::Invalid(
                    storage::not_a_component("image name"@, image_name),
                )
                &&& sized == plain
            }
            &&& path::is_component(image_name) ==> {
                &&& plain == create(resource::small_limits())
                &&& size == "small"@ ==> sized == create(resource::small_limits())
                &&& size == "medium"@ ==> sized == create(resource::medium_limits())
                &&& size == "large"@ ==> sized == create(resource::large_limits())
                &&& size != "small"@ && size != "medium"@ && size != "large"@ ==> sized == (
                CommandView::Refused {
                    message: "invalid size: "@ + size + " (use small, medium, large)"@,
                })
            }
        }),
{
    lemma_names_of_commands();
    let plain = seq![program, "create"@, name, image_name];
    assert(plain.skip(2)[0] == name && plain.skip(2)[1] == image_name);
    let sized = seq![program, "create"@, name, image_name, size] + rest;
    assert(sized.skip(2)[0] == name && sized.skip(2)[1] == image_name && sized.skip(2)[2] == size);
}

/// The image of a name has that name, the kernel that is named, or the common
/// one of the images, and its own rootfs.
pub proof fn law_image_on_disk(
    base: Seq<char>,
    image_name: Seq<char>,
    kernel: Seq<char>,
)
    requires
        base.len() > 0,
        base.last() != '/',
        path::is_component(image_name),
    ensures
        image_on_disk(base, image_name, None).name == image_name,
        image_on_disk(base, image_name, None).kernel_path == base + "/images/vmlinux"@,
        image_on_disk(base, image_name, Some(kernel)).kernel_path == kernel,
        image_on_disk(base, image_name, None).rootfs_path == base + "/images/"@ + image_name
            + ".ext4"@,
        image_on_disk(base, image_name, Some(kernel)).rootfs_path == base + "/images/"@
            + image_name + ".ext4"@,
{
    reveal_strlit("images");
    reveal_strlit("vmlinux");
    reveal_strlit("/images/");
    reveal_strlit("/images/vmlinux");
    assert(image_name.contains(image_name[0]));
    let images = storage::images_dir(base);
    assert(images.last() == 's');
    let file = image_name + ".ext4"@;
    assert(file[0] == image_name[0]);
    assert(path::joined(images, "vmlinux"@) =~= base + "/images/vmlinux"@);
    assert(path::joined(images, file) =~= base + "/images/"@ + image_name + ".ext4"@);
}

/// The lines in which a VM, the capacity of the host and an image are told.
pub proof fn law_report_lines(
    config: VmConfigView,
    socket_path: Seq<char>,
    host: HostCapacity,
    file: ImageFile,
    vm: VmOnDisk,
)
    ensures
        vm_details(config, socket_path) == seq![
            "VM ID:     "@ + config.vm_id,
            "Name:      "@ + config.name,
            "vCPUs:     "@ + text::dec(config.resources.cpu.vcpu_count as nat),
            "Memory:    "@ + text::dec(config.resources.memory.size_mib as nat) + " MiB"@,
            "Rootfs:    "@ + text::dec(config.resources.storage.rootfs_size_bytes as nat)
                + " bytes"@,
            "Network:   "@ + config.network.guest_ip,
            "Socket:    "@ + socket_path,
        ],
        capacity_lines(host) == seq![
            "Host Capacity:"@,
            "  vCPUs:   "@ + text::dec(host.total_vcpus as nat) + ""@ + " total, "@ + text::dec(
                host.available_vcpus as nat,
            ) + ""@ + " available"@,
            "  Memory:  "@ + text::dec(host.total_memory_mib as nat) + " MiB"@ + " total, "@
                + text::dec(host.available_memory_mib as nat) + " MiB"@ + " available"@,
            "  Disk:    "@ + text::dec(host.total_disk_bytes as nat / 1_073_741_824) + " GiB"@
                + " total, "@ + text::dec(host.available_disk_bytes as nat / 1_073_741_824)
                + " GiB"@ + " available"@,
        ],
        image_line(file) == "  "@ + file.name@ + " ("@ + text::dec(
            file.size_bytes as nat / 1_048_576,
        ) + " MiB)"@,
        vm.has_socket ==> vm_on_disk_line(vm) == words::padded(vm.vm_id@, 40) + " "@
            + words::padded("running"@, 10),
        !vm.has_socket ==> vm_on_disk_line(vm) == words::padded(vm.vm_id@, 40) + " "@
            + words::padded("stopped"@, 10),
{
}

/// The table of VMs: a line for each VM with a configuration, in their order,
/// below the heading. Without any such VM it says so.
pub proof fn law_table_of_vms(vms: Seq<VmOnDisk>, vm: VmOnDisk, dir: Seq<char>)
    ensures
        vm_lines(seq![]).len() == 0,
        vm.has_config ==> vm_lines(vms.push(vm)) == vm_lines(vms).push(vm_on_disk_line(vm)),
        !vm.has_config ==> vm_lines(vms.push(vm)) == vm_lines(vms),
        vm_lines(vms).len() == 0 ==> vm_table(vms) == seq!["no VMs found"@],
        vm_lines(vms).len() > 0 ==> vm_table(vms) == seq![
            words::padded("VM ID"@, 40) + " "@ + words::padded("STATUS"@, 10),
            words::repeated('-', 52),
        ] + vm_lines(vms),
        image_lines(dir, None) == seq!["no images found ("@ + dir + ")"@],
        image_lines(dir, Some(seq![])) == seq!["Images directory: "@ + dir],
{
    assert(vms.push(vm).drop_last() =~= vms);
    assert(image_lines(dir, Some(seq![])) =~= seq!["Images directory: "@ + dir]);
}

} // verus!
