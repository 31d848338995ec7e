//! What is asked of the host over a whole procedure, and what becomes of it.

use vstd::prelude::*;

use crate::boot;
use crate::boot::BootPhase;
use crate::create;
use crate::create::{CreateStageView, CreationView, FindStep, ProvisionStep};
use crate::effect::{EffectView, Reply};
use crate::error::Failure;
use crate::json::Json;
use crate::manager;
use crate::manager::ManagerView;
use crate::network;
use crate::storage;
use crate::vm::{MicroVmView, VmState};

verus! {

// ---------------------------------------------------------------------------
// Starting a VM
// ---------------------------------------------------------------------------
/// What comes of the start of a VM after a row of replies, of which those that
/// follow an error are not used.
pub open spec fn boot_run(phase: BootPhase, vm: MicroVmView, replies: Seq<Reply>) -> (
    BootPhase,
    MicroVmView,
    Option<Failure>,
)
    decreases replies.len(),
{
    if replies.len() == 0 {
        (phase, vm, None)
    } else {
        let (p, v, fault) = boot_run(phase, vm, replies.drop_last());
        if fault is Some {
            (p, v, fault)
        } else {
            boot::boot_step(p, v, replies.last())
        }
    }
}

/// What was asked of the host on the way, one effect for each reply.
pub open spec fn boot_asked(
    phase: BootPhase,
    vm: MicroVmView,
    base: Seq<char>,
    replies: Seq<Reply>,
) -> Seq<EffectView>
    decreases replies.len(),
{
    if replies.len() == 0 {
        seq![]
    } else {
        let earlier = boot_asked(phase, vm, base, replies.drop_last());
        let (p, v, fault) = boot_run(phase, vm, replies.drop_last());
        match boot::boot_effect(p, v, base) {
            Some(effect) => if fault is Some {
                earlier
            } else {
                earlier.push(effect)
            },
            None => earlier,
        }
    }
}

/// Where the spawn stands in a start, given what was found in the socket's place.
spec fn spawn_at(replies: Seq<Reply>) -> int {
    if replies[1] is Yes {
        3
    } else {
        2
    }
}

/// What is asked up to the spawn, where it has been asked.
spec fn begins(
    vm: MicroVmView,
    base: Seq<char>,
    replies: Seq<Reply>,
    asked: Seq<EffectView>,
) -> bool {
    let s = spawn_at(replies);
    &&& asked.len() > s
    &&& replies.len() >= asked.len()
    &&& asked[0] == EffectView::CreateDirAll { path: storage::vm_dir(base, vm.config.vm_id) }
    &&& asked[1] == EffectView::Exists { path: vm.socket_path }
    &&& s == 3 ==> asked[2] == EffectView::RemoveFile { path: vm.socket_path }
    &&& asked[s] == EffectView::Spawn {
        program: vm.config.firecracker_bin,
        argv: seq!["--api-sock"@, vm.socket_path],
    }
    &&& replies[0] is Done
    &&& s == 3 ==> replies[2] is Done
    &&& replies[s] is Started
}

/// What is asked from the spawn up to the `k` last effects.
spec fn waits(
    vm: MicroVmView,
    replies: Seq<Reply>,
    asked: Seq<EffectView>,
    k: int,
) -> bool {
    let s = spawn_at(replies);
    &&& asked.len() - k >= s + 2
    &&& asked[s + 1] == EffectView::Clock
    &&& replies[s + 1] is Time
    &&& forall|i: int|
        s < i < asked.len() - k ==> (#[trigger] asked[i] == EffectView::Clock || asked[i]
            == EffectView::Exists { path: vm.socket_path } || asked[i] == EffectView::Sleep {
            millis: 50,
        })
}

/// The requests that configure and start a VM.
spec fn requests(vm: MicroVmView, base: Seq<char>) -> Seq<EffectView> {
    let socket = vm.socket_path;
    seq![
        EffectView::Put {
            socket,
            path: "/machine-config"@,
            body: vm.config.machine_payload(),
        },
        EffectView::Put {
            socket,
            path: "/boot-source"@,
            body: vm.config.boot_payload(vm.config.network.boot_args()),
        },
        EffectView::Put {
            socket,
            path: "/drives/rootfs"@,
            body: storage::rootfs_drive(base, vm.config.vm_id, None).payload(),
        },
        EffectView::Put {
            socket,
            path: "/network-interfaces/"@ + vm.config.network.iface_id,
            body: vm.config.network.payload(),
        },
        EffectView::Put {
            socket,
            path: "/actions"@,
            body: Json::Object(map!["action_type"@ => Json::Text("InstanceStart"@)]),
        },
    ]
}

/// What is asked once the socket was found and `k` requests were accepted.
spec fn configured(
    vm: MicroVmView,
    base: Seq<char>,
    replies: Seq<Reply>,
    asked: Seq<EffectView>,
    k: int,
) -> bool {
    let n = asked.len() as int;
    &&& begins(vm, base, replies, asked)
    &&& waits(vm, replies, asked, k)
    &&& n - k >= spawn_at(replies) + 4
    &&& asked[n - k - 1] == EffectView::Exists { path: vm.socket_path }
    &&& replies[n - k - 1] is Yes
    &&& forall|i: int|
        0 <= i < k ==> #[trigger] asked[n - k + i] == requests(vm, base)[i] && replies[n - k
            + i].put_fault() is None
}

/// What holds of a start without an error so far.
spec fn boot_so_far(
    vm: MicroVmView,
    base: Seq<char>,
    replies: Seq<Reply>,
    asked: Seq<EffectView>,
    phase: BootPhase,
    now: MicroVmView,
) -> bool {
    let dir = EffectView::CreateDirAll { path: storage::vm_dir(base, vm.config.vm_id) };
    let find = EffectView::Exists { path: vm.socket_path };
    let remove = EffectView::RemoveFile { path: vm.socket_path };
    let spawned = MicroVmView { pid: boot::started_pid(replies[spawn_at(replies)]), ..vm };
    &&& phase is Booted ==> replies.len() >= asked.len()
    &&& !(phase is Booted) ==> replies.len() == asked.len()
    &&& match phase {
        BootPhase::Prepare => asked == Seq::<EffectView>::empty() && now == vm,
        BootPhase::FindStaleSocket => asked == seq![dir] && replies[0] is Done && now == vm,
        BootPhase::RemoveStaleSocket => {
            &&& asked == seq![dir, find]
            &&& replies[0] is Done
            &&& replies[1] is Yes
            &&& now == vm
        },
        BootPhase::Spawn => {
            &&& replies[0] is Done
            &&& now == vm
            &&& if spawn_at(replies) == 3 {
                asked == seq![dir, find, remove] && replies[2] is Done
            } else {
                asked == seq![dir, find]
            }
        },
        BootPhase::SetDeadline => {
            &&& begins(vm, base, replies, asked)
            &&& asked.len() == spawn_at(replies) + 1
            &&& now == spawned
        },
        BootPhase::CheckTime { deadline } => {
            &&& begins(vm, base, replies, asked)
            &&& waits(vm, replies, asked, 0)
            &&& now == spawned
        },
        BootPhase::CheckSocket { deadline } => {
            &&& begins(vm, base, replies, asked)
            &&& waits(vm, replies, asked, 0)
            &&& asked.len() >= spawn_at(replies) + 3
            &&& now == spawned
        },
        BootPhase::Wait { deadline } => {
            &&& begins(vm, base, replies, asked)
            &&& waits(vm, replies, asked, 0)
            &&& now == spawned
        },
        BootPhase::ConfigureMachine => configured(vm, base, replies, asked, 0) && now == spawned,
        BootPhase::ConfigureBootSource => configured(vm, base, replies, asked, 1) && now
            == spawned,
        BootPhase::ConfigureRootfs => configured(vm, base, replies, asked, 2) && now == spawned,
        BootPhase::ConfigureNetwork => configured(vm, base, replies, asked, 3) && now == spawned,
        BootPhase::StartInstance => configured(vm, base, replies, asked, 4) && now == spawned,
        BootPhase::Booted => configured(vm, base, replies, asked, 5) && now == (MicroVmView {
            state: VmState::Running,
            ..spawned
        }),
    }
}

proof fn lemma_boot_so_far(vm: MicroVmView, base: Seq<char>, replies: Seq<Reply>)
    requires
        vm.state == VmState::Booting,
        boot_run(BootPhase::Prepare, vm, replies).2 is None,
    ensures
        boot_so_far(
            vm,
            base,
            replies,
            boot_asked(BootPhase::Prepare, vm, base, replies),
            boot_run(BootPhase::Prepare, vm, replies).0,
            boot_run(BootPhase::Prepare, vm, replies).1,
        ),
    decreases replies.len(),
{
    if replies.len() > 0 {
        let earlier = replies.drop_last();
        lemma_boot_so_far(vm, base, earlier);
        let asked = boot_asked(BootPhase::Prepare, vm, base, earlier);
        let (phase, now, _) = boot_run(BootPhase::Prepare, vm, earlier);
        let after = boot_asked(BootPhase::Prepare, vm, base, replies);
        assert forall|i: int| 0 <= i < earlier.len() implies #[trigger] replies[i]
            == earlier[i] by {}
        if earlier.len() >= 2 {
            assert(replies[1] == earlier[1]);
            assert(spawn_at(replies) == spawn_at(earlier));
        }
        lemma_boot_step_so_far(vm, base, earlier, replies.last(), asked, phase, now);
        assert(earlier.push(replies.last()) =~= replies);
    }
}

proof fn lemma_boot_step_so_far(
    vm: MicroVmView,
    base: Seq<char>,
    earlier: Seq<Reply>,
    reply: Reply,
    asked: Seq<EffectView>,
    phase: BootPhase,
    now: MicroVmView,
)
    requires
        vm.state == VmState::Booting,
        boot_so_far(vm, base, earlier, asked, phase, now),
        boot::boot_step(phase, now, reply).2 is None,
    ensures
        boot_so_far(
            vm,
            base,
            earlier.push(reply),
            match boot::boot_effect(phase, now, base) {
                Some(effect) => asked.push(effect),
                None => asked,
            },
            boot::boot_step(phase, now, reply).0,
            boot::boot_step(phase, now, reply).1,
        ),
{
    let replies = earlier.push(reply);
    assert forall|i: int| 0 <= i < earlier.len() implies #[trigger] replies[i] == earlier[i] by {}
    assert(replies[earlier.len() as int] == reply);
    match boot::boot_effect(phase, now, base) {
        Some(effect) => {
            let after = asked.push(effect);
            assert forall|i: int| 0 <= i < asked.len() implies #[trigger] after[i] == asked[i] by {}
            assert(after[asked.len() as int] == effect);
            match phase {
                BootPhase::Prepare => {
                    assert(after =~= seq![effect]);
                },
                BootPhase::FindStaleSocket => {
                    assert(after =~= seq![asked[0], effect]);
                },
                BootPhase::RemoveStaleSocket => {
                    assert(spawn_at(replies) == 3);
                    assert(after =~= seq![asked[0], asked[1], effect]);
                },
                BootPhase::Spawn => {
                    assert(spawn_at(replies) == spawn_at(earlier));
                },
                BootPhase::ConfigureMachine => {
                    lemma_one_more_request(vm, base, earlier, reply, asked, effect, 0);
                },
                BootPhase::ConfigureBootSource => {
                    lemma_one_more_request(vm, base, earlier, reply, asked, effect, 1);
                },
                BootPhase::ConfigureRootfs => {
                    lemma_one_more_request(vm, base, earlier, reply, asked, effect, 2);
                },
                BootPhase::ConfigureNetwork => {
                    lemma_one_more_request(vm, base, earlier, reply, asked, effect, 3);
                },
                BootPhase::StartInstance => {
                    lemma_one_more_request(vm, base, earlier, reply, asked, effect, 4);
                },
                _ => {},
            }
        },
        None => {},
    }
}

proof fn lemma_one_more_request(
    vm: MicroVmView,
    base: Seq<char>,
    earlier: Seq<Reply>,
    reply: Reply,
    asked: Seq<EffectView>,
    effect: EffectView,
    k: int,
)
    requires
        0 <= k < 5,
        configured(vm, base, earlier, asked, k),
        earlier.len() == asked.len(),
        effect == requests(vm, base)[k],
        reply.put_fault() is None,
    ensures
        configured(vm, base, earlier.push(reply), asked.push(effect), k + 1),
{
    let replies = earlier.push(reply);
    let after = asked.push(effect);
    let n = asked.len() as int;
    assert forall|i: int| 0 <= i < n implies #[trigger] after[i] == asked[i] && replies[i]
        == earlier[i] by {}
    assert(after[n] == effect && replies[n] == reply);
    assert(n + 1 - (k + 1) == n - k);
    assert forall|i: int| 0 <= i < k + 1 implies #[trigger] after[n - k + i] == requests(
        vm,
        base,
    )[i] && replies[n - k + i].put_fault() is None by {
        if i < k {
            assert(asked[n - k + i] == requests(vm, base)[i]);
        }
    }
}

proof fn lemma_booted_has_no_error(vm: MicroVmView, replies: Seq<Reply>)
    ensures
        boot_run(BootPhase::Prepare, vm, replies).0 is Booted ==> boot_run(
            BootPhase::Prepare,
            vm,
            replies,
        ).2 is None,
    decreases replies.len(),
{
    if replies.len() > 0 {
        lemma_booted_has_no_error(vm, replies.drop_last());
    }
}

/// A VM that was started was given its directory, had a stale socket removed,
/// was spawned with its own socket, was waited for, and was then sent five
/// requests over that socket: its vCPUs and memory, its kernel with its boot
/// arguments and those of its network, its rootfs as the writable root device,
/// its network interface, and the start. Nothing else was asked, each request
/// was accepted, and the VM runs as the process that was spawned.
pub proof fn law_started_vm_was_configured(vm: MicroVmView, base: Seq<char>, replies: Seq<Reply>)
    requires
        vm.state == VmState::Booting,
        boot_run(BootPhase::Prepare, vm, replies).0 is Booted,
    ensures
        ({
            let asked = boot_asked(BootPhase::Prepare, vm, base, replies);
            let (_, after, fault) = boot_run(BootPhase::Prepare, vm, replies);
            let n = asked.len() as int;
            let s: int = if replies[1] is Yes {
                3
            } else {
                2
            };
            let socket = vm.socket_path;
            let config = vm.config;
            &&& fault is None
            &&& n <= replies.len()
            &&& n >= s + 9
            &&& asked[0] == EffectView::CreateDirAll { path: storage::vm_dir(base, config.vm_id) }
            &&& asked[1] == EffectView::Exists { path: socket }
            &&& replies[1] is Yes ==> asked[2] == EffectView::RemoveFile { path: socket }
            &&& asked[s] == EffectView::Spawn {
                program: config.firecracker_bin,
                argv: seq!["--api-sock"@, socket],
            }
            &&& replies[s] is Started
            &&& after == (MicroVmView {
                state: VmState::Running,
                pid: replies[s]->Started_pid,
                ..vm
            })
            &&& asked[s + 1] == EffectView::Clock
            &&& forall|i: int|
                s < i < n - 5 ==> (#[trigger] asked[i] == EffectView::Clock || asked[i]
                    == EffectView::Exists { path: socket } || asked[i] == EffectView::Sleep {
                    millis: 50,
                })
            &&& asked[n - 6] == EffectView::Exists { path: socket }
            &&& replies[n - 6] is Yes
            &&& forall|i: int| n - 5 <= i < n ==> (#[trigger] replies[i]).put_fault() is None
            &&& asked[n - 5] == EffectView::Put {
                socket,
                path: "/machine-config"@,
                body: Json::Object(
                    map![
                        "vcpu_count"@ => Json::Integer(config.resources.cpu.vcpu_count as int),
                        "mem_size_mib"@ => Json::Integer(config.resources.memory.size_mib as int),
                    ],
                ),
            }
            &&& asked[n - 4] == EffectView::Put {
                socket,
                path: "/boot-source"@,
                body: Json::Object(
                    map![
                        "kernel_image_path"@ => Json::Text(config.kernel_image_path),
                        "boot_args"@ => Json::Text(
                            config.boot_args + " "@ + config.network.boot_args(),
                        ),
                    ],
                ),
            }
            &&& asked[n - 3] == EffectView::Put {
                socket,
                path: "/drives/rootfs"@,
                body: Json::Object(
                    map![
                        "drive_id"@ => Json::Text("rootfs"@),
                        "path_on_host"@ => Json::Text(storage::rootfs_path(base, config.vm_id)),
                        "is_root_device"@ => Json::Bool(true),
                        "is_read_only"@ => Json::Bool(false),
                    ],
                ),
            }
            &&& asked[n - 2] == EffectView::Put {
                socket,
                path: "/network-interfaces/"@ + config.network.iface_id,
                body: config.network.payload(),
            }
            &&& asked[n - 1] == EffectView::Put {
                socket,
                path: "/actions"@,
                body: Json::Object(map!["action_type"@ => Json::Text("InstanceStart"@)]),
            }
        }),
{
    lemma_booted_has_no_error(vm, replies);
    lemma_boot_so_far(vm, base, replies);
    let asked = boot_asked(BootPhase::Prepare, vm, base, replies);
    let n = asked.len() as int;
    let r = requests(vm, base);
    assert(asked[n - 5 + 0] == r[0]);
    assert(asked[n - 5 + 1] == r[1]);
    assert(asked[n - 5 + 2] == r[2]);
    assert(asked[n - 5 + 3] == r[3]);
    assert(asked[n - 5 + 4] == r[4]);
    reveal_strlit("ip=");
    assert(vm.config.network.boot_args().len() > 0);
    assert forall|i: int| n - 5 <= i < n implies (#[trigger] replies[i]).put_fault() is None by {
        let k = i - (n - 5);
        assert(asked[n - 5 + k] == r[k]);
    }
}

proof fn lemma_boot_one_more(vm: MicroVmView, replies: Seq<Reply>, k: int)
    requires
        0 <= k < replies.len(),
        boot_run(BootPhase::Prepare, vm, replies.take(k)).2 is None,
    ensures
        ({
            let (p, v, _) = boot_run(BootPhase::Prepare, vm, replies.take(k));
            boot_run(BootPhase::Prepare, vm, replies.take(k + 1)) == boot::boot_step(
                p,
                v,
                replies[k],
            )
        }),
{
    assert(replies.take(k + 1).drop_last() =~= replies.take(k));
}

/// Where each effect succeeds, the socket is there before five seconds have
/// passed and each request is accepted, the start of a VM succeeds.
pub proof fn law_start_succeeds(vm: MicroVmView, replies: Seq<Reply>, began: u64, looked: u64)
    requires
        vm.state == VmState::Booting,
        replies.len() == 11,
        replies[0] is Done,
        !(replies[1] is Yes),
        replies[2] is Started,
        replies[3] == (Reply::Time { nanos: began }),
        replies[4] == (Reply::Time { nanos: looked }),
        looked < began + 5_000_000_000,
        looked < u64::MAX,
        replies[5] is Yes,
        forall|i: int| 6 <= i < 11 ==> (#[trigger] replies[i]).put_fault() is None,
    ensures
        boot_run(BootPhase::Prepare, vm, replies) == (
            BootPhase::Booted,
            MicroVmView {
                state: VmState::Running,
                pid: replies[2]->Started_pid,
                ..vm
            },
            None::<Failure>,
        ),
{
    assert(replies.take(0) =~= seq![]);
    lemma_boot_one_more(vm, replies, 0);
    lemma_boot_one_more(vm, replies, 1);
    lemma_boot_one_more(vm, replies, 2);
    lemma_boot_one_more(vm, replies, 3);
    lemma_boot_one_more(vm, replies, 4);
    lemma_boot_one_more(vm, replies, 5);
    lemma_boot_one_more(vm, replies, 6);
    lemma_boot_one_more(vm, replies, 7);
    lemma_boot_one_more(vm, replies, 8);
    lemma_boot_one_more(vm, replies, 9);
    lemma_boot_one_more(vm, replies, 10);
    assert(replies.take(11) =~= replies);
}

/// A start ends with what went wrong: the error of an effect or of a request,
/// the reason why nothing could be spawned, or a timeout five seconds after the
/// wait began. Before that it goes on waiting.
pub proof fn law_start_fails_with_what_went_wrong(
    vm: MicroVmView,
    reply: Reply,
    error: crate::error::OsError,
    reason: String,
    began: u64,
    now: u64,
)
    requires
        began + 5_000_000_000 <= u64::MAX,
    ensures
        ({
            let failed = Reply::Failed(error);
            &&& boot::boot_step(BootPhase::Prepare, vm, failed).2 == Some(error@)
            &&& boot::boot_step(BootPhase::RemoveStaleSocket, vm, failed).2 == Some(error@)
            &&& boot::boot_step(BootPhase::Spawn, vm, Reply::SpawnFailed(reason)).2 == Some(
                Failure::Firecracker("failed to spawn: "@ + reason@),
            )
        }),
        reply.put_fault() is Some ==> {
            &&& boot::boot_step(BootPhase::ConfigureMachine, vm, reply).2 == reply.put_fault()
            &&& boot::boot_step(BootPhase::ConfigureBootSource, vm, reply).2 == reply.put_fault()
            &&& boot::boot_step(BootPhase::ConfigureRootfs, vm, reply).2 == reply.put_fault()
            &&& boot::boot_step(BootPhase::ConfigureNetwork, vm, reply).2 == reply.put_fault()
            &&& boot::boot_step(BootPhase::StartInstance, vm, reply).2 == reply.put_fault()
        },
        ({
            let waiting = boot::boot_step(
                BootPhase::SetDeadline,
                vm,
                Reply::Time { nanos: began },
            ).0;
            let (next, same, fault) = boot::boot_step(waiting, vm, Reply::Time { nanos: now });
            &&& same == vm
            &&& now >= began + 5_000_000_000 ==> fault == Some(Failure::Timeout(vm.config.vm_id))
            &&& now < began + 5_000_000_000 ==> fault is None && next is CheckSocket
            &&& now < began + 5_000_000_000 ==> boot::boot_step(next, vm, Reply::No).0 is Wait
        }),
{
}

// ---------------------------------------------------------------------------
// Creating a VM
// ---------------------------------------------------------------------------
/// What a creation has asked of the host, one effect for each reply.
pub open spec fn creation_asked(
    creation: CreationView,
    manager: ManagerView,
    replies: Seq<Reply>,
) -> Seq<EffectView>
    decreases replies.len(),
{
    if replies.len() == 0 {
        seq![]
    } else {
        let earlier = creation_asked(creation, manager, replies.drop_last());
        let (c, m, fault) = create::creation_run(creation, manager, replies.drop_last());
        match c.effect(m.base) {
            Some(effect) => if fault is Some {
                earlier
            } else {
                earlier.push(effect)
            },
            None => earlier,
        }
    }
}

/// What is asked before a VM is configured.
spec fn search(first: CreationView, base: Seq<char>) -> Seq<EffectView> {
    seq![
        EffectView::Exists { path: first.image.kernel_path },
        EffectView::Exists { path: first.image.rootfs_path },
        EffectView::CreateDirAll { path: storage::vms_dir(base) },
        EffectView::LockIndex { path: storage::index_lock_path(base) },
        EffectView::ReadConfigs { dir: storage::vms_dir(base) },
    ]
}

/// What is asked for the data disk.
spec fn disk_part(first: CreationView, base: Seq<char>) -> Seq<EffectView> {
    let id = first.config.vm_id;
    match first.config.resources.storage.data_disk_size_bytes {
        Some(size_bytes) => seq![
            EffectView::CreateDirAll { path: storage::vm_dir(base, id) },
            EffectView::CreateSparse { path: storage::data_disk_path(base, id), size_bytes },
        ],
        None => seq![],
    }
}

/// What is asked from the configuration of a VM up to its start.
spec fn setting_up(first: CreationView, base: Seq<char>, index: u32) -> Seq<EffectView> {
    let config = create::networked(first.config, index);
    let id = first.config.vm_id;
    let tap = config.network.host_dev_name;
    seq![
        EffectView::CreateDirAll { path: storage::vm_dir(base, id) },
        EffectView::Copy {
            from: first.image.rootfs_path,
            to: storage::rootfs_path(base, id),
        },
    ] + disk_part(first, base) + seq![
        EffectView::WriteConfig { path: storage::config_path(base, id), config },
        EffectView::Ip { argv: seq!["link"@, "del"@, tap] },
        EffectView::Ip { argv: seq!["tuntap"@, "add"@, "dev"@, tap, "mode"@, "tap"@] },
        EffectView::Ip {
            argv: seq![
                "addr"@,
                "add"@,
                config.network.gateway_ip + config.network.mask_short,
                "dev"@,
                tap,
            ],
        },
        EffectView::Ip { argv: seq!["link"@, "set"@, "dev"@, tap, "up"@] },
        EffectView::Write { path: "/proc/sys/net/ipv4/ip_forward"@, contents: "1"@ },
    ]
}

/// All that is asked before the start.
spec fn script(first: CreationView, base: Seq<char>, index: u32) -> Seq<EffectView> {
    search(first, base) + setting_up(first, base, index)
}

/// How many effects are asked before the start.
spec fn script_len(first: CreationView) -> int {
    if first.config.resources.storage.data_disk_size_bytes is Some {
        15
    } else {
        13
    }
}

/// The reply that lets a creation go on, at each place before the TAP device.
spec fn lets_go_on(i: int, reply: Reply) -> bool {
    if i < 2 {
        reply is Yes
    } else if i == 4 {
        reply is Configs
    } else {
        reply is Done
    }
}

spec fn all_let_go_on(replies: Seq<Reply>, n: int) -> bool {
    forall|i: int| 0 <= i < n ==> lets_go_on(i, #[trigger] replies[i])
}

/// The VM as it is when its start begins.
spec fn before_start(first: CreationView, base: Seq<char>, index: u32) -> MicroVmView {
    let config = create::networked(first.config, index);
    MicroVmView {
        config,
        state: VmState::Booting,
        pid: None,
        socket_path: storage::socket_path(base, first.config.vm_id),
        log_path: storage::log_path(base, first.config.vm_id),
    }
}

spec fn find_at(step: FindStep) -> int {
    match step {
        FindStep::FindKernel => 0,
        FindStep::FindRootfs => 1,
        FindStep::PrepareVmsDir => 2,
        FindStep::LockIndex => 3,
        FindStep::ReadConfigs => 4,
    }
}

/// Where a step before the start stands in the script.
spec fn step_at(first: CreationView, step: ProvisionStep) -> int {
    let n = script_len(first);
    match step {
        ProvisionStep::PrepareDir => 5,
        ProvisionStep::CopyRootfs => 6,
        ProvisionStep::PrepareDataDir { size_bytes } => 7,
        ProvisionStep::CreateDataDisk { size_bytes } => 8,
        ProvisionStep::WriteConfig => n - 6,
        ProvisionStep::SetUpTap { done } => n - 5 + done,
        ProvisionStep::Start { phase } => n,
    }
}

/// What holds of a creation so far.
spec fn creation_so_far(
    first: CreationView,
    before: ManagerView,
    run: (CreationView, ManagerView, Option<Failure>),
    asked: Seq<EffectView>,
    replies: Seq<Reply>,
) -> bool {
    let (c, m, fault) = run;
    let base = before.base;
    let index = (m.next_vm_index - 1) as u32;
    let whole = script(first, base, index);
    let n = script_len(first);
    let extra: int = if fault is Some {
        1
    } else {
        0
    };
    let vm = before_start(first, base, index);
    &&& c.config == first.config
    &&& c.image == first.image
    &&& m.base == base
    &&& asked.len() <= replies.len()
    &&& fault is None && !(c.stage is Created) ==> asked.len() == replies.len()
    &&& match c.stage {
        CreateStageView::Finding(step) => {
            &&& asked == search(first, base).take(find_at(step) + extra)
            &&& all_let_go_on(replies, find_at(step))
        },
        CreateStageView::Provisioning(p) => match p.step {
            ProvisionStep::Start { phase } => {
                &&& asked.len() >= n
                &&& asked.take(n) == whole
                &&& all_let_go_on(replies, n - 5)
                &&& boot_run(BootPhase::Prepare, vm, replies.skip(n)) == (phase, p.vm, fault)
                &&& boot_asked(BootPhase::Prepare, vm, base, replies.skip(n)) == asked.skip(n)
                &&& !(phase is Booted)
            },
            _ => {
                &&& p.vm == (MicroVmView { state: VmState::Created, ..vm })
                &&& asked == whole.take(step_at(first, p.step) + extra)
                &&& all_let_go_on(replies, if step_at(first, p.step) < n - 5 {
                    step_at(first, p.step)
                } else {
                    n - 5
                })
                &&& p.step matches ProvisionStep::PrepareDataDir { size_bytes }
                    ==> first.config.resources.storage.data_disk_size_bytes == Some(size_bytes)
                &&& p.step matches ProvisionStep::CreateDataDisk { size_bytes }
                    ==> first.config.resources.storage.data_disk_size_bytes == Some(size_bytes)
                &&& p.step matches ProvisionStep::SetUpTap { done } ==> done < 5 && fault is None
                    && network::tap_of(p.vm.config.network).fault() is None
            },
        },
        CreateStageView::Created(id) => {
            &&& fault is None
            &&& asked.len() >= n
            &&& asked.take(n) == whole
            &&& all_let_go_on(replies, n - 5)
            &&& id == first.config.vm_id
            &&& m.vms.contains_key(id)
            &&& boot_run(BootPhase::Prepare, vm, replies.skip(n)) == (
                BootPhase::Booted,
                m.vms[id],
                None::<Failure>,
            )
            &&& boot_asked(BootPhase::Prepare, vm, base, replies.skip(n)) == asked.skip(n)
        },
    }
}

proof fn lemma_script(first: CreationView, base: Seq<char>, index: u32)
    ensures
        script(first, base, index).len() == script_len(first),
        script(first, base, index).take(5) == search(first, base),
        forall|i: int| 0 <= i < 5 ==> #[trigger] script(first, base, index)[i] == search(
            first,
            base,
        )[i],
{
    assert(script(first, base, index).take(5) =~= search(first, base));
}

proof fn lemma_creation_so_far(first: CreationView, before: ManagerView, replies: Seq<Reply>)
    requires
        first.stage == CreateStageView::Finding(FindStep::FindKernel),
    ensures
        creation_so_far(
            first,
            before,
            create::creation_run(first, before, replies),
            creation_asked(first, before, replies),
            replies,
        ),
    decreases replies.len(),
{
    if replies.len() == 0 {
        assert(creation_asked(first, before, replies) =~= search(first, before.base).take(0));
    } else {
        let earlier = replies.drop_last();
        lemma_creation_so_far(first, before, earlier);
        let run = create::creation_run(first, before, earlier);
        let asked = creation_asked(first, before, earlier);
        assert(earlier.push(replies.last()) =~= replies);
        lemma_creation_step_so_far(first, before, run, asked, earlier, replies.last());
    }
}

proof fn lemma_skip_push(earlier: Seq<Reply>, reply: Reply, n: int)
    requires
        0 <= n <= earlier.len(),
    ensures
        earlier.push(reply).skip(n).drop_last() == earlier.skip(n),
        earlier.push(reply).skip(n).last() == reply,
        earlier.push(reply).skip(n).len() == earlier.len() + 1 - n,
{
    assert(earlier.push(reply).skip(n).drop_last() =~= earlier.skip(n));
}

#[verifier::rlimit(60)]
proof fn lemma_creation_step_so_far(
    first: CreationView,
    before: ManagerView,
    run: (CreationView, ManagerView, Option<Failure>),
    asked: Seq<EffectView>,
    earlier: Seq<Reply>,
    reply: Reply,
)
    requires
        creation_so_far(first, before, run, asked, earlier),
    ensures
        creation_so_far(
            first,
            before,
            if run.2 is Some {
                run
            } else {
                run.0.step(run.1, reply)
            },
            match run.0.effect(run.1.base) {
                Some(effect) => if run.2 is Some {
                    asked
                } else {
                    asked.push(effect)
                },
                None => asked,
            },
            earlier.push(reply),
        ),
{
    let replies = earlier.push(reply);
    let (c, m, fault) = run;
    let base = before.base;
    let n = script_len(first);
    let index = (m.next_vm_index - 1) as u32;
    let whole = script(first, base, index);
    lemma_script(first, base, index);
    assert forall|i: int| 0 <= i < earlier.len() implies #[trigger] replies[i] == earlier[i] by {}
    assert(replies[earlier.len() as int] == reply);
    if fault is Some {
        if let CreateStageView::Provisioning(p) = c.stage {
            if p.step is Start {
                lemma_skip_push(earlier, reply, n);
            }
        }
    } else {
        match c.stage {
            CreateStageView::Finding(step) => {
                let effect = c.effect(base)->0;
                let list = search(first, base);
                let k = find_at(step);
                assert(effect == list[k]);
                assert(asked.push(effect) =~= list.take(k + 1));
                assert(list.take(5) =~= list);
                let next_index = (c.step(m, reply).1.next_vm_index - 1) as u32;
                lemma_script(first, base, next_index);
                assert(script(first, base, next_index).take(k + 1) =~= list.take(k + 1));
            },
            CreateStageView::Provisioning(p) => match p.step {
                ProvisionStep::Start { phase } => {
                    lemma_skip_push(earlier, reply, n);
                    let effect = c.effect(base)->0;
                    assert(asked.push(effect).take(n) =~= asked.take(n));
                    assert(asked.push(effect).skip(n) =~= asked.skip(n).push(effect));
                    let next = boot::boot_step(phase, p.vm, reply);
                    assert(next.1.config == p.vm.config);
                    lemma_boot_keeps_config(before_start(first, base, index), replies.skip(n));
                },
                _ => {
                    let effect = c.effect(base)->0;
                    let k = step_at(first, p.step);
                    lemma_provision_effect(first, base, index, p.step);
                    assert(effect == whole[k]);
                    assert(asked.push(effect) =~= whole.take(k + 1));
                    assert(whole.take(n) =~= whole);
                    if k + 1 == n {
                        assert(replies.skip(n) =~= seq![]);
                        assert(asked.push(effect).skip(n) =~= seq![]);
                        assert(asked.push(effect).take(n) =~= whole);
                    }
                },
            },
            CreateStageView::Created(id) => {
                lemma_skip_push(earlier, reply, n);
            },
        }
    }
}

proof fn lemma_boot_keeps_config(vm: MicroVmView, replies: Seq<Reply>)
    ensures
        boot_run(BootPhase::Prepare, vm, replies).1.config == vm.config,
    decreases replies.len(),
{
    if replies.len() > 0 {
        lemma_boot_keeps_config(vm, replies.drop_last());
    }
}

/// The effect of each step before the start is the one at its place in the script.
proof fn lemma_provision_effect(
    first: CreationView,
    base: Seq<char>,
    index: u32,
    step: ProvisionStep,
)
    requires
        !(step is Start),
        step matches ProvisionStep::PrepareDataDir { size_bytes }
            ==> first.config.resources.storage.data_disk_size_bytes == Some(size_bytes),
        step matches ProvisionStep::CreateDataDisk { size_bytes }
            ==> first.config.resources.storage.data_disk_size_bytes == Some(size_bytes),
        step matches ProvisionStep::SetUpTap { done } ==> done < 5 && network::tap_of(
            create::networked(first.config, index).network,
        ).fault() is None,
    ensures
        (create::ProvisionView {
            vm: MicroVmView {
                state: VmState::Created,
                ..before_start(first, base, index)
            },
            step,
        }).effect(first.image.rootfs_path, base) == Some(
            script(first, base, index)[step_at(first, step)],
        ),
{
    let config = create::networked(first.config, index);
    let tap = network::tap_of(config.network);
    if let ProvisionStep::SetUpTap { done } = step {
        assert(tap.setup_effects().len() == 5);
        let n = script_len(first);
        let words = tap.setup_words();
        assert(words[0] =~= seq!["link"@, "del"@, tap.tap_name]);
        if done < 4 {
            assert(tap.setup_effects()[done as int] == EffectView::Ip { argv: words[done as int] });
        }
    }
}

/// For a VM that was created, this and nothing else was asked before its start,
/// in this order: whether both files of the image are there; the directory of
/// all VMs, the lock and the configurations on disk; the directory of the VM, a
/// copy of the rootfs of the image, and a data disk of the size asked for, if
/// any; that its configuration be saved; and all five steps that set up its TAP
/// device. Each of these but the last five had the reply hoped for. The
/// configuration is the one that was asked for, with the network of the index.
/// Then the VM was started.
pub proof fn law_created_vm_was_set_up(
    request: CreationView,
    manager: ManagerView,
    replies: Seq<Reply>,
    vm_id: Seq<char>,
)
    requires
        request.stage == CreateStageView::Finding(FindStep::FindKernel),
        create::creation_run(request, manager, replies).0.stage == CreateStageView::Created(vm_id),
    ensures
        ({
            let asked = creation_asked(request, manager, replies);
            let after = create::creation_run(request, manager, replies).1;
            let base = manager.base;
            let config = after.vms[vm_id].config;
            let network = config.network;
            let index = (after.next_vm_index - 1) as nat;
            let disk = match request.config.resources.storage.data_disk_size_bytes {
                Some(size_bytes) => seq![
                    EffectView::CreateDirAll { path: storage::vm_dir(base, vm_id) },
                    EffectView::CreateSparse {
                        path: storage::data_disk_path(base, vm_id),
                        size_bytes,
                    },
                ],
                None => seq![],
            };
            let n = 13 + disk.len() as int;
            let (phase, vm, fault) = boot_run(
                BootPhase::Prepare,
                MicroVmView {
                    config,
                    state: VmState::Booting,
                    pid: None,
                    socket_path: storage::socket_path(base, vm_id),
                    log_path: storage::log_path(base, vm_id),
                },
                replies.skip(n),
            );
            &&& vm_id == request.config.vm_id
            &&& asked.take(n) == seq![
                EffectView::Exists { path: request.image.kernel_path },
                EffectView::Exists { path: request.image.rootfs_path },
                EffectView::CreateDirAll { path: storage::vms_dir(base) },
                EffectView::LockIndex { path: storage::index_lock_path(base) },
                EffectView::ReadConfigs { dir: storage::vms_dir(base) },
                EffectView::CreateDirAll { path: storage::vm_dir(base, vm_id) },
                EffectView::Copy {
                    from: request.image.rootfs_path,
                    to: storage::rootfs_path(base, vm_id),
                },
            ] + disk + seq![
                EffectView::WriteConfig { path: storage::config_path(base, vm_id), config },
                EffectView::Ip { argv: seq!["link"@, "del"@, network.host_dev_name] },
                EffectView::Ip {
                    argv: seq![
                        "tuntap"@,
                        "add"@,
                        "dev"@,
                        network.host_dev_name,
                        "mode"@,
                        "tap"@,
                    ],
                },
                EffectView::Ip {
                    argv: seq![
                        "addr"@,
                        "add"@,
                        network.gateway_ip + network.mask_short,
                        "dev"@,
                        network.host_dev_name,
                    ],
                },
                EffectView::Ip {
                    argv: seq!["link"@, "set"@, "dev"@, network.host_dev_name, "up"@],
                },
                EffectView::Write { path: "/proc/sys/net/ipv4/ip_forward"@, contents: "1"@ },
            ]
            &&& replies[0] is Yes && replies[1] is Yes && replies[2] is Done && replies[3] is Done
                && replies[4] is Configs
            &&& forall|i: int| 5 <= i < n - 5 ==> (#[trigger] replies[i]) is Done
            &&& config == (crate::vm::VmConfigView { network, ..request.config })
            &&& network == (network::NetworkView {
                rate_limits: Some(request.config.resources.network),
                ..network::network_for(index)
            })
            &&& phase is Booted && fault is None
            &&& vm == after.vms[vm_id]
            &&& asked.skip(n) == boot_asked(
                BootPhase::Prepare,
                MicroVmView {
                    config,
                    state: VmState::Booting,
                    pid: None,
                    socket_path: storage::socket_path(base, vm_id),
                    log_path: storage::log_path(base, vm_id),
                },
                base,
                replies.skip(n),
            )
        }),
{
    lemma_creation_so_far(request, manager, replies);
    create::law_created_vm_runs(request, manager, replies, vm_id);
    let after = create::creation_run(request, manager, replies).1;
    let base = manager.base;
    let index = (after.next_vm_index - 1) as u32;
    let n = script_len(request);
    lemma_boot_keeps_config(before_start(request, base, index), replies.skip(n));
    lemma_script(request, base, index);
    let asked = creation_asked(request, manager, replies);
    let whole = script(request, base, index);
    let config = create::networked(request.config, index);
    let tap = config.network.host_dev_name;
    assert(lets_go_on(0, replies[0]) && lets_go_on(1, replies[1]) && lets_go_on(2, replies[2])
        && lets_go_on(3, replies[3]) && lets_go_on(4, replies[4]));
    let head = search(request, base) + seq![whole[5], whole[6]];
    let tail = setting_up(request, base, index).skip(2 + disk_part(request, base).len() as int);
    assert(whole =~= head + disk_part(request, base) + tail);
    assert(head =~= seq![
        EffectView::Exists { path: request.image.kernel_path },
        EffectView::Exists { path: request.image.rootfs_path },
        EffectView::CreateDirAll { path: storage::vms_dir(base) },
        EffectView::LockIndex { path: storage::index_lock_path(base) },
        EffectView::ReadConfigs { dir: storage::vms_dir(base) },
        EffectView::CreateDirAll { path: storage::vm_dir(base, vm_id) },
        EffectView::Copy {
            from: request.image.rootfs_path,
            to: storage::rootfs_path(base, vm_id),
        },
    ]);
    assert(tail =~= seq![
        EffectView::WriteConfig { path: storage::config_path(base, vm_id), config },
        EffectView::Ip { argv: seq!["link"@, "del"@, tap] },
        EffectView::Ip { argv: seq!["tuntap"@, "add"@, "dev"@, tap, "mode"@, "tap"@] },
        EffectView::Ip {
            argv: seq![
                "addr"@,
                "add"@,
                config.network.gateway_ip + config.network.mask_short,
                "dev"@,
                tap,
            ],
        },
        EffectView::Ip { argv: seq!["link"@, "set"@, "dev"@, tap, "up"@] },
        EffectView::Write { path: "/proc/sys/net/ipv4/ip_forward"@, contents: "1"@ },
    ]);
}

proof fn lemma_boot_asks_for_no_copy(vm: MicroVmView, base: Seq<char>, replies: Seq<Reply>)
    ensures
        forall|i: int|
            0 <= i < boot_asked(BootPhase::Prepare, vm, base, replies).len() ==> {
                let effect = #[trigger] boot_asked(BootPhase::Prepare, vm, base, replies)[i];
                &&& !(effect is Copy)
                &&& !(effect is CreateSparse)
                &&& !(effect is WriteConfig)
                &&& !(effect is Ip)
                &&& !(effect is RemoveDirAll)
                &&& !(effect is Kill)
            },
    decreases replies.len(),
{
    if replies.len() > 0 {
        lemma_boot_asks_for_no_copy(vm, base, replies.drop_last());
    }
}

/// Whatever comes of a creation, all that it ever copies is the rootfs of its
/// image to the place of the rootfs of its VM, all that it ever saves is the
/// configuration of that VM, with its own ID and resources, and the only disk
/// that it ever makes is the data disk, of the size that was asked for. It
/// removes no directory and kills no process.
pub proof fn law_creation_touches_only_its_own(
    request: CreationView,
    manager: ManagerView,
    replies: Seq<Reply>,
    i: int,
)
    requires
        request.stage == CreateStageView::Finding(FindStep::FindKernel),
        0 <= i < creation_asked(request, manager, replies).len(),
    ensures
        ({
            let base = manager.base;
            let vm_id = request.config.vm_id;
            match creation_asked(request, manager, replies)[i] {
                EffectView::Copy { from, to } => from == request.image.rootfs_path && to
                    == storage::rootfs_path(base, vm_id),
                EffectView::CreateSparse { path, size_bytes } => path == storage::data_disk_path(
                    base,
                    vm_id,
                ) && request.config.resources.storage.data_disk_size_bytes == Some(size_bytes),
                EffectView::WriteConfig { path, config } => path == storage::config_path(
                    base,
                    vm_id,
                ) && config.vm_id == vm_id && config.name == request.config.name
                    && config.resources == request.config.resources && config.kernel_image_path
                    == request.config.kernel_image_path,
                EffectView::RemoveDirAll { path } => false,
                EffectView::Kill { pid } => false,
                _ => true,
            }
        }),
{
    lemma_creation_so_far(request, manager, replies);
    let run = create::creation_run(request, manager, replies);
    let asked = creation_asked(request, manager, replies);
    let base = manager.base;
    let index = (run.1.next_vm_index - 1) as u32;
    let n = script_len(request);
    let whole = script(request, base, index);
    lemma_script(request, base, index);
    lemma_boot_asks_for_no_copy(before_start(request, base, index), base, replies.skip(n));
    if i < n {
        assert(asked[i] == whole[i]) by {
            if run.0.stage is Created {
                assert(asked.take(n)[i] == asked[i]);
            } else if let CreateStageView::Provisioning(p) = run.0.stage {
                if p.step is Start {
                    assert(asked.take(n)[i] == asked[i]);
                }
            }
        }
    } else {
        assert(asked.skip(n)[i - n] == asked[i]);
    }
}

/// A creation goes on where the reply is the one hoped for: the files are there,
/// the resources fit and are taken, an index is left, and every effect succeeds.
/// What comes of the setup of the TAP device does not matter.
pub proof fn law_creation_goes_on(creation: CreationView, manager: ManagerView, reply: Reply)
    ensures
        ({
            let (next, after, fault) = creation.step(manager, reply);
            let resources = creation.config.resources;
            match creation.stage {
                CreateStageView::Finding(FindStep::FindKernel) => reply is Yes ==> fault is None
                    && next.stage == CreateStageView::Finding(FindStep::FindRootfs),
                CreateStageView::Finding(FindStep::FindRootfs) => reply is Yes && resources.fits(
                    manager.capacity,
                ) ==> fault is None && next.stage == CreateStageView::Finding(
                    FindStep::PrepareVmsDir,
                ) && after.capacity == manager.capacity.less(resources),
                CreateStageView::Finding(FindStep::PrepareVmsDir) => reply is Done ==> fault
                    is None && next.stage == CreateStageView::Finding(FindStep::LockIndex),
                CreateStageView::Finding(FindStep::LockIndex) => reply is Done ==> fault is None
                    && next.stage == CreateStageView::Finding(FindStep::ReadConfigs),
                CreateStageView::Finding(FindStep::ReadConfigs) => reply is Configs
                    && manager::allocated(
                    manager.next_vm_index,
                    manager::index_above(create::replied_configs(reply)),
                ) is Some ==> fault is None && next.stage is Provisioning,
                CreateStageView::Provisioning(p) => match p.step {
                    ProvisionStep::SetUpTap { done } => p.vm.state == VmState::Created ==> fault
                        is None && next.stage is Provisioning,
                    ProvisionStep::WriteConfig => reply is Done && network::tap_of(
                        p.vm.config.network,
                    ).fault() is None ==> fault is None && next.stage is Provisioning,
                    ProvisionStep::Start { phase } => fault == boot::boot_step(
                        phase,
                        p.vm,
                        reply,
                    ).2,
                    _ => reply is Done ==> fault is None && next.stage is Provisioning,
                },
                CreateStageView::Created(_) => fault is None && next == creation && after
                    == manager,
            }
        }),
{
}

/// A creation ends with what went wrong: the first file that is missing, the
/// resources that do not fit, the error of an effect, or what is wrong with the
/// network of its index. Nothing changes by a step that fails.
pub proof fn law_creation_fails_with_what_went_wrong(
    creation: CreationView,
    manager: ManagerView,
    reply: Reply,
    error: crate::error::OsError,
)
    ensures
        ({
            let (next, after, fault) = creation.step(manager, reply);
            &&& fault is Some ==> next == creation && after == manager
            &&& creation.stage == CreateStageView::Finding(FindStep::FindKernel) && !(reply is Yes)
                ==> fault == Some(Failure::KernelNotFound(creation.image.kernel_path))
            &&& creation.stage == CreateStageView::Finding(FindStep::FindRootfs) && !(reply is Yes)
                ==> fault == Some(Failure::RootfsNotFound(creation.image.rootfs_path))
            &&& creation.stage == CreateStageView::Finding(FindStep::FindRootfs) && reply is Yes
                && !creation.config.resources.fits(manager.capacity) ==> fault
                is Some && fault->0 is ResourceLimitExceeded
        }),
        ({
            let fault = creation.step(manager, Reply::Failed(error)).2;
            match creation.stage {
                CreateStageView::Finding(FindStep::FindKernel) => true,
                CreateStageView::Finding(FindStep::FindRootfs) => true,
                CreateStageView::Finding(_) => fault == Some(error@),
                CreateStageView::Provisioning(p) => !(p.step is SetUpTap) && !(p.step is Start)
                    ==> fault == Some(error@),
                CreateStageView::Created(_) => true,
            }
        }),
        creation.stage matches CreateStageView::Provisioning(p) ==> (p.step is WriteConfig
            && network::tap_of(p.vm.config.network).fault() is Some ==> creation.step(
            manager,
            Reply::Done,
        ).2 == network::tap_of(p.vm.config.network).fault()),
{
}

} // verus!
