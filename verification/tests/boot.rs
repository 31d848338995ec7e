use monoce_os::api::{api_put_args, api_put_result, judge_reply, put_argv, CurlOutput};
use monoce_os::boot::{BootPhase, StopPhase};
use monoce_os::effect::{Effect, Reply};
use monoce_os::error::OsError;
use monoce_os::storage::VmStorage;
use monoce_os::vm::{MicroVm, VmConfig, VmState};

fn make_vm() -> (MicroVm, VmStorage) {
    let storage = VmStorage::new("/data");
    (MicroVm::new(VmConfig::with_uuid("1", "test"), &storage), storage)
}

fn accepted() -> Reply {
    Reply::Output(output(true, Some(0), b"", b""))
}

fn output(success: bool, code: Option<i32>, stdout: &[u8], stderr: &[u8]) -> CurlOutput {
    CurlOutput {
        success,
        code,
        stdout: stdout.to_vec(),
        stderr: stderr.to_vec(),
    }
}

#[test]
fn arguments_of_a_put_request() {
    let mut fields = serde_json::Map::new();
    fields.insert("action_type".to_string(), serde_json::Value::from("Pause"));
    let body = serde_json::Value::from(fields);
    let args = api_put_args("/s.sock", "/actions", &body).unwrap();
    assert_eq!(
        args,
        vec![
            "--silent",
            "--show-error",
            "-X",
            "PUT",
            "--unix-socket",
            "/s.sock",
            "--data",
            "{\"action_type\":\"Pause\"}",
            "-H",
            "Content-Type: application/json",
            "http://localhost/actions",
        ]
    );
    assert_eq!(put_argv("s", "/p", "{}".to_string())[7], "{}");
}

#[test]
fn judging_replies() {
    assert!(api_put_result(&output(true, Some(0), b"", b"")).is_ok());
    match api_put_result(&output(false, Some(7), b"", b"refused")) {
        Err(OsError::FirecrackerApi { status, body }) => {
            assert_eq!(status, 7);
            assert_eq!(body, "refused");
        }
        other => panic!("{:?}", other),
    }
    match api_put_result(&output(false, None, b"", b"killed")) {
        Err(OsError::FirecrackerApi { status, .. }) => assert_eq!(status, 65535),
        other => panic!("{:?}", other),
    }
    match api_put_result(&output(true, Some(0), b"{\"fault_message\":\"x\"}", b"")) {
        Err(OsError::FirecrackerApi { status, body }) => {
            assert_eq!(status, 400);
            assert_eq!(body, "{\"fault_message\":\"x\"}");
        }
        other => panic!("{:?}", other),
    }
    match api_put_result(&output(false, Some(-2), b"", &[0x66, 0xff])) {
        Err(OsError::FirecrackerApi { status, body }) => {
            assert_eq!(status, 65534);
            assert_eq!(body, "f\u{fffd}");
        }
        other => panic!("{:?}", other),
    }
    assert!(judge_reply(true, Some(0), "fault_message".to_string(), String::new()).is_ok());
}

#[test]
fn a_start_runs_through_its_phases() {
    let (mut vm, storage) = make_vm();
    let mut boot = vm.start().unwrap();
    assert_eq!(vm.state, VmState::Booting);
    match boot.effect(&vm, &storage) {
        Some(Effect::CreateDirAll { path }) => assert_eq!(path, "/data/vms/vm-1"),
        other => panic!("{:?}", other),
    }
    boot.advance(&mut vm, Reply::Done).unwrap();
    boot.advance(&mut vm, Reply::Yes).unwrap();
    match boot.effect(&vm, &storage) {
        Some(Effect::RemoveFile { path }) => {
            assert_eq!(path, "/data/vms/vm-1/firecracker.sock")
        }
        other => panic!("{:?}", other),
    }
    boot.advance(&mut vm, Reply::Done).unwrap();
    match boot.effect(&vm, &storage) {
        Some(Effect::Spawn { program, argv }) => {
            assert_eq!(program, "firecracker");
            assert_eq!(argv, vec!["--api-sock", "/data/vms/vm-1/firecracker.sock"]);
        }
        other => panic!("{:?}", other),
    }
    boot.advance(&mut vm, Reply::Started { pid: Some(9) }).unwrap();
    assert_eq!(vm.pid, Some(9));
    boot.advance(&mut vm, Reply::Time { nanos: 100 }).unwrap();
    boot.advance(&mut vm, Reply::Time { nanos: 100 }).unwrap();
    boot.advance(&mut vm, Reply::No).unwrap();
    match boot.effect(&vm, &storage) {
        Some(Effect::Sleep { millis }) => assert_eq!(millis, 50),
        other => panic!("{:?}", other),
    }
    boot.advance(&mut vm, Reply::Done).unwrap();
    boot.advance(&mut vm, Reply::Time { nanos: 200 }).unwrap();
    boot.advance(&mut vm, Reply::Yes).unwrap();
    for path in ["/machine-config", "/boot-source", "/drives/rootfs", "/network-interfaces/eth0"] {
        match boot.effect(&vm, &storage) {
            Some(Effect::Put { path: asked, socket, .. }) => {
                assert_eq!(asked, path);
                assert_eq!(socket, vm.socket_path);
            }
            other => panic!("{:?}", other),
        }
        boot.advance(&mut vm, accepted()).unwrap();
    }
    assert_eq!(vm.state, VmState::Booting);
    match boot.effect(&vm, &storage) {
        Some(Effect::Put { body, .. }) => assert_eq!(body["action_type"], "InstanceStart"),
        other => panic!("{:?}", other),
    }
    assert!(boot.advance(&mut vm, Reply::No).is_err());
    assert_eq!(vm.state, VmState::Booting);
    boot.advance(&mut vm, accepted()).unwrap();
    assert_eq!(vm.state, VmState::Running);
    assert!(boot.effect(&vm, &storage).is_none());
    assert!(matches!(boot.phase, BootPhase::Booted));
}

#[test]
fn payloads_of_the_configuration() {
    let (mut vm, storage) = make_vm();
    let mut boot = vm.start().unwrap();
    boot.phase = BootPhase::ConfigureBootSource;
    match boot.effect(&vm, &storage) {
        Some(Effect::Put { body, .. }) => assert_eq!(
            body["boot_args"],
            "console=ttyS0 reboot=k panic=1 pci=off \
             ip=172.16.0.2::172.16.0.1:255.255.255.252::eth0:off"
        ),
        other => panic!("{:?}", other),
    }
    boot.phase = BootPhase::ConfigureRootfs;
    match boot.effect(&vm, &storage) {
        Some(Effect::Put { body, .. }) => {
            assert_eq!(body["path_on_host"], "/data/vms/vm-1/rootfs.ext4");
            assert!(body.get("rate_limiter").is_none());
        }
        other => panic!("{:?}", other),
    }
}

#[test]
fn the_wait_for_the_socket_times_out() {
    let (mut vm, _) = make_vm();
    let mut boot = vm.start().unwrap();
    boot.phase = BootPhase::SetDeadline;
    boot.advance(&mut vm, Reply::Time { nanos: 1 }).unwrap();
    boot.advance(&mut vm, Reply::Time { nanos: 5_000_000_000 }).unwrap();
    boot.advance(&mut vm, Reply::No).unwrap();
    boot.advance(&mut vm, Reply::Done).unwrap();
    match boot.advance(&mut vm, Reply::Time { nanos: 5_000_000_001 }) {
        Err(OsError::Timeout(id)) => assert_eq!(id, "vm-1"),
        other => panic!("{:?}", other),
    }
    assert_eq!(vm.state, VmState::Booting);
}

#[test]
fn a_vm_starts_once() {
    let (mut vm, _) = make_vm();
    vm.start().unwrap();
    assert!(vm.start().is_err());
}

#[test]
fn a_stop_kills_what_is_left() {
    let (mut vm, _) = make_vm();
    vm.state = VmState::Running;
    vm.pid = Some(5);
    let mut stop = vm.stop().unwrap();
    assert_eq!(vm.state, VmState::Stopping);
    match stop.effect(&vm) {
        Some(Effect::Put { body, .. }) => assert_eq!(body["action_type"], "InstanceHalt"),
        other => panic!("{:?}", other),
    }
    stop.advance(&mut vm, accepted()).unwrap();
    match stop.effect(&vm) {
        Some(Effect::Sleep { millis }) => assert_eq!(millis, 3000),
        other => panic!("{:?}", other),
    }
    stop.advance(&mut vm, Reply::Done).unwrap();
    match stop.effect(&vm) {
        Some(Effect::Kill { pid }) => assert_eq!(pid, 5),
        other => panic!("{:?}", other),
    }
    stop.advance(&mut vm, Reply::Done).unwrap();
    assert_eq!(vm.state, VmState::Stopped);
    assert!(stop.effect(&vm).is_none());
}

#[test]
fn a_stop_that_the_guest_refuses_kills_at_once() {
    let (mut vm, _) = make_vm();
    vm.state = VmState::Paused;
    vm.pid = Some(5);
    let mut stop = vm.stop().unwrap();
    let refused = Reply::Output(output(false, Some(7), b"", b"refused"));
    stop.advance(&mut vm, refused).unwrap();
    assert!(matches!(stop.phase, StopPhase::KillAtOnce));
    assert!(matches!(stop.effect(&vm), Some(Effect::Kill { pid: 5 })));
}

#[test]
fn a_vm_without_a_process_is_not_killed() {
    let (mut vm, _) = make_vm();
    vm.state = VmState::Running;
    let mut stop = vm.stop().unwrap();
    let refused = Reply::Output(output(false, Some(7), b"", b"refused"));
    stop.advance(&mut vm, refused).unwrap();
    assert!(matches!(stop.phase, StopPhase::Wait));
    stop.advance(&mut vm, Reply::Done).unwrap();
    assert_eq!(vm.state, VmState::Stopped);
}

#[test]
fn only_a_vm_that_runs_or_is_paused_can_be_stopped() {
    let (mut vm, _) = make_vm();
    assert!(vm.stop().is_err());
    assert_eq!(vm.state, VmState::Created);
}

#[test]
fn a_pause_that_is_refused_changes_nothing() {
    let (mut vm, _) = make_vm();
    vm.state = VmState::Running;
    let refused = Reply::Failed(OsError::Socket("gone".to_string()));
    assert!(matches!(vm.pause(refused), Err(OsError::Socket(_))));
    assert_eq!(vm.state, VmState::Running);
    assert!(vm.pause(Reply::Done).is_err());
    vm.pause(accepted()).unwrap();
    vm.resume(accepted()).unwrap();
    assert_eq!(vm.state, VmState::Running);
    assert!(matches!(vm.resume(accepted()), Err(OsError::InvalidState { .. })));
}

#[test]
fn a_reply_that_does_not_answer_is_an_error() {
    let (mut vm, _) = make_vm();
    let mut boot = vm.start().unwrap();
    for (phase, reply) in [
        (BootPhase::Prepare, Reply::No),
        (BootPhase::Spawn, Reply::Done),
        (BootPhase::SetDeadline, Reply::Done),
        (BootPhase::CheckTime { deadline: 5 }, Reply::Yes),
        (BootPhase::StartInstance, Reply::Time { nanos: 0 }),
    ] {
        boot.phase = phase;
        match boot.advance(&mut vm, reply) {
            Err(OsError::Storage(message)) => {
                assert_eq!(message, "unexpected reply from the host")
            }
            other => panic!("{:?}", other),
        }
        assert_eq!(vm.state, VmState::Booting);
    }
}
