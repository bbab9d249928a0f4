use smolvm::agent::{HostMount, VmResources};
use smolvm::process::ProcessIdentity;
use smolvm::vm::{control_socket_path, invocation_dir, StartAction, TeardownStep, VmEntry, VmPhase};

fn res(cpus: u8) -> VmResources {
    VmResources { cpus, mem: 512, network: false }
}

#[test]
fn start_decisions() {
    let id = ProcessIdentity { pid: 10, start_time: 77 };
    let mut e = VmEntry::new(vec![], res(1));
    assert_eq!(e.start_action(&vec![], res(1), true, Some(77)), StartAction::Launch);
    e.launched(id, "/run/x".to_string(), vec![HostMount::new("/a", "/b")], res(1));
    assert_eq!(e.phase, VmPhase::Running(id));
    let same = vec![HostMount::new("/a", "/b")];
    assert_eq!(e.start_action(&same, res(1), true, Some(77)), StartAction::Reuse);
    assert_eq!(e.start_action(&same, res(2), true, Some(77)), StartAction::Restart(id));
    assert_eq!(e.start_action(&vec![], res(1), true, Some(77)), StartAction::Restart(id));
    assert_eq!(e.start_action(&same, res(1), true, Some(78)), StartAction::Launch);
    assert!(!e.is_alive(false, Some(77)));
}

#[test]
fn teardown_stops_child_before_removing_dir() {
    let id = ProcessIdentity { pid: 10, start_time: 77 };
    let mut e = VmEntry::new(vec![], res(1));
    e.launched(id, "/run/x".to_string(), vec![], res(1));
    assert_eq!(
        e.teardown(),
        vec![TeardownStep::StopChild(id), TeardownStep::RemoveDir("/run/x".to_string())]
    );
    assert!(e.teardown().is_empty());
    assert_eq!(e.phase, VmPhase::Stopped);
}

#[test]
fn per_invocation_paths() {
    assert_eq!(invocation_dir("/tmp/smolvm", "42"), "/tmp/smolvm/run-42");
    assert_eq!(control_socket_path("/tmp/smolvm/run-42"), "/tmp/smolvm/run-42/agent.sock");
}
