use sidecar_supervisor::supervisor::kill_report;
use sidecar_supervisor::BackendStatus;
use sidecar_supervisor::ProcessSupervisor;
use sidecar_supervisor::SpawnOutcome;
use sidecar_supervisor::StartDecision;
use sidecar_supervisor::SupervisorError;

fn running_on(port: u16, handle: u32) -> ProcessSupervisor<u32> {
    let mut supervisor = ProcessSupervisor::new();
    assert_eq!(supervisor.begin_start(), StartDecision::Launch);
    assert_eq!(supervisor.finish_start(port, SpawnOutcome::Launched(handle)), Ok(port));
    supervisor
}

#[test]
fn new_supervisor_is_stopped_on_the_default_port() {
    let supervisor: ProcessSupervisor<u32> = ProcessSupervisor::new();
    assert_eq!(supervisor.status(), BackendStatus { running: false, port: 8000 });
    assert_eq!(supervisor.port(), 8000);
}

#[test]
fn default_supervisor_is_the_new_one() {
    let supervisor: ProcessSupervisor<u32> = ProcessSupervisor::default();
    assert_eq!(supervisor.status(), BackendStatus { running: false, port: 8000 });
}

#[test]
fn start_records_handle_and_port() {
    let mut supervisor: ProcessSupervisor<u32> = ProcessSupervisor::new();
    assert_eq!(supervisor.begin_start(), StartDecision::Launch);
    assert_eq!(supervisor.status(), BackendStatus { running: false, port: 8000 });
    assert_eq!(supervisor.finish_start(15123, SpawnOutcome::Launched(7)), Ok(15123));
    assert_eq!(supervisor.status(), BackendStatus { running: true, port: 15123 });
    assert_eq!(supervisor.port(), 15123);
    assert_eq!(supervisor.stop(), Some(7));
}

#[test]
fn start_when_running_returns_the_first_port_and_spawns_nothing() {
    let mut supervisor = running_on(15001, 1);
    assert_eq!(supervisor.begin_start(), StartDecision::AlreadyRunning(15001));
    assert_eq!(supervisor.begin_start(), StartDecision::AlreadyRunning(15001));
    assert_eq!(supervisor.status(), BackendStatus { running: true, port: 15001 });
    assert_eq!(supervisor.stop(), Some(1));
}

#[test]
fn stop_on_a_supervisor_that_never_started_is_a_no_op() {
    let mut supervisor: ProcessSupervisor<u32> = ProcessSupervisor::new();
    assert_eq!(supervisor.stop(), None);
    assert_eq!(supervisor.status(), BackendStatus { running: false, port: 8000 });
    assert_eq!(supervisor.stop(), None);
    assert_eq!(supervisor.status(), BackendStatus { running: false, port: 8000 });
    assert_eq!(supervisor.begin_start(), StartDecision::Launch);
}

#[test]
fn stop_gives_up_the_handle_and_keeps_the_port() {
    let mut supervisor = running_on(20000, 42);
    assert_eq!(supervisor.stop(), Some(42));
    assert_eq!(supervisor.status(), BackendStatus { running: false, port: 20000 });
    assert_eq!(supervisor.port(), 20000);
    assert_eq!(supervisor.stop(), None);
}

#[test]
fn restart_after_stop_takes_a_new_port() {
    let mut supervisor = running_on(20000, 1);
    assert_eq!(supervisor.stop(), Some(1));
    assert_eq!(supervisor.begin_start(), StartDecision::Launch);
    assert_eq!(supervisor.finish_start(20001, SpawnOutcome::Launched(2)), Ok(20001));
    assert_eq!(supervisor.status(), BackendStatus { running: true, port: 20001 });
    assert_eq!(supervisor.stop(), Some(2));
}

#[test]
fn exit_of_the_sidecar_leaves_the_supervisor_stopped() {
    let mut supervisor = running_on(17000, 3);
    supervisor.note_terminated();
    assert_eq!(supervisor.status(), BackendStatus { running: false, port: 17000 });
    assert_eq!(supervisor.stop(), None);
    assert_eq!(supervisor.begin_start(), StartDecision::Launch);
}

#[test]
fn exit_noted_on_a_stopped_supervisor_changes_nothing() {
    let mut supervisor: ProcessSupervisor<u32> = ProcessSupervisor::new();
    supervisor.note_terminated();
    assert_eq!(supervisor.status(), BackendStatus { running: false, port: 8000 });
    assert_eq!(supervisor.begin_start(), StartDecision::Launch);
}

#[test]
fn failed_spawn_leaves_the_state_as_before() {
    let mut supervisor = running_on(16000, 1);
    assert_eq!(supervisor.stop(), Some(1));
    assert_eq!(supervisor.begin_start(), StartDecision::Launch);
    assert_eq!(
        supervisor.finish_start(16001, SpawnOutcome::SpawnRefused(String::from("permission denied"))),
        Err(SupervisorError::Spawn(String::from("permission denied")))
    );
    assert_eq!(supervisor.status(), BackendStatus { running: false, port: 16000 });
    assert_eq!(supervisor.stop(), None);
    assert_eq!(supervisor.begin_start(), StartDecision::Launch);
}

#[test]
fn missing_sidecar_command_is_reported_as_such() {
    let mut supervisor: ProcessSupervisor<u32> = ProcessSupervisor::new();
    assert_eq!(supervisor.begin_start(), StartDecision::Launch);
    assert_eq!(
        supervisor.finish_start(16001, SpawnOutcome::CommandUnavailable(String::from("not found"))),
        Err(SupervisorError::SidecarCommand(String::from("not found")))
    );
    assert_eq!(supervisor.status(), BackendStatus { running: false, port: 8000 });
}

#[test]
fn second_start_waits_while_the_first_is_under_way() {
    let mut supervisor: ProcessSupervisor<u32> = ProcessSupervisor::new();
    assert_eq!(supervisor.begin_start(), StartDecision::Launch);
    assert_eq!(supervisor.begin_start(), StartDecision::InProgress);
    assert_eq!(supervisor.begin_start(), StartDecision::InProgress);
    assert_eq!(supervisor.status(), BackendStatus { running: false, port: 8000 });
    assert_eq!(supervisor.finish_start(15500, SpawnOutcome::Launched(9)), Ok(15500));
    assert_eq!(supervisor.begin_start(), StartDecision::AlreadyRunning(15500));
}

#[test]
fn many_interleaved_starts_spawn_one_sidecar_and_agree_on_the_port() {
    let callers = 16;
    let mut supervisor: ProcessSupervisor<usize> = ProcessSupervisor::new();
    let mut told_to_launch = Vec::new();
    let mut waiting = Vec::new();
    for caller in 0..callers {
        match supervisor.begin_start() {
            StartDecision::Launch => told_to_launch.push(caller),
            StartDecision::InProgress => waiting.push(caller),
            StartDecision::AlreadyRunning(port) => panic!("nothing runs yet, got {}", port),
        }
    }
    assert_eq!(told_to_launch, vec![0]);
    assert_eq!(waiting.len(), callers - 1);

    let mut ports = vec![supervisor.finish_start(21000, SpawnOutcome::Launched(0)).unwrap()];
    for _ in waiting {
        match supervisor.begin_start() {
            StartDecision::AlreadyRunning(port) => ports.push(port),
            other => panic!("the sidecar runs, got {:?}", other),
        }
    }
    assert_eq!(ports, vec![21000; callers]);
    assert_eq!(supervisor.status(), BackendStatus { running: true, port: 21000 });
    assert_eq!(supervisor.stop(), Some(0));
}

#[test]
fn after_a_failed_spawn_the_next_caller_is_told_to_launch() {
    let mut supervisor: ProcessSupervisor<u32> = ProcessSupervisor::new();
    assert_eq!(supervisor.begin_start(), StartDecision::Launch);
    assert_eq!(supervisor.begin_start(), StartDecision::InProgress);
    assert!(supervisor.finish_start(15000, SpawnOutcome::SpawnRefused(String::from("busy"))).is_err());
    assert_eq!(supervisor.begin_start(), StartDecision::Launch);
    assert_eq!(supervisor.begin_start(), StartDecision::InProgress);
    assert_eq!(supervisor.finish_start(15001, SpawnOutcome::Launched(5)), Ok(15001));
    assert_eq!(supervisor.begin_start(), StartDecision::AlreadyRunning(15001));
}

#[test]
fn stop_during_a_start_attempt_does_not_cancel_it() {
    let mut supervisor: ProcessSupervisor<u32> = ProcessSupervisor::new();
    assert_eq!(supervisor.begin_start(), StartDecision::Launch);
    assert_eq!(supervisor.stop(), None);
    assert_eq!(supervisor.status(), BackendStatus { running: false, port: 8000 });
    assert_eq!(supervisor.begin_start(), StartDecision::InProgress);
    assert_eq!(supervisor.finish_start(15002, SpawnOutcome::Launched(6)), Ok(15002));
    assert_eq!(supervisor.status(), BackendStatus { running: true, port: 15002 });
}

#[test]
fn error_messages_name_what_failed() {
    assert_eq!(
        SupervisorError::SidecarCommand(String::from("no such sidecar")).message(),
        "Failed to create sidecar command: no such sidecar"
    );
    assert_eq!(
        SupervisorError::Spawn(String::from("permission denied")).message(),
        "Failed to spawn sidecar: permission denied"
    );
    assert_eq!(
        SupervisorError::Kill(String::from("no such process")).message(),
        "Failed to kill backend: no such process"
    );
}

#[test]
fn kill_report_passes_success_and_wraps_failure() {
    assert_eq!(kill_report(Ok(())), Ok(()));
    assert_eq!(
        kill_report(Err(String::from("no such process"))),
        Err(SupervisorError::Kill(String::from("no such process")))
    );
}

#[test]
fn failed_kill_still_leaves_the_supervisor_stopped() {
    let mut supervisor = running_on(18000, 11);
    let handle = supervisor.stop();
    assert_eq!(handle, Some(11));
    let told = kill_report(Err(String::from("operation not permitted")));
    assert_eq!(told.unwrap_err().message(), "Failed to kill backend: operation not permitted");
    assert_eq!(supervisor.status(), BackendStatus { running: false, port: 18000 });
}
