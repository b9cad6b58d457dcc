use flint::error::Error;
use flint::launchd_config::{LaunchdConfig, LaunchdDocument};
use flint::lifecycle::{
    ChildPoll, StartAction, StartEvent, StartOutcome, StartPhase, StopAction, StopEvent, StopPhase,
    GRACE_MILLIS,
};
use flint::service_manager::ServiceManager;
use flint::services::service_homebrew::ServiceHomebrew;
use flint::services::service_state::{ServiceStateData, ServiceStatus, StateFile};
use flint::services::service_user_agent::ServiceUserAgent;
use flint::signals::{first_failed, signal_all, SignalAttempt, SignalOutcome};

fn manager_of(formula: &str, document: LaunchdDocument) -> ServiceManager {
    let service = ServiceManager::resolve(
        formula.to_string(),
        ServiceHomebrew::new(formula.to_string(), true, true),
        ServiceUserAgent::new(formula.to_string(), None, false),
    )
    .unwrap();
    ServiceManager::new(service, LaunchdConfig::from_document(document), "/Users/me", None)
}

fn demo_service() -> ServiceManager {
    manager_of(
        "demo",
        LaunchdDocument {
            program: Some("/usr/bin/true".to_string()),
            args: None,
            working_directory: None,
            stdout_path: None,
            stderr_path: None,
        },
    )
}

fn all_start_events() -> Vec<StartEvent> {
    vec![
        StartEvent::Begin,
        StartEvent::StateRead(ServiceStateData::new(vec![], ServiceStatus::Stale)),
        StartEvent::ProgramChecked(true),
        StartEvent::Launched,
        StartEvent::Polled(ChildPoll::Running),
        StartEvent::PidsFound(vec![1]),
        StartEvent::Recorded,
    ]
}

fn all_stop_events() -> Vec<StopEvent> {
    vec![
        StopEvent::Begin,
        StopEvent::Listed(String::new()),
        StopEvent::Unloaded,
        StopEvent::StateRead(ServiceStateData::new(vec![], ServiceStatus::Stale)),
        StopEvent::Signalled(vec![]),
        StopEvent::Settled,
        StopEvent::Recorded,
    ]
}

#[test]
fn test_the_grace_interval_is_half_a_second() {
    assert_eq!(GRACE_MILLIS, 500);
}

#[test]
fn test_start_of_a_running_service_launches_nothing() {
    let manager = demo_service();

    let (phase, action) = manager.start(StartPhase::Idle, StartEvent::Begin);
    assert_eq!(phase, StartPhase::ReadingState);
    assert!(matches!(action, StartAction::ReadState));

    let running = ServiceStateData::new(vec![4242], ServiceStatus::Running);
    let (phase, action) = manager.start(phase, StartEvent::StateRead(running));
    assert_eq!(phase, StartPhase::Finished);
    assert!(matches!(action, StartAction::Finish(Ok(StartOutcome::AlreadyRunning))));

    for event in all_start_events() {
        let (phase, action) = manager.start(StartPhase::Finished, event);
        assert_eq!(phase, StartPhase::Finished);
        assert!(matches!(action, StartAction::Rejected));
    }
}

#[test]
fn test_start_fails_where_the_program_is_not_there() {
    let manager = demo_service();
    let stopped = ServiceStateData::new(vec![4242], ServiceStatus::Stopped);

    let (phase, action) = manager.start(StartPhase::ReadingState, StartEvent::StateRead(stopped));
    assert_eq!(phase, StartPhase::CheckingProgram);
    match action {
        StartAction::CheckProgram { program } => assert_eq!(program, "/usr/bin/true"),
        other => panic!("the program should be looked for, got {:?}", other),
    }

    let (phase, action) = manager.start(phase, StartEvent::ProgramChecked(false));
    assert_eq!(phase, StartPhase::Finished);
    match action {
        StartAction::Finish(Err(Error::ProgramNotFound { formula, program })) => {
            assert_eq!(formula, "demo");
            assert_eq!(program, "/usr/bin/true");
        }
        other => panic!("the start should fail, got {:?}", other),
    }
}

#[test]
fn test_start_of_a_program_that_exits_at_once_fails_with_its_code() {
    let manager = demo_service();
    let mut file = StateFile::Missing;
    let mut recorded = false;

    let (phase, action) = manager.start(StartPhase::Idle, StartEvent::Begin);
    assert!(matches!(action, StartAction::ReadState));
    let state = manager.state_store().read_state(&file).unwrap();

    let (phase, action) = manager.start(phase, StartEvent::StateRead(state));
    assert!(matches!(action, StartAction::CheckProgram { .. }));

    let (phase, action) = manager.start(phase, StartEvent::ProgramChecked(true));
    assert_eq!(phase, StartPhase::Launching);
    match action {
        StartAction::Launch(plan) => {
            assert_eq!(plan.program, "/usr/bin/true");
            assert!(plan.args.is_empty());
            assert_eq!(plan.working_directory, ".");
            assert_eq!(plan.stdout_dir, Some("/Users/me/Library/Logs/Flint".to_string()));
            assert_eq!(plan.stderr_dir, Some("/Users/me/Library/Logs/Flint".to_string()));
            assert_eq!(plan.stdout_path, "/Users/me/Library/Logs/Flint/demo.log");
            assert_eq!(plan.stderr_path, "/Users/me/Library/Logs/Flint/demo_error.log");
        }
        other => panic!("the program should be launched, got {:?}", other),
    }

    let (phase, action) = manager.start(phase, StartEvent::Launched);
    assert_eq!(phase, StartPhase::Settling);
    assert!(matches!(action, StartAction::Poll { millis: 500 }));

    let exited = ChildPoll::Exited { code: Some(0) };
    let (phase, action) = manager.start(phase, StartEvent::Polled(exited));
    assert_eq!(phase, StartPhase::Finished);
    match action {
        StartAction::Finish(Err(Error::ServiceFailedToStart { formula, code })) => {
            assert_eq!(formula, "demo");
            assert_eq!(code, 0);
        }
        other => panic!("the start should fail, got {:?}", other),
    }

    for event in all_start_events() {
        let (phase, action) = manager.start(phase, event);
        assert_eq!(phase, StartPhase::Finished);
        if let StartAction::Record { pids } = action {
            manager.state_store().mark_running(&mut file, pids);
            recorded = true;
        }
    }
    assert!(!recorded);
    assert!(matches!(file, StateFile::Missing));
}

#[test]
fn test_start_reports_minus_one_for_a_program_that_a_signal_ended() {
    let manager = demo_service();
    let killed = ChildPoll::Exited { code: None };
    let (_, action) = manager.start(StartPhase::Settling, StartEvent::Polled(killed));
    assert!(matches!(
        action,
        StartAction::Finish(Err(Error::ServiceFailedToStart { code: -1, .. }))
    ));

    let failed = ChildPoll::Exited { code: Some(3) };
    let (_, action) = manager.start(StartPhase::Settling, StartEvent::Polled(failed));
    assert!(matches!(
        action,
        StartAction::Finish(Err(Error::ServiceFailedToStart { code: 3, .. }))
    ));
}

#[test]
fn test_start_records_the_processes_that_the_search_found() {
    let manager = manager_of(
        "echo",
        LaunchdDocument {
            program: None,
            args: Some(vec!["/bin/echo".to_string(), "hi".to_string(), "there".to_string()]),
            working_directory: Some("/srv".to_string()),
            stdout_path: Some("/var/log/echo.out".to_string()),
            stderr_path: Some("/var/log/echo.err".to_string()),
        },
    );
    let mut file = StateFile::Stored(ServiceStateData::new(vec![9], ServiceStatus::Stopped));

    let (phase, _) = manager.start(StartPhase::Idle, StartEvent::Begin);
    let state = manager.state_store().read_state(&file).unwrap();
    let (phase, _) = manager.start(phase, StartEvent::StateRead(state));
    let (phase, action) = manager.start(phase, StartEvent::ProgramChecked(true));
    match action {
        StartAction::Launch(plan) => {
            assert_eq!(plan.program, "/bin/echo");
            assert_eq!(plan.args, vec!["hi".to_string(), "there".to_string()]);
            assert_eq!(plan.working_directory, "/srv");
            assert_eq!(plan.stdout_dir, Some("/var/log".to_string()));
            assert_eq!(plan.stderr_dir, Some("/var/log".to_string()));
            assert_eq!(plan.stdout_path, "/var/log/echo.out");
            assert_eq!(plan.stderr_path, "/var/log/echo.err");
        }
        other => panic!("the program should be launched, got {:?}", other),
    }
    let (phase, _) = manager.start(phase, StartEvent::Launched);
    let (phase, action) = manager.start(phase, StartEvent::Polled(ChildPoll::Running));
    assert_eq!(phase, StartPhase::Searching);
    match action {
        StartAction::SearchPids { binary_name } => assert_eq!(binary_name, "echo"),
        other => panic!("the processes should be searched, got {:?}", other),
    }
    let found = manager.state_store().search_pids(true, "311\n312\n");
    let (phase, action) = manager.start(phase, StartEvent::PidsFound(found));
    assert_eq!(phase, StartPhase::Recording);
    match action {
        StartAction::Record { pids } => {
            assert_eq!(pids, vec![311, 312]);
            manager.state_store().mark_running(&mut file, pids);
        }
        other => panic!("the processes should be recorded, got {:?}", other),
    }
    let (phase, action) = manager.start(phase, StartEvent::Recorded);
    assert_eq!(phase, StartPhase::Finished);
    assert!(matches!(action, StartAction::Finish(Ok(StartOutcome::Started))));

    let read = manager.state_store().read_state(&file).unwrap();
    assert_eq!(read, ServiceStateData::new(vec![311, 312], ServiceStatus::Running));
}

#[test]
fn test_start_rejects_an_event_that_does_not_belong_to_the_phase() {
    let manager = demo_service();
    let phases = [
        StartPhase::Idle,
        StartPhase::ReadingState,
        StartPhase::CheckingProgram,
        StartPhase::Launching,
        StartPhase::Settling,
        StartPhase::Searching,
        StartPhase::Recording,
    ];
    for (at, phase) in phases.iter().enumerate() {
        for (index, event) in all_start_events().into_iter().enumerate() {
            let (next, action) = manager.start(*phase, event);
            if index == at {
                assert_ne!(next, *phase);
                assert!(!matches!(action, StartAction::Rejected));
            } else {
                assert_eq!(next, *phase);
                assert!(matches!(action, StartAction::Rejected));
            }
        }
    }
}

fn attempt(pid: i32, outcome: SignalOutcome) -> SignalAttempt {
    SignalAttempt { pid, outcome }
}

#[test]
fn test_stop_unloads_a_unit_that_the_service_manager_lists() {
    let manager = demo_service();

    let (phase, action) = manager.stop(StopPhase::Idle, StopEvent::Begin);
    assert_eq!(phase, StopPhase::Listing);
    assert!(matches!(action, StopAction::ListUnits));

    let listing = "PID\tStatus\tLabel\n77\t0\thomebrew.mxcl.demo\n".to_string();
    let (phase, action) = manager.stop(phase, StopEvent::Listed(listing));
    assert_eq!(phase, StopPhase::Unloading);
    match action {
        StopAction::Unload { plist_path } => {
            assert_eq!(plist_path, "/opt/homebrew/opt/demo/homebrew.mxcl.demo.plist")
        }
        other => panic!("the unit should be unloaded, got {:?}", other),
    }

    let (phase, action) = manager.stop(phase, StopEvent::Unloaded);
    assert_eq!(phase, StopPhase::ReadingState);
    assert!(matches!(action, StopAction::ReadState));
}

#[test]
fn test_stop_skips_the_unload_of_a_unit_that_is_not_listed() {
    let manager = demo_service();
    let listing = "PID\tStatus\tLabel\n77\t0\thomebrew.mxcl.nginx\n".to_string();
    let (phase, action) = manager.stop(StopPhase::Listing, StopEvent::Listed(listing));
    assert_eq!(phase, StopPhase::ReadingState);
    assert!(matches!(action, StopAction::ReadState));
}

#[test]
fn test_stop_signals_the_recorded_processes_and_marks_the_service_stopped() {
    let manager = demo_service();
    let mut file = StateFile::Stored(ServiceStateData::new(vec![311, 312], ServiceStatus::Running));

    let state = manager.state_store().read_state(&file).unwrap();
    let (phase, action) = manager.stop(StopPhase::ReadingState, StopEvent::StateRead(state));
    assert_eq!(phase, StopPhase::Signalling);
    match action {
        StopAction::Signal { pids } => assert_eq!(pids, vec![311, 312]),
        other => panic!("the processes should be signalled, got {:?}", other),
    }

    let trail = vec![attempt(311, SignalOutcome::Gone), attempt(312, SignalOutcome::Delivered)];
    let (phase, action) = manager.stop(phase, StopEvent::Signalled(trail));
    assert_eq!(phase, StopPhase::Settling);
    assert!(matches!(action, StopAction::Settle { millis: 500 }));

    let (phase, action) = manager.stop(phase, StopEvent::Settled);
    assert_eq!(phase, StopPhase::Recording);
    assert!(matches!(action, StopAction::MarkStopped));
    manager.state_store().mark_stopped(&mut file).unwrap();

    let (phase, action) = manager.stop(phase, StopEvent::Recorded);
    assert_eq!(phase, StopPhase::Finished);
    assert!(matches!(action, StopAction::Finish(Ok(()))));

    let read = manager.state_store().read_state(&file).unwrap();
    assert_eq!(read, ServiceStateData::new(vec![311, 312], ServiceStatus::Stopped));
}

#[test]
fn test_stop_fails_with_the_first_delivery_that_failed() {
    let manager = demo_service();
    let trail = vec![
        attempt(311, SignalOutcome::Delivered),
        attempt(312, SignalOutcome::Gone),
        attempt(313, SignalOutcome::Failed("Operation not permitted (os error 1)".to_string())),
    ];
    assert_eq!(first_failed(&trail), Some(2));
    let (phase, action) = manager.stop(StopPhase::Signalling, StopEvent::Signalled(trail));
    assert_eq!(phase, StopPhase::Finished);
    match action {
        StopAction::Finish(Err(Error::ServiceFailedToStop { formula, pid, reason })) => {
            assert_eq!(formula, "demo");
            assert_eq!(pid, 313);
            assert_eq!(reason, "Operation not permitted (os error 1)");
        }
        other => panic!("the stop should fail, got {:?}", other),
    }

    for event in all_stop_events() {
        let (phase, action) = manager.stop(StopPhase::Finished, event);
        assert_eq!(phase, StopPhase::Finished);
        assert!(matches!(action, StopAction::Rejected));
    }
}

#[test]
fn test_first_failed_finds_the_least_index() {
    assert_eq!(first_failed(&vec![]), None);
    assert_eq!(
        first_failed(&vec![attempt(1, SignalOutcome::Gone), attempt(2, SignalOutcome::Delivered)]),
        None
    );
    assert_eq!(
        first_failed(&vec![
            attempt(1, SignalOutcome::Failed("a".to_string())),
            attempt(2, SignalOutcome::Failed("b".to_string())),
        ]),
        Some(0)
    );
}

#[test]
fn test_stop_rejects_an_event_that_does_not_belong_to_the_phase() {
    let manager = demo_service();
    let phases = [
        StopPhase::Idle,
        StopPhase::Listing,
        StopPhase::Unloading,
        StopPhase::ReadingState,
        StopPhase::Signalling,
        StopPhase::Settling,
        StopPhase::Recording,
    ];
    for (at, phase) in phases.iter().enumerate() {
        for (index, event) in all_stop_events().into_iter().enumerate() {
            let (next, action) = manager.stop(*phase, event);
            if index == at {
                assert_ne!(next, *phase);
                assert!(!matches!(action, StopAction::Rejected));
            } else {
                assert_eq!(next, *phase);
                assert!(matches!(action, StopAction::Rejected));
            }
        }
    }
}

#[test]
fn test_signalling_no_process_touches_nothing() {
    assert!(signal_all(&[]).is_empty());
}

#[test]
fn test_signalling_passes_over_processes_that_are_gone() {
    // No process has an identifier this large.
    let pids = [i32::MAX, i32::MAX - 1];
    let trail = signal_all(&pids);
    assert_eq!(trail.len(), 2);
    assert_eq!(trail[0].pid, i32::MAX);
    assert!(matches!(trail[0].outcome, SignalOutcome::Gone));
    assert_eq!(trail[1].pid, i32::MAX - 1);
    assert!(matches!(trail[1].outcome, SignalOutcome::Gone));
    assert_eq!(first_failed(&trail), None);
}
