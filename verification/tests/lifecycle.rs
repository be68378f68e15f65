use mini_docker::config::ContainerSpec;
use mini_docker::lifecycle::{
    ContainerLifecycleOrchestrator,
    ContainerState,
    Event,
    ExitOutcome,
    Step,
};
use mini_docker::errors::RuntimeError;
use mini_docker::limits::default_limits;

fn spec_t1() -> ContainerSpec {
    ContainerSpec::new(
        "t1".to_string(),
        "/fixtures/busybox".to_string(),
        "/bin/echo".to_string(),
    )
}

#[test]
fn full_run_reaches_torn_down() {
    // end to end: every step succeeds, the entrypoint exits with 0; the run
    // must end in TornDown reporting the entrypoint's own status, with the
    // namespace gone and all five mounts released
    let mut o = ContainerLifecycleOrchestrator::new(spec_t1(), default_limits());
    assert_eq!(o.next_step(), Step::CreateNamespace);
    o.handle_event(Event::NamespaceCreated);
    assert_eq!(o.next_step(), Step::LaunchProcess);
    o.handle_event(Event::ProcessLaunched { pid: 1234 });
    assert_eq!(o.pid(), Some(1234));
    assert_eq!(o.next_step(), Step::ApplyLimits);
    o.handle_event(Event::LimitsApplied);
    assert_eq!(o.container_state(), ContainerState::LimitsApplied);
    assert_eq!(o.next_step(), Step::AwaitChild);
    o.handle_event(Event::ChildExited { status: 0 });
    for k in 0..5 {
        assert_eq!(o.next_step(), Step::UnmountTarget { index: k });
        o.handle_event(Event::Unmounted);
    }
    assert_eq!(o.next_step(), Step::DeleteNamespace);
    o.handle_event(Event::NamespaceDeleted);
    assert_eq!(o.next_step(), Step::Finished);
    assert_eq!(o.outcome(), Some(ExitOutcome::TornDown { exit_status: 0 }));
    assert_eq!(o.container_state(), ContainerState::TornDown);
    assert_eq!(o.exit_status(), Some(0));
    assert!(o.namespace_cleared());
    assert!(o.all_released());
    assert_eq!(o.fault(), None);
}

#[test]
fn limiter_race_is_soft_and_still_tears_down() {
    // the entrypoint exits immediately and the limiter loses the race: the
    // failure is classified FailedAtLimiting, and teardown still runs in
    // full
    let mut o = ContainerLifecycleOrchestrator::new(spec_t1(), default_limits());
    o.handle_event(Event::NamespaceCreated);
    o.handle_event(Event::ProcessLaunched { pid: 99 });
    o.handle_event(Event::LimitsFailed);
    // the run proceeds to waiting rather than aborting
    assert_eq!(o.next_step(), Step::AwaitChild);
    o.handle_event(Event::ChildExited { status: 0 });
    for _ in 0..5 {
        assert!(matches!(o.next_step(), Step::UnmountTarget { .. }));
        o.handle_event(Event::Unmounted);
    }
    assert_eq!(o.next_step(), Step::DeleteNamespace);
    o.handle_event(Event::NamespaceDeleted);
    assert_eq!(
        o.outcome(),
        Some(ExitOutcome::FailedAtLimiting { exit_status: Some(0) })
    );
    assert!(o.namespace_cleared());
    assert!(o.all_released());
    assert_eq!(o.fault(), Some(RuntimeError::LimiterError));
}

#[test]
fn namespace_create_failure_ends_immediately() {
    let mut o = ContainerLifecycleOrchestrator::new(spec_t1(), default_limits());
    o.handle_event(Event::NamespaceCreateFailed);
    assert_eq!(o.next_step(), Step::Finished);
    assert_eq!(o.outcome(), Some(ExitOutcome::FailedAtNamespaceCreate));
    assert_eq!(o.fault(), Some(RuntimeError::NamespaceCreateError));
    assert!(o.namespace_cleared());
    assert!(o.all_released());
}

#[test]
fn launch_failure_still_cleans_namespace() {
    let mut o = ContainerLifecycleOrchestrator::new(spec_t1(), default_limits());
    o.handle_event(Event::NamespaceCreated);
    o.handle_event(Event::LaunchFailed);
    // no child and no mounts: cleanup goes straight to the namespace
    assert_eq!(o.next_step(), Step::DeleteNamespace);
    o.handle_event(Event::NamespaceDeleted);
    assert_eq!(o.outcome(), Some(ExitOutcome::FailedAtLaunch));
    assert_eq!(o.fault(), Some(RuntimeError::LaunchError));
    assert!(o.namespace_cleared());
    assert!(o.all_released());
}

#[test]
fn busy_mount_makes_teardown_failed() {
    let mut o = ContainerLifecycleOrchestrator::new(spec_t1(), default_limits());
    o.handle_event(Event::NamespaceCreated);
    o.handle_event(Event::ProcessLaunched { pid: 5 });
    o.handle_event(Event::LimitsApplied);
    o.handle_event(Event::ChildExited { status: 7 });
    o.handle_event(Event::Unmounted);
    o.handle_event(Event::UnmountBusy);
    o.handle_event(Event::Unmounted);
    o.handle_event(Event::UnmountAbsent);
    o.handle_event(Event::Unmounted);
    o.handle_event(Event::NamespaceDeleted);
    assert_eq!(o.outcome(), Some(ExitOutcome::FailedTeardown { exit_status: 7 }));
    assert_eq!(o.container_state(), ContainerState::FailedTeardown);
    // the second unmount step stayed busy: that step's target is reported
    assert_eq!(
        o.fault(),
        Some(RuntimeError::UnmountError { target: "/fixtures/busybox/dev/pts".to_string() })
    );
    assert!(!o.all_released());
    assert!(o.namespace_cleared());
}

#[test]
fn delete_failure_makes_teardown_failed() {
    let mut o = ContainerLifecycleOrchestrator::new(spec_t1(), default_limits());
    o.handle_event(Event::NamespaceCreated);
    o.handle_event(Event::ProcessLaunched { pid: 5 });
    o.handle_event(Event::LimitsApplied);
    o.handle_event(Event::ChildExited { status: 3 });
    for _ in 0..5 {
        o.handle_event(Event::Unmounted);
    }
    o.handle_event(Event::NamespaceDeleteFailed);
    assert_eq!(o.outcome(), Some(ExitOutcome::FailedTeardown { exit_status: 3 }));
    assert_eq!(o.fault(), Some(RuntimeError::NamespaceDeleteError));
    assert!(!o.namespace_cleared());
    assert!(!o.all_released());
}

#[test]
fn wait_failure_still_tears_down() {
    let mut o = ContainerLifecycleOrchestrator::new(spec_t1(), default_limits());
    o.handle_event(Event::NamespaceCreated);
    o.handle_event(Event::ProcessLaunched { pid: 5 });
    o.handle_event(Event::LimitsApplied);
    o.handle_event(Event::WaitFailed);
    for _ in 0..5 {
        assert!(matches!(o.next_step(), Step::UnmountTarget { .. }));
        o.handle_event(Event::Unmounted);
    }
    o.handle_event(Event::NamespaceDeleted);
    assert_eq!(o.outcome(), Some(ExitOutcome::FailedAtWait));
    assert_eq!(o.fault(), Some(RuntimeError::WaitError));
    assert!(o.namespace_cleared());
    assert!(o.all_released());
}

#[test]
fn nonzero_entrypoint_status_is_reported() {
    // the entrypoint's own exit status is the run's reported result
    let mut o = ContainerLifecycleOrchestrator::new(spec_t1(), default_limits());
    o.handle_event(Event::NamespaceCreated);
    o.handle_event(Event::ProcessLaunched { pid: 8 });
    o.handle_event(Event::LimitsApplied);
    o.handle_event(Event::ChildExited { status: 42 });
    for _ in 0..5 {
        o.handle_event(Event::Unmounted);
    }
    o.handle_event(Event::NamespaceDeleted);
    assert_eq!(o.outcome(), Some(ExitOutcome::TornDown { exit_status: 42 }));
}

#[test]
fn events_not_matching_phase_are_refused() {
    let o = ContainerLifecycleOrchestrator::new(spec_t1(), default_limits());
    assert!(o.can_handle(&Event::NamespaceCreated));
    assert!(o.can_handle(&Event::NamespaceCreateFailed));
    assert!(!o.can_handle(&Event::ChildExited { status: 0 }));
    assert!(!o.can_handle(&Event::NamespaceDeleted));
}
