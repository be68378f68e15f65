use mini_docker::child::{child_pipeline, clone_namespace_flags, failure_exit_code, ChildAction, CONTAINER_STACK_SIZE};
use mini_docker::config::ContainerSpec;
use mini_docker::errors::RuntimeError;
use mini_docker::limits::{build_limit_request, default_limits, ResourceLimits};
use mini_docker::mounts::{full_unmount_targets, make_mount_point, MountController, MOUNT_COUNT};
use mini_docker::names::{netns_name, netns_path, scope_unit_name};
use mini_docker::netns::NamespaceGateway;

#[test]
fn derived_names() {
    assert_eq!(netns_name("t1"), "ns-t1");
    assert_eq!(netns_path("t1"), "/run/netns/ns-t1");
    assert_eq!(scope_unit_name("t1"), "rocker-t1.scope");
}

#[test]
fn default_limit_values() {
    let l = default_limits();
    assert_eq!(l.memory_bytes, 2_000_000);
    assert_eq!(l.cpu_quota_percent, 512);
    assert_eq!(l.max_pids, 100);
}

#[test]
fn limit_request_fields() {
    let l = default_limits();
    let req = build_limit_request("t1", 4242, &l);
    assert_eq!(req.unit_name, "rocker-t1.scope");
    assert_eq!(req.description, "rocker container: t1");
    assert_eq!(req.target_pid, 4242);
    assert!(req.memory_accounting);
    assert_eq!(req.memory_max_bytes, 2_000_000);
    assert!(req.cpu_accounting);
    assert_eq!(req.cpu_quota_per_sec_usec, 512_000_000);
    assert!(req.tasks_accounting);
    assert_eq!(req.tasks_max, 100);
}

#[test]
fn cpu_quota_derivation_matches_rounding() {
    // the derived CPU value is round(quota * 1_000_000) microseconds,
    // checked at the boundaries and at the default
    for quota in [0u32, 100, 512] {
        let l = ResourceLimits { memory_bytes: 1, cpu_quota_percent: quota, max_pids: 1 };
        let req = build_limit_request("q", 1, &l);
        let expected = (quota as f64 * 1_000_000.0).round() as u64;
        assert_eq!(req.cpu_quota_per_sec_usec, expected);
    }
    let zero = ResourceLimits { memory_bytes: 1, cpu_quota_percent: 0, max_pids: 1 };
    assert_eq!(build_limit_request("q", 1, &zero).cpu_quota_per_sec_usec, 0);
    let one_core = ResourceLimits { memory_bytes: 1, cpu_quota_percent: 100, max_pids: 1 };
    assert_eq!(build_limit_request("q", 1, &one_core).cpu_quota_per_sec_usec, 100_000_000);
}

#[test]
fn mount_plan_order_and_shape() {
    let expected = [
        ("proc", "/root/x/proc", "proc"),
        ("tmpfs", "/root/x/tmp", "tmpfs"),
        ("tmpfs", "/root/x/dev", "tmpfs"),
        ("devpts", "/root/x/dev/pts", "devpts"),
        ("sysfs", "/root/x/sys", "sysfs"),
    ];
    for (i, (src, tgt, fstype)) in expected.iter().enumerate() {
        let m = make_mount_point("/root/x", i);
        assert_eq!(m.source, *src);
        assert_eq!(m.target, *tgt);
        assert_eq!(m.fstype, *fstype);
    }
}

#[test]
fn full_unmount_is_strict_reverse() {
    let v = full_unmount_targets("/r");
    let targets: Vec<&str> = v.iter().map(|s| s.as_str()).collect();
    assert_eq!(targets, vec!["/r/sys", "/r/dev/pts", "/r/dev", "/r/tmp", "/r/proc"]);
}

#[test]
fn partial_mount_failure_unmounts_only_established() {
    // the third mount target fails: teardown must name exactly the two
    // established targets, in reverse order, and none of the others
    let mut c = MountController::new("/r");
    assert_eq!(c.next_mount().unwrap().target, "/r/proc");
    c.record_result(true);
    assert_eq!(c.next_mount().unwrap().target, "/r/tmp");
    c.record_result(true);
    assert_eq!(c.next_mount().unwrap().target, "/r/dev");
    c.record_result(false);
    assert!(c.next_mount().is_none());
    assert!(c.has_failed());
    assert!(!c.all_mounted());
    let plan = c.unmount_plan();
    let targets: Vec<&str> = plan.iter().map(|m| m.target.as_str()).collect();
    assert_eq!(targets, vec!["/r/tmp", "/r/proc"]);
    for m in plan.iter() {
        assert_ne!(m.target, "/r/dev");
        assert_ne!(m.target, "/r/dev/pts");
        assert_ne!(m.target, "/r/sys");
    }
    assert_eq!(
        c.failure_error(),
        Some(RuntimeError::MountError { target: "/r/dev".to_string() })
    );
}

#[test]
fn successful_mounts_report_no_failure() {
    let mut c = MountController::new("/r");
    c.record_result(true);
    assert_eq!(c.failure_error(), None);
}

#[test]
fn complete_mount_unmounts_everything_in_reverse() {
    let mut c = MountController::new("");
    for _ in 0..MOUNT_COUNT {
        assert!(c.next_mount().is_some());
        c.record_result(true);
    }
    assert!(c.all_mounted());
    assert!(c.next_mount().is_none());
    let plan = c.unmount_plan();
    let targets: Vec<&str> = plan.iter().map(|m| m.target.as_str()).collect();
    assert_eq!(targets, vec!["/sys", "/dev/pts", "/dev", "/tmp", "/proc"]);
}

#[test]
fn gateway_create_derives_handle() {
    let mut g = NamespaceGateway::new();
    let h = g.create("t1").unwrap();
    assert_eq!(h.name, "ns-t1");
    assert_eq!(h.path, "/run/netns/ns-t1");
    assert_eq!(g.count(), 1);
    assert!(g.contains("t1"));
}

#[test]
fn gateway_duplicate_create_fails() {
    let mut g = NamespaceGateway::new();
    g.create("t1").unwrap();
    let second = g.create("t1");
    assert_eq!(second.unwrap_err(), RuntimeError::NamespaceCreateError);
    assert_eq!(g.count(), 1);
}

#[test]
fn gateway_second_delete_fails() {
    // deleting the same namespace twice: the second call must report
    // NamespaceDeleteError, never silently succeed
    let mut g = NamespaceGateway::new();
    g.create("t1").unwrap();
    assert_eq!(g.delete("t1"), Ok(()));
    assert!(!g.contains("t1"));
    assert_eq!(g.delete("t1"), Err(RuntimeError::NamespaceDeleteError));
}

#[test]
fn gateway_delete_unknown_fails() {
    let mut g = NamespaceGateway::new();
    assert_eq!(g.delete("ghost"), Err(RuntimeError::NamespaceDeleteError));
    g.create("a").unwrap();
    g.create("b").unwrap();
    assert_eq!(g.delete("a"), Ok(()));
    assert!(g.contains("b"));
    assert_eq!(g.count(), 1);
}

#[test]
fn child_pipeline_order() {
    let cfg = ContainerSpec::new(
        "t1".to_string(),
        "/fixtures/busybox".to_string(),
        "/bin/echo".to_string(),
    );
    let mut g = NamespaceGateway::new();
    let h = g.create("t1").unwrap();
    let steps = child_pipeline(&cfg, &h);
    assert_eq!(steps.len(), 9);
    match &steps[0] {
        ChildAction::JoinNetworkNamespace { path } => assert_eq!(path, "/run/netns/ns-t1"),
        other => panic!("unexpected first step: {:?}", other),
    }
    match &steps[1] {
        ChildAction::SetHostname { hostname } => assert_eq!(hostname, "t1"),
        other => panic!("unexpected second step: {:?}", other),
    }
    match &steps[2] {
        ChildAction::ChangeRoot { root_path } => assert_eq!(root_path, "/fixtures/busybox"),
        other => panic!("unexpected third step: {:?}", other),
    }
    let mount_targets = ["/proc", "/tmp", "/dev", "/dev/pts", "/sys"];
    for k in 0..5 {
        match &steps[3 + k] {
            ChildAction::MountPseudoFs { index, mount } => {
                assert_eq!(*index, k);
                assert_eq!(mount.target, mount_targets[k]);
            }
            other => panic!("unexpected mount step: {:?}", other),
        }
    }
    match &steps[8] {
        ChildAction::ExecEntrypoint { entrypoint } => assert_eq!(entrypoint, "/bin/echo"),
        other => panic!("unexpected last step: {:?}", other),
    }
}

#[test]
fn child_failure_codes_distinct_and_nonzero() {
    let cfg = ContainerSpec::new("t1".to_string(), "/r".to_string(), "/bin/sh".to_string());
    let mut g = NamespaceGateway::new();
    let h = g.create("t1").unwrap();
    let steps = child_pipeline(&cfg, &h);
    let codes: Vec<i32> = steps.iter().map(failure_exit_code).collect();
    for (i, c) in codes.iter().enumerate() {
        assert_ne!(*c, 0);
        for (j, d) in codes.iter().enumerate() {
            if i != j {
                assert_ne!(c, d);
            }
        }
    }
}

#[test]
fn clone_flags_leave_network_out() {
    let f = clone_namespace_flags();
    assert!(f.new_mount && f.new_pid && f.new_uts && f.new_ipc);
    assert!(!f.new_network);
    assert_eq!(CONTAINER_STACK_SIZE, 1024 * 1024);
}

#[test]
fn container_spec_hostname_defaults_to_id() {
    let cfg = ContainerSpec::new("box".to_string(), "/r".to_string(), "/bin/sh".to_string());
    assert_eq!(cfg.hostname, "box");
    let named = ContainerSpec::with_hostname(
        "box".to_string(),
        "/r".to_string(),
        "/bin/sh".to_string(),
        "other".to_string(),
    );
    assert_eq!(named.hostname, "other");
}
