use csf_core::assignments::{mapped_device, rbd_image_spec};
use csf_core::assignments::{
    build_container_statuses, lookup_device, pending_volumes, pending_workloads, resolve_volume_mounts,
    resource_group_ids, stale_resource_groups, stale_workloads, vm_workload_ids, volumes_ready, AssignedVolume,
    AssignedWorkload, RunningWorkload, WorkloadVolumeMount,
};
use csf_core::workload_fsm::{workload_step, LocalWorkload, WorkloadAction, WorkloadEvent, WorkloadStage};

fn workload(id: &str, status: &str, container: Option<&str>, rg: Option<&str>, class: &str) -> AssignedWorkload {
    AssignedWorkload {
        id: id.to_string(),
        name: id.to_string(),
        image: "img".to_string(),
        cpu_millicores: 500,
        memory_bytes: 1 << 30,
        disk_bytes: 1 << 30,
        env_vars: None,
        status: status.to_string(),
        container_id: container.map(|c| c.to_string()),
        runtime_class: class.to_string(),
        restart_policy: "always".to_string(),
        max_restarts: None,
        restart_requested: false,
        resource_group_id: rg.map(|g| g.to_string()),
        service_name: None,
        resource_group_cidr: None,
        volume_mounts: None,
    }
}

#[test]
fn only_scheduled_workloads_without_container_are_pending() {
    let all = vec![
        workload("a", "scheduled", None, None, "microvm"),
        workload("b", "running", None, None, "microvm"),
        workload("c", "scheduled", Some("x"), None, "microvm"),
        workload("d", "scheduled", None, None, "vm"),
    ];
    let ids: Vec<String> = pending_workloads(all).into_iter().map(|w| w.id).collect();
    assert_eq!(ids, vec!["a".to_string(), "d".to_string()]);
}

#[test]
fn only_in_use_volumes_without_device_are_pending() {
    let v = |id: &str, status: &str, dev: Option<&str>| AssignedVolume {
        id: id.to_string(),
        name: id.to_string(),
        pool: "rbd".to_string(),
        image_name: id.to_string(),
        status: status.to_string(),
        mapped_device: dev.map(|d| d.to_string()),
    };
    let out = pending_volumes(vec![v("1", "in_use", None), v("2", "available", None), v("3", "in_use", Some("/dev/rbd0"))]);
    assert_eq!(out.len(), 1);
    assert_eq!(out[0].id, "1");
}

#[test]
fn resource_group_ids_are_sorted_and_unique() {
    let ws = vec![
        workload("1", "scheduled", None, Some("rg-b"), "microvm"),
        workload("2", "scheduled", None, None, "microvm"),
        workload("3", "scheduled", None, Some("rg-a"), "microvm"),
        workload("4", "scheduled", None, Some("rg-b"), "microvm"),
        workload("5", "scheduled", None, Some("RG-z"), "microvm"),
    ];
    assert_eq!(resource_group_ids(&ws), vec!["RG-z".to_string(), "rg-a".to_string(), "rg-b".to_string()]);
    assert!(resource_group_ids(&vec![]).is_empty());
}

#[test]
fn vm_ids_are_the_vm_class_workloads() {
    let ws = vec![workload("1", "s", None, None, "vm"), workload("2", "s", None, None, "microvm"), workload("3", "s", None, None, "vm")];
    assert_eq!(vm_workload_ids(&ws), vec!["1".to_string(), "3".to_string()]);
}

#[test]
fn stale_workloads_are_those_no_longer_assigned() {
    let running = vec![("w1".to_string(), "c1".to_string()), ("w2".to_string(), "c2".to_string())];
    let desired = vec![workload("w2", "running", None, None, "microvm")];
    assert_eq!(stale_workloads(&running, &desired), vec![("w1".to_string(), "c1".to_string())]);
    let groups = stale_resource_groups(&vec!["a".to_string(), "b".to_string(), "c".to_string()], &vec!["b".to_string()]);
    assert_eq!(groups, vec!["a".to_string(), "c".to_string()]);
}

#[test]
fn volume_mounts_need_mapped_devices() {
    let mounted = vec![("v1".to_string(), "/dev/rbd0".to_string()), ("v1".to_string(), "/dev/rbd9".to_string())];
    assert_eq!(lookup_device(&mounted, "v1").as_deref(), Some("/dev/rbd0"));
    assert_eq!(lookup_device(&mounted, "v2"), None);
    let mounts = vec![
        WorkloadVolumeMount { volume_id: "v1".to_string(), mount_path: "/data".to_string() },
        WorkloadVolumeMount { volume_id: "v2".to_string(), mount_path: "/logs".to_string() },
    ];
    assert!(!volumes_ready(&Some(mounts.clone_mounts()), &mounted));
    assert!(volumes_ready(&None, &mounted));
    let resolved = resolve_volume_mounts(&mounts, &mounted);
    assert_eq!(resolved.len(), 1);
    assert_eq!(resolved[0].volume_id, "v1");
    assert_eq!(resolved[0].mount_path, "/data");
    assert_eq!(resolved[0].device_path, "/dev/rbd0");
}

trait CloneMounts {
    fn clone_mounts(&self) -> Vec<WorkloadVolumeMount>;
}

impl CloneMounts for Vec<WorkloadVolumeMount> {
    fn clone_mounts(&self) -> Vec<WorkloadVolumeMount> {
        self.iter().map(|m| WorkloadVolumeMount { volume_id: m.volume_id.clone(), mount_path: m.mount_path.clone() }).collect()
    }
}

#[test]
fn statuses_cover_running_and_starting_workloads() {
    let running = vec![
        RunningWorkload { workload_id: "w1".to_string(), container_id: "c1".to_string(), inspected: Some("running".to_string()) },
        RunningWorkload { workload_id: "w2".to_string(), container_id: "c2".to_string(), inspected: None },
        RunningWorkload { workload_id: "w3".to_string(), container_id: "c3".to_string(), inspected: Some("creating".to_string()) },
    ];
    let phases = vec![
        ("w1".to_string(), "starting".to_string()),
        ("w3".to_string(), "creating".to_string()),
        ("w4".to_string(), "pulling".to_string()),
    ];
    let (statuses, kept) = build_container_statuses(&running, &phases);
    let view: Vec<(String, String, String)> =
        statuses.into_iter().map(|s| (s.workload_id, s.container_id, s.status)).collect();
    assert_eq!(
        view,
        vec![
            ("w1".to_string(), "c1".to_string(), "running".to_string()),
            ("w2".to_string(), "c2".to_string(), "failed".to_string()),
            ("w3".to_string(), "c3".to_string(), "creating".to_string()),
            ("w4".to_string(), String::new(), "pulling".to_string()),
        ]
    );
    assert_eq!(kept, vec![("w3".to_string(), "creating".to_string()), ("w4".to_string(), "pulling".to_string())]);
}

fn fresh() -> LocalWorkload {
    LocalWorkload { container_id: None, phase: None, restart_count: None }
}

#[test]
fn new_workload_is_pulled_created_and_started() {
    let mut w = workload("w", "scheduled", None, Some("rg"), "microvm");
    w.service_name = Some("web".to_string());
    let mut st = WorkloadStage::Begin;
    let mut l = fresh();
    assert_eq!(workload_step(&mut st, &w, &mut l, WorkloadEvent::Proceed, true), WorkloadAction::Pull);
    assert_eq!(l.phase.as_deref(), Some("pulling"));
    assert_eq!(workload_step(&mut st, &w, &mut l, WorkloadEvent::Pulled(true), true), WorkloadAction::Start);
    assert_eq!(l.phase.as_deref(), Some("creating"));
    let a = workload_step(&mut st, &w, &mut l, WorkloadEvent::Started(Some("cid".to_string())), true);
    assert_eq!(a, WorkloadAction::Done { ack: false, register_dns: true });
    assert_eq!(l.container_id.as_deref(), Some("cid"));
    assert_eq!(l.phase.as_deref(), Some("starting"));
    assert_eq!(st, WorkloadStage::Finished);
}

#[test]
fn failed_pull_clears_the_phase_and_missing_volumes_defer() {
    let w = workload("w", "scheduled", None, None, "microvm");
    let mut st = WorkloadStage::Begin;
    let mut l = fresh();
    workload_step(&mut st, &w, &mut l, WorkloadEvent::Proceed, true);
    assert_eq!(workload_step(&mut st, &w, &mut l, WorkloadEvent::Pulled(false), true), WorkloadAction::Done { ack: false, register_dns: false });
    assert_eq!(l.phase, None);
    let mut st = WorkloadStage::Begin;
    let mut l = fresh();
    workload_step(&mut st, &w, &mut l, WorkloadEvent::Proceed, false);
    workload_step(&mut st, &w, &mut l, WorkloadEvent::Pulled(true), false);
    assert_eq!(st, WorkloadStage::Finished);
    assert_eq!(l.phase.as_deref(), Some("pulling"));
}

#[test]
fn failed_start_counts_a_restart() {
    let w = workload("w", "scheduled", None, None, "microvm");
    let mut st = WorkloadStage::Begin;
    let mut l = fresh();
    workload_step(&mut st, &w, &mut l, WorkloadEvent::Proceed, true);
    workload_step(&mut st, &w, &mut l, WorkloadEvent::Pulled(true), true);
    workload_step(&mut st, &w, &mut l, WorkloadEvent::Started(None), true);
    assert_eq!(l.restart_count, Some(1));
    assert_eq!(l.phase.as_deref(), Some("failed"));
}

#[test]
fn crash_loop_limit_stops_the_container() {
    let mut w = workload("w", "running", None, None, "microvm");
    w.max_restarts = Some(2);
    let mut st = WorkloadStage::Begin;
    let mut l = LocalWorkload { container_id: Some("c".to_string()), phase: None, restart_count: Some(2) };
    assert_eq!(workload_step(&mut st, &w, &mut l, WorkloadEvent::Proceed, true), WorkloadAction::Inspect);
    assert_eq!(workload_step(&mut st, &w, &mut l, WorkloadEvent::Inspected(Some("failed".to_string())), true), WorkloadAction::Stop);
    assert_eq!(st, WorkloadStage::StoppingAfterCrash);
    assert_eq!(l.restart_count, Some(2));
    let a = workload_step(&mut st, &w, &mut l, WorkloadEvent::Stopped(true), true);
    assert_eq!(a, WorkloadAction::Done { ack: false, register_dns: false });
}

#[test]
fn crashed_container_below_limit_is_restarted() {
    let mut w = workload("w", "running", None, None, "microvm");
    w.max_restarts = Some(3);
    let mut st = WorkloadStage::Begin;
    let mut l = LocalWorkload { container_id: Some("c".to_string()), phase: None, restart_count: None };
    workload_step(&mut st, &w, &mut l, WorkloadEvent::Proceed, true);
    assert_eq!(workload_step(&mut st, &w, &mut l, WorkloadEvent::Inspected(Some("failed".to_string())), true), WorkloadAction::Stop);
    assert_eq!(st, WorkloadStage::StoppingForRestart);
    assert_eq!(l.restart_count, Some(1));
    assert_eq!(workload_step(&mut st, &w, &mut l, WorkloadEvent::Stopped(true), true), WorkloadAction::Pull);
    assert_eq!(l.container_id, None);
}

#[test]
fn never_policy_stops_without_restart_and_healthy_is_left() {
    let mut w = workload("w", "running", None, None, "microvm");
    w.restart_policy = "never".to_string();
    let mut st = WorkloadStage::Begin;
    let mut l = LocalWorkload { container_id: Some("c".to_string()), phase: None, restart_count: None };
    workload_step(&mut st, &w, &mut l, WorkloadEvent::Proceed, true);
    workload_step(&mut st, &w, &mut l, WorkloadEvent::Inspected(Some("failed".to_string())), true);
    assert_eq!(st, WorkloadStage::StoppingAfterCrash);
    assert_eq!(l.restart_count, None);
    let mut st = WorkloadStage::Begin;
    let mut l = LocalWorkload { container_id: Some("c".to_string()), phase: None, restart_count: None };
    workload_step(&mut st, &w, &mut l, WorkloadEvent::Proceed, true);
    let a = workload_step(&mut st, &w, &mut l, WorkloadEvent::Inspected(Some("running".to_string())), true);
    assert_eq!(a, WorkloadAction::Done { ack: false, register_dns: false });
}

#[test]
fn requested_restart_is_acknowledged_after_start() {
    let mut w = workload("w", "running", None, None, "microvm");
    w.restart_requested = true;
    let mut st = WorkloadStage::Begin;
    let mut l = LocalWorkload { container_id: Some("old".to_string()), phase: None, restart_count: None };
    assert_eq!(workload_step(&mut st, &w, &mut l, WorkloadEvent::Proceed, true), WorkloadAction::Stop);
    assert_eq!(workload_step(&mut st, &w, &mut l, WorkloadEvent::Stopped(true), true), WorkloadAction::Pull);
    workload_step(&mut st, &w, &mut l, WorkloadEvent::Pulled(true), true);
    let a = workload_step(&mut st, &w, &mut l, WorkloadEvent::Started(Some("new".to_string())), true);
    assert_eq!(a, WorkloadAction::Done { ack: true, register_dns: false });
}

#[test]
fn rbd_map_output_names_the_device() {
    assert_eq!(rbd_image_spec("rbd", "vol-1"), "rbd/vol-1");
    for out in ["/dev/rbd0\n", "  \"/dev/rbd1\"\n", "\"\"", "", " /dev/rbd2 \t"] {
        let expected = out.trim().trim_matches('"').to_string();
        assert_eq!(mapped_device(out.as_bytes()), Some(expected));
    }
    assert_eq!(mapped_device(&[0xff, 0x0a]), None);
}
