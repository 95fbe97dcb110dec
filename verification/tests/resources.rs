use csf_core::cluster::{cluster_totals, is_container_id, stored_counters, workloads_to_reschedule, DrainCandidate, NodeSample, ReportedCounters};
use csf_core::docker_config::{bind_settings, container_settings, env_settings, port_settings, PortEntry, VolumeEntry};
use csf_core::resources::{
    begin_resource_action, container_display_name, container_name, deploy_failure, exec_command, image_reference,
    new_resource_state, parse_resource_action, plan_new_resource, require_container, require_docker,
    resume_resource_action, status_from_docker_state, ActionEvent, ActionStage, ActionStep, ResourceAction,
};
use csf_core::docker_config::{after_create, after_start, LaunchStep};
use csf_core::cluster::listed_agents;
use csf_core::resources::{resources_with_group, deployed_row, sync_status, status_sync_failure, DeployContainerRequest, ResourceConfiguration};
use csf_core::resources::{begin_deploy, resume_deploy, DeployEvent, DeployStage, DeployStep};
use csf_core::resources::{apply_resource_update, group_name_or_unknown, ResourceFields, UpdateResourceRequest};

const ID: &str = "a1b2c3d4-0000-1111-2222-333344445555";

#[test]
fn actions_parse_to_statuses() {
    assert_eq!(parse_resource_action("start").ok(), Some(ResourceAction::Start));
    assert_eq!(parse_resource_action("restart").ok().map(|a| a.new_status()), Some("running"));
    assert_eq!(ResourceAction::Stop.new_status(), "stopped");
    let e = parse_resource_action("pause").err().unwrap();
    assert_eq!(e.status, 400);
    assert_eq!(e.error, "Invalid action. Must be 'start', 'stop', or 'restart'");
}

#[test]
fn container_names_use_lowercase_name_and_id_prefix() {
    assert_eq!(container_name("My App", ID), "my-app-a1b2c3d4");
    assert_eq!(container_name("x", ID), "x-a1b2c3d4");
}

#[test]
fn action_without_docker_only_changes_status() {
    let (run, step) = begin_resource_action(ResourceAction::Stop, false, Some("c1".to_string()), None, "n", ID);
    assert_eq!(run.stage, ActionStage::Done);
    match step {
        ActionStep::Persist { status, container_id } => {
            assert_eq!(status, "stopped");
            assert_eq!(container_id.as_deref(), Some("c1"));
        },
        _ => panic!("expected persist"),
    }
}

#[test]
fn starting_without_container_creates_one() {
    let (mut run, step) = begin_resource_action(ResourceAction::Start, true, None, Some("nginx:alpine".to_string()), "Web App", ID);
    match step {
        ActionStep::CreateContainer { image, name } => {
            assert_eq!(image, "nginx:alpine");
            assert_eq!(name, "web-app-a1b2c3d4");
        },
        _ => panic!("expected create"),
    }
    match resume_resource_action(&mut run, ActionEvent::Created(Ok("cid".to_string()))) {
        ActionStep::Act { target } => assert_eq!(target, "cid"),
        _ => panic!("expected act"),
    }
    match resume_resource_action(&mut run, ActionEvent::Acted(Ok(()))) {
        ActionStep::Persist { status, container_id } => {
            assert_eq!(status, "running");
            assert_eq!(container_id.as_deref(), Some("cid"));
        },
        _ => panic!("expected persist"),
    }
}

#[test]
fn action_failures_are_refused() {
    let (_, step) = begin_resource_action(ResourceAction::Start, true, None, None, "n", ID);
    match step {
        ActionStep::Refuse(e) => {
            assert_eq!(e.status, 400);
            assert_eq!(e.error, "No Docker image specified in configuration");
        },
        _ => panic!("expected refusal"),
    }
    let (mut run, _) = begin_resource_action(ResourceAction::Start, true, None, Some("img".to_string()), "n", ID);
    match resume_resource_action(&mut run, ActionEvent::Created(Err("no space".to_string()))) {
        ActionStep::Refuse(e) => assert_eq!(e.error, "Failed to create Docker container: no space"),
        _ => panic!("expected refusal"),
    }
    let (mut run, step) = begin_resource_action(ResourceAction::Restart, true, Some("c".to_string()), None, "n", ID);
    assert!(matches!(step, ActionStep::Act { .. }));
    match resume_resource_action(&mut run, ActionEvent::Acted(Err("gone".to_string()))) {
        ActionStep::Refuse(e) => {
            assert_eq!(e.status, 500);
            assert_eq!(e.error, "Docker operation failed: gone");
        },
        _ => panic!("expected refusal"),
    }
    let (_, step) = begin_resource_action(ResourceAction::Stop, true, None, None, "n", ID);
    assert!(matches!(step, ActionStep::Persist { container_id: None, .. }));
}

#[test]
fn docker_states_map_to_statuses() {
    assert_eq!(status_from_docker_state("running"), "running");
    assert_eq!(status_from_docker_state("exited"), "stopped");
    assert_eq!(status_from_docker_state("dead"), "stopped");
    assert_eq!(status_from_docker_state("paused"), "error");
}

#[test]
fn logs_and_commands_need_a_container() {
    assert_eq!(require_container(Some("c".to_string())).ok().as_deref(), Some("c"));
    assert_eq!(require_container(None).err().unwrap().error, "Resource does not have a container ID");
    assert_eq!(exec_command("  ls   -la /tmp ").ok().unwrap(), vec!["ls".to_string(), "-la".to_string(), "/tmp".to_string()]);
    let e = exec_command(" \t ").err().unwrap();
    assert_eq!((e.status, e.error.as_str()), (400, "Command cannot be empty"));
    assert!(require_docker(true).is_ok());
    assert_eq!(require_docker(false).err().unwrap().status, 503);
}

#[test]
fn new_resources_start_pending_or_running() {
    let p = plan_new_resource("docker-container", true, Some("nginx".to_string()), "Site", ID).unwrap();
    assert_eq!(p, ("nginx".to_string(), "site-a1b2c3d4".to_string()));
    assert!(plan_new_resource("docker-stack", true, Some("nginx".to_string()), "Site", ID).is_none());
    assert!(plan_new_resource("docker-container", false, Some("nginx".to_string()), "Site", ID).is_none());
    assert!(plan_new_resource("docker-container", true, None, "Site", ID).is_none());
    assert_eq!(new_resource_state(None).ok(), Some(("pending", None)));
    assert_eq!(new_resource_state(Some(Ok("c".to_string()))).ok(), Some(("running", Some("c".to_string()))));
    assert_eq!(new_resource_state(Some(Err("e".to_string()))).err().unwrap().error, "Failed to create Docker container: e");
    assert_eq!(deploy_failure(true, "x").error, "Failed to pull image: x");
    assert_eq!(deploy_failure(false, "y").status, 500);
}

#[test]
fn image_references_split_at_colon() {
    assert_eq!(image_reference("nginx:alpine"), ("nginx".to_string(), "alpine".to_string()));
    assert_eq!(image_reference("redis"), ("redis".to_string(), "latest".to_string()));
    assert_eq!(image_reference("host:5000/app:1.2"), ("host".to_string(), "5000/app".to_string()));
    assert_eq!(container_display_name(Some("//web")), "web");
    assert_eq!(container_display_name(None), "");
}

#[test]
fn ports_are_exposed_once_and_bound_to_last_host() {
    let ports = vec![
        PortEntry { container: Some(80), host: Some(8080) },
        PortEntry { container: Some(443), host: None },
        PortEntry { container: None, host: Some(1) },
        PortEntry { container: Some(80), host: Some(9090) },
    ];
    let (exposed, bindings) = port_settings(&ports);
    assert_eq!(exposed, vec!["80/tcp".to_string(), "443/tcp".to_string()]);
    assert_eq!(bindings, vec![("80/tcp".to_string(), "9090".to_string())]);
}

#[test]
fn environment_and_binds_keep_complete_entries() {
    let env = vec![("A".to_string(), Some("1".to_string())), ("B".to_string(), None)];
    assert_eq!(env_settings(&env), vec!["A=1".to_string()]);
    let vols = vec![
        VolumeEntry { host: Some("./data".to_string()), container: Some("/data".to_string()) },
        VolumeEntry { host: None, container: Some("/x".to_string()) },
    ];
    assert_eq!(bind_settings(&vols), vec!["./data:/data".to_string()]);
    let s = container_settings(&vec![], &vec![], &vec![]);
    assert!(s.exposed_ports.is_none() && s.port_bindings.is_none() && s.env.is_none() && s.binds.is_none());
    let s = container_settings(&vec![PortEntry { container: Some(22), host: None }], &env, &vols);
    assert_eq!(s.exposed_ports, Some(vec!["22/tcp".to_string()]));
    assert!(s.port_bindings.is_none());
    assert_eq!(s.env, Some(vec!["A=1".to_string()]));
}

fn node(host: &str, status: &str, cores: Option<i32>, mem: Option<i64>) -> NodeSample {
    NodeSample {
        hostname: host.to_string(),
        status: status.to_string(),
        cpu_cores: cores,
        memory_total_bytes: mem,
        memory_used_bytes: mem.map(|m| m / 2),
        disk_total_bytes: Some(100),
        disk_used_bytes: None,
    }
}

#[test]
fn container_hostnames_are_not_nodes() {
    assert!(is_container_id("a1b2c3d4e5f6"));
    assert!(is_container_id(" a1b2c3d4e5f6\n"));
    assert!(!is_container_id("a1b2c3d4e5f"));
    assert!(!is_container_id("node-01"));
    assert!(!is_container_id("g1b2c3d4e5f6"));
}

#[test]
fn cluster_totals_count_physical_nodes() {
    let agents = vec![
        node("node-1", "online", Some(8), Some(1000)),
        node("abcdefabcdef", "online", Some(4), Some(50)),
        node("node-2", "offline", None, None),
        node("node-3", "online", Some(2), Some(10)),
    ];
    let (t, nodes) = cluster_totals(agents);
    assert_eq!(t.node_count, 3);
    assert_eq!(t.online_count, 2);
    assert_eq!(t.total_cpu_cores, 10);
    assert_eq!(t.total_memory_bytes, 1010);
    assert_eq!(t.used_memory_bytes, 505);
    assert_eq!(t.total_disk_bytes, 300);
    assert_eq!(t.used_disk_bytes, 0);
    assert_eq!(nodes.len(), 3);
    assert_eq!(nodes[1].hostname, "node-2");
}

#[test]
fn drained_nodes_give_up_scheduled_and_running_workloads() {
    let ws = vec![
        DrainCandidate { id: "1".to_string(), status: "running".to_string() },
        DrainCandidate { id: "2".to_string(), status: "stopped".to_string() },
        DrainCandidate { id: "3".to_string(), status: "scheduled".to_string() },
    ];
    assert_eq!(workloads_to_reschedule(&ws), vec!["1".to_string(), "3".to_string()]);
}

#[test]
fn reported_counters_are_stored_signed() {
    let m = ReportedCounters {
        cpu_cores: Some(8),
        cpu_threads: Some(u32::MAX),
        memory_total_bytes: Some(1 << 40),
        memory_used_bytes: None,
        disk_total_bytes: Some(u64::MAX),
        disk_used_bytes: Some(0),
        network_rx_bytes: None,
        network_tx_bytes: Some(5),
        uptime_seconds: Some(60),
    };
    let s = stored_counters(&m);
    assert_eq!(s.cpu_cores, Some(8));
    assert_eq!(s.cpu_threads, Some(-1));
    assert_eq!(s.memory_total_bytes, Some(1 << 40));
    assert_eq!(s.disk_total_bytes, Some(-1));
    assert_eq!(s.memory_used_bytes, None);
}

#[test]
fn resource_updates_replace_given_fields_only() {
    let cur = || ResourceFields {
        name: "web".to_string(),
        description: Some("front".to_string()),
        configuration: Some(serde_json::Value::from("cfg")),
        status: "running".to_string(),
        tags: None,
    };
    let none = UpdateResourceRequest { name: None, description: None, configuration: None, status: None, tags: None };
    let r = apply_resource_update(cur(), none);
    assert_eq!((r.name.as_str(), r.description.as_deref(), r.status.as_str()), ("web", Some("front"), "running"));
    assert_eq!(r.configuration, Some(serde_json::Value::from("cfg")));
    assert_eq!(r.tags, None);
    let all = UpdateResourceRequest {
        name: Some("api".to_string()),
        description: Some("back".to_string()),
        configuration: Some(serde_json::Value::from(7)),
        status: Some("stopped".to_string()),
        tags: Some(serde_json::Value::from(vec!["x"])),
    };
    let r = apply_resource_update(cur(), all);
    assert_eq!((r.name.as_str(), r.description.as_deref(), r.status.as_str()), ("api", Some("back"), "stopped"));
    assert_eq!(r.configuration, Some(serde_json::Value::from(7)));
    assert_eq!(r.tags, Some(serde_json::Value::from(vec!["x"])));
    assert_eq!(group_name_or_unknown(Some("prod".to_string())), "prod");
    assert_eq!(group_name_or_unknown(None), "Unknown");
}

#[test]
fn the_gateway_names_its_own_agent_after_its_host() {
    let (h, n) = csf_core::cluster::self_agent_identity(Some("core-1".to_string()));
    assert_eq!((h.as_str(), n.as_str()), ("core-1", "CSF-Core-core-1"));
    let (h, n) = csf_core::cluster::self_agent_identity(None);
    assert_eq!((h.as_str(), n.as_str()), ("localhost", "CSF-Core-localhost"));
}

#[test]
fn deploy_without_docker_is_unavailable() {
    let (run, step) = begin_deploy(false);
    assert_eq!(run.stage, DeployStage::Done);
    match step {
        DeployStep::Refuse(e) => {
            assert_eq!(e.status, 503);
            assert_eq!(e.error, "Docker service not available");
        }
        _ => panic!("expected a refusal"),
    }
}

#[test]
fn deploy_runs_lookup_pull_create_save() {
    let (mut run, step) = begin_deploy(true);
    assert!(matches!(step, DeployStep::LookUpGroup));
    assert!(matches!(resume_deploy(&mut run, DeployEvent::GroupFound(Ok(true))), DeployStep::PullImage));
    assert!(matches!(resume_deploy(&mut run, DeployEvent::Pulled(Ok(()))), DeployStep::CreateContainer));
    match resume_deploy(&mut run, DeployEvent::Started(Ok("abc123".to_string()))) {
        DeployStep::SaveResource { container_id } => assert_eq!(container_id, "abc123"),
        _ => panic!("expected the resource to be stored"),
    }
    assert!(matches!(resume_deploy(&mut run, DeployEvent::Saved(true)), DeployStep::Created));
    assert_eq!(run.stage, DeployStage::Done);
}

#[test]
fn deploy_stops_the_container_when_saving_fails() {
    let (mut run, _) = begin_deploy(true);
    resume_deploy(&mut run, DeployEvent::GroupFound(Ok(true)));
    resume_deploy(&mut run, DeployEvent::Pulled(Ok(())));
    resume_deploy(&mut run, DeployEvent::Started(Ok("c1".to_string())));
    match resume_deploy(&mut run, DeployEvent::Saved(false)) {
        DeployStep::StopContainer { container_id } => assert_eq!(container_id, "c1"),
        _ => panic!("expected the container to be stopped"),
    }
    match resume_deploy(&mut run, DeployEvent::Stopped) {
        DeployStep::Refuse(e) => {
            assert_eq!(e.status, 500);
            assert_eq!(e.error, "Failed to save deployed resource");
        }
        _ => panic!("expected a refusal"),
    }
    assert_eq!(run.stage, DeployStage::Done);
}

#[test]
fn deploy_refusals_for_group_and_pull() {
    let (mut run, _) = begin_deploy(true);
    match resume_deploy(&mut run, DeployEvent::GroupFound(Ok(false))) {
        DeployStep::Refuse(e) => {
            assert_eq!(e.status, 404);
            assert_eq!(e.error, "Resource group not found");
        }
        _ => panic!("expected a refusal"),
    }
    let (mut run, _) = begin_deploy(true);
    match resume_deploy(&mut run, DeployEvent::GroupFound(Err(()))) {
        DeployStep::Refuse(e) => assert_eq!(e.status, 500),
        _ => panic!("expected a refusal"),
    }
    let (mut run, _) = begin_deploy(true);
    resume_deploy(&mut run, DeployEvent::GroupFound(Ok(true)));
    match resume_deploy(&mut run, DeployEvent::Pulled(Err("no such image".to_string()))) {
        DeployStep::Refuse(e) => {
            assert_eq!(e.status, 400);
            assert_eq!(e.error, "Failed to pull image: no such image");
        }
        _ => panic!("expected a refusal"),
    }
    let (mut run, _) = begin_deploy(true);
    resume_deploy(&mut run, DeployEvent::GroupFound(Ok(true)));
    resume_deploy(&mut run, DeployEvent::Pulled(Ok(())));
    match resume_deploy(&mut run, DeployEvent::Started(Err("port taken".to_string()))) {
        DeployStep::Refuse(e) => {
            assert_eq!(e.status, 500);
            assert_eq!(e.error, "Failed to create container: port taken");
        }
        _ => panic!("expected a refusal"),
    }
}

#[test]
fn reading_a_resource_syncs_its_status_with_docker() {
    assert_eq!(sync_status("running", Some("running")), ("running".to_string(), false));
    assert_eq!(sync_status("running", Some("exited")), ("stopped".to_string(), true));
    assert_eq!(sync_status("stopped", Some("dead")), ("stopped".to_string(), false));
    assert_eq!(sync_status("running", Some("paused")), ("error".to_string(), true));
    assert_eq!(sync_status("pending", None), ("pending".to_string(), false));
    let e = status_sync_failure();
    assert_eq!((e.status, e.error.as_str()), (500, "Failed to sync container status"));
}

#[test]
fn containers_listen_everywhere_restart_unless_stopped_and_start_after_creation() {
    let s = container_settings(&vec![PortEntry { container: Some(80), host: Some(8080) }], &vec![], &vec![]);
    assert_eq!(s.binding_host_ip, "0.0.0.0");
    assert_eq!(s.restart_policy, "unless-stopped");
    match after_create(Ok("c9".to_string())) {
        LaunchStep::StartContainer { container_id } => assert_eq!(container_id, "c9"),
        _ => panic!("expected the container to be started"),
    }
    match after_create(Err("no such image".to_string())) {
        LaunchStep::Finish(Err(e)) => assert_eq!(e, "no such image"),
        _ => panic!("expected the launch to fail"),
    }
    assert_eq!(after_start("c9".to_string(), Ok(())), Ok("c9".to_string()));
    assert_eq!(after_start("c9".to_string(), Err("busy".to_string())), Err("busy".to_string()));
}

#[test]
fn a_deployed_container_is_stored_running_with_its_configuration() {
    let ports = vec![serde_json::Value::from(80)];
    let req = DeployContainerRequest {
        name: "web".to_string(),
        image: "nginx:alpine".to_string(),
        resource_group_id: [3u8; 16],
        description: None,
        ports: Some(ports.clone()),
        environment: None,
        volumes: None,
    };
    let row = deployed_row(req, "cid1".to_string(), [9u8; 16]);
    assert_eq!(row.name, "web");
    assert_eq!(row.resource_type, "docker-container");
    assert_eq!(row.status, "running");
    assert_eq!(row.container_id, Some("cid1".to_string()));
    assert_eq!(row.created_by, Some([9u8; 16]));
    assert_eq!(row.resource_group_id, [3u8; 16]);
    assert!(row.tags.is_none());
    match row.configuration {
        Some(ResourceConfiguration::Deployed(c)) => {
            assert_eq!(c.image, "nginx:alpine");
            assert_eq!(c.ports, Some(ports));
            assert!(c.environment.is_none() && c.volumes.is_none());
        }
        _ => panic!("expected a deployed configuration"),
    }
}

#[test]
fn listings_leave_out_container_agents_and_resources_without_a_group() {
    let hosts = vec!["node-1".to_string(), "0123456789ab".to_string(), "node-2".to_string()];
    assert_eq!(listed_agents(&hosts), vec![0, 2]);
    let groups = vec![Some("g".to_string()), None, Some("h".to_string()), None];
    assert_eq!(resources_with_group(&groups), vec![0, 2]);
}
