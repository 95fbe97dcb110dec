use aes_gcm::aead::{Aead, KeyInit};
use base64::Engine;
use csf_core::failover::{
    alert_action, alert_message, alert_rules, classify_agent, controller_port, event_matches, maintenance_minutes,
    new_event_defaults, stale_agents, AlertAction, EventSummary, ListEventsQuery, MonitoredAgent, SetMaintenanceRequest,
    Staleness, HARD_THRESHOLD_SECS, SOFT_THRESHOLD_SECS,
};
use csf_core::flake_update::{
    config_from_values, decrypt_secret, flake_url, local_image_ref, local_repo_digest, publish_resolved,
    revision_is_commit, service_image, verified_services, version_tag, Cycle, CycleEvent, CycleKind, CycleStage,
    CycleWork, SecretError, BUILD_STATUS_KEY, RESULT_KEY,
};
use csf_core::marketplace::{authorize_seeding, install_failure, installed_row, seeding_capability, template_lookup_failure, InstallTemplateRequest};
use csf_core::gateway_auth::Capability;
use csf_core::resources::ResourceConfiguration;
use csf_core::failover::{sample_cutoff, sustained_above};
use csf_core::marketplace::{
    default_templates, installed_resource_tags, new_template_row, next_install_count, seed_message, templates_to_insert,
};
use csf_core::releases::{changelog_url, install_answer, version_info, version_not_found, AppError, GitHubRelease};
use csf_core::rollout::{etcd_text, is_paused, schedule_update, update_status, UpdateRequest};
use csf_core::seed::{default_permissions, role_permission_names, seed_plan, SeedState, SystemRole};
use csf_core::settings::{
    database_error, avatar_style, check_avatar_style, check_retention, load_retention_days, UpdateAvatarFallbackRequest,
    UpdateLogsRetentionRequest,
};
use csf_core::ssh_keys::{compute_fingerprint, keys_for_agent, may_delete_key, StoredKey};

const SHA: &str = "0123456789abcdef0123456789abcdef01234567";

#[test]
fn retention_must_be_within_a_year() {
    assert_eq!(check_retention(&UpdateLogsRetentionRequest { retention_days: 1 }).ok(), Some(1));
    assert_eq!(check_retention(&UpdateLogsRetentionRequest { retention_days: 365 }).ok(), Some(365));
    let e = check_retention(&UpdateLogsRetentionRequest { retention_days: 0 }).err().unwrap();
    assert_eq!((e.status, e.error.as_str()), (400, "retention_days must be between 1 and 365"));
    assert!(check_retention(&UpdateLogsRetentionRequest { retention_days: 366 }).is_err());
    assert_eq!(load_retention_days(None), 30);
    assert_eq!(load_retention_days(Some(None)), 30);
    assert_eq!(load_retention_days(Some(Some(90))), 90);
}

#[test]
fn retention_read_after_write_gives_the_value() {
    let v = check_retention(&UpdateLogsRetentionRequest { retention_days: 14 }).ok().unwrap();
    assert_eq!(load_retention_days(Some(Some(v))), 14);
    assert!(check_avatar_style(&UpdateAvatarFallbackRequest { style: "blobatar".to_string() }).is_ok());
    assert_eq!(avatar_style(Some("blobatar".to_string())).style, "blobatar");
}

#[test]
fn avatar_styles_are_initials_or_blobatar() {
    assert!(check_avatar_style(&UpdateAvatarFallbackRequest { style: "initials".to_string() }).is_ok());
    let e = check_avatar_style(&UpdateAvatarFallbackRequest { style: "robot".to_string() }).err().unwrap();
    assert_eq!(e.error, "style must be one of initials, blobatar");
    assert_eq!(avatar_style(None).style, "initials");
}

#[test]
fn fingerprints_hash_the_decoded_key() {
    assert_eq!(compute_fingerprint("ssh-ed25519 YWJj user@host"), "SHA256:ungWv48Bz+pBQUDeXa4iI7ADYaOWF3qctBD/YfIAFa0=");
    assert_eq!(compute_fingerprint("YWJj"), "SHA256:ungWv48Bz+pBQUDeXa4iI7ADYaOWF3qctBD/YfIAFa0=");
    assert_eq!(compute_fingerprint("ssh-rsa !!!"), "SHA256:47DEQpj8HBSa+/TImW+5JCeuQeRkm5NMpJWZG3hSuFU=");
}

#[test]
fn agents_get_unexpired_keys() {
    let keys = vec![
        StoredKey { public_key: "k1".to_string(), expires_at: None },
        StoredKey { public_key: "k2".to_string(), expires_at: Some(100) },
        StoredKey { public_key: "k3".to_string(), expires_at: Some(101) },
    ];
    assert_eq!(keys_for_agent(&keys, 100).keys, vec!["k1".to_string(), "k3".to_string()]);
    assert_eq!(may_delete_key(None, [1; 16]), Err(404));
    assert_eq!(may_delete_key(Some([2; 16]), [1; 16]), Err(403));
    assert_eq!(may_delete_key(Some([1; 16]), [1; 16]), Ok(()));
}

#[test]
fn permission_catalogue_and_roles() {
    let perms = default_permissions();
    assert_eq!(perms.len(), 19);
    assert_eq!(perms[0].name, "organization.view");
    assert_eq!(perms[18].name, "networks.manage");
    for p in &perms {
        assert_eq!(p.name, format!("{}.{}", p.resource, p.action));
    }
    let admin = role_permission_names(SystemRole::Admin);
    assert_eq!(admin.len(), 19);
    let operator = role_permission_names(SystemRole::Operator);
    assert!(operator.contains(&"members.view"));
    assert!(!operator.iter().any(|p| p.starts_with("users.")));
    let viewer = role_permission_names(SystemRole::Viewer);
    assert!(viewer.iter().all(|p| p.ends_with(".view")));
    for p in viewer.iter().chain(operator.iter()) {
        assert!(perms.iter().any(|q| q.name == *p));
    }
    assert_eq!(SystemRole::Viewer.name_and_description(), ("Viewer", "Read-only access to resources"));
}

#[test]
fn marketplace_catalogue_seeds_missing_templates() {
    let t = default_templates();
    assert_eq!(t.len(), 15);
    assert_eq!(t[0].template_id, "docker-container");
    assert!(t.iter().find(|x| x.template_id == "wordpress").unwrap().popular);
    for x in &t {
        assert!(serde_json::from_str::<serde_json::Value>(x.configuration).is_ok());
    }
    let mut ids: Vec<&str> = t.iter().map(|x| x.template_id).collect();
    ids.sort();
    ids.dedup();
    assert_eq!(ids.len(), 15);
    assert_eq!(templates_to_insert(&vec![true, false, true, false]), vec![1, 3]);
    assert!(templates_to_insert(&vec![true; 15]).is_empty());
    assert_eq!(seed_message(4), "Seeded 4 templates");
    assert_eq!(next_install_count(0), 1);
    assert_eq!(next_install_count(41), 42);
    assert_eq!(installed_resource_tags("redis"), ("pending", "redis".to_string(), "marketplace"));
}

fn release(tag: &str, pre: bool) -> GitHubRelease {
    GitHubRelease { tag_name: tag.to_string(), body: format!("notes {}", tag), html_url: format!("u/{}", tag), prerelease: pre }
}

#[test]
fn release_check_reports_newer_and_beta() {
    let all = vec![release("v1.3.0", false), release("v1.4.0-beta", true), release("v1.4.0-rc", true)];
    let info = version_info("1.2.0", release("v1.3.0", false), &all);
    assert_eq!(info.latest_version, "1.3.0");
    assert!(info.update_available);
    assert_eq!(info.changelog.as_deref(), Some("notes v1.3.0"));
    assert_eq!(info.latest_beta_version.as_deref(), Some("1.4.0-beta"));
    assert_eq!(info.beta_release_url.as_deref(), Some("u/v1.4.0-beta"));
    let info = version_info("1.3.0", release("v1.3.0", false), &vec![]);
    assert!(!info.update_available);
    assert!(info.latest_beta_version.is_none());
}

#[test]
fn installs_only_move_forward() {
    let a = install_answer("1.2.0", "1.2.1");
    assert!(a.success);
    assert_eq!(a.message, "Update to version 1.2.1 initiated. The application will restart shortly.");
    let a = install_answer("1.2.0", "1.2.0");
    assert!(!a.success);
    assert_eq!(a.message, "Cannot install an older or same version");
    assert!(!install_answer("1.2.0", "1.1.9").success);
    assert_eq!(changelog_url("vv2.0"), "https://api.github.com/repos/CS-Foundry/CSF-Core/releases/tags/v2.0");
    assert_eq!(version_not_found("9.9").status_and_message(), (404, "Version 9.9 not found".to_string()));
    assert_eq!(AppError::InternalError("x".to_string()).status_and_message(), (500, "x".to_string()));
}

#[test]
fn cluster_updates_are_scheduled_for_valid_versions() {
    let r = schedule_update(UpdateRequest { version: "v1.2.3-rc1".to_string() }).ok().unwrap();
    assert_eq!((r.status.as_str(), r.version.as_str()), ("update_scheduled", "v1.2.3-rc1"));
    assert_eq!(schedule_update(UpdateRequest { version: "v".to_string() }).err(), Some(422));
    assert_eq!(schedule_update(UpdateRequest { version: "1.0;rm".to_string() }).err(), Some(422));
    assert!(is_paused(Some("true")));
    assert!(!is_paused(Some("yes")));
    assert!(!is_paused(None));
    assert_eq!(etcd_text(Some(b"abc")).as_deref(), Some("abc"));
    assert_eq!(etcd_text(Some(&[0xff, 0xfe])), None);
    let s = update_status("1.0.0", Some("1.1.0".to_string()), None, None, None, None, Some("true".to_string()));
    assert!(s.paused);
    assert_eq!(s.desired_version.as_deref(), Some("1.1.0"));
}

#[test]
fn updater_config_from_environment_values() {
    let c = config_from_values(Some("http://a:2379, http://b:2379"), Some("45"), Some("git@x".to_string())).ok().unwrap();
    assert_eq!(c.etcd_endpoints, vec!["http://a:2379".to_string(), "http://b:2379".to_string()]);
    assert_eq!(c.poll_interval_secs, 45);
    let c = config_from_values(None, Some("soon"), Some("m".to_string())).ok().unwrap();
    assert_eq!(c.etcd_endpoints, vec!["http://localhost:2379".to_string()]);
    assert_eq!(c.poll_interval_secs, 30);
    assert_eq!(config_from_values(None, None, None).err().unwrap(), "INFRA_REPO_MIRROR_URL must be set");
}

fn encrypt(key: &[u8; 32], nonce: &[u8; 12], plain: &[u8]) -> String {
    let cipher = aes_gcm::Aes256Gcm::new_from_slice(key).unwrap();
    let mut out = nonce.to_vec();
    out.extend(cipher.encrypt(aes_gcm::Nonce::from_slice(nonce), plain).unwrap());
    base64::engine::general_purpose::STANDARD.encode(out)
}

#[test]
fn secrets_decrypt_with_the_right_key() {
    let key = [7u8; 32];
    let key_b64 = base64::engine::general_purpose::STANDARD.encode(key);
    let enc = encrypt(&key, &[1u8; 12], b"s3cret");
    assert_eq!(decrypt_secret(&enc, &key_b64).ok().as_deref(), Some("s3cret"));
    let other = base64::engine::general_purpose::STANDARD.encode([8u8; 32]);
    assert!(matches!(decrypt_secret(&enc, &other), Err(SecretError::DecryptionFailed)));
    assert!(matches!(decrypt_secret(&enc, "!!"), Err(SecretError::KeyEncoding)));
    let short = base64::engine::general_purpose::STANDARD.encode([1u8; 16]);
    assert!(matches!(decrypt_secret(&enc, &short), Err(SecretError::InvalidKeyLength)));
    assert!(matches!(decrypt_secret("@@", &key_b64), Err(SecretError::SecretEncoding)));
    let tiny = base64::engine::general_purpose::STANDARD.encode([1u8; 5]);
    assert!(matches!(decrypt_secret(&tiny, &key_b64), Err(SecretError::InvalidCiphertext)));
    let bad_utf8 = encrypt(&key, &[2u8; 12], &[0xff, 0xfe]);
    assert!(matches!(decrypt_secret(&bad_utf8, &key_b64), Err(SecretError::NotUtf8)));
}

fn kind() -> CycleKind {
    CycleKind { check_mirror: true, build_first: true }
}

fn read(paused: Option<&str>, desired: Option<&str>) -> CycleEvent {
    CycleEvent::Read { paused: paused.map(|s| s.to_string()), desired: desired.map(|s| s.to_string()) }
}

#[test]
fn paused_or_unchanged_cycles_do_nothing() {
    let mut c = Cycle::new(kind(), SHA.to_string());
    let s = c.step(read(Some("true"), Some("x")));
    assert!(s.writes.is_empty());
    assert_eq!(s.work, CycleWork::Finish { applied: false });
    let mut c = Cycle::new(kind(), SHA.to_string());
    assert_eq!(c.step(read(None, Some(SHA))).work, CycleWork::Finish { applied: false });
    let mut c = Cycle::new(kind(), String::new());
    assert_eq!(c.step(read(None, Some(""))).work, CycleWork::Finish { applied: false });
    let mut c = Cycle::new(kind(), String::new());
    assert_eq!(c.step(read(None, None)).work, CycleWork::Finish { applied: false });
}

#[test]
fn invalid_revision_is_recorded_as_failed() {
    let mut c = Cycle::new(kind(), String::new());
    let s = c.step(read(None, Some("main")));
    assert_eq!(s.writes, vec![(RESULT_KEY, "failed")]);
    assert_eq!(s.work, CycleWork::Finish { applied: true });
}

#[test]
fn full_cycle_builds_and_switches() {
    let mut c = Cycle::new(kind(), String::new());
    assert_eq!(c.step(read(Some("false"), Some(SHA))).work, CycleWork::CheckMirror);
    assert_eq!(c.desired, SHA);
    assert_eq!(c.step(CycleEvent::RevisionFound(false)).work, CycleWork::SyncMirror);
    assert_eq!(c.step(CycleEvent::Synced).work, CycleWork::CheckMirror);
    let s = c.step(CycleEvent::RevisionFound(true));
    assert_eq!(s.writes, vec![(BUILD_STATUS_KEY, "building")]);
    assert_eq!(s.work, CycleWork::Build);
    assert_eq!(c.step(CycleEvent::Built(true)).work, CycleWork::Switch);
    let s = c.step(CycleEvent::Switched(true));
    assert_eq!(s.writes, vec![(BUILD_STATUS_KEY, "ready"), (RESULT_KEY, "success")]);
    assert_eq!(c.stage, CycleStage::Finished);
}

#[test]
fn failures_mark_build_and_result_failed() {
    let mut c = Cycle::new(kind(), String::new());
    c.step(read(None, Some(SHA)));
    c.step(CycleEvent::RevisionFound(false));
    c.step(CycleEvent::Synced);
    let s = c.step(CycleEvent::RevisionFound(false));
    assert_eq!(s.writes, vec![(RESULT_KEY, "failed")]);
    let mut c = Cycle::new(CycleKind { check_mirror: false, build_first: false }, String::new());
    let s = c.step(read(None, Some(SHA)));
    assert_eq!(s.work, CycleWork::Switch);
    let s = c.step(CycleEvent::Switched(false));
    assert_eq!(s.writes, vec![(BUILD_STATUS_KEY, "failed"), (RESULT_KEY, "failed")]);
    let mut c = Cycle::new(CycleKind { check_mirror: false, build_first: true }, String::new());
    c.step(read(None, Some(SHA)));
    let s = c.step(CycleEvent::Built(false));
    assert_eq!(s.writes, vec![(BUILD_STATUS_KEY, "failed"), (RESULT_KEY, "failed")]);
}

#[test]
fn mirror_and_image_helpers() {
    assert!(revision_is_commit(true, "commit\n"));
    assert!(!revision_is_commit(true, "tree\n"));
    assert!(!revision_is_commit(false, "commit"));
    let d = vec!["noat".to_string(), "ghcr.io/o/x@sha256:abc".to_string(), "a@b".to_string()];
    assert_eq!(local_repo_digest(&d).as_deref(), Some("sha256:abc"));
    assert_eq!(local_repo_digest(&vec!["x".to_string()]), None);
    assert_eq!(publish_resolved(Some(SHA.to_string()), SHA.to_string()), None);
    assert_eq!(publish_resolved(None, SHA.to_string()).as_deref(), Some(SHA));
    assert_eq!(version_tag("1.0"), "v1.0");
    assert_eq!(version_tag("v1.0"), "v1.0");
    assert_eq!(verified_services().len(), 6);
    assert_eq!(service_image("cs", "registry"), "cs/csf-ce-registry");
    assert_eq!(local_image_ref("cs", "scheduler", "1.2"), "ghcr.io/cs/csf-ce-scheduler:1.2");
    assert_eq!(flake_url("/m", SHA), format!("git+file:///m?rev={}", SHA));
}

fn classify_agent_default(a: &MonitoredAgent, now: i64) -> Staleness {
    classify_agent(a, now, SOFT_THRESHOLD_SECS, HARD_THRESHOLD_SECS)
}

fn agent(status: &str, hb: Option<i64>) -> MonitoredAgent {
    MonitoredAgent { status: status.to_string(), last_heartbeat: hb }
}

#[test]
fn stale_agents_degrade_then_go_offline() {
    let now = 10_000;
    assert_eq!(classify_agent_default(&agent("Online", Some(now - 121)), now), Staleness::Degrade);
    assert_eq!(classify_agent_default(&agent("Online", Some(now - 120)), now), Staleness::Fresh);
    assert_eq!(classify_agent_default(&agent("Online", Some(now - 1000)), now), Staleness::Degrade);
    assert_eq!(classify_agent_default(&agent("Degraded", Some(now - 301)), now), Staleness::TakeOffline);
    assert_eq!(classify_agent_default(&agent("Degraded", Some(now - 200)), now), Staleness::Fresh);
    assert_eq!(classify_agent_default(&agent("Online", None), now), Staleness::Fresh);
    let agents = vec![agent("Online", Some(0)), agent("Degraded", Some(0)), agent("Online", Some(now))];
    let (degraded, offline) = stale_agents(&agents, now, SOFT_THRESHOLD_SECS, HARD_THRESHOLD_SECS);
    assert_eq!(degraded, vec![0]);
    assert_eq!(offline, vec![1]);
}

#[test]
fn hardware_alerts_open_and_resolve() {
    assert_eq!(alert_action(true, false), AlertAction::Open);
    assert_eq!(alert_action(false, true), AlertAction::Resolve);
    assert_eq!(alert_action(true, true), AlertAction::Keep);
    assert_eq!(alert_action(false, false), AlertAction::Keep);
    let rules = alert_rules();
    assert_eq!(alert_message(&rules[0]), "CPU usage above 90% for 5m");
    assert_eq!(alert_message(&rules[2]), "Disk usage above 85% for 5m");
}

#[test]
fn event_filters_and_maintenance() {
    let e = EventSummary { status: "open".to_string(), agent_id: Some([1; 16]) };
    assert!(event_matches(&ListEventsQuery { status: None, agent_id: None }, &e));
    assert!(event_matches(&ListEventsQuery { status: Some("open".to_string()), agent_id: Some([1; 16]) }, &e));
    assert!(!event_matches(&ListEventsQuery { status: Some("resolved".to_string()), agent_id: None }, &e));
    assert!(!event_matches(&ListEventsQuery { status: None, agent_id: Some([2; 16]) }, &e));
    assert_eq!(maintenance_minutes(&SetMaintenanceRequest { minutes: 0 }), 1);
    assert_eq!(maintenance_minutes(&SetMaintenanceRequest { minutes: 45 }), 45);
    assert_eq!(controller_port(None), 8004);
    assert_eq!(controller_port(Some("9100")), 9100);
    assert_eq!(new_event_defaults(None), ("warning", "open"));
}

#[test]
fn failed_settings_lookups_answer_database_error() {
    let e = database_error();
    assert_eq!((e.status, e.error.as_str()), (500, "database error"));
}

#[test]
fn release_tags_are_resolved_through_the_github_api() {
    assert_eq!(
        csf_core::flake_update::tag_ref_url("cs-foundry/infra", "1.4.0"),
        "https://api.github.com/repos/cs-foundry/infra/git/ref/tags/v1.4.0"
    );
    assert_eq!(
        csf_core::flake_update::tag_ref_url("cs-foundry/infra", "vv1.4.0"),
        "https://api.github.com/repos/cs-foundry/infra/git/ref/tags/v1.4.0"
    );
    assert_eq!(
        csf_core::flake_update::tag_object_url("o/r", "abc"),
        "https://api.github.com/repos/o/r/git/tags/abc"
    );
    assert!(matches!(
        csf_core::flake_update::tag_target("tag", "t1".to_string()),
        csf_core::flake_update::TagTarget::AnnotatedTag(s) if s == "t1"
    ));
    assert!(matches!(
        csf_core::flake_update::tag_target("commit", "c1".to_string()),
        csf_core::flake_update::TagTarget::Commit(s) if s == "c1"
    ));
}

#[test]
fn published_images_are_checked_against_local_pulls() {
    assert_eq!(
        csf_core::flake_update::branch_commit_url("o/infra", "main"),
        "https://api.github.com/repos/o/infra/commits/main"
    );
    assert_eq!(
        csf_core::flake_update::ghcr_token_url("org/csf-ce-registry"),
        "https://ghcr.io/token?scope=repository:org/csf-ce-registry:pull"
    );
    assert_eq!(
        csf_core::flake_update::ghcr_manifest_url("org/csf-ce-registry", "1.2.0"),
        "https://ghcr.io/v2/org/csf-ce-registry/manifests/1.2.0"
    );
    assert!(csf_core::flake_update::digest_verdict("registry", "sha256:a", "sha256:a").is_ok());
    assert_eq!(
        csf_core::flake_update::digest_verdict("registry", "sha256:a", "sha256:b").err().unwrap(),
        "digest mismatch for registry: remote=sha256:a local=sha256:b"
    );
}

#[test]
fn initialization_inserts_what_is_missing_once() {
    let empty = SeedState {
        key_exists: false,
        organization_exists: false,
        permissions_exist: vec![false; 19],
        admin_role_exists: false,
        operator_role_exists: false,
        viewer_role_exists: false,
        admin_user_exists: false,
        admin_is_member: false,
    };
    let p = seed_plan(&empty);
    assert!(p.insert_key && p.insert_organization);
    assert_eq!(p.insert_permissions, (0..19).collect::<Vec<usize>>());
    assert_eq!(p.create_roles, vec![SystemRole::Admin, SystemRole::Operator, SystemRole::Viewer]);
    let admin = p.insert_admin_user.unwrap();
    assert_eq!((admin.name, admin.email, admin.initial_password), ("admin@local.com", "admin@local.com", "admin"));
    assert!(admin.force_password_change);
    assert_eq!(p.add_admin_membership, Some(SystemRole::Admin));
    let full = SeedState {
        key_exists: true,
        organization_exists: true,
        permissions_exist: vec![true; 19],
        admin_role_exists: true,
        operator_role_exists: true,
        viewer_role_exists: true,
        admin_user_exists: true,
        admin_is_member: true,
    };
    let p = seed_plan(&full);
    assert!(!p.insert_key && !p.insert_organization && p.insert_permissions.is_empty() && p.create_roles.is_empty());
    assert!(p.insert_admin_user.is_none() && p.add_admin_membership.is_none());
    let mut partial = full;
    partial.permissions_exist[4] = false;
    partial.operator_role_exists = false;
    let p = seed_plan(&partial);
    assert_eq!(p.insert_permissions, vec![4]);
    assert_eq!(p.create_roles, vec![SystemRole::Operator]);
}

#[test]
fn seeded_templates_start_without_installs() {
    let t = default_templates();
    let row = new_template_row(&t[8]);
    assert_eq!((row.template_id, row.install_count, row.popular), ("redis", 0, true));
    assert_eq!(row.configuration, t[8].configuration);
    assert_eq!(templates_to_insert(&vec![false, true, false]), vec![0, 2]);
}

#[test]
fn seeding_the_marketplace_is_for_administrators() {
    assert_eq!(seeding_capability(), Capability::ManageSystem);
    assert_eq!(authorize_seeding(true, Some(true)), Ok(()));
    assert_eq!(authorize_seeding(true, Some(false)), Err(403));
    assert_eq!(authorize_seeding(true, None), Err(500));
    assert_eq!(authorize_seeding(false, Some(true)), Err(500));
}

#[test]
fn installing_a_template_stores_a_pending_resource() {
    let req = InstallTemplateRequest { template_id: "redis".to_string(), name: "cache".to_string(), resource_group_id: [5u8; 16] };
    let cfg = serde_json::Value::from("cfg");
    let row = installed_row(req, "docker-stack".to_string(), "Redis cache".to_string(), cfg.clone(), [7u8; 16]);
    assert_eq!(row.name, "cache");
    assert_eq!(row.resource_type, "docker-stack");
    assert_eq!(row.description, Some("Redis cache".to_string()));
    assert_eq!(row.resource_group_id, [5u8; 16]);
    assert_eq!(row.status, "pending");
    assert_eq!(row.created_by, Some([7u8; 16]));
    assert_eq!(
        row.tags,
        Some(vec![("template_id".to_string(), "redis".to_string()), ("source".to_string(), "marketplace".to_string())])
    );
    assert!(row.container_id.is_none());
    match row.configuration {
        Some(ResourceConfiguration::Template(v)) => assert_eq!(v, cfg),
        _ => panic!("expected the template's configuration"),
    }
    let e = template_lookup_failure(Ok(false)).unwrap();
    assert_eq!((e.status, e.error.as_str()), (404, "Template not found"));
    let e = template_lookup_failure(Err(())).unwrap();
    assert_eq!((e.status, e.error.as_str()), (500, "Failed to retrieve template"));
    assert!(template_lookup_failure(Ok(true)).is_none());
    assert_eq!(install_failure().error, "Failed to install template");
}

#[test]
fn stale_agents_use_the_given_thresholds() {
    let now = 10_000;
    let agents = vec![agent("Online", Some(now - 50)), agent("Degraded", Some(now - 90))];
    let (degraded, offline) = stale_agents(&agents, now, 40, 80);
    assert_eq!(degraded, vec![0]);
    assert_eq!(offline, vec![1]);
    let (degraded, offline) = stale_agents(&agents, now, SOFT_THRESHOLD_SECS, HARD_THRESHOLD_SECS);
    assert!(degraded.is_empty() && offline.is_empty());
}

#[test]
fn alerts_need_every_recent_sample_above() {
    assert_eq!(sample_cutoff(1_000), 700);
    assert!(sustained_above(&vec![true, true, true]));
    assert!(!sustained_above(&vec![true, false, true]));
    assert!(!sustained_above(&vec![]));
}

#[test]
fn catalogue_entries_carry_their_data() {
    let t = default_templates();
    let pg = &t[5];
    assert_eq!(pg.template_id, "postgresql");
    assert_eq!(pg.name, "PostgreSQL Database");
    assert_eq!(pg.category, "database");
    assert_eq!(pg.icon, "🐘");
    assert_eq!(pg.resource_type, "docker-stack");
    assert!(pg.configuration.contains("postgres:16-alpine"));
    assert_eq!(t[0].resource_type, "docker-container");
    let p = default_permissions();
    assert_eq!(p[16].name, "volumes.manage");
    assert_eq!(p[16].description, "Create, attach, detach and delete volumes");
}
