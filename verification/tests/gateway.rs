use csf_core::proxy::{
    events_path, failover_unavailable, maintenance_path, reschedule_path, sdn_unavailable, volume_manager_unavailable,
};
use csf_core::accounts::{change_password, password_change_gate, PasswordRecord};
use csf_core::accounts::{
    disable_2fa_gate, enable_2fa_gate, login_gate, must_verify_old_password, AuthError, LoginGate,
};
use csf_core::gateway_auth::{agent_for_key, check_permission, check_session, hash_key, request_token, to_hex_lower, Capability, Claims};
use csf_core::groups::{apply_group_update, check_new_group_name, needs_name_check, require_organization, ResourceGroupFields, UpdateResourceGroupRequest};
use csf_core::proxy::{
    agent_port, agent_refused, agent_tunnel_ip, agent_url, assigned_agent, body_to_parse, check_method, forwarded_headers,
    passed_status, proxy_ticket, registry_unavailable, target_url, AgentEndpoint, HttpMethod, PowerAction, Service,
    WorkloadTarget,
};

#[test]
fn capabilities_map_to_resource_and_action() {
    assert_eq!(Capability::ViewAgents.resource_action(), ("agents", "view"));
    assert_eq!(Capability::ManageWorkloads.resource_action(), ("workloads", "manage"));
    assert_eq!(Capability::ManageSystem.resource_action(), ("system", "manage"));
    assert_eq!(Capability::ViewResourceGroups.resource_action(), ("resource_groups", "view"));
    assert_eq!(Capability::ManageBuckets.resource_action(), ("buckets", "manage"));
}

#[test]
fn token_comes_from_bearer_header_or_cookie() {
    assert_eq!(request_token(Some("Bearer abc.def"), None).as_deref(), Some("abc.def"));
    assert_eq!(request_token(Some("Basic xyz"), Some("a=1; token=tok; b=2")).as_deref(), Some("tok"));
    assert_eq!(request_token(None, Some("theme=dark;  token=t2 ")).as_deref(), Some("t2"));
    assert_eq!(request_token(None, Some("token; other=1")), None);
    assert_eq!(request_token(None, Some("token=a=b")).as_deref(), Some("a=b"));
    assert_eq!(request_token(None, None), None);
}

#[test]
fn session_checks_in_order() {
    let c = Claims { user_id: [1u8; 16], exp: 100 };
    assert_eq!(check_session(false, Some(false), Some(c), 0).err(), Some(401));
    assert_eq!(check_session(true, None, Some(c), 0).err(), Some(500));
    assert_eq!(check_session(true, Some(true), Some(c), 0).err(), Some(401));
    assert_eq!(check_session(true, Some(false), None, 0).err(), Some(401));
    assert_eq!(check_session(true, Some(false), Some(c), 101).err(), Some(401));
    assert_eq!(check_session(true, Some(false), Some(c), 100).map(|c| c.exp), Ok(100));
    assert_eq!(check_permission(false, Some(true)), Err(500));
    assert_eq!(check_permission(true, None), Err(500));
    assert_eq!(check_permission(true, Some(false)), Err(403));
    assert_eq!(check_permission(true, Some(true)), Ok(()));
}

#[test]
fn agent_keys_are_stored_as_sha256_hex() {
    assert_eq!(hash_key("abc"), "ba7816bf8f01cfea414140de5dae2223b00361a396177a9cb410ff61f20015ad");
    assert_eq!(hash_key("").len(), 64);
    assert_eq!(to_hex_lower(&[0x00, 0x0f, 0xa0, 0xff]), "000fa0ff");
}

#[test]
fn agent_key_lookup_outcomes() {
    let id = [7u8; 16];
    assert_eq!(agent_for_key(false, Ok(Some(id)), Ok(true)), Err(401));
    assert_eq!(agent_for_key(true, Err(()), Ok(true)), Err(500));
    assert_eq!(agent_for_key(true, Ok(None), Ok(true)), Err(401));
    assert_eq!(agent_for_key(true, Ok(Some(id)), Ok(false)), Err(401));
    assert_eq!(agent_for_key(true, Ok(Some(id)), Err(())), Err(500));
    assert_eq!(agent_for_key(true, Ok(Some(id)), Ok(true)), Ok(id));
}

#[test]
fn login_gate_checks_password_then_second_factor() {
    assert!(matches!(login_gate(false, false, false, false), LoginGate::Refuse(AuthError::InvalidCredentials)));
    assert!(matches!(login_gate(true, true, false, false), LoginGate::Refuse(AuthError::TwoFactorRequired)));
    assert!(matches!(login_gate(true, true, true, false), LoginGate::Refuse(AuthError::InvalidTwoFactorCode)));
    assert!(matches!(login_gate(true, true, true, true), LoginGate::Admit));
    assert!(matches!(login_gate(true, false, false, false), LoginGate::Admit));
}

#[test]
fn auth_errors_have_their_texts() {
    assert_eq!(AuthError::UserNotFound.message(), "User not found");
    assert_eq!(AuthError::TwoFactorRequired.message(), "2FA required");
    assert_eq!(AuthError::DatabaseError("x".to_string()).message(), "Database error: x");
    assert_eq!(AuthError::PasswordChangeRequired.message(), "Password change required");
}

#[test]
fn password_and_second_factor_rules() {
    assert!(must_verify_old_password(false));
    assert!(!must_verify_old_password(true));
    assert!(enable_2fa_gate(true, true).is_ok());
    assert!(matches!(enable_2fa_gate(false, true), Err(AuthError::InvalidTwoFactorCode)));
    assert!(matches!(disable_2fa_gate(false, false), Ok(false)));
    assert!(matches!(disable_2fa_gate(true, true), Ok(true)));
    assert!(matches!(disable_2fa_gate(true, false), Err(AuthError::InvalidTwoFactorCode)));
}

#[test]
fn group_names_are_unique_per_organization() {
    assert!(require_organization(Ok(true)).is_none());
    assert_eq!(require_organization(Ok(false)).unwrap().status, 404);
    assert_eq!(require_organization(Err(())).unwrap().error, "Failed to retrieve organization");
    assert!(check_new_group_name(Ok(false)).is_none());
    let e = check_new_group_name(Ok(true)).unwrap();
    assert_eq!(e.status, 409);
    assert_eq!(e.error, "A resource group with this name already exists in your organization");
    assert_eq!(check_new_group_name(Err(())).unwrap().status, 500);
}

#[test]
fn group_update_checks_renames_and_applies_fields() {
    let cur = || ResourceGroupFields {
        name: "prod".to_string(),
        description: None,
        location: Some("fra".to_string()),
        tags: Some(serde_json::Value::from(vec!["env"])),
    };
    let rename = UpdateResourceGroupRequest {
        name: Some("staging".to_string()),
        description: Some("d".to_string()),
        location: None,
        tags: None,
    };
    assert!(needs_name_check(&cur(), &rename));
    let same = UpdateResourceGroupRequest { name: Some("prod".to_string()), description: None, location: None, tags: None };
    assert!(!needs_name_check(&cur(), &same));
    let g = apply_group_update(cur(), rename, Some(Ok(false))).ok().unwrap();
    assert_eq!(g.name, "staging");
    assert_eq!(g.description.as_deref(), Some("d"));
    assert_eq!(g.location.as_deref(), Some("fra"));
    assert_eq!(g.tags, cur().tags);
    let taken = UpdateResourceGroupRequest { name: Some("staging".to_string()), description: None, location: None, tags: None };
    assert_eq!(apply_group_update(cur(), taken, Some(Ok(true))).err().unwrap().status, 409);
    let lost = UpdateResourceGroupRequest { name: Some("qa".to_string()), description: None, location: None, tags: None };
    let e = apply_group_update(cur(), lost, Some(Err(()))).err().unwrap();
    assert_eq!((e.status, e.error.as_str()), (500, "Failed to update resource group"));
    let g = apply_group_update(cur(), same, None).ok().unwrap();
    assert_eq!(g.name, "prod");
    let retag = UpdateResourceGroupRequest {
        name: None,
        description: None,
        location: None,
        tags: Some(serde_json::Value::from(vec!["blue"])),
    };
    let g = apply_group_update(cur(), retag, None).ok().unwrap();
    assert_eq!(g.tags, Some(serde_json::Value::from(vec!["blue"])));
}

#[test]
fn services_take_their_methods() {
    assert!(check_method(Service::Registry, HttpMethod::Patch).is_ok());
    assert!(check_method(Service::Registry, HttpMethod::Put).is_ok());
    assert_eq!(check_method(Service::Scheduler, HttpMethod::Put).err().unwrap(), "Unsupported HTTP method");
    assert!(check_method(Service::VolumeManager, HttpMethod::Delete).is_ok());
    assert!(check_method(Service::SdnController, HttpMethod::Other).is_err());
    assert_eq!(Service::FailoverController.base_url(None), "http://localhost:8004");
    assert_eq!(Service::Registry.base_url(Some("http://reg:1".to_string())), "http://reg:1");
    assert_eq!(Service::Scheduler.env_var(), "SCHEDULER_SERVICE_URL");
    assert_eq!(target_url("http://x", "/a/b"), "http://x/a/b");
}

#[test]
fn hop_headers_are_not_forwarded() {
    let hs = vec![
        ("Host".to_string(), "x".to_string()),
        ("authorization".to_string(), "Bearer t".to_string()),
        ("Content-Length".to_string(), "3".to_string()),
        ("content-type".to_string(), "json".to_string()),
        ("Transfer-Encoding".to_string(), "chunked".to_string()),
        ("x-trace".to_string(), "1".to_string()),
    ];
    let out = forwarded_headers(&hs);
    assert_eq!(out, vec![("authorization".to_string(), "Bearer t".to_string()), ("x-trace".to_string(), "1".to_string())]);
}

#[test]
fn passed_status_and_bodies() {
    assert_eq!(passed_status(204), 204);
    assert_eq!(passed_status(99), 500);
    assert_eq!(passed_status(1000), 500);
    assert_eq!(passed_status(999), 999);
    assert_eq!(body_to_parse(Some(String::new())), None);
    assert_eq!(body_to_parse(Some("{}".to_string())).as_deref(), Some("{}"));
    let (e, d) = registry_unavailable("refused".to_string());
    assert_eq!(e.status, 502);
    assert_eq!(e.error, "Registry service unavailable");
    assert_eq!(d, "refused");
}

#[test]
fn agent_addresses_and_port() {
    assert_eq!(agent_port(None), 7443);
    assert_eq!(agent_port(Some("9000")), 9000);
    assert_eq!(agent_port(Some("70000")), 7443);
    assert_eq!(agent_port(Some("x")), 7443);
    assert_eq!(agent_url(AgentEndpoint::Logs, "10.0.0.2", 7443, "w1"), "http://10.0.0.2:7443/logs/w1");
    assert_eq!(agent_url(AgentEndpoint::Exec, "10.0.0.2", 7443, "w1"), "ws://10.0.0.2:7443/exec/w1");
    assert_eq!(agent_url(AgentEndpoint::Vnc, "10.0.0.2", 1, "w1"), "ws://10.0.0.2:1/vnc/w1");
    assert_eq!(agent_url(AgentEndpoint::MetricsStream, "h", 80, ""), "ws://h:80/metrics/stream");
    assert_eq!(agent_url(AgentEndpoint::Power, "h", 80, ""), "http://h:80/power");
    assert_eq!(agent_url(AgentEndpoint::Disks, "h", 80, ""), "http://h:80/disks");
    assert_eq!(PowerAction::Poweroff.as_str(), "poweroff");
}

#[test]
fn agent_target_resolution_errors() {
    assert_eq!(assigned_agent(Err("down".to_string())).err().unwrap().error, "database error: down");
    assert_eq!(assigned_agent(Ok(None)).err().unwrap().status, 404);
    let e = assigned_agent(Ok(Some(WorkloadTarget { assigned_agent_id: None }))).err().unwrap();
    assert_eq!((e.status, e.error.as_str()), (409, "workload has no assigned agent"));
    assert_eq!(assigned_agent(Ok(Some(WorkloadTarget { assigned_agent_id: Some([3u8; 16]) }))).ok(), Some([3u8; 16]));
    assert_eq!(agent_tunnel_ip(Ok(None)).err().unwrap().error, "agent not found");
    assert_eq!(agent_tunnel_ip(Ok(Some(None))).err().unwrap().status, 503);
    assert_eq!(agent_tunnel_ip(Ok(Some(Some("10.1.1.1".to_string())))).ok().as_deref(), Some("10.1.1.1"));
}

#[test]
fn proxy_ticket_from_registry_answer() {
    assert_eq!(proxy_ticket(Err("x".to_string())).err().unwrap().error, "failed to reach registry: x");
    assert_eq!(proxy_ticket(Ok((false, None))).err().unwrap().error, "registry refused to issue proxy ticket");
    assert_eq!(proxy_ticket(Ok((true, None))).err().unwrap().error, "registry returned empty proxy ticket response");
    assert_eq!(proxy_ticket(Ok((true, Some((None, Some("s")))))).err().unwrap().error, "malformed proxy ticket payload");
    assert_eq!(proxy_ticket(Ok((true, Some((Some("p"), None))))).err().unwrap().error, "malformed proxy ticket signature");
    assert_eq!(proxy_ticket(Ok((true, Some((Some("p"), Some("s")))))).ok().as_deref(), Some("p.s"));
    let (e, d) = agent_refused(AgentEndpoint::Power, "no".to_string());
    assert_eq!((e.status, e.error.as_str(), d.as_str()), (502, "agent refused power action", "no"));
    assert_eq!(agent_refused(AgentEndpoint::Logs, String::new()).0.error, "agent refused log stream request");
}

#[test]
fn router_settings_default_and_override() {
    let s = csf_core::router::router_settings(None, None, None);
    assert_eq!((s.rate_limit_per_second, s.burst_size, s.frontend_url.as_str()), (100, 200, "http://localhost:3000"));
    assert_eq!(
        s.allowed_origins,
        vec![
            "http://localhost:3000",
            "http://localhost:8000",
            "http://127.0.0.1:3000",
            "http://127.0.0.1:8000",
            "http://localhost:3000",
        ]
    );
    let s = csf_core::router::router_settings(Some("5"), Some("x"), Some("https://app.example".to_string()));
    assert_eq!((s.rate_limit_per_second, s.burst_size), (5, 200));
    assert_eq!(s.allowed_origins.last().map(String::as_str), Some("https://app.example"));
    let s = csf_core::router::router_settings(Some("-1"), Some("4294967296"), None);
    assert_eq!((s.rate_limit_per_second, s.burst_size), (100, 200));
}

#[test]
fn failover_requests_and_unreachable_services() {
    assert_eq!(events_path(Some("status=open")), "/events?status=open");
    assert_eq!(events_path(None), "/events");
    assert_eq!(maintenance_path("a1"), "/agents/a1/maintenance");
    assert_eq!(reschedule_path("a1"), "/internal/agents/a1/reschedule");
    let (e, d) = failover_unavailable("refused".to_string());
    assert_eq!((e.status, e.error.as_str(), d.as_str()), (502, "Failover controller unavailable", "refused"));
    assert_eq!(sdn_unavailable(String::new()).0.error, "SDN controller unavailable");
    assert_eq!(volume_manager_unavailable(String::new()).0.error, "Volume Manager service unavailable");
}

#[test]
fn a_wrong_old_password_is_refused_and_the_password_kept() {
    assert!(matches!(password_change_gate(false, Ok(false)), Err(AuthError::InvalidCredentials)));
    assert!(password_change_gate(false, Ok(true)).is_ok());
    assert!(password_change_gate(true, Ok(false)).is_ok());
    assert!(matches!(password_change_gate(false, Err(AuthError::CryptoError("bad".to_string()))), Err(AuthError::CryptoError(_))));
    let mut record = PasswordRecord { password_hash: "h0".to_string(), salt: "s0".to_string(), force_password_change: false };
    let gate = password_change_gate(false, Ok(false));
    assert!(change_password(&mut record, gate, Ok(("h1".to_string(), "s1".to_string()))).is_err());
    assert_eq!((record.password_hash.as_str(), record.salt.as_str()), ("h0", "s0"));
    let mut forced = PasswordRecord { password_hash: "h0".to_string(), salt: "s0".to_string(), force_password_change: true };
    let gate = password_change_gate(true, Ok(false));
    assert!(change_password(&mut forced, gate, Ok(("h1".to_string(), "s1".to_string()))).is_ok());
    assert_eq!((forced.password_hash.as_str(), forced.salt.as_str(), forced.force_password_change), ("h1", "s1", false));
}
