//! How the gateway passes requests on: to its internal services (which
//! methods each takes, which headers travel, what status comes back) and to
//! the agents (where an agent is reached, and how each failure is answered).
use vstd::prelude::*;
use crate::numparse::{decimal, format_u64, parse_u16, parse_unsigned};
use crate::resources::HttpError;
use crate::text::{chars_of, lowercase_of, str_eq, to_lowercase};
use crate::ticket::{ticket_text, assemble_proxy_ticket};

verus! {

/// The internal services behind the gateway.
#[derive(Debug, Clone, Copy, PartialEq, Eq, Structural)]
pub enum Service {
    Registry,
    Scheduler,
    VolumeManager,
    FailoverController,
    SdnController,
}

impl Service {
    pub open spec fn env_spec(self) -> Seq<char> {
        match self {
            Service::Registry => "REGISTRY_SERVICE_URL"@,
            Service::Scheduler => "SCHEDULER_SERVICE_URL"@,
            Service::VolumeManager => "VOLUME_MANAGER_URL"@,
            Service::FailoverController => "FAILOVER_CONTROLLER_URL"@,
            Service::SdnController => "SDN_CONTROLLER_URL"@,
        }
    }

    pub open spec fn default_url_spec(self) -> Seq<char> {
        match self {
            Service::Registry => "http://localhost:8001"@,
            Service::Scheduler => "http://localhost:8002"@,
            Service::VolumeManager => "http://localhost:8003"@,
            Service::FailoverController => "http://localhost:8004"@,
            Service::SdnController => "http://localhost:8005"@,
        }
    }

    /// The environment variable that overrides the service's address.
    pub fn env_var(&self) -> (r: &'static str)
        ensures
            r@ == self.env_spec(),
    {
        match self {
            Service::Registry => "REGISTRY_SERVICE_URL",
            Service::Scheduler => "SCHEDULER_SERVICE_URL",
            Service::VolumeManager => "VOLUME_MANAGER_URL",
            Service::FailoverController => "FAILOVER_CONTROLLER_URL",
            Service::SdnController => "SDN_CONTROLLER_URL",
        }
    }

    /// The service's address: the variable's value when set, else its
    /// default on localhost.
    pub fn base_url(&self, from_env: Option<String>) -> (r: String)
        ensures
            r@ == match from_env {
                Some(u) => u@,
                None => self.default_url_spec(),
            },
    {
        match from_env {
            Some(u) => u,
            None => match self {
                Service::Registry => String::from_str("http://localhost:8001"),
                Service::Scheduler => String::from_str("http://localhost:8002"),
                Service::VolumeManager => String::from_str("http://localhost:8003"),
                Service::FailoverController => String::from_str("http://localhost:8004"),
                Service::SdnController => String::from_str("http://localhost:8005"),
            },
        }
    }
}

/// The HTTP methods a request may come with.
#[derive(Debug, Clone, Copy, PartialEq, Eq, Structural)]
pub enum HttpMethod {
    Get,
    Post,
    Put,
    Delete,
    Patch,
    Other,
}

/// The registry takes GET, POST, PUT, DELETE and PATCH; the other services
/// GET, POST and DELETE.
pub open spec fn accepts(service: Service, method: HttpMethod) -> bool {
    match method {
        HttpMethod::Get | HttpMethod::Post | HttpMethod::Delete => true,
        HttpMethod::Put | HttpMethod::Patch => service == Service::Registry,
        HttpMethod::Other => false,
    }
}

/// Whether a request can be passed on to the service; refused with
/// `Unsupported HTTP method` otherwise.
pub fn check_method(service: Service, method: HttpMethod) -> (r: Result<(), String>)
    ensures
        accepts(service, method) <==> r is Ok,
        r matches Err(e) ==> e@ == "Unsupported HTTP method"@,
{
    let ok = match method {
        HttpMethod::Get | HttpMethod::Post | HttpMethod::Delete => true,
        HttpMethod::Put | HttpMethod::Patch => service == Service::Registry,
        HttpMethod::Other => false,
    };
    if ok {
        Ok(())
    } else {
        Err(String::from_str("Unsupported HTTP method"))
    }
}

/// The address a request goes to: the service's address and the path.
pub fn target_url(base: &str, path: &str) -> (r: String)
    ensures
        r@ == base@ + path@,
{
    String::from_str(base).concat(path)
}

/// A header the gateway does not pass on: its lowercased name is
/// `content-length`, `host`, `content-type` or `transfer-encoding`.
pub open spec fn hop_header(name: Seq<char>) -> bool {
    let l = lowercase_of(name);
    l == "content-length"@ || l == "host"@ || l == "content-type"@ || l == "transfer-encoding"@
}

pub open spec fn header_views(v: Seq<(String, String)>) -> Seq<(Seq<char>, Seq<char>)> {
    v.map_values(|h: (String, String)| (h.0@, h.1@))
}

/// The headers passed on: all but the hop headers, in order.
pub fn forwarded_headers(headers: &Vec<(String, String)>) -> (r: Vec<(String, String)>)
    ensures
        header_views(r@) == header_views(headers@).filter(|h: (Seq<char>, Seq<char>)| !hop_header(h.0)),
{
    let mut out: Vec<(String, String)> = Vec::new();
    let mut k: usize = 0;
    while k < headers.len()
        invariant
            k <= headers.len(),
            header_views(out@) == header_views(headers@.take(k as int)).filter(
                |h: (Seq<char>, Seq<char>)| !hop_header(h.0),
            ),
        decreases headers.len() - k,
    {
        let h = &headers[k];
        let ghost hv = (h.0@, h.1@);
        let ghost t = header_views(headers@.take(k as int));
        assert(header_views(headers@.take(k + 1)) =~= t.push(hv));
        proof {
            t.lemma_filter_push(hv, |h: (Seq<char>, Seq<char>)| !hop_header(h.0));
        }
        let l = to_lowercase(h.0.as_str());
        let hop = str_eq(l.as_str(), "content-length") || str_eq(l.as_str(), "host") || str_eq(
            l.as_str(),
            "content-type",
        ) || str_eq(l.as_str(), "transfer-encoding");
        if !hop {
            let ghost before = out@;
            out.push((h.0.clone(), h.1.clone()));
            assert(header_views(out@) =~= header_views(before).push(hv));
        }
        k = k + 1;
    }
    assert(headers@.take(headers@.len() as int) =~= headers@);
    out
}

/// The status a service's answer is passed on with: its own when it is a
/// valid status code (100 to 999), else 500.
pub fn passed_status(code: u16) -> (r: u16)
    ensures
        100 <= code <= 999 ==> r == code,
        !(100 <= code <= 999) ==> r == 500,
{
    if code >= 100 && code <= 999 {
        code
    } else {
        500
    }
}

/// A service's answer body is read as JSON only when it is not empty.
pub fn body_to_parse(text: Option<String>) -> (r: Option<String>)
    ensures
        match text {
            Some(t) => if t@.len() == 0 {
                r is None
            } else {
                r matches Some(u) && u@ == t@
            },
            None => r is None,
        },
{
    match text {
        Some(t) => if t.as_str().unicode_len() == 0 {
            None
        } else {
            Some(t)
        },
        None => None,
    }
}

/// The registry could not be reached: 502 `Registry service unavailable`,
/// with the cause as detail.
pub fn registry_unavailable(details: String) -> (r: (HttpError, String))
    ensures
        r.0.status == 502,
        r.0.error@ == "Registry service unavailable"@,
        r.1@ == details@,
{
    (HttpError { status: 502, error: String::from_str("Registry service unavailable") }, details)
}

/// The volume manager could not be reached: 502 `Volume Manager service
/// unavailable`, with the cause as detail.
pub fn volume_manager_unavailable(details: String) -> (r: (HttpError, String))
    ensures
        r.0.status == 502,
        r.0.error@ == "Volume Manager service unavailable"@,
        r.1@ == details@,
{
    (HttpError { status: 502, error: String::from_str("Volume Manager service unavailable") }, details)
}

/// The failover controller could not be reached: 502 `Failover controller
/// unavailable`, with the cause as detail.
pub fn failover_unavailable(details: String) -> (r: (HttpError, String))
    ensures
        r.0.status == 502,
        r.0.error@ == "Failover controller unavailable"@,
        r.1@ == details@,
{
    (HttpError { status: 502, error: String::from_str("Failover controller unavailable") }, details)
}

/// The SDN controller could not be reached: 502 `SDN controller
/// unavailable`, with the cause as detail.
pub fn sdn_unavailable(details: String) -> (r: (HttpError, String))
    ensures
        r.0.status == 502,
        r.0.error@ == "SDN controller unavailable"@,
        r.1@ == details@,
{
    (HttpError { status: 502, error: String::from_str("SDN controller unavailable") }, details)
}

/// The failover controller's event listing, with the request's query
/// passed on when there is one.
pub fn events_path(query: Option<&str>) -> (r: String)
    ensures
        r@ == match query {
            Some(q) => "/events?"@ + q@,
            None => "/events"@,
        },
{
    match query {
        Some(q) => String::from_str("/events?").concat(q),
        None => String::from_str("/events"),
    }
}

/// The failover controller's maintenance window of an agent.
pub fn maintenance_path(agent_id: &str) -> (r: String)
    ensures
        r@ == "/agents/"@ + agent_id@ + "/maintenance"@,
{
    String::from_str("/agents/").concat(agent_id).concat("/maintenance")
}

/// The scheduler's request to move a drained agent's workloads elsewhere.
pub fn reschedule_path(agent_id: &str) -> (r: String)
    ensures
        r@ == "/internal/agents/"@ + agent_id@ + "/reschedule"@,
{
    String::from_str("/internal/agents/").concat(agent_id).concat("/reschedule")
}

/// The variable that overrides the port agents listen on.
pub const CSFX_AGENT_PORT_ENV: &'static str = "CSFX_AGENT_PORT";

/// The port agents listen on: the variable's value when it is a `u16`,
/// else 7443.
pub fn agent_port(from_env: Option<&str>) -> (r: u16)
    ensures
        r == match from_env {
            Some(v) => match parse_unsigned(v@, 65535) {
                Some(n) => n as u16,
                None => 7443u16,
            },
            None => 7443u16,
        },
{
    match from_env {
        Some(v) => match parse_u16(v) {
            Some(n) => n,
            None => 7443,
        },
        None => 7443,
    }
}

/// The agent endpoints the gateway calls.
#[derive(Debug, Clone, Copy, PartialEq, Eq, Structural)]
pub enum AgentEndpoint {
    Logs,
    Exec,
    Vnc,
    MetricsStream,
    Power,
    Disks,
}

/// An agent endpoint's address on the agent's tunnel address and port:
/// HTTP for logs, power and disks, WebSocket for exec, VNC and metrics; the
/// workload's id ends the path of logs, exec and VNC.
pub open spec fn agent_url_spec(endpoint: AgentEndpoint, ip: Seq<char>, port: u16, workload_id: Seq<char>) -> Seq<char> {
    let host = ip + ":"@ + decimal(port as nat);
    match endpoint {
        AgentEndpoint::Logs => "http://"@ + host + "/logs/"@ + workload_id,
        AgentEndpoint::Exec => "ws://"@ + host + "/exec/"@ + workload_id,
        AgentEndpoint::Vnc => "ws://"@ + host + "/vnc/"@ + workload_id,
        AgentEndpoint::MetricsStream => "ws://"@ + host + "/metrics/stream"@,
        AgentEndpoint::Power => "http://"@ + host + "/power"@,
        AgentEndpoint::Disks => "http://"@ + host + "/disks"@,
    }
}

/// Builds an agent endpoint's address (see `agent_url_spec`).
pub fn agent_url(endpoint: AgentEndpoint, ip: &str, port: u16, workload_id: &str) -> (r: String)
    ensures
        r@ == agent_url_spec(endpoint, ip@, port, workload_id@),
{
    let host = String::from_str(ip).concat(":").concat(format_u64(port as u64).as_str());
    match endpoint {
        AgentEndpoint::Logs => String::from_str("http://").concat(host.as_str()).concat("/logs/").concat(workload_id),
        AgentEndpoint::Exec => String::from_str("ws://").concat(host.as_str()).concat("/exec/").concat(workload_id),
        AgentEndpoint::Vnc => String::from_str("ws://").concat(host.as_str()).concat("/vnc/").concat(workload_id),
        AgentEndpoint::MetricsStream => String::from_str("ws://").concat(host.as_str()).concat("/metrics/stream"),
        AgentEndpoint::Power => String::from_str("http://").concat(host.as_str()).concat("/power"),
        AgentEndpoint::Disks => String::from_str("http://").concat(host.as_str()).concat("/disks"),
    }
}

/// The workload's record as far as the proxy needs it: the agent it is
/// assigned to, if any.
pub struct WorkloadTarget {
    pub assigned_agent_id: Option<[u8; 16]>,
}

/// Finds the agent a workload runs on from the workload lookup (`Err` with
/// the database's error text): 500 `database error: …`, 404 `workload not
/// found`, 409 `workload has no assigned agent`.
pub fn assigned_agent(workload: Result<Option<WorkloadTarget>, String>) -> (r: Result<[u8; 16], HttpError>)
    ensures
        match workload {
            Err(e) => r matches Err(h) && h.status == 500 && h.error@ == "database error: "@ + e@,
            Ok(None) => r matches Err(h) && h.status == 404 && h.error@ == "workload not found"@,
            Ok(Some(w)) => match w.assigned_agent_id {
                None => r matches Err(h) && h.status == 409 && h.error@ == "workload has no assigned agent"@,
                Some(a) => r == Ok::<[u8; 16], HttpError>(a),
            },
        },
{
    match workload {
        Err(e) => Err(HttpError { status: 500, error: String::from_str("database error: ").concat(e.as_str()) }),
        Ok(None) => Err(HttpError { status: 404, error: String::from_str("workload not found") }),
        Ok(Some(w)) => match w.assigned_agent_id {
            None => Err(HttpError { status: 409, error: String::from_str("workload has no assigned agent") }),
            Some(a) => Ok(a),
        },
    }
}

/// The agent's tunnel address from the agent lookup (`Ok(Some(t))` where
/// `t` is its tunnel address, if known): 500 `database error: …`, 404
/// `agent not found`, 503 `agent has no known tunnel address`.
pub fn agent_tunnel_ip(agent: Result<Option<Option<String>>, String>) -> (r: Result<String, HttpError>)
    ensures
        match agent {
            Err(e) => r matches Err(h) && h.status == 500 && h.error@ == "database error: "@ + e@,
            Ok(None) => r matches Err(h) && h.status == 404 && h.error@ == "agent not found"@,
            Ok(Some(None)) => r matches Err(h) && h.status == 503 && h.error@ == "agent has no known tunnel address"@,
            Ok(Some(Some(ip))) => r matches Ok(s) && s@ == ip@,
        },
{
    match agent {
        Err(e) => Err(HttpError { status: 500, error: String::from_str("database error: ").concat(e.as_str()) }),
        Ok(None) => Err(HttpError { status: 404, error: String::from_str("agent not found") }),
        Ok(Some(None)) => Err(HttpError { status: 503, error: String::from_str("agent has no known tunnel address") }),
        Ok(Some(Some(ip))) => Ok(ip),
    }
}

/// The proxy ticket from the registry's answer to a ticket request
/// (`Err` when the registry could not be reached): 502 each time, with
/// `failed to reach registry: …`, `registry refused to issue proxy ticket`,
/// `registry returned empty proxy ticket response`, `malformed proxy ticket
/// payload` or `malformed proxy ticket signature`; else `payload.signature`.
pub fn proxy_ticket(
    answer: Result<(bool, Option<(Option<&str>, Option<&str>)>), String>,
) -> (r: Result<String, HttpError>)
    ensures
        match answer {
            Err(e) => r matches Err(h) && h.status == 502 && h.error@ == "failed to reach registry: "@ + e@,
            Ok((false, _)) => r matches Err(h) && h.status == 502 && h.error@ == "registry refused to issue proxy ticket"@,
            Ok((true, None)) => r matches Err(h) && h.status == 502 && h.error@
                == "registry returned empty proxy ticket response"@,
            Ok((true, Some((None, _)))) => r matches Err(h) && h.status == 502 && h.error@
                == "malformed proxy ticket payload"@,
            Ok((true, Some((Some(_), None)))) => r matches Err(h) && h.status == 502 && h.error@
                == "malformed proxy ticket signature"@,
            Ok((true, Some((Some(p), Some(s))))) => r matches Ok(t) && t@ == ticket_text(p@, s@),
        },
{
    match answer {
        Err(e) => Err(HttpError { status: 502, error: String::from_str("failed to reach registry: ").concat(e.as_str()) }),
        Ok((false, _)) => Err(HttpError { status: 502, error: String::from_str("registry refused to issue proxy ticket") }),
        Ok((true, None)) => Err(HttpError {
            status: 502,
            error: String::from_str("registry returned empty proxy ticket response"),
        }),
        Ok((true, Some((None, _)))) => Err(HttpError { status: 502, error: String::from_str("malformed proxy ticket payload") }),
        Ok((true, Some((Some(_), None)))) => Err(HttpError {
            status: 502,
            error: String::from_str("malformed proxy ticket signature"),
        }),
        Ok((true, Some((Some(p), Some(s))))) => Ok(assemble_proxy_ticket(p, s)),
    }
}

/// The query of an exec socket request: the exec ticket.
pub struct ExecQuery {
    pub ticket: String,
}

/// The query of a VNC socket request: the VNC ticket.
pub struct VncQuery {
    pub ticket: String,
}

/// The query of a node metrics socket request: the metrics ticket.
pub struct NodeMetricsQuery {
    pub ticket: String,
}

/// A power action an administrator asks of a node.
#[derive(Debug, Clone, Copy, PartialEq, Eq, Structural)]
pub enum PowerAction {
    Reboot,
    Poweroff,
}

impl PowerAction {
    pub open spec fn name(self) -> Seq<char> {
        match self {
            PowerAction::Reboot => "reboot"@,
            PowerAction::Poweroff => "poweroff"@,
        }
    }

    /// The action's name as the agent expects it.
    pub fn as_str(&self) -> (r: &'static str)
        ensures
            r@ == self.name(),
    {
        match self {
            PowerAction::Reboot => "reboot",
            PowerAction::Poweroff => "poweroff",
        }
    }
}

/// A power action the gateway passes on reaches the agent as the same
/// action: the agent reads the name the gateway sends as an action whose
/// `systemctl` verb is that name.
pub proof fn lemma_power_action_reaches_agent(a: PowerAction)
    ensures
        crate::access::action_named(a.name()) matches Some(b) && b.verb() == a.name(),
{
    reveal_strlit("reboot");
    reveal_strlit("poweroff");
    assert("reboot"@.len() != "poweroff"@.len());
}

/// A power request's body.
pub struct PowerRequest {
    pub action: PowerAction,
}

/// What the gateway answers when an agent refuses a request over HTTP: 502
/// with a text naming the request, and the agent's body as detail.
pub open spec fn refusal_text(endpoint: AgentEndpoint) -> Seq<char> {
    match endpoint {
        AgentEndpoint::Logs => "agent refused log stream request"@,
        AgentEndpoint::Power => "agent refused power action"@,
        _ => "agent refused disks request"@,
    }
}

pub fn agent_refused(endpoint: AgentEndpoint, body: String) -> (r: (HttpError, String))
    requires
        endpoint == AgentEndpoint::Logs || endpoint == AgentEndpoint::Power || endpoint == AgentEndpoint::Disks,
    ensures
        r.0.status == 502,
        r.0.error@ == refusal_text(endpoint),
        r.1@ == body@,
{
    let text = match endpoint {
        AgentEndpoint::Logs => "agent refused log stream request",
        AgentEndpoint::Power => "agent refused power action",
        _ => "agent refused disks request",
    };
    (HttpError { status: 502, error: String::from_str(text) }, body)
}

} // verus!
