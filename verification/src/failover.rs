//! The failover controller's rules: when an agent that stopped sending
//! heartbeats is marked degraded and then offline, when a hardware alert is
//! opened or resolved, and how events and maintenance windows are handled.
use vstd::prelude::*;
use crate::numparse::{decimal, format_u64, parse_u16, parse_unsigned};
use crate::text::str_eq;

verus! {

/// Seconds without a heartbeat after which an online agent is degraded.
pub const SOFT_THRESHOLD_SECS: i64 = 120;
/// Seconds without a heartbeat after which a degraded agent is offline.
pub const HARD_THRESHOLD_SECS: i64 = 300;

/// An agent as the health monitor reads it: its status and the time of its
/// last heartbeat (seconds since the epoch), if any.
pub struct MonitoredAgent {
    pub status: String,
    pub last_heartbeat: Option<i64>,
}

/// What the monitor does to an agent.
#[derive(Debug, Clone, Copy, PartialEq, Eq, Structural)]
pub enum Staleness {
    /// Nothing.
    Fresh,
    /// Mark it `Degraded` and record a `degraded` event.
    Degrade,
    /// Mark it `Offline` and fail its workloads over.
    TakeOffline,
}

/// The monitor's verdict on an agent at time `now`, with the soft and hard
/// thresholds in seconds: a `Degraded` agent silent for more than the hard
/// threshold goes offline; an `Online` agent silent for more than the soft
/// threshold is degraded; an agent that never sent a heartbeat, or in
/// another state, is left alone.
pub open spec fn staleness(status: Seq<char>, last_heartbeat: Option<i64>, now: int, soft: int, hard: int) -> Staleness {
    match last_heartbeat {
        None => Staleness::Fresh,
        Some(t) => if t < now - hard && status == "Degraded"@ {
            Staleness::TakeOffline
        } else if t < now - soft && status == "Online"@ {
            Staleness::Degrade
        } else {
            Staleness::Fresh
        },
    }
}

/// Only monitored agents are acted on: an agent that is neither `Online`
/// nor `Degraded` is left alone whatever its heartbeat; only an `Online`
/// agent is ever degraded, and only a `Degraded` one taken offline.
pub proof fn lemma_only_monitored_agents_change(
    status: Seq<char>,
    last_heartbeat: Option<i64>,
    now: int,
    soft: int,
    hard: int,
)
    ensures
        status != "Online"@ && status != "Degraded"@ ==> staleness(status, last_heartbeat, now, soft, hard)
            == Staleness::Fresh,
        staleness(status, last_heartbeat, now, soft, hard) == Staleness::Degrade ==> status == "Online"@,
        staleness(status, last_heartbeat, now, soft, hard) == Staleness::TakeOffline ==> status == "Degraded"@,
{
}

/// An agent that never sent a heartbeat is left alone.
pub proof fn lemma_no_heartbeat_is_fresh(status: Seq<char>, now: int, soft: int, hard: int)
    ensures
        staleness(status, None, now, soft, hard) == Staleness::Fresh,
{
}

/// An `Online` agent is degraded exactly when its last heartbeat is older
/// than the soft threshold; a `Degraded` one goes offline exactly when it is
/// older than the hard threshold.
pub proof fn lemma_thresholds_decide(t: i64, now: int, soft: int, hard: int)
    ensures
        (staleness("Online"@, Some(t), now, soft, hard) == Staleness::Degrade) == (t < now - soft),
        (staleness("Degraded"@, Some(t), now, soft, hard) == Staleness::TakeOffline) == (t < now - hard),
{
    reveal_strlit("Online");
    reveal_strlit("Degraded");
    assert("Online"@.len() != "Degraded"@.len());
}

/// The thresholds and times the monitor can work with: each threshold
/// within what `chrono::Duration::seconds` takes (it panics beyond
/// `i64::MAX / 1000` either way), and both cutoffs within `i64`.
pub open spec fn monitor_inputs_ok(now: int, soft: int, hard: int) -> bool {
    &&& -(i64::MAX / 1000) <= soft <= i64::MAX / 1000
    &&& -(i64::MAX / 1000) <= hard <= i64::MAX / 1000
    &&& i64::MIN <= now - soft <= i64::MAX
    &&& i64::MIN <= now - hard <= i64::MAX
}

/// Judges an agent (see `staleness`).
pub fn classify_agent(agent: &MonitoredAgent, now: i64, soft_threshold_secs: i64, hard_threshold_secs: i64) -> (r: Staleness)
    requires
        monitor_inputs_ok(now as int, soft_threshold_secs as int, hard_threshold_secs as int),
    ensures
        r == staleness(agent.status@, agent.last_heartbeat, now as int, soft_threshold_secs as int, hard_threshold_secs as int),
{
    match agent.last_heartbeat {
        None => Staleness::Fresh,
        Some(t) => {
            let hard_cutoff = now - hard_threshold_secs;
            let soft_cutoff = now - soft_threshold_secs;
            if t < hard_cutoff && str_eq(agent.status.as_str(), "Degraded") {
                Staleness::TakeOffline
            } else if t < soft_cutoff && str_eq(agent.status.as_str(), "Online") {
                Staleness::Degrade
            } else {
                Staleness::Fresh
            }
        },
    }
}

/// The agents to degrade and to take offline, by index, in order, at time
/// `now` with the soft and hard thresholds (see `staleness`).
pub fn stale_agents(agents: &Vec<MonitoredAgent>, now: i64, soft_threshold_secs: i64, hard_threshold_secs: i64) -> (r: (Vec<usize>, Vec<usize>))
    requires
        monitor_inputs_ok(now as int, soft_threshold_secs as int, hard_threshold_secs as int),
    ensures
        forall|j: int| 0 <= j < r.0@.len() ==> r.0@[j] < agents@.len() && staleness(
            agents@[r.0@[j] as int].status@,
            agents@[r.0@[j] as int].last_heartbeat,
            now as int,
            soft_threshold_secs as int,
            hard_threshold_secs as int,
        ) == Staleness::Degrade,
        forall|j: int| 0 <= j < r.1@.len() ==> r.1@[j] < agents@.len() && staleness(
            agents@[r.1@[j] as int].status@,
            agents@[r.1@[j] as int].last_heartbeat,
            now as int,
            soft_threshold_secs as int,
            hard_threshold_secs as int,
        ) == Staleness::TakeOffline,
        forall|i: int| 0 <= i < agents@.len() && staleness(agents@[i].status@, agents@[i].last_heartbeat, now as int, soft_threshold_secs as int, hard_threshold_secs as int)
            == Staleness::Degrade ==> r.0@.contains(i as usize),
        forall|i: int| 0 <= i < agents@.len() && staleness(agents@[i].status@, agents@[i].last_heartbeat, now as int, soft_threshold_secs as int, hard_threshold_secs as int)
            == Staleness::TakeOffline ==> r.1@.contains(i as usize),
        forall|a: int, b: int| 0 <= a < b < r.0@.len() ==> r.0@[a] < r.0@[b],
        forall|a: int, b: int| 0 <= a < b < r.1@.len() ==> r.1@[a] < r.1@[b],
{
    let ghost soft = soft_threshold_secs as int;
    let ghost hard = hard_threshold_secs as int;
    let mut degraded: Vec<usize> = Vec::new();
    let mut offline: Vec<usize> = Vec::new();
    let mut k: usize = 0;
    while k < agents.len()
        invariant
            k <= agents.len(),
            soft == soft_threshold_secs as int,
            hard == hard_threshold_secs as int,
            monitor_inputs_ok(now as int, soft, hard),
            forall|j: int| 0 <= j < degraded@.len() ==> degraded@[j] < k && staleness(
                agents@[degraded@[j] as int].status@,
                agents@[degraded@[j] as int].last_heartbeat,
                now as int,
                soft,
                hard,
            ) == Staleness::Degrade,
            forall|j: int| 0 <= j < offline@.len() ==> offline@[j] < k && staleness(
                agents@[offline@[j] as int].status@,
                agents@[offline@[j] as int].last_heartbeat,
                now as int,
                soft,
                hard,
            ) == Staleness::TakeOffline,
            forall|i: int| 0 <= i < k && staleness(agents@[i].status@, agents@[i].last_heartbeat, now as int, soft, hard)
                == Staleness::Degrade ==> degraded@.contains(i as usize),
            forall|i: int| 0 <= i < k && staleness(agents@[i].status@, agents@[i].last_heartbeat, now as int, soft, hard)
                == Staleness::TakeOffline ==> offline@.contains(i as usize),
            forall|a: int, b: int| 0 <= a < b < degraded@.len() ==> degraded@[a] < degraded@[b],
            forall|a: int, b: int| 0 <= a < b < offline@.len() ==> offline@[a] < offline@[b],
        decreases agents.len() - k,
    {
        let v = classify_agent(&agents[k], now, soft_threshold_secs, hard_threshold_secs);
        let ghost d0 = degraded@;
        let ghost o0 = offline@;
        match v {
            Staleness::Degrade => {
                degraded.push(k);
                assert(degraded@[degraded@.len() - 1] == k);
            },
            Staleness::TakeOffline => {
                offline.push(k);
                assert(offline@[offline@.len() - 1] == k);
            },
            Staleness::Fresh => {},
        }
        assert forall|x: usize| d0.contains(x) implies degraded@.contains(x) by {
            let j = choose|j: int| 0 <= j < d0.len() && d0[j] == x;
            assert(degraded@[j] == x);
        }
        assert forall|x: usize| o0.contains(x) implies offline@.contains(x) by {
            let j = choose|j: int| 0 <= j < o0.len() && o0[j] == x;
            assert(offline@[j] == x);
        }
        k = k + 1;
    }
    (degraded, offline)
}

/// An online agent is never taken offline in one step: it is degraded
/// first, so going offline takes two of the monitor's ticks.
pub proof fn lemma_online_not_straight_offline(last_heartbeat: Option<i64>, now: int, soft: int, hard: int)
    ensures
        staleness("Online"@, last_heartbeat, now, soft, hard) != Staleness::TakeOffline,
{
    reveal_strlit("Online");
    reveal_strlit("Degraded");
    assert("Online"@.len() != "Degraded"@.len());
}

/// With the soft threshold no later than the hard one, an agent silent past
/// the hard threshold is judged stale whatever its monitored state:
/// degraded when online, offline when degraded.
pub proof fn lemma_silent_agent_acted_on(status: Seq<char>, t: i64, now: int, soft: int, hard: int)
    requires
        soft <= hard,
        t < now - hard,
        status == "Online"@ || status == "Degraded"@,
    ensures
        staleness(status, Some(t), now, soft, hard) != Staleness::Fresh,
{
}

/// The window over which a hardware value must stay high to raise an alert.
pub const SUSTAINED_WINDOW_SECS: i64 = 300;

/// The most recent metric samples a rule looks at within the window.
pub const SAMPLE_LIMIT: u64 = 20;

/// The oldest time a sample may have to count: samples newer than
/// `SUSTAINED_WINDOW_SECS` before `now`.
pub fn sample_cutoff(now: i64) -> (r: i64)
    requires
        now >= i64::MIN + SUSTAINED_WINDOW_SECS,
    ensures
        r == now - SUSTAINED_WINDOW_SECS,
{
    now - SUSTAINED_WINDOW_SECS
}

/// Whether a rule's value stayed high: `above` holds, for each of the
/// samples in the window (newer than `sample_cutoff`, the newest
/// `SAMPLE_LIMIT` of them), whether the sample has the rule's value and it
/// is above the threshold. It stayed high when there is at least one sample
/// and every one is above.
pub fn sustained_above(above: &Vec<bool>) -> (r: bool)
    ensures
        r == (above@.len() > 0 && forall|i: int| 0 <= i < above@.len() ==> #[trigger] above@[i]),
{
    if above.len() == 0 {
        return false;
    }
    let mut k: usize = 0;
    while k < above.len()
        invariant
            k <= above.len(),
            forall|i: int| 0 <= i < k ==> #[trigger] above@[i],
        decreases above.len() - k,
    {
        if !above[k] {
            return false;
        }
        k = k + 1;
    }
    true
}

/// A hardware alert rule: the event it raises, its severity, its threshold
/// in whole percent, and the measure's label.
pub struct AlertRule {
    pub event_type: &'static str,
    pub severity: &'static str,
    pub threshold_percent: u64,
    pub label: &'static str,
}

/// The rules: CPU and memory above 90%, disk above 85%, each a warning.
pub fn alert_rules() -> (r: Vec<AlertRule>)
    ensures
        r@.len() == 3,
        r@[0].event_type@ == "high_cpu"@ && r@[0].threshold_percent == 90 && r@[0].label@ == "CPU usage"@,
        r@[1].event_type@ == "high_memory"@ && r@[1].threshold_percent == 90 && r@[1].label@ == "Memory usage"@,
        r@[2].event_type@ == "high_disk"@ && r@[2].threshold_percent == 85 && r@[2].label@ == "Disk usage"@,
        forall|i: int| 0 <= i < 3 ==> (#[trigger] r@[i]).severity@ == "warning"@,
{
    vec![
        AlertRule { event_type: "high_cpu", severity: "warning", threshold_percent: 90, label: "CPU usage" },
        AlertRule { event_type: "high_memory", severity: "warning", threshold_percent: 90, label: "Memory usage" },
        AlertRule { event_type: "high_disk", severity: "warning", threshold_percent: 85, label: "Disk usage" },
    ]
}

/// What a rule does for an agent.
#[derive(Debug, Clone, Copy, PartialEq, Eq, Structural)]
pub enum AlertAction {
    Open,
    Resolve,
    Keep,
}

/// A rule opens an alert when the value stays high and none is open, and
/// resolves the open one when the value no longer stays high.
pub open spec fn alert_action_spec(sustained: bool, open_alert: bool) -> AlertAction {
    if sustained && !open_alert {
        AlertAction::Open
    } else if !sustained && open_alert {
        AlertAction::Resolve
    } else {
        AlertAction::Keep
    }
}

/// What a rule does (see `alert_action_spec`).
pub fn alert_action(sustained: bool, open_alert: bool) -> (r: AlertAction)
    ensures
        r == alert_action_spec(sustained, open_alert),
{
    if sustained && !open_alert {
        AlertAction::Open
    } else if !sustained && open_alert {
        AlertAction::Resolve
    } else {
        AlertAction::Keep
    }
}

/// A rule never opens a second alert while one is open: with an alert
/// open, `alert_action` only resolves or keeps it.
pub proof fn lemma_no_duplicate_alert(sustained: bool)
    ensures
        alert_action_spec(sustained, true) != AlertAction::Open,
{
}

/// An alert's message: `<label> above <threshold>% for 5m`.
pub fn alert_message(rule: &AlertRule) -> (r: String)
    ensures
        r@ == rule.label@ + " above "@ + decimal(rule.threshold_percent as nat) + "% for "@ + decimal(5) + "m"@,
{
    String::from_str(rule.label).concat(" above ").concat(format_u64(rule.threshold_percent).as_str()).concat(
        "% for ",
    ).concat(format_u64((SUSTAINED_WINDOW_SECS / 60) as u64).as_str()).concat("m")
}

/// An event as listed: its status and agent.
pub struct EventSummary {
    pub status: String,
    pub agent_id: Option<[u8; 16]>,
}

/// The filters of an event listing.
pub struct ListEventsQuery {
    pub status: Option<String>,
    pub agent_id: Option<[u8; 16]>,
}

/// An event passes the filters: the status matches when one is asked for,
/// and so does the agent.
pub open spec fn event_passes(q: ListEventsQuery, e: EventSummary) -> bool {
    &&& (q.status matches Some(s) ==> e.status@ == s@)
    &&& (q.agent_id matches Some(a) ==> (e.agent_id matches Some(b) && b@ == a@))
}

fn same_id(a: [u8; 16], b: [u8; 16]) -> (r: bool)
    ensures
        r == (a@ == b@),
{
    let mut k: usize = 0;
    while k < 16
        invariant
            k <= 16,
            forall|j: int| 0 <= j < k ==> a[j] == b[j],
        decreases 16 - k,
    {
        if a[k] != b[k] {
            return false;
        }
        k = k + 1;
    }
    assert(a@ =~= b@);
    true
}

/// Whether an event passes the filters (see `event_passes`).
pub fn event_matches(q: &ListEventsQuery, e: &EventSummary) -> (b: bool)
    ensures
        b == event_passes(*q, *e),
{
    let status_ok = match &q.status {
        Some(s) => str_eq(e.status.as_str(), s.as_str()),
        None => true,
    };
    let agent_ok = match q.agent_id {
        Some(a) => match e.agent_id {
            Some(b) => same_id(b, a),
            None => false,
        },
        None => true,
    };
    status_ok && agent_ok
}

/// A maintenance request: how many minutes.
pub struct SetMaintenanceRequest {
    pub minutes: i64,
}

/// A maintenance window lasts the minutes asked for, at least one.
pub fn maintenance_minutes(req: &SetMaintenanceRequest) -> (r: i64)
    ensures
        r == (if req.minutes < 1 { 1 } else { req.minutes }),
        r >= 1,
{
    if req.minutes < 1 {
        1
    } else {
        req.minutes
    }
}

/// The controller's port: `FAILOVER_CONTROLLER_PORT` when it is a `u16`,
/// else 8004.
pub fn controller_port(from_env: Option<&str>) -> (r: u16)
    ensures
        r == match from_env {
            Some(v) => match parse_unsigned(v@, 65535) {
                Some(n) => n as u16,
                None => 8004u16,
            },
            None => 8004u16,
        },
{
    match from_env {
        Some(v) => match parse_u16(v) {
            Some(n) => n,
            None => 8004,
        },
        None => 8004,
    }
}

/// A new event's severity when none is given, and every new event's status.
pub fn new_event_defaults(severity: Option<&'static str>) -> (r: (&'static str, &'static str))
    ensures
        r.0@ == match severity {
            Some(s) => s@,
            None => "warning"@,
        },
        r.1@ == "open"@,
{
    (match severity {
        Some(s) => s,
        None => "warning",
    }, "open")
}

} // verus!
