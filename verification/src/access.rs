//! Who may reach the agent's inbound endpoints: only sources inside the
//! cluster's private ranges, and only with a valid proxy ticket for the
//! workload or scope asked for.
use vstd::prelude::*;
use crate::ticket::{opt_view, ticket_verdict, verify_ticket, TicketError};

verus! {

/// The scope a ticket names to open the live node metrics stream.
pub const METRICS_TICKET_SCOPE: &'static str = "__node_metrics__";
/// The scope a ticket names to reboot or power off the node.
pub const POWER_TICKET_SCOPE: &'static str = "__power__";
/// The scope a ticket names to list the node's disks.
pub const DISKS_TICKET_SCOPE: &'static str = "__disks__";

/// The address a request came from.
#[derive(Debug, Clone, Copy)]
pub enum SourceAddr {
    V4([u8; 4]),
    V6([u16; 8]),
}

/// Loopback, or an IPv4 address in 10/8, 172.16/12 or 192.168/16.
pub open spec fn internal_source(addr: SourceAddr) -> bool {
    match addr {
        SourceAddr::V4(o) => {
            ||| o[0] == 127
            ||| o[0] == 10
            ||| (o[0] == 172 && 16 <= o[1] <= 31)
            ||| (o[0] == 192 && o[1] == 168)
        },
        SourceAddr::V6(s) => {
            &&& s[0] == 0 && s[1] == 0 && s[2] == 0 && s[3] == 0
            &&& s[4] == 0 && s[5] == 0 && s[6] == 0 && s[7] == 1
        },
    }
}

/// Whether a request from `addr` may be served at all.
pub fn is_internal_source(addr: &SourceAddr) -> (b: bool)
    ensures
        b == internal_source(*addr),
{
    match addr {
        SourceAddr::V4(o) => {
            o[0] == 127 || o[0] == 10 || (o[0] == 172 && o[1] >= 16 && o[1] <= 31) || (o[0] == 192
                && o[1] == 168)
        },
        SourceAddr::V6(s) => {
            s[0] == 0 && s[1] == 0 && s[2] == 0 && s[3] == 0 && s[4] == 0 && s[5] == 0 && s[6]
                == 0 && s[7] == 1
        },
    }
}

/// An HTTP refusal: its status code and the text of its body.
pub struct Refusal {
    pub status: u16,
    pub message: String,
}

/// The refusal an inbound request gets, if any: 403 `source not allowed`
/// from outside the private ranges; otherwise 401 with the ticket's refusal
/// text when the ticket does not check.
pub open spec fn admission(
    internal: bool,
    verdict: Result<(), TicketError>,
) -> Option<(u16, Seq<char>)> {
    if !internal {
        Some((403u16, "source not allowed"@))
    } else {
        match verdict {
            Ok(()) => None,
            Err(e) => Some((401u16, e.text())),
        }
    }
}

/// Admits or refuses an inbound request from `source` that asks for
/// `workload_id` (or a scope) on the agent `agent_id`, carrying the ticket
/// header `header`, checked against the trusted CA `ca_pem` at time `now`.
pub fn admit_request(
    source: &SourceAddr,
    header: Option<&str>,
    ca_pem: Option<&str>,
    workload_id: &str,
    agent_id: &str,
    now: i64,
) -> (r: Result<(), Refusal>)
    ensures
        match r {
            Ok(()) => admission(
                internal_source(*source),
                ticket_verdict(opt_view(header), opt_view(ca_pem), workload_id@, agent_id@, now as int),
            ) is None,
            Err(f) => admission(
                internal_source(*source),
                ticket_verdict(opt_view(header), opt_view(ca_pem), workload_id@, agent_id@, now as int),
            ) == Some((f.status, f.message@)),
        },
{
    if !is_internal_source(source) {
        return Err(Refusal { status: 403, message: String::from_str("source not allowed") });
    }
    match verify_ticket(header, ca_pem, workload_id, agent_id, now) {
        Ok(()) => Ok(()),
        Err(e) => Err(Refusal { status: 401, message: e.message() }),
    }
}

/// What a power request asks the node to do.
#[derive(Debug, Clone, Copy, PartialEq, Eq, Structural)]
pub enum PowerAction {
    Reboot,
    Poweroff,
}

impl PowerAction {
    pub open spec fn verb(self) -> Seq<char> {
        match self {
            PowerAction::Reboot => "reboot"@,
            PowerAction::Poweroff => "poweroff"@,
        }
    }

    /// The `systemctl` verb that carries the action out.
    pub fn systemctl_verb(&self) -> (r: &'static str)
        ensures
            r@ == self.verb(),
    {
        match self {
            PowerAction::Reboot => "reboot",
            PowerAction::Poweroff => "poweroff",
        }
    }
}

/// The action a power request's `action` field names: the agent reads the
/// field by the snake_case names of its actions, `reboot` and `poweroff`;
/// any other name is not an action.
pub open spec fn action_named(name: Seq<char>) -> Option<PowerAction> {
    if name == "reboot"@ {
        Some(PowerAction::Reboot)
    } else if name == "poweroff"@ {
        Some(PowerAction::Poweroff)
    } else {
        None
    }
}

/// A power request's body.
pub struct PowerRequest {
    pub action: PowerAction,
}

/// The answer to a power request once `systemctl` has run: 204 when it
/// succeeded, otherwise 500 with what it wrote to stderr.
pub fn power_outcome(succeeded: bool, stderr: String) -> (r: Result<u16, Refusal>)
    ensures
        succeeded ==> r == Ok::<u16, Refusal>(204u16),
        !succeeded ==> (r matches Err(f) && f.status == 500 && f.message@ == stderr@),
{
    if succeeded {
        Ok(204)
    } else {
        Err(Refusal { status: 500, message: stderr })
    }
}

} // verus!
