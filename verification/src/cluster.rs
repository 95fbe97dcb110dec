//! The gateway's view of the cluster: which agents are physical nodes,
//! what the cluster totals are, what the agents report, and which workloads
//! a drained node gives up.
use vstd::prelude::*;
use crate::text::{all_hex, all_ascii_hexdigits, chars_of, str_eq, trim, trim_ws};

verus! {

/// A host name that is a container's short id (12 hex digits once
/// trimmed): such agents run in containers and are not nodes of their own.
pub open spec fn container_id_like(hostname: Seq<char>) -> bool {
    trim_ws(hostname).len() == 12 && all_hex(trim_ws(hostname))
}

/// Whether the host name looks like a container id (see
/// `container_id_like`).
pub fn is_container_id(hostname: &str) -> (b: bool)
    ensures
        b == container_id_like(hostname@),
{
    let t = trim(&chars_of(hostname));
    t.len() == 12 && all_ascii_hexdigits(&t)
}

/// The indexes, in order, of the agents a listing shows: those whose host
/// name is not a container id (see `container_id_like`).
pub fn listed_agents(hostnames: &Vec<String>) -> (r: Vec<usize>)
    ensures
        r@.map_values(|i: usize| i as int) == crate::marketplace::unset_indexes(
            hostnames@.map_values(|h: String| container_id_like(h@)),
        ),
{
    let mut flags: Vec<bool> = Vec::new();
    let mut k: usize = 0;
    while k < hostnames.len()
        invariant
            k <= hostnames.len(),
            flags@ =~= hostnames@.take(k as int).map_values(|h: String| container_id_like(h@)),
        decreases hostnames.len() - k,
    {
        flags.push(is_container_id(hostnames[k].as_str()));
        k = k + 1;
    }
    assert(hostnames@.take(hostnames@.len() as int) =~= hostnames@);
    crate::marketplace::templates_to_insert(&flags)
}

/// An agent as the cluster statistics read it: its host name and status,
/// and its latest metrics (each absent when not reported).
pub struct NodeSample {
    pub hostname: String,
    pub status: String,
    pub cpu_cores: Option<i32>,
    pub memory_total_bytes: Option<i64>,
    pub memory_used_bytes: Option<i64>,
    pub disk_total_bytes: Option<i64>,
    pub disk_used_bytes: Option<i64>,
}

/// The integer totals of the cluster statistics.
#[derive(Debug, Clone, Copy, PartialEq, Eq, Structural)]
pub struct ClusterTotals {
    pub node_count: usize,
    pub online_count: usize,
    pub total_cpu_cores: i64,
    pub total_memory_bytes: i64,
    pub used_memory_bytes: i64,
    pub total_disk_bytes: i64,
    pub used_disk_bytes: i64,
}

/// The nodes among the agents: those whose host name is not a container id.
pub open spec fn physical(s: Seq<NodeSample>) -> Seq<NodeSample> {
    s.filter(|n: NodeSample| !container_id_like(n.hostname@))
}

pub open spec fn opt_val(o: Option<i64>) -> int {
    match o {
        Some(v) => v as int,
        None => 0,
    }
}

pub open spec fn cores_val(o: Option<i32>) -> int {
    match o {
        Some(v) => v as int,
        None => 0,
    }
}

/// A sum over the nodes, a value each.
pub open spec fn sum_of(s: Seq<NodeSample>, f: spec_fn(NodeSample) -> int) -> int
    decreases s.len(),
{
    if s.len() == 0 {
        0
    } else {
        sum_of(s.drop_last(), f) + f(s.last())
    }
}

/// The number of nodes whose status is `online`.
pub open spec fn online_of(s: Seq<NodeSample>) -> int
    decreases s.len(),
{
    if s.len() == 0 {
        0
    } else {
        online_of(s.drop_last()) + if s.last().status@ == "online"@ { 1int } else { 0int }
    }
}

pub open spec fn f_cores() -> spec_fn(NodeSample) -> int {
    |n: NodeSample| cores_val(n.cpu_cores)
}

pub open spec fn f_mem_total() -> spec_fn(NodeSample) -> int {
    |n: NodeSample| opt_val(n.memory_total_bytes)
}

pub open spec fn f_mem_used() -> spec_fn(NodeSample) -> int {
    |n: NodeSample| opt_val(n.memory_used_bytes)
}

pub open spec fn f_disk_total() -> spec_fn(NodeSample) -> int {
    |n: NodeSample| opt_val(n.disk_total_bytes)
}

pub open spec fn f_disk_used() -> spec_fn(NodeSample) -> int {
    |n: NodeSample| opt_val(n.disk_used_bytes)
}

/// Every running sum over a prefix of `s` fits an `i64` (the totals are
/// accumulated in `i64`, which must not overflow).
pub open spec fn sums_fit(s: Seq<NodeSample>, f: spec_fn(NodeSample) -> int) -> bool {
    forall|j: int| 0 <= j <= s.len() ==> i64::MIN <= #[trigger] sum_of(s.take(j), f) <= i64::MAX
}

/// The totals over the physical nodes: how many there are and are online,
/// and the sums of their cores, memory and disk (a missing value counting
/// 0).
pub open spec fn totals_of(agents: Seq<NodeSample>) -> ClusterTotals {
    let p = physical(agents);
    ClusterTotals {
        node_count: p.len() as usize,
        online_count: online_of(p) as usize,
        total_cpu_cores: sum_of(p, f_cores()) as i64,
        total_memory_bytes: sum_of(p, f_mem_total()) as i64,
        used_memory_bytes: sum_of(p, f_mem_used()) as i64,
        total_disk_bytes: sum_of(p, f_disk_total()) as i64,
        used_disk_bytes: sum_of(p, f_disk_used()) as i64,
    }
}

proof fn lemma_physical_prefix(s: Seq<NodeSample>, j: int)
    requires
        0 <= j <= s.len(),
    ensures
        physical(s.take(j)).len() <= physical(s).len(),
        physical(s.take(j)) == physical(s).take(physical(s.take(j)).len() as int),
{
    assert(s =~= s.take(j) + s.skip(j));
    Seq::filter_distributes_over_add(s.take(j), s.skip(j), |n: NodeSample| !container_id_like(n.hostname@));
    let a = physical(s.take(j));
    let b = physical(s.skip(j));
    assert((a + b).take(a.len() as int) =~= a);
}

proof fn lemma_online_le_len(s: Seq<NodeSample>)
    ensures
        0 <= online_of(s) <= s.len(),
    decreases s.len(),
{
    if s.len() > 0 {
        lemma_online_le_len(s.drop_last());
    }
}

/// Computes the cluster totals (see `totals_of`) and the physical nodes, in
/// order.
pub fn cluster_totals(agents: Vec<NodeSample>) -> (r: (ClusterTotals, Vec<NodeSample>))
    requires
        sums_fit(physical(agents@), f_cores()),
        sums_fit(physical(agents@), f_mem_total()),
        sums_fit(physical(agents@), f_mem_used()),
        sums_fit(physical(agents@), f_disk_total()),
        sums_fit(physical(agents@), f_disk_used()),
    ensures
        r.0 == totals_of(agents@),
        r.1@ == physical(agents@),
{
    broadcast use vstd::std_specs::vec::axiom_spec_into_iter;
    let ghost s = agents@;
    let ghost p = physical(s);
    let total = agents.len();
    assert(s.len() == total);
    let mut nodes: Vec<NodeSample> = Vec::new();
    let mut online: usize = 0;
    let mut cores: i64 = 0;
    let mut mem_total: i64 = 0;
    let mut mem_used: i64 = 0;
    let mut disk_total: i64 = 0;
    let mut disk_used: i64 = 0;
    for n in it: agents.into_iter()
        invariant
            it.seq() == s,
            s.len() <= usize::MAX,
            p == physical(s),
            nodes@ == physical(s.take(it.index() as int)),
            nodes@.len() <= it.index(),
            it.index() <= s.len(),
            online as int == online_of(nodes@),
            cores as int == sum_of(nodes@, f_cores()),
            mem_total as int == sum_of(nodes@, f_mem_total()),
            mem_used as int == sum_of(nodes@, f_mem_used()),
            disk_total as int == sum_of(nodes@, f_disk_total()),
            disk_used as int == sum_of(nodes@, f_disk_used()),
            sums_fit(p, f_cores()),
            sums_fit(p, f_mem_total()),
            sums_fit(p, f_mem_used()),
            sums_fit(p, f_disk_total()),
            sums_fit(p, f_disk_used()),
    {
        let ghost i = it.index() as int;
        assert(i < s.len());
        proof {
            lemma_physical_prefix(s, i + 1);
        }
        assert(s.take(i + 1) =~= s.take(i).push(n));
        proof {
            s.take(i).lemma_filter_push(n, |n: NodeSample| !container_id_like(n.hostname@));
            lemma_online_le_len(nodes@);
        }
        if !is_container_id(n.hostname.as_str()) {
            let ghost before = nodes@;
            let ghost k = before.len() as int;
            assert(physical(s.take(i + 1)) == before.push(n));
            assert(p.take(k + 1) == before.push(n));
            assert(p.take(k + 1).drop_last() =~= p.take(k));
            assert(before.push(n).drop_last() =~= before);
            if str_eq(n.status.as_str(), "online") {
                online = online + 1;
            }
            let c: i64 = match n.cpu_cores {
                Some(v) => v as i64,
                None => 0,
            };
            let mt: i64 = match n.memory_total_bytes {
                Some(v) => v,
                None => 0,
            };
            let mu: i64 = match n.memory_used_bytes {
                Some(v) => v,
                None => 0,
            };
            let dt: i64 = match n.disk_total_bytes {
                Some(v) => v,
                None => 0,
            };
            let du: i64 = match n.disk_used_bytes {
                Some(v) => v,
                None => 0,
            };
            assert(sum_of(p.take(k + 1), f_cores()) == sum_of(before, f_cores()) + c);
            assert(sum_of(p.take(k + 1), f_mem_total()) == sum_of(before, f_mem_total()) + mt);
            assert(sum_of(p.take(k + 1), f_mem_used()) == sum_of(before, f_mem_used()) + mu);
            assert(sum_of(p.take(k + 1), f_disk_total()) == sum_of(before, f_disk_total()) + dt);
            assert(sum_of(p.take(k + 1), f_disk_used()) == sum_of(before, f_disk_used()) + du);
            cores = cores + c;
            mem_total = mem_total + mt;
            mem_used = mem_used + mu;
            disk_total = disk_total + dt;
            disk_used = disk_used + du;
            nodes.push(n);
        }
    }
    proof {
        assert(s.take(s.len() as int) =~= s);
        lemma_online_le_len(nodes@);
    }
    let totals = ClusterTotals {
        node_count: nodes.len(),
        online_count: online,
        total_cpu_cores: cores,
        total_memory_bytes: mem_total,
        used_memory_bytes: mem_used,
        total_disk_bytes: disk_total,
        used_disk_bytes: disk_used,
    };
    (totals, nodes)
}

/// The agents' counts by status, as the registry reports them.
pub struct AgentStatistics {
    pub total: usize,
    pub online: usize,
    pub offline: usize,
    pub degraded: usize,
}

/// A workload on a node being drained: its id and status.
pub struct DrainCandidate {
    pub id: String,
    pub status: String,
}

/// The workloads a drained node gives up: those `scheduled` or `running`,
/// in order.
pub open spec fn to_reschedule(ws: Seq<DrainCandidate>) -> Seq<Seq<char>> {
    ws.filter(|w: DrainCandidate| w.status@ == "scheduled"@ || w.status@ == "running"@).map_values(
        |w: DrainCandidate| w.id@,
    )
}

/// Picks the workloads to reschedule off a drained node (see
/// `to_reschedule`).
pub fn workloads_to_reschedule(ws: &Vec<DrainCandidate>) -> (r: Vec<String>)
    ensures
        crate::assignments::string_views(r@) == to_reschedule(ws@),
{
    let mut out: Vec<String> = Vec::new();
    let mut k: usize = 0;
    while k < ws.len()
        invariant
            k <= ws.len(),
            crate::assignments::string_views(out@) == to_reschedule(ws@.take(k as int)),
        decreases ws.len() - k,
    {
        let w = &ws[k];
        let ghost t = ws@.take(k as int);
        assert(ws@.take(k + 1) =~= t.push(*w));
        proof {
            t.lemma_filter_push(*w, |w: DrainCandidate| w.status@ == "scheduled"@ || w.status@ == "running"@);
        }
        let ghost f = t.filter(|w: DrainCandidate| w.status@ == "scheduled"@ || w.status@ == "running"@);
        if str_eq(w.status.as_str(), "scheduled") || str_eq(w.status.as_str(), "running") {
            let ghost before = out@;
            out.push(w.id.clone());
            assert(crate::assignments::string_views(out@) =~= crate::assignments::string_views(before).push(w.id@));
            assert(f.push(*w).map_values(|w: DrainCandidate| w.id@) =~= f.map_values(|w: DrainCandidate| w.id@).push(w.id@));
        }
        k = k + 1;
    }
    assert(ws@.take(ws@.len() as int) =~= ws@);
    out
}

/// The integer metrics an agent reports.
#[derive(Debug, Clone, Copy, PartialEq, Eq, Structural)]
pub struct ReportedCounters {
    pub cpu_cores: Option<u32>,
    pub cpu_threads: Option<u32>,
    pub memory_total_bytes: Option<u64>,
    pub memory_used_bytes: Option<u64>,
    pub disk_total_bytes: Option<u64>,
    pub disk_used_bytes: Option<u64>,
    pub network_rx_bytes: Option<u64>,
    pub network_tx_bytes: Option<u64>,
    pub uptime_seconds: Option<u64>,
}

/// The same metrics as the database stores them: each count reinterpreted
/// as the signed type of its width (values above the signed range wrap).
#[derive(Debug, Clone, Copy, PartialEq, Eq, Structural)]
pub struct StoredCounters {
    pub cpu_cores: Option<i32>,
    pub cpu_threads: Option<i32>,
    pub memory_total_bytes: Option<i64>,
    pub memory_used_bytes: Option<i64>,
    pub disk_total_bytes: Option<i64>,
    pub disk_used_bytes: Option<i64>,
    pub network_rx_bytes: Option<i64>,
    pub network_tx_bytes: Option<i64>,
    pub uptime_seconds: Option<i64>,
}

pub open spec fn signed32(o: Option<u32>) -> Option<i32> {
    match o {
        Some(v) => Some(v as i32),
        None => None,
    }
}

pub open spec fn signed64(o: Option<u64>) -> Option<i64> {
    match o {
        Some(v) => Some(v as i64),
        None => None,
    }
}

fn to_i32(o: Option<u32>) -> (r: Option<i32>)
    ensures
        r == signed32(o),
{
    match o {
        Some(v) => Some(v as i32),
        None => None,
    }
}

fn to_i64(o: Option<u64>) -> (r: Option<i64>)
    ensures
        r == signed64(o),
{
    match o {
        Some(v) => Some(v as i64),
        None => None,
    }
}

/// Converts reported metrics for storage (see `StoredCounters`).
pub fn stored_counters(m: &ReportedCounters) -> (r: StoredCounters)
    ensures
        r == (StoredCounters {
            cpu_cores: signed32(m.cpu_cores),
            cpu_threads: signed32(m.cpu_threads),
            memory_total_bytes: signed64(m.memory_total_bytes),
            memory_used_bytes: signed64(m.memory_used_bytes),
            disk_total_bytes: signed64(m.disk_total_bytes),
            disk_used_bytes: signed64(m.disk_used_bytes),
            network_rx_bytes: signed64(m.network_rx_bytes),
            network_tx_bytes: signed64(m.network_tx_bytes),
            uptime_seconds: signed64(m.uptime_seconds),
        }),
{
    StoredCounters {
        cpu_cores: to_i32(m.cpu_cores),
        cpu_threads: to_i32(m.cpu_threads),
        memory_total_bytes: to_i64(m.memory_total_bytes),
        memory_used_bytes: to_i64(m.memory_used_bytes),
        disk_total_bytes: to_i64(m.disk_total_bytes),
        disk_used_bytes: to_i64(m.disk_used_bytes),
        network_rx_bytes: to_i64(m.network_rx_bytes),
        network_tx_bytes: to_i64(m.network_tx_bytes),
        uptime_seconds: to_i64(m.uptime_seconds),
    }
}

/// The gateway's own agent record: its host name (`localhost` when the
/// system reports none) and its name, `CSF-Core-` and the host name.
pub fn self_agent_identity(host_name: Option<String>) -> (r: (String, String))
    ensures
        r.0@ == match host_name {
            Some(h) => h@,
            None => "localhost"@,
        },
        r.1@ == "CSF-Core-"@ + r.0@,
{
    let host = match host_name {
        Some(h) => h,
        None => String::from_str("localhost"),
    };
    let name = String::from_str("CSF-Core-").concat(host.as_str());
    (host, name)
}

} // verus!
