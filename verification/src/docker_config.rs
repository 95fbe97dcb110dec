//! How a resource's configuration becomes a Docker container's settings:
//! its exposed ports and their host bindings, its environment and its bind
//! mounts.
use vstd::prelude::*;
use crate::assignments::string_views;
use crate::numparse::{decimal, format_u64};
use crate::text::str_eq;

verus! {

/// An entry of the configuration's `ports`: the container port and the host
/// port, each absent when missing or not an unsigned integer.
#[derive(Debug, Clone, Copy, PartialEq, Eq, Structural)]
pub struct PortEntry {
    pub container: Option<u64>,
    pub host: Option<u64>,
}

/// An entry of the configuration's `volumes`: the host path and the
/// container path, each absent when missing or not a string.
pub struct VolumeEntry {
    pub host: Option<String>,
    pub container: Option<String>,
}

/// The container settings drawn from a configuration; a list is `None` when
/// it would be empty.
pub struct ContainerSettings {
    pub exposed_ports: Option<Vec<String>>,
    /// Each bound container port with its host port.
    pub port_bindings: Option<Vec<(String, String)>>,
    /// The host address every port binding listens on.
    pub binding_host_ip: String,
    pub env: Option<Vec<String>>,
    pub binds: Option<Vec<String>>,
    /// The container's restart policy.
    pub restart_policy: String,
}

/// The host address port bindings listen on: every address.
pub const BINDING_HOST_IP: &'static str = "0.0.0.0";

/// The restart policy of a created container: restart unless it was
/// stopped.
pub const RESTART_POLICY: &'static str = "unless-stopped";

/// Docker's name for a TCP port of the container.
pub open spec fn port_key(port: u64) -> Seq<char> {
    decimal(port as nat) + "/tcp"@
}

/// The entry exposes the key `k`.
pub open spec fn exposes_key(p: PortEntry, k: Seq<char>) -> bool {
    p.container matches Some(c) && port_key(c) == k
}

/// Some port entry exposes the key `k`.
pub open spec fn exposes(ports: Seq<PortEntry>, k: Seq<char>) -> bool {
    exists|i: int| 0 <= i < ports.len() && exposes_key(#[trigger] ports[i], k)
}

/// `v` is the decimal text of the bound host port.
pub open spec fn shows_host(h: Option<u64>, v: Seq<char>) -> bool {
    h matches Some(x) && v == decimal(x as nat)
}

/// The host port the key `k` is bound to: that of the last entry with both
/// ports whose container port has the key `k`.
pub open spec fn bound_host(ports: Seq<PortEntry>, k: Seq<char>) -> Option<u64>
    decreases ports.len(),
{
    if ports.len() == 0 {
        None
    } else {
        match (ports.last().container, ports.last().host) {
            (Some(c), Some(h)) => if port_key(c) == k {
                Some(h)
            } else {
                bound_host(ports.drop_last(), k)
            },
            _ => bound_host(ports.drop_last(), k),
        }
    }
}

pub open spec fn no_duplicates(v: Seq<Seq<char>>) -> bool {
    forall|i: int, j: int| 0 <= i < j < v.len() ==> v[i] != v[j]
}

pub open spec fn pair_views(v: Seq<(String, String)>) -> Seq<(Seq<char>, Seq<char>)> {
    v.map_values(|p: (String, String)| (p.0@, p.1@))
}

/// The exposed ports: each key once, exactly the keys some entry exposes.
pub open spec fn exposed_ok(ports: Seq<PortEntry>, out: Seq<Seq<char>>) -> bool {
    &&& no_duplicates(out)
    &&& forall|k: Seq<char>| out.contains(k) <==> exposes(ports, k)
}

/// The bindings: each key once, exactly the keys some entry binds, each to
/// the last host port given for it.
pub open spec fn bindings_ok(ports: Seq<PortEntry>, out: Seq<(Seq<char>, Seq<char>)>) -> bool {
    &&& no_duplicates(out.map_values(|p: (Seq<char>, Seq<char>)| p.0))
    &&& forall|i: int| 0 <= i < out.len() ==> shows_host(bound_host(ports, (#[trigger] out[i]).0), out[i].1)
    &&& forall|k: Seq<char>| bound_host(ports, k) is Some ==> exists|i: int| 0 <= i < out.len() && (#[trigger] out[i]).0 == k
}

fn key_of(port: u64) -> (r: String)
    ensures
        r@ == port_key(port),
{
    format_u64(port).concat("/tcp")
}

fn index_of(v: &Vec<String>, k: &str) -> (r: Option<usize>)
    ensures
        match r {
            Some(i) => i < v.len() && v@[i as int]@ == k@,
            None => !string_views(v@).contains(k@),
        },
{
    let mut i: usize = 0;
    while i < v.len()
        invariant
            i <= v.len(),
            forall|j: int| 0 <= j < i ==> (#[trigger] v@[j])@ != k@,
        decreases v.len() - i,
    {
        if str_eq(v[i].as_str(), k) {
            return Some(i);
        }
        i = i + 1;
    }
    proof {
        if string_views(v@).contains(k@) {
            let j = choose|j: int| 0 <= j < v@.len() && string_views(v@)[j] == k@;
            assert(v@[j]@ == k@);
        }
    }
    None
}

fn binding_index(v: &Vec<(String, String)>, k: &str) -> (r: Option<usize>)
    ensures
        match r {
            Some(i) => i < v.len() && v@[i as int].0@ == k@,
            None => forall|j: int| 0 <= j < v.len() ==> (#[trigger] v@[j]).0@ != k@,
        },
{
    let mut i: usize = 0;
    while i < v.len()
        invariant
            i <= v.len(),
            forall|j: int| 0 <= j < i ==> (#[trigger] v@[j]).0@ != k@,
        decreases v.len() - i,
    {
        if str_eq(v[i].0.as_str(), k) {
            return Some(i);
        }
        i = i + 1;
    }
    None
}

/// The exposed ports and host bindings of the configuration's port
/// entries (see `exposed_ok` and `bindings_ok`).
pub fn port_settings(ports: &Vec<PortEntry>) -> (r: (Vec<String>, Vec<(String, String)>))
    ensures
        exposed_ok(ports@, string_views(r.0@)),
        bindings_ok(ports@, pair_views(r.1@)),
{
    let mut exposed: Vec<String> = Vec::new();
    let mut bindings: Vec<(String, String)> = Vec::new();
    let mut k: usize = 0;
    while k < ports.len()
        invariant
            k <= ports.len(),
            exposed_ok(ports@.take(k as int), string_views(exposed@)),
            bindings_ok(ports@.take(k as int), pair_views(bindings@)),
        decreases ports.len() - k,
    {
        let e = ports[k];
        let ghost t = ports@.take(k as int);
        let ghost t1 = ports@.take(k + 1);
        assert(t1.drop_last() =~= t);
        assert(t1.last() == e);
        assert forall|q: Seq<char>| #[trigger] exposes(t, q) implies exposes(t1, q) by {
            let i = choose|i: int| 0 <= i < t.len() && exposes_key(#[trigger] t[i], q);
            assert(t1[i] == t[i]);
        }
        match e.container {
            Some(c) => {
                let key = key_of(c);
                let ghost ev = string_views(exposed@);
                assert(exposes_key(t1[k as int], key@));
                match index_of(&exposed, key.as_str()) {
                    None => {
                        exposed.push(key.clone());
                        assert(string_views(exposed@) =~= ev.push(key@));
                        assert(string_views(exposed@)[ev.len() as int] == key@);
                    },
                    Some(j) => {
                        assert(ev[j as int] == key@);
                    },
                }
                let ghost nv = string_views(exposed@);
                assert(nv.contains(key@));
                assert forall|q: Seq<char>| ev.contains(q) implies nv.contains(q) by {
                    let j = choose|j: int| 0 <= j < ev.len() && ev[j] == q;
                    assert(nv[j] == q);
                }
                assert forall|q: Seq<char>| nv.contains(q) <==> exposes(t1, q) by {
                    if exposes(t1, q) {
                        let i = choose|i: int| 0 <= i < t1.len() && exposes_key(#[trigger] t1[i], q);
                        if i < k {
                            assert(t[i] == t1[i]);
                            assert(exposes(t, q));
                            assert(ev.contains(q));
                        } else {
                            assert(q == key@);
                        }
                    }
                    if nv.contains(q) {
                        if q != key@ {
                            let j = choose|j: int| 0 <= j < nv.len() && nv[j] == q;
                            if j < ev.len() {
                                assert(ev[j] == q);
                                assert(ev.contains(q));
                            }
                        }
                    }
                }
                assert forall|i: int, j: int| 0 <= i < j < nv.len() implies nv[i] != nv[j] by {
                    if j == ev.len() {
                        assert(ev[i] == nv[i]);
                    }
                }
                match e.host {
                    Some(h) => {
                        let host = format_u64(h);
                        let ghost bv = pair_views(bindings@);
                        let ghost bk = bv.map_values(|p: (Seq<char>, Seq<char>)| p.0);
                        assert(bound_host(t1, key@) == Some(h));
                        assert forall|q: Seq<char>| q != key@ implies bound_host(t1, q) == bound_host(t, q) by {}
                        match binding_index(&bindings, key.as_str()) {
                            Some(i0) => {
                                let old_key = bindings[i0].0.clone();
                                bindings.set(i0, (old_key, host));
                                let ghost nb = pair_views(bindings@);
                                assert(nb =~= bv.update(i0 as int, (key@, decimal(h as nat))));
                                assert(nb.map_values(|p: (Seq<char>, Seq<char>)| p.0) =~= bk);
                                assert forall|i: int| 0 <= i < nb.len() implies shows_host(bound_host(t1, (#[trigger] nb[i]).0), nb[i].1) by {
                                    if i != i0 {
                                        assert(nb[i] == bv[i]);
                                        if bv[i].0 == key@ {
                                            assert(bk[i] == bk[i0 as int]);
                                        }
                                    }
                                }
                                assert forall|q: Seq<char>| bound_host(t1, q) is Some implies exists|i: int| 0 <= i < nb.len() && (#[trigger] nb[i]).0 == q by {
                                    if q != key@ {
                                        let i = choose|i: int| 0 <= i < bv.len() && (#[trigger] bv[i]).0 == q;
                                        assert(nb[i].0 == q);
                                    } else {
                                        assert(nb[i0 as int].0 == q);
                                    }
                                }
                            },
                            None => {
                                bindings.push((key, host));
                                let ghost nb = pair_views(bindings@);
                                assert(nb =~= bv.push((port_key(c), decimal(h as nat))));
                                assert(nb.map_values(|p: (Seq<char>, Seq<char>)| p.0) =~= bk.push(port_key(c)));
                                assert forall|i: int, j: int| 0 <= i < j < bk.push(port_key(c)).len() implies bk.push(port_key(c))[i] != bk.push(port_key(c))[j] by {
                                    if j == bk.len() {
                                        assert(bk[i] == bv[i].0);
                                    }
                                }
                                assert forall|i: int| 0 <= i < nb.len() implies shows_host(bound_host(t1, (#[trigger] nb[i]).0), nb[i].1) by {
                                    if i < bv.len() {
                                        assert(nb[i] == bv[i]);
                                    }
                                }
                                assert forall|q: Seq<char>| bound_host(t1, q) is Some implies exists|i: int| 0 <= i < nb.len() && (#[trigger] nb[i]).0 == q by {
                                    if q != key@ {
                                        let i = choose|i: int| 0 <= i < bv.len() && (#[trigger] bv[i]).0 == q;
                                        assert(nb[i].0 == q);
                                    } else {
                                        assert(nb[bv.len() as int].0 == q);
                                    }
                                }
                            },
                        }
                    },
                    None => {
                        assert forall|q: Seq<char>| bound_host(t1, q) == bound_host(t, q) by {}
                    },
                }
            },
            None => {
                assert forall|q: Seq<char>| bound_host(t1, q) == bound_host(t, q) by {}
                assert forall|q: Seq<char>| exposes(t1, q) implies exposes(t, q) by {
                    let i = choose|i: int| 0 <= i < t1.len() && exposes_key(#[trigger] t1[i], q);
                    assert(t[i] == t1[i]);
                }
            },
        }
        k = k + 1;
    }
    assert(ports@.take(ports@.len() as int) =~= ports@);
    (exposed, bindings)
}

/// The environment: `KEY=value` for each entry whose value is a string, in
/// order.
pub open spec fn env_lines(env: Seq<(Seq<char>, Option<Seq<char>>)>) -> Seq<Seq<char>>
    decreases env.len(),
{
    if env.len() == 0 {
        Seq::empty()
    } else {
        let rest = env_lines(env.drop_last());
        match env.last().1 {
            Some(v) => rest.push(env.last().0 + "="@ + v),
            None => rest,
        }
    }
}

pub open spec fn env_views(env: Seq<(String, Option<String>)>) -> Seq<(Seq<char>, Option<Seq<char>>)> {
    env.map_values(|e: (String, Option<String>)| (e.0@, crate::workload_fsm::opt_string(e.1)))
}

/// The bind mounts: `host:container` for each entry with both paths, in
/// order.
pub open spec fn bind_lines(vols: Seq<VolumeEntry>) -> Seq<Seq<char>>
    decreases vols.len(),
{
    if vols.len() == 0 {
        Seq::empty()
    } else {
        let rest = bind_lines(vols.drop_last());
        match (vols.last().host, vols.last().container) {
            (Some(h), Some(c)) => rest.push(h@ + ":"@ + c@),
            _ => rest,
        }
    }
}

/// Builds the environment (see `env_lines`).
pub fn env_settings(env: &Vec<(String, Option<String>)>) -> (r: Vec<String>)
    ensures
        string_views(r@) == env_lines(env_views(env@)),
{
    let mut out: Vec<String> = Vec::new();
    let mut k: usize = 0;
    while k < env.len()
        invariant
            k <= env.len(),
            string_views(out@) == env_lines(env_views(env@).take(k as int)),
        decreases env.len() - k,
    {
        let ghost t1 = env_views(env@).take(k + 1);
        assert(t1.drop_last() =~= env_views(env@).take(k as int));
        assert(t1.last() == (env@[k as int].0@, crate::workload_fsm::opt_string(env@[k as int].1)));
        match &env[k].1 {
            Some(v) => {
                let ghost before = out@;
                out.push(env[k].0.clone().concat("=").concat(v.as_str()));
                assert(string_views(out@) =~= string_views(before).push(env@[k as int].0@ + "="@ + v@));
            },
            None => {},
        }
        k = k + 1;
    }
    assert(env_views(env@).take(env@.len() as int) =~= env_views(env@));
    out
}

/// Builds the bind mounts (see `bind_lines`).
pub fn bind_settings(volumes: &Vec<VolumeEntry>) -> (r: Vec<String>)
    ensures
        string_views(r@) == bind_lines(volumes@),
{
    let mut out: Vec<String> = Vec::new();
    let mut k: usize = 0;
    while k < volumes.len()
        invariant
            k <= volumes.len(),
            string_views(out@) == bind_lines(volumes@.take(k as int)),
        decreases volumes.len() - k,
    {
        assert(volumes@.take(k + 1).drop_last() =~= volumes@.take(k as int));
        assert(volumes@.take(k + 1).last() == volumes@[k as int]);
        match (&volumes[k].host, &volumes[k].container) {
            (Some(h), Some(c)) => {
                let ghost before = out@;
                out.push(h.clone().concat(":").concat(c.as_str()));
                assert(string_views(out@) =~= string_views(before).push(h@ + ":"@ + c@));
            },
            _ => {},
        }
        k = k + 1;
    }
    assert(volumes@.take(volumes@.len() as int) =~= volumes@);
    out
}

fn none_if_empty<T>(v: Vec<T>) -> (r: Option<Vec<T>>)
    ensures
        v@.len() == 0 ==> r is None,
        v@.len() > 0 ==> r == Some(v),
{
    if v.len() == 0 {
        None
    } else {
        Some(v)
    }
}

/// The container settings of a configuration: its port entries, its
/// environment entries (`None` for a value that is not a string) and its
/// volume entries; each list that comes out empty is left out. Port
/// bindings listen on `BINDING_HOST_IP`, and the container restarts by
/// `RESTART_POLICY`.
pub fn container_settings(
    ports: &Vec<PortEntry>,
    env: &Vec<(String, Option<String>)>,
    volumes: &Vec<VolumeEntry>,
) -> (r: ContainerSettings)
    ensures
        match r.exposed_ports {
            Some(v) => v@.len() > 0 && exposed_ok(ports@, string_views(v@)),
            None => forall|q: Seq<char>| !exposes(ports@, q),
        },
        match r.port_bindings {
            Some(v) => v@.len() > 0 && bindings_ok(ports@, pair_views(v@)),
            None => forall|q: Seq<char>| bound_host(ports@, q) is None,
        },
        match r.env {
            Some(v) => v@.len() > 0 && string_views(v@) == env_lines(env_views(env@)),
            None => env_lines(env_views(env@)).len() == 0,
        },
        match r.binds {
            Some(v) => v@.len() > 0 && string_views(v@) == bind_lines(volumes@),
            None => bind_lines(volumes@).len() == 0,
        },
        r.binding_host_ip@ == "0.0.0.0"@,
        r.restart_policy@ == "unless-stopped"@,
{
    let (exposed, bindings) = port_settings(ports);
    let e = env_settings(env);
    let b = bind_settings(volumes);
    proof {
        if exposed@.len() == 0 {
            assert forall|q: Seq<char>| !exposes(ports@, q) by {
                if exposes(ports@, q) {
                    assert(string_views(exposed@).contains(q));
                }
            }
        }
        if bindings@.len() == 0 {
            assert forall|q: Seq<char>| bound_host(ports@, q) is None by {
                if bound_host(ports@, q) is Some {
                    let i = choose|i: int| 0 <= i < pair_views(bindings@).len() && (#[trigger] pair_views(bindings@)[i]).0 == q;
                }
            }
        }
    }
    ContainerSettings {
        exposed_ports: none_if_empty(exposed),
        port_bindings: none_if_empty(bindings),
        env: none_if_empty(e),
        binds: none_if_empty(b),
        binding_host_ip: String::from_str(BINDING_HOST_IP),
        restart_policy: String::from_str(RESTART_POLICY),
    }
}

/// What is to be done once the container was created (or could not be):
/// start it, or finish with the error.
pub enum LaunchStep {
    StartContainer { container_id: String },
    Finish(Result<String, String>),
}

/// A created container is started next; a failed creation ends the launch
/// with its error.
pub fn after_create(created: Result<String, String>) -> (r: LaunchStep)
    ensures
        match created {
            Ok(id) => r matches LaunchStep::StartContainer { container_id: k } && k@ == id@,
            Err(e) => r matches LaunchStep::Finish(Err(m)) && m@ == e@,
        },
{
    match created {
        Ok(id) => LaunchStep::StartContainer { container_id: id },
        Err(e) => LaunchStep::Finish(Err(e)),
    }
}

/// A started container ends the launch with its id; a failed start with the
/// error.
pub fn after_start(container_id: String, started: Result<(), String>) -> (r: Result<String, String>)
    ensures
        match started {
            Ok(()) => r matches Ok(k) && k@ == container_id@,
            Err(e) => r matches Err(m) && m@ == e@,
        },
{
    match started {
        Ok(()) => Ok(container_id),
        Err(e) => Err(e),
    }
}

} // verus!
