//! What the registry assigns to an agent, and the bookkeeping the agent keeps
//! about it between reconcile ticks: which assignments are still to be
//! carried out, the device a mapped volume gets, the resource groups they
//! span, which running workloads are no longer wanted, and the statuses
//! reported back.
use vstd::prelude::*;
use crate::order::{lex_compare, lex_lt, lemma_lex_total, lemma_lex_transitive, lemma_lex_irreflexive};
use crate::text::{chars_of, str_eq, string_from, trim, trim_char, trim_matches, trim_ws, utf8_decode};
use vstd::utf8::{decode_utf8, valid_utf8};

verus! {

/// A volume assigned to the agent.
pub struct AssignedVolume {
    pub id: String,
    pub name: String,
    pub pool: String,
    pub image_name: String,
    pub status: String,
    pub mapped_device: Option<String>,
}

/// The status of one workload as the agent reports it in its heartbeat.
pub struct ContainerStatus {
    pub workload_id: String,
    pub container_id: String,
    pub status: String,
}

/// A volume a workload wants mounted, and where.
pub struct WorkloadVolumeMount {
    pub volume_id: String,
    pub mount_path: String,
}

/// A workload assigned to the agent.
pub struct AssignedWorkload {
    pub id: String,
    pub name: String,
    pub image: String,
    pub cpu_millicores: i32,
    pub memory_bytes: i64,
    pub disk_bytes: i64,
    pub env_vars: Option<std::collections::HashMap<String, String>>,
    pub status: String,
    pub container_id: Option<String>,
    pub runtime_class: String,
    pub restart_policy: String,
    pub max_restarts: Option<i32>,
    pub restart_requested: bool,
    pub resource_group_id: Option<String>,
    pub service_name: Option<String>,
    pub resource_group_cidr: Option<String>,
    pub volume_mounts: Option<Vec<WorkloadVolumeMount>>,
}

/// A workload still to be started: scheduled, and no container yet.
pub open spec fn is_pending_workload(w: AssignedWorkload) -> bool {
    w.status@ == "scheduled"@ && w.container_id is None
}

/// A volume still to be mapped: in use, and no device yet.
pub open spec fn is_pending_volume(v: AssignedVolume) -> bool {
    v.status@ == "in_use"@ && v.mapped_device is None
}

pub open spec fn pending_workloads_of(s: Seq<AssignedWorkload>) -> Seq<AssignedWorkload> {
    s.filter(|w: AssignedWorkload| is_pending_workload(w))
}

pub open spec fn pending_volumes_of(s: Seq<AssignedVolume>) -> Seq<AssignedVolume> {
    s.filter(|v: AssignedVolume| is_pending_volume(v))
}

/// The workloads of the registry's answer that are still to be started, in
/// order.
pub fn pending_workloads(all: Vec<AssignedWorkload>) -> (r: Vec<AssignedWorkload>)
    ensures
        r@ == pending_workloads_of(all@),
{
    broadcast use vstd::std_specs::vec::axiom_spec_into_iter;
    let ghost s = all@;
    let mut out: Vec<AssignedWorkload> = Vec::new();
    for w in it: all.into_iter()
        invariant
            it.seq() == s,
            out@ == pending_workloads_of(s.take(it.index() as int)),
    {
        let ghost i = it.index() as int;
        assert(s.take(i + 1) =~= s.take(i).push(w));
        proof {
            s.take(i).lemma_filter_push(w, |w: AssignedWorkload| is_pending_workload(w));
        }
        if str_eq(w.status.as_str(), "scheduled") && w.container_id.is_none() {
            out.push(w);
        }
    }
    assert(s.take(s.len() as int) =~= s);
    out
}

/// The volumes of the registry's answer that are still to be mapped, in
/// order.
pub fn pending_volumes(all: Vec<AssignedVolume>) -> (r: Vec<AssignedVolume>)
    ensures
        r@ == pending_volumes_of(all@),
{
    broadcast use vstd::std_specs::vec::axiom_spec_into_iter;
    let ghost s = all@;
    let mut out: Vec<AssignedVolume> = Vec::new();
    for v in it: all.into_iter()
        invariant
            it.seq() == s,
            out@ == pending_volumes_of(s.take(it.index() as int)),
    {
        let ghost i = it.index() as int;
        assert(s.take(i + 1) =~= s.take(i).push(v));
        proof {
            s.take(i).lemma_filter_push(v, |v: AssignedVolume| is_pending_volume(v));
        }
        if str_eq(v.status.as_str(), "in_use") && v.mapped_device.is_none() {
            out.push(v);
        }
    }
    assert(s.take(s.len() as int) =~= s);
    out
}

pub open spec fn string_views(v: Seq<String>) -> Seq<Seq<char>> {
    v.map_values(|s: String| s@)
}

/// Strictly increasing in `String` order (so without duplicates).
pub open spec fn strictly_sorted(v: Seq<Seq<char>>) -> bool {
    forall|i: int, j: int| 0 <= i < j < v.len() ==> lex_lt(#[trigger] v[i], #[trigger] v[j])
}

/// The resource group of a workload, if it has one.
pub open spec fn group_of(w: AssignedWorkload) -> Option<Seq<char>> {
    match w.resource_group_id {
        Some(g) => Some(g@),
        None => None,
    }
}

/// Some workload of `s` belongs to the resource group `g`.
pub open spec fn has_group(s: Seq<AssignedWorkload>, g: Seq<char>) -> bool {
    exists|i: int| 0 <= i < s.len() && #[trigger] group_of(s[i]) == Some(g)
}

/// Whether `v[p]` is below `x` in `String` order.
fn below_at(v: &Vec<String>, p: usize, x: &Vec<char>) -> (b: bool)
    requires
        p < v.len(),
    ensures
        b == lex_lt(v@[p as int]@, x@),
{
    lex_compare(&chars_of(v[p].as_str()), x) == -1
}

/// Inserts `x` into the strictly sorted `v` unless it is there already.
fn insert_sorted(v: &mut Vec<String>, x: String)
    requires
        strictly_sorted(string_views(old(v)@)),
    ensures
        strictly_sorted(string_views(final(v)@)),
        forall|y: Seq<char>| string_views(final(v)@).contains(y) <==> (string_views(old(v)@).contains(y) || y == x@),
{
    let xc = chars_of(x.as_str());
    let mut p: usize = 0;
    while p < v.len() && below_at(v, p, &xc)
        invariant
            p <= v.len(),
            xc@ == x@,
            v@ == old(v)@,
            strictly_sorted(string_views(v@)),
            forall|i: int| 0 <= i < p ==> lex_lt(#[trigger] string_views(v@)[i], x@),
        decreases v.len() - p,
    {
        p = p + 1;
    }
    let ghost sv = string_views(v@);
    if p < v.len() {
        let c = lex_compare(&chars_of(v[p].as_str()), &xc);
        if c == 0 {
            assert(sv[p as int] == x@);
            assert(sv.contains(x@));
            return;
        }
        assert(lex_lt(x@, sv[p as int]));
        assert forall|j: int| p <= j < sv.len() implies lex_lt(x@, #[trigger] sv[j]) by {
            if j > p {
                lemma_lex_transitive(x@, sv[p as int], sv[j]);
            }
        }
    }
    v.insert(p, x);
    let ghost nv = string_views(v@);
    assert(nv =~= sv.insert(p as int, x@));
    assert forall|i: int, j: int| 0 <= i < j < nv.len() implies lex_lt(#[trigger] nv[i], #[trigger] nv[j]) by {
        if j < p {
        } else if j == p {
        } else if i < p {
            assert(nv[j] == sv[j - 1]);
            if i < p {
                lemma_lex_transitive(nv[i], x@, nv[j]);
            }
        } else if i == p {
        } else {
            assert(nv[i] == sv[i - 1]);
            assert(nv[j] == sv[j - 1]);
        }
    }
    assert forall|y: Seq<char>| nv.contains(y) <==> (sv.contains(y) || y == x@) by {
        if nv.contains(y) {
            let k = choose|k: int| 0 <= k < nv.len() && nv[k] == y;
            if k < p {
                assert(sv[k] == y);
            } else if k > p {
                assert(sv[k - 1] == y);
            }
        }
        if sv.contains(y) {
            let k = choose|k: int| 0 <= k < sv.len() && sv[k] == y;
            if k < p {
                assert(nv[k] == y);
            } else {
                assert(nv[k + 1] == y);
            }
        }
        if y == x@ {
            assert(nv[p as int] == y);
        }
    }
}

/// The resource groups of the assigned workloads, sorted and without
/// duplicates: exactly the groups that some workload belongs to, in strictly
/// increasing `String` order.
pub fn resource_group_ids(workloads: &Vec<AssignedWorkload>) -> (r: Vec<String>)
    ensures
        strictly_sorted(string_views(r@)),
        forall|g: Seq<char>| string_views(r@).contains(g) <==> has_group(workloads@, g),
{
    let mut out: Vec<String> = Vec::new();
    let mut k: usize = 0;
    while k < workloads.len()
        invariant
            k <= workloads.len(),
            strictly_sorted(string_views(out@)),
            forall|g: Seq<char>| string_views(out@).contains(g) <==> has_group(workloads@.take(k as int), g),
        decreases workloads.len() - k,
    {
        let ghost before = out@;
        match &workloads[k].resource_group_id {
            Some(g) => {
                insert_sorted(&mut out, g.clone());
            },
            None => {},
        }
        assert forall|g: Seq<char>| string_views(out@).contains(g) <==> has_group(workloads@.take(k + 1), g) by {
            let t = workloads@.take(k + 1);
            if has_group(t, g) {
                let i = choose|i: int| 0 <= i < t.len() && #[trigger] group_of(t[i]) == Some(g);
                if i < k {
                    assert(workloads@.take(k as int)[i] == t[i]);
                    assert(has_group(workloads@.take(k as int), g));
                }
            }
            if has_group(workloads@.take(k as int), g) {
                let i = choose|i: int| 0 <= i < k && #[trigger] group_of(workloads@.take(k as int)[i]) == Some(g);
                assert(t[i] == workloads@.take(k as int)[i]);
            }
            if group_of(workloads@[k as int]) == Some(g) {
                assert(t[k as int] == workloads@[k as int]);
            }
        }
        k = k + 1;
    }
    assert(workloads@.take(workloads@.len() as int) =~= workloads@);
    out
}

/// The ids of the workloads that run as full virtual machines, in order.
pub open spec fn vm_ids_of(s: Seq<AssignedWorkload>) -> Seq<Seq<char>> {
    s.filter(|w: AssignedWorkload| w.runtime_class@ == "vm"@).map_values(|w: AssignedWorkload| w.id@)
}

/// The ids of the assigned workloads whose runtime class is `vm`.
pub fn vm_workload_ids(workloads: &Vec<AssignedWorkload>) -> (r: Vec<String>)
    ensures
        string_views(r@) == vm_ids_of(workloads@),
{
    let mut out: Vec<String> = Vec::new();
    let mut k: usize = 0;
    while k < workloads.len()
        invariant
            k <= workloads.len(),
            string_views(out@) == vm_ids_of(workloads@.take(k as int)),
        decreases workloads.len() - k,
    {
        let ghost t = workloads@.take(k as int);
        let w = &workloads[k];
        assert(workloads@.take(k + 1) =~= t.push(*w));
        proof {
            t.lemma_filter_push(*w, |w: AssignedWorkload| w.runtime_class@ == "vm"@);
        }
        let ghost f = t.filter(|w: AssignedWorkload| w.runtime_class@ == "vm"@);
        if str_eq(w.runtime_class.as_str(), "vm") {
            let ghost before = out@;
            out.push(w.id.clone());
            assert(string_views(out@) =~= string_views(before).push(w.id@));
            assert(f.push(*w).map_values(|w: AssignedWorkload| w.id@) =~= f.map_values(
                |w: AssignedWorkload| w.id@,
            ).push(w.id@));
        }
        k = k + 1;
    }
    assert(workloads@.take(workloads@.len() as int) =~= workloads@);
    out
}

/// Some workload of `s` has the id `id`.
pub open spec fn is_desired(s: Seq<AssignedWorkload>, id: Seq<char>) -> bool {
    exists|i: int| 0 <= i < s.len() && (#[trigger] s[i]).id@ == id
}

pub open spec fn pair_views(v: Seq<(String, String)>) -> Seq<(Seq<char>, Seq<char>)> {
    v.map_values(|p: (String, String)| (p.0@, p.1@))
}

/// Whether some assigned workload has the id `id`.
fn desired_contains(workloads: &Vec<AssignedWorkload>, id: &str) -> (b: bool)
    ensures
        b == is_desired(workloads@, id@),
{
    let mut k: usize = 0;
    while k < workloads.len()
        invariant
            k <= workloads.len(),
            forall|i: int| 0 <= i < k ==> (#[trigger] workloads@[i]).id@ != id@,
        decreases workloads.len() - k,
    {
        if str_eq(workloads[k].id.as_str(), id) {
            return true;
        }
        k = k + 1;
    }
    false
}

/// The running workloads (`(workload id, container id)` pairs) that are no
/// longer assigned: those whose id no assigned workload has, in order.
pub fn stale_workloads(
    running: &Vec<(String, String)>,
    desired: &Vec<AssignedWorkload>,
) -> (r: Vec<(String, String)>)
    ensures
        pair_views(r@) == pair_views(running@).filter(
            |p: (Seq<char>, Seq<char>)| !is_desired(desired@, p.0),
        ),
{
    let mut out: Vec<(String, String)> = Vec::new();
    let mut k: usize = 0;
    while k < running.len()
        invariant
            k <= running.len(),
            pair_views(out@) == pair_views(running@.take(k as int)).filter(
                |p: (Seq<char>, Seq<char>)| !is_desired(desired@, p.0),
            ),
        decreases running.len() - k,
    {
        let ghost t = pair_views(running@.take(k as int));
        let e = &running[k];
        let ghost ev = (e.0@, e.1@);
        assert(pair_views(running@.take(k + 1)) =~= t.push(ev));
        proof {
            t.lemma_filter_push(ev, |p: (Seq<char>, Seq<char>)| !is_desired(desired@, p.0));
        }
        if !desired_contains(desired, e.0.as_str()) {
            let ghost before = out@;
            out.push((e.0.clone(), e.1.clone()));
            assert(pair_views(out@) =~= pair_views(before).push(ev));
        }
        k = k + 1;
    }
    assert(running@.take(running@.len() as int) =~= running@);
    out
}

/// Whether `v` holds a string equal to `x`.
fn strings_contain(v: &Vec<String>, x: &str) -> (b: bool)
    ensures
        b == string_views(v@).contains(x@),
{
    let mut k: usize = 0;
    while k < v.len()
        invariant
            k <= v.len(),
            forall|i: int| 0 <= i < k ==> (#[trigger] v@[i])@ != x@,
        decreases v.len() - k,
    {
        if str_eq(v[k].as_str(), x) {
            assert(string_views(v@)[k as int] == x@);
            return true;
        }
        k = k + 1;
    }
    proof {
        if string_views(v@).contains(x@) {
            let i = choose|i: int| 0 <= i < v@.len() && string_views(v@)[i] == x@;
            assert(v@[i]@ == x@);
        }
    }
    false
}

/// The resource groups whose local networks the agent should tear down: the
/// local ones, in order, that are not among the active ones.
pub fn stale_resource_groups(local_ids: &Vec<String>, active_ids: &Vec<String>) -> (r: Vec<String>)
    ensures
        string_views(r@) == string_views(local_ids@).filter(
            |g: Seq<char>| !string_views(active_ids@).contains(g),
        ),
{
    let mut out: Vec<String> = Vec::new();
    let mut k: usize = 0;
    while k < local_ids.len()
        invariant
            k <= local_ids.len(),
            string_views(out@) == string_views(local_ids@.take(k as int)).filter(
                |g: Seq<char>| !string_views(active_ids@).contains(g),
            ),
        decreases local_ids.len() - k,
    {
        let ghost t = string_views(local_ids@.take(k as int));
        let g = &local_ids[k];
        assert(string_views(local_ids@.take(k + 1)) =~= t.push(g@));
        proof {
            t.lemma_filter_push(g@, |g: Seq<char>| !string_views(active_ids@).contains(g));
        }
        if !strings_contain(active_ids, g.as_str()) {
            let ghost before = out@;
            out.push(g.clone());
            assert(string_views(out@) =~= string_views(before).push(g@));
        }
        k = k + 1;
    }
    assert(local_ids@.take(local_ids@.len() as int) =~= local_ids@);
    out
}

/// The device a volume is mapped to: the first entry for it in the agent's
/// `(volume id, device)` table.
pub open spec fn device_for(mounted: Seq<(Seq<char>, Seq<char>)>, volume_id: Seq<char>) -> Option<Seq<char>>
    decreases mounted.len(),
{
    if mounted.len() == 0 {
        None
    } else if mounted[0].0 == volume_id {
        Some(mounted[0].1)
    } else {
        device_for(mounted.drop_first(), volume_id)
    }
}

/// The image `rbd map` is given for a volume: `<pool>/<image>`.
pub fn rbd_image_spec(pool: &str, image_name: &str) -> (r: String)
    ensures
        r@ == pool@ + "/"@ + image_name@,
{
    String::from_str(pool).concat("/").concat(image_name)
}

/// The device `rbd map` reports: its output, when UTF-8, trimmed of
/// whitespace and then of quotes.
pub open spec fn rbd_device(stdout: Seq<u8>) -> Option<Seq<char>> {
    if valid_utf8(stdout) {
        Some(trim_char(trim_ws(decode_utf8(stdout)), '"'))
    } else {
        None
    }
}

/// Reads the device from `rbd map`'s output (see `rbd_device`); `None` when
/// the output is not UTF-8.
pub fn mapped_device(stdout: &[u8]) -> (r: Option<String>)
    ensures
        crate::workload_fsm::opt_string(r) == rbd_device(stdout@),
{
    match utf8_decode(stdout) {
        Some(text) => {
            let t = trim(&chars_of(text.as_str()));
            let d = trim_matches(&t, '"');
            Some(string_from(d.as_slice()))
        },
        None => None,
    }
}

/// Looks a volume up in the `(volume id, device)` table.
pub fn lookup_device(mounted: &Vec<(String, String)>, volume_id: &str) -> (r: Option<String>)
    ensures
        match r {
            Some(d) => device_for(pair_views(mounted@), volume_id@) == Some(d@),
            None => device_for(pair_views(mounted@), volume_id@) is None,
        },
{
    let ghost m = pair_views(mounted@);
    let mut k: usize = 0;
    assert(m.skip(0) =~= m);
    while k < mounted.len()
        invariant
            k <= mounted.len(),
            m == pair_views(mounted@),
            device_for(m, volume_id@) == device_for(m.skip(k as int), volume_id@),
        decreases mounted.len() - k,
    {
        assert(m.skip(k as int).drop_first() =~= m.skip(k + 1));
        assert(m.skip(k as int)[0] == m[k as int]);
        if str_eq(mounted[k].0.as_str(), volume_id) {
            return Some(mounted[k].1.clone());
        }
        k = k + 1;
    }
    None
}

/// The volumes a workload wants are all mapped (trivially so when it wants
/// none).
pub open spec fn volumes_mapped(
    mounts: Option<Seq<WorkloadVolumeMount>>,
    mounted: Seq<(Seq<char>, Seq<char>)>,
) -> bool {
    match mounts {
        None => true,
        Some(ms) => forall|i: int| 0 <= i < ms.len() ==> device_for(mounted, (#[trigger] ms[i]).volume_id@) is Some,
    }
}

pub open spec fn opt_mounts(m: &Option<Vec<WorkloadVolumeMount>>) -> Option<Seq<WorkloadVolumeMount>> {
    match m {
        Some(v) => Some(v@),
        None => None,
    }
}

/// Whether every volume the workload wants is mapped on this node.
pub fn volumes_ready(mounts: &Option<Vec<WorkloadVolumeMount>>, mounted: &Vec<(String, String)>) -> (b: bool)
    ensures
        b == volumes_mapped(opt_mounts(mounts), pair_views(mounted@)),
{
    match mounts {
        None => true,
        Some(ms) => {
            let mut k: usize = 0;
            while k < ms.len()
                invariant
                    k <= ms.len(),
                    opt_mounts(mounts) == Some(ms@),
                    forall|i: int| 0 <= i < k ==> device_for(pair_views(mounted@), (#[trigger] ms@[i]).volume_id@) is Some,
                decreases ms.len() - k,
            {
                if lookup_device(mounted, ms[k].volume_id.as_str()).is_none() {
                    assert(!(device_for(pair_views(mounted@), ms@[k as int].volume_id@) is Some));
                    assert(!volumes_mapped(opt_mounts(mounts), pair_views(mounted@)));
                    return false;
                }
                k = k + 1;
            }
            true
        },
    }
}

/// A volume as handed to the runtime: the workload's mount with the device
/// the volume is mapped to.
pub struct VolumeMount {
    pub volume_id: String,
    pub mount_path: String,
    pub device_path: String,
}

pub open spec fn mount_views(v: Seq<VolumeMount>) -> Seq<(Seq<char>, Seq<char>, Seq<char>)> {
    v.map_values(|m: VolumeMount| (m.volume_id@, m.mount_path@, m.device_path@))
}

/// The workload's mounts whose volume is mapped, each with its device, in
/// order; the others are left out.
pub open spec fn resolved_mounts(
    ms: Seq<WorkloadVolumeMount>,
    mounted: Seq<(Seq<char>, Seq<char>)>,
) -> Seq<(Seq<char>, Seq<char>, Seq<char>)>
    decreases ms.len(),
{
    if ms.len() == 0 {
        Seq::empty()
    } else {
        let rest = resolved_mounts(ms.drop_last(), mounted);
        match device_for(mounted, ms.last().volume_id@) {
            Some(d) => rest.push((ms.last().volume_id@, ms.last().mount_path@, d)),
            None => rest,
        }
    }
}

/// Pairs each mount with the device its volume is mapped to.
pub fn resolve_volume_mounts(
    mounts: &Vec<WorkloadVolumeMount>,
    mounted: &Vec<(String, String)>,
) -> (r: Vec<VolumeMount>)
    ensures
        mount_views(r@) == resolved_mounts(mounts@, pair_views(mounted@)),
{
    let mut out: Vec<VolumeMount> = Vec::new();
    let mut k: usize = 0;
    while k < mounts.len()
        invariant
            k <= mounts.len(),
            mount_views(out@) == resolved_mounts(mounts@.take(k as int), pair_views(mounted@)),
        decreases mounts.len() - k,
    {
        let m = &mounts[k];
        assert(mounts@.take(k + 1).drop_last() =~= mounts@.take(k as int));
        assert(mounts@.take(k + 1).last() == *m);
        match lookup_device(mounted, m.volume_id.as_str()) {
            Some(d) => {
                let ghost before = out@;
                let ghost dv = d@;
                out.push(VolumeMount { volume_id: m.volume_id.clone(), mount_path: m.mount_path.clone(), device_path: d });
                assert(mount_views(out@) =~= mount_views(before).push((m.volume_id@, m.mount_path@, dv)));
            },
            None => {},
        }
        k = k + 1;
    }
    assert(mounts@.take(mounts@.len() as int) =~= mounts@);
    out
}

/// A running workload as the agent sees it when it reports: its id, its
/// container, and the runtime's status for it (`None` when the runtime could
/// not be asked).
pub struct RunningWorkload {
    pub workload_id: String,
    pub container_id: String,
    pub inspected: Option<String>,
}

/// The status reported for a running workload: what the runtime said, or
/// `failed` when it could not be asked.
pub open spec fn reported_status(inspected: Option<Seq<char>>) -> Seq<char> {
    match inspected {
        Some(s) => s,
        None => "failed"@,
    }
}

pub open spec fn running_view(w: RunningWorkload) -> (Seq<char>, Seq<char>, Seq<char>) {
    (w.workload_id@, w.container_id@, reported_status(match w.inspected {
        Some(s) => Some(s@),
        None => None,
    }))
}

pub open spec fn status_views(v: Seq<ContainerStatus>) -> Seq<(Seq<char>, Seq<char>, Seq<char>)> {
    v.map_values(|c: ContainerStatus| (c.workload_id@, c.container_id@, c.status@))
}

/// Some running workload has the id `id`.
pub open spec fn is_running(running: Seq<RunningWorkload>, id: Seq<char>) -> bool {
    exists|i: int| 0 <= i < running.len() && (#[trigger] running[i]).workload_id@ == id
}

/// Some running workload has the id `id` and a status other than `creating`.
pub open spec fn settled(running: Seq<RunningWorkload>, id: Seq<char>) -> bool {
    exists|i: int|
        0 <= i < running.len() && (#[trigger] running[i]).workload_id@ == id && running_view(running[i]).2
            != "creating"@
}

/// The heartbeat's statuses: one for each running workload, in order, then
/// one (with an empty container id) for each phase entry of a workload that
/// is not running; and the phase table with the entries of running workloads
/// that have left `creating` dropped.
pub open spec fn status_report(
    running: Seq<RunningWorkload>,
    phases: Seq<(Seq<char>, Seq<char>)>,
) -> (Seq<(Seq<char>, Seq<char>, Seq<char>)>, Seq<(Seq<char>, Seq<char>)>) {
    (
        running.map_values(|w: RunningWorkload| running_view(w)) + phases.filter(
            |p: (Seq<char>, Seq<char>)| !is_running(running, p.0),
        ).map_values(|p: (Seq<char>, Seq<char>)| (p.0, Seq::<char>::empty(), p.1)),
        phases.filter(|p: (Seq<char>, Seq<char>)| !settled(running, p.0)),
    )
}

fn running_contains(running: &Vec<RunningWorkload>, id: &str) -> (r: (bool, bool))
    ensures
        r.0 == is_running(running@, id@),
        r.1 == settled(running@, id@),
{
    let mut found = false;
    let mut done = false;
    let mut k: usize = 0;
    while k < running.len()
        invariant
            k <= running.len(),
            found == (exists|i: int| 0 <= i < k && (#[trigger] running@[i]).workload_id@ == id@),
            done == (exists|i: int|
                0 <= i < k && (#[trigger] running@[i]).workload_id@ == id@ && running_view(running@[i]).2
                    != "creating"@),
        decreases running.len() - k,
    {
        let w = &running[k];
        if str_eq(w.workload_id.as_str(), id) {
            found = true;
            let creating = match &w.inspected {
                Some(s) => str_eq(s.as_str(), "creating"),
                None => false,
            };
            proof {
                if w.inspected is None {
                    reveal_strlit("failed");
                    reveal_strlit("creating");
                    assert("failed"@.len() != "creating"@.len());
                    assert(running_view(*w).2 != "creating"@);
                }
            }
            if !creating {
                done = true;
            }
        }
        k = k + 1;
    }
    (found, done)
}

/// Builds the heartbeat's statuses and the phase table that remains (see
/// `status_report`).
pub fn build_container_statuses(
    running: &Vec<RunningWorkload>,
    phases: &Vec<(String, String)>,
) -> (r: (Vec<ContainerStatus>, Vec<(String, String)>))
    ensures
        (status_views(r.0@), pair_views(r.1@)) == status_report(running@, pair_views(phases@)),
{
    let mut statuses: Vec<ContainerStatus> = Vec::new();
    let mut k: usize = 0;
    while k < running.len()
        invariant
            k <= running.len(),
            status_views(statuses@) == running@.take(k as int).map_values(|w: RunningWorkload| running_view(w)),
        decreases running.len() - k,
    {
        let w = &running[k];
        let status = match &w.inspected {
            Some(s) => s.clone(),
            None => String::from_str("failed"),
        };
        let ghost before = statuses@;
        statuses.push(ContainerStatus { workload_id: w.workload_id.clone(), container_id: w.container_id.clone(), status });
        assert(status_views(statuses@) =~= status_views(before).push(running_view(*w)));
        assert(running@.take(k + 1) =~= running@.take(k as int).push(*w));
        k = k + 1;
    }
    assert(running@.take(running@.len() as int) =~= running@);
    let ghost head = status_views(statuses@);
    let ghost pv = pair_views(phases@);
    let mut kept: Vec<(String, String)> = Vec::new();
    let mut j: usize = 0;
    while j < phases.len()
        invariant
            j <= phases.len(),
            pv == pair_views(phases@),
            head == running@.map_values(|w: RunningWorkload| running_view(w)),
            status_views(statuses@) == head + pv.take(j as int).filter(
                |p: (Seq<char>, Seq<char>)| !is_running(running@, p.0),
            ).map_values(|p: (Seq<char>, Seq<char>)| (p.0, Seq::<char>::empty(), p.1)),
            pair_views(kept@) == pv.take(j as int).filter(|p: (Seq<char>, Seq<char>)| !settled(running@, p.0)),
        decreases phases.len() - j,
    {
        let e = &phases[j];
        let ghost ev = (e.0@, e.1@);
        assert(pv.take(j + 1) =~= pv.take(j as int).push(ev));
        proof {
            pv.take(j as int).lemma_filter_push(ev, |p: (Seq<char>, Seq<char>)| !is_running(running@, p.0));
            pv.take(j as int).lemma_filter_push(ev, |p: (Seq<char>, Seq<char>)| !settled(running@, p.0));
        }
        let ghost f = pv.take(j as int).filter(|p: (Seq<char>, Seq<char>)| !is_running(running@, p.0));
        let (is_run, is_settled) = running_contains(running, e.0.as_str());
        if !is_run {
            let ghost before = statuses@;
            statuses.push(ContainerStatus { workload_id: e.0.clone(), container_id: String::new(), status: e.1.clone() });
            assert(status_views(statuses@) =~= status_views(before).push((e.0@, Seq::<char>::empty(), e.1@)));
            assert(f.push(ev).map_values(|p: (Seq<char>, Seq<char>)| (p.0, Seq::<char>::empty(), p.1)) =~= f.map_values(
                |p: (Seq<char>, Seq<char>)| (p.0, Seq::<char>::empty(), p.1),
            ).push((e.0@, Seq::<char>::empty(), e.1@)));
        }
        if !is_settled {
            let ghost before = kept@;
            kept.push((e.0.clone(), e.1.clone()));
            assert(pair_views(kept@) =~= pair_views(before).push(ev));
        }
        j = j + 1;
    }
    assert(pv.take(pv.len() as int) =~= pv);
    (statuses, kept)
}

} // verus!
