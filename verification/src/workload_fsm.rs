//! Starting, restarting and stopping one assigned workload on the agent,
//! written as a state machine: the agent's reconcile loop performs each
//! action (inspect, stop, pull, start) against the runtime and feeds the
//! outcome back as the next event.
use vstd::prelude::*;
use crate::assignments::AssignedWorkload;
use crate::text::str_eq;

verus! {

/// Where the handling of one workload stands.
#[derive(Debug, Clone, Copy, PartialEq, Eq, Structural)]
pub enum WorkloadStage {
    /// Nothing done yet this tick.
    Begin,
    /// Waiting for the runtime's status of the existing container.
    Inspecting,
    /// Waiting for the existing container to stop so a new one can start.
    StoppingForRestart,
    /// Waiting for a crashed container to stop for good.
    StoppingAfterCrash,
    /// Waiting for the image to be pulled.
    Pulling,
    /// Waiting for the new container to start.
    Starting,
    /// Done for this tick.
    Finished,
}

/// What the agent keeps about a workload between ticks: its running
/// container, its start-up phase, and how often it has been restarted.
pub struct LocalWorkload {
    pub container_id: Option<String>,
    pub phase: Option<String>,
    pub restart_count: Option<u32>,
}

pub open spec fn opt_string(o: Option<String>) -> Option<Seq<char>> {
    match o {
        Some(s) => Some(s@),
        None => None,
    }
}

impl View for LocalWorkload {
    type V = (Option<Seq<char>>, Option<Seq<char>>, Option<u32>);

    open spec fn view(&self) -> Self::V {
        (opt_string(self.container_id), opt_string(self.phase), self.restart_count)
    }
}

/// The outcome of the last action.
pub enum WorkloadEvent {
    /// Start handling the workload.
    Proceed,
    /// The runtime's status of the existing container (`None`: it could not
    /// be asked).
    Inspected(Option<String>),
    /// Whether stopping the container succeeded.
    Stopped(bool),
    /// Whether pulling the image succeeded.
    Pulled(bool),
    /// The new container's id, or `None` when starting failed.
    Started(Option<String>),
}

/// What the agent is to do next.
#[derive(Debug, Clone, Copy, PartialEq, Eq, Structural)]
pub enum WorkloadAction {
    /// Ask the runtime for the existing container's status.
    Inspect,
    /// Stop the existing container.
    Stop,
    /// Pull the workload's image.
    Pull,
    /// Start a container for the workload.
    Start,
    /// Stop handling the workload: `ack` says whether a requested restart
    /// was carried out (and is to be acknowledged), `register_dns` whether
    /// the new container's service name is to be published in its resource
    /// group's DNS.
    Done { ack: bool, register_dns: bool },
}

/// Whether `event` is an answer to what `stage` waits for.
pub open spec fn fits(stage: WorkloadStage, event: WorkloadEvent) -> bool {
    match stage {
        WorkloadStage::Begin => event is Proceed,
        WorkloadStage::Inspecting => event is Inspected,
        WorkloadStage::StoppingForRestart => event is Stopped,
        WorkloadStage::StoppingAfterCrash => event is Stopped,
        WorkloadStage::Pulling => event is Pulled,
        WorkloadStage::Starting => event is Started,
        WorkloadStage::Finished => false,
    }
}

/// The crash-loop limit is reached: the workload has one and has been
/// restarted at least that often (the count read as an `i32`).
pub open spec fn limit_reached(max_restarts: Option<i32>, count: Option<u32>) -> bool {
    match max_restarts {
        Some(m) => (count.unwrap_or(0) as i32) >= m,
        None => false,
    }
}

/// What a crashed (or not crashed) container means: whether to restart it,
/// whether to stop it for good, and the restart count afterwards.
pub open spec fn crash_verdict(
    inspected: Option<Seq<char>>,
    restart_policy: Seq<char>,
    max_restarts: Option<i32>,
    count: Option<u32>,
) -> (bool, bool, Option<u32>) {
    match inspected {
        None => (false, false, count),
        Some(st) => if st != "failed"@ {
            (false, false, count)
        } else if restart_policy == "never"@ {
            (false, true, count)
        } else if limit_reached(max_restarts, count) {
            (false, true, Some(count.unwrap_or(0)))
        } else {
            (true, false, Some((count.unwrap_or(0) + 1) as u32))
        },
    }
}

pub const PHASE_PULLING: &'static str = "pulling";
pub const PHASE_CREATING: &'static str = "creating";
pub const PHASE_STARTING: &'static str = "starting";
pub const PHASE_FAILED: &'static str = "failed";

/// One step of the machine: from the stage, the workload, the local record
/// and the event, the next stage, the next local record and the action.
pub open spec fn step_spec(
    stage: WorkloadStage,
    w: AssignedWorkload,
    local: (Option<Seq<char>>, Option<Seq<char>>, Option<u32>),
    event: WorkloadEvent,
    volumes_ready: bool,
) -> (WorkloadStage, (Option<Seq<char>>, Option<Seq<char>>, Option<u32>), WorkloadAction) {
    let (container, phase, count) = local;
    let done = WorkloadAction::Done { ack: false, register_dns: false };
    match stage {
        WorkloadStage::Begin => match container {
            Some(_) => if w.restart_requested {
                (WorkloadStage::StoppingForRestart, local, WorkloadAction::Stop)
            } else {
                (WorkloadStage::Inspecting, local, WorkloadAction::Inspect)
            },
            None => (WorkloadStage::Pulling, (None, Some("pulling"@), count), WorkloadAction::Pull),
        },
        WorkloadStage::Inspecting => match event {
            WorkloadEvent::Inspected(s) => {
                let (restart, stop, c) = crash_verdict(opt_string(s), w.restart_policy@, w.max_restarts, count);
                if restart {
                    (WorkloadStage::StoppingForRestart, (container, phase, c), WorkloadAction::Stop)
                } else if stop {
                    (WorkloadStage::StoppingAfterCrash, (container, phase, c), WorkloadAction::Stop)
                } else {
                    (WorkloadStage::Finished, (container, phase, c), done)
                }
            },
            _ => (WorkloadStage::Finished, local, done),
        },
        WorkloadStage::StoppingForRestart => match event {
            WorkloadEvent::Stopped(true) => (WorkloadStage::Pulling, (None, Some("pulling"@), count), WorkloadAction::Pull),
            _ => (WorkloadStage::Finished, local, done),
        },
        WorkloadStage::StoppingAfterCrash => (WorkloadStage::Finished, local, done),
        WorkloadStage::Pulling => match event {
            WorkloadEvent::Pulled(true) => if !volumes_ready {
                (WorkloadStage::Finished, local, done)
            } else if limit_reached(w.max_restarts, count) {
                (WorkloadStage::Finished, (container, Some("failed"@), count), done)
            } else {
                (WorkloadStage::Starting, (container, Some("creating"@), count), WorkloadAction::Start)
            },
            _ => (WorkloadStage::Finished, (container, None, count), done),
        },
        WorkloadStage::Starting => match event {
            WorkloadEvent::Started(Some(id)) => (
                WorkloadStage::Finished,
                (Some(id@), Some("starting"@), count),
                WorkloadAction::Done {
                    ack: w.restart_requested,
                    register_dns: w.resource_group_id is Some && w.service_name is Some,
                },
            ),
            _ => (
                WorkloadStage::Finished,
                (container, Some("failed"@), Some((count.unwrap_or(0) + 1) as u32)),
                done,
            ),
        },
        WorkloadStage::Finished => (WorkloadStage::Finished, local, done),
    }
}

/// The steps on which a restart count would pass `u32::MAX`.
pub open spec fn step_overflows(
    stage: WorkloadStage,
    w: AssignedWorkload,
    count: Option<u32>,
    event: WorkloadEvent,
) -> bool {
    &&& count == Some(u32::MAX)
    &&& match (stage, event) {
        (WorkloadStage::Inspecting, WorkloadEvent::Inspected(s)) => {
            &&& s matches Some(st) && st@ == "failed"@
            &&& w.restart_policy@ != "never"@
            &&& !limit_reached(w.max_restarts, count)
        },
        (WorkloadStage::Starting, WorkloadEvent::Started(None)) => true,
        _ => false,
    }
}

fn limit_reached_exec(max_restarts: Option<i32>, count: Option<u32>) -> (b: bool)
    ensures
        b == limit_reached(max_restarts, count),
{
    match max_restarts {
        Some(m) => {
            let c: u32 = match count {
                Some(c) => c,
                None => 0,
            };
            (c as i32) >= m
        },
        None => false,
    }
}

/// Takes one step (see `step_spec`), updating the stage and the local
/// record in place and returning the action.
pub fn workload_step(
    stage: &mut WorkloadStage,
    w: &AssignedWorkload,
    local: &mut LocalWorkload,
    event: WorkloadEvent,
    volumes_ready: bool,
) -> (a: WorkloadAction)
    requires
        fits(*old(stage), event),
        !step_overflows(*old(stage), *w, old(local).restart_count, event),
    ensures
        (*final(stage), final(local)@, a) == step_spec(*old(stage), *w, old(local)@, event, volumes_ready),
{
    let done = WorkloadAction::Done { ack: false, register_dns: false };
    match *stage {
        WorkloadStage::Begin => {
            if local.container_id.is_some() {
                if w.restart_requested {
                    *stage = WorkloadStage::StoppingForRestart;
                    WorkloadAction::Stop
                } else {
                    *stage = WorkloadStage::Inspecting;
                    WorkloadAction::Inspect
                }
            } else {
                local.phase = Some(String::from_str(PHASE_PULLING));
                *stage = WorkloadStage::Pulling;
                WorkloadAction::Pull
            }
        },
        WorkloadStage::Inspecting => {
            let failed = match &event {
                WorkloadEvent::Inspected(Some(st)) => str_eq(st.as_str(), "failed"),
                _ => false,
            };
            if !failed {
                *stage = WorkloadStage::Finished;
                return done;
            }
            if str_eq(w.restart_policy.as_str(), "never") {
                *stage = WorkloadStage::StoppingAfterCrash;
                return WorkloadAction::Stop;
            }
            let c: u32 = match local.restart_count {
                Some(c) => c,
                None => 0,
            };
            if limit_reached_exec(w.max_restarts, local.restart_count) {
                local.restart_count = Some(c);
                *stage = WorkloadStage::StoppingAfterCrash;
                WorkloadAction::Stop
            } else {
                local.restart_count = Some(c + 1);
                *stage = WorkloadStage::StoppingForRestart;
                WorkloadAction::Stop
            }
        },
        WorkloadStage::StoppingForRestart => {
            match event {
                WorkloadEvent::Stopped(true) => {
                    local.container_id = None;
                    local.phase = Some(String::from_str(PHASE_PULLING));
                    *stage = WorkloadStage::Pulling;
                    WorkloadAction::Pull
                },
                _ => {
                    *stage = WorkloadStage::Finished;
                    done
                },
            }
        },
        WorkloadStage::StoppingAfterCrash => {
            *stage = WorkloadStage::Finished;
            done
        },
        WorkloadStage::Pulling => {
            match event {
                WorkloadEvent::Pulled(true) => {
                    if !volumes_ready {
                        *stage = WorkloadStage::Finished;
                        done
                    } else if limit_reached_exec(w.max_restarts, local.restart_count) {
                        local.phase = Some(String::from_str(PHASE_FAILED));
                        *stage = WorkloadStage::Finished;
                        done
                    } else {
                        local.phase = Some(String::from_str(PHASE_CREATING));
                        *stage = WorkloadStage::Starting;
                        WorkloadAction::Start
                    }
                },
                _ => {
                    local.phase = None;
                    *stage = WorkloadStage::Finished;
                    done
                },
            }
        },
        WorkloadStage::Starting => {
            match event {
                WorkloadEvent::Started(Some(id)) => {
                    local.container_id = Some(id);
                    local.phase = Some(String::from_str(PHASE_STARTING));
                    *stage = WorkloadStage::Finished;
                    WorkloadAction::Done {
                        ack: w.restart_requested,
                        register_dns: w.resource_group_id.is_some() && w.service_name.is_some(),
                    }
                },
                _ => {
                    let c: u32 = match local.restart_count {
                        Some(c) => c,
                        None => 0,
                    };
                    local.restart_count = Some(c + 1);
                    local.phase = Some(String::from_str(PHASE_FAILED));
                    *stage = WorkloadStage::Finished;
                    done
                },
            }
        },
        WorkloadStage::Finished => done,
    }
}

/// A workload that has reached its crash-loop limit is never started.
pub proof fn lemma_no_start_past_limit(
    stage: WorkloadStage,
    w: AssignedWorkload,
    local: (Option<Seq<char>>, Option<Seq<char>>, Option<u32>),
    event: WorkloadEvent,
    volumes_ready: bool,
)
    requires
        limit_reached(w.max_restarts, local.2),
    ensures
        step_spec(stage, w, local, event, volumes_ready).2 != WorkloadAction::Start,
{
}

/// With the restart policy `never`, a crashed container is not restarted.
pub proof fn lemma_never_policy_no_restart(
    w: AssignedWorkload,
    local: (Option<Seq<char>>, Option<Seq<char>>, Option<u32>),
    event: WorkloadEvent,
    volumes_ready: bool,
)
    requires
        w.restart_policy@ == "never"@,
    ensures
        step_spec(WorkloadStage::Inspecting, w, local, event, volumes_ready).0 != WorkloadStage::StoppingForRestart,
{
}

/// A crashed container (status `failed`) whose restart policy is not
/// `never` is stopped for a restart, its restart count raised by one, as
/// long as the workload has no crash-loop limit or has been restarted fewer
/// times than its limit (the count read as an `i32`).
pub proof fn lemma_crash_restarts_below_limit(
    w: AssignedWorkload,
    local: (Option<Seq<char>>, Option<Seq<char>>, Option<u32>),
    status: String,
    volumes_ready: bool,
)
    requires
        status@ == "failed"@,
        w.restart_policy@ != "never"@,
        match w.max_restarts {
            None => true,
            Some(m) => (local.2.unwrap_or(0) as i32) < m,
        },
    ensures
        step_spec(WorkloadStage::Inspecting, w, local, WorkloadEvent::Inspected(Some(status)), volumes_ready) == (
            WorkloadStage::StoppingForRestart,
            (local.0, local.1, Some((local.2.unwrap_or(0) + 1) as u32)),
            WorkloadAction::Stop,
        ),
{
}

/// A crashed container of a workload that has been restarted as often as
/// its crash-loop limit allows (or more) is stopped for good, its restart
/// count kept.
pub proof fn lemma_crash_stops_at_limit(
    w: AssignedWorkload,
    local: (Option<Seq<char>>, Option<Seq<char>>, Option<u32>),
    status: String,
    volumes_ready: bool,
    m: i32,
)
    requires
        status@ == "failed"@,
        w.max_restarts == Some(m),
        (local.2.unwrap_or(0) as i32) >= m,
    ensures
        step_spec(WorkloadStage::Inspecting, w, local, WorkloadEvent::Inspected(Some(status)), volumes_ready).0
            == WorkloadStage::StoppingAfterCrash,
        step_spec(WorkloadStage::Inspecting, w, local, WorkloadEvent::Inspected(Some(status)), volumes_ready).1.2
            == if w.restart_policy@ == "never"@ { local.2 } else { Some(local.2.unwrap_or(0)) },
{
}

/// A container the runtime does not report as `failed` (or whose status
/// could not be read) is left as it is: nothing is stopped and the record
/// is unchanged.
pub proof fn lemma_healthy_container_left_alone(
    w: AssignedWorkload,
    local: (Option<Seq<char>>, Option<Seq<char>>, Option<u32>),
    status: Option<String>,
    volumes_ready: bool,
)
    requires
        !(status matches Some(s) && s@ == "failed"@),
    ensures
        step_spec(WorkloadStage::Inspecting, w, local, WorkloadEvent::Inspected(status), volumes_ready) == (
            WorkloadStage::Finished,
            local,
            WorkloadAction::Done { ack: false, register_dns: false },
        ),
{
}

/// A start that fails marks the workload `failed` and counts one more
/// restart; a start that succeeds records the new container as `starting`
/// and keeps the count.
pub proof fn lemma_start_outcome(
    w: AssignedWorkload,
    local: (Option<Seq<char>>, Option<Seq<char>>, Option<u32>),
    started: Option<String>,
    volumes_ready: bool,
)
    ensures
        ({
            let (stage, after, action) = step_spec(
                WorkloadStage::Starting,
                w,
                local,
                WorkloadEvent::Started(started),
                volumes_ready,
            );
            &&& stage == WorkloadStage::Finished
            &&& match started {
                Some(id) => after == (Some(id@), Some("starting"@), local.2) && action is Done,
                None => after == (local.0, Some("failed"@), Some((local.2.unwrap_or(0) + 1) as u32)) && action
                    == WorkloadAction::Done { ack: false, register_dns: false },
            }
        }),
{
}

/// `a` is no larger than `b`, an absent count counting as below every count.
pub open spec fn count_le(a: Option<u32>, b: Option<u32>) -> bool {
    match (a, b) {
        (None, _) => true,
        (Some(x), Some(y)) => x <= y,
        (Some(_), None) => false,
    }
}

/// No step lowers a workload's restart count.
pub proof fn lemma_restart_count_monotone(
    stage: WorkloadStage,
    w: AssignedWorkload,
    local: (Option<Seq<char>>, Option<Seq<char>>, Option<u32>),
    event: WorkloadEvent,
    volumes_ready: bool,
)
    requires
        fits(stage, event),
        !step_overflows(stage, w, local.2, event),
    ensures
        count_le(local.2, step_spec(stage, w, local, event, volumes_ready).1.2),
{
}

/// While the agent pulls an image or starts a container, the workload has no
/// running container: a new container never stands beside an old one.
pub open spec fn stage_consistent(
    stage: WorkloadStage,
    local: (Option<Seq<char>>, Option<Seq<char>>, Option<u32>),
) -> bool {
    (stage == WorkloadStage::Pulling || stage == WorkloadStage::Starting) ==> local.0 is None
}

/// Every step keeps `stage_consistent`.
pub proof fn lemma_step_keeps_consistency(
    stage: WorkloadStage,
    w: AssignedWorkload,
    local: (Option<Seq<char>>, Option<Seq<char>>, Option<u32>),
    event: WorkloadEvent,
    volumes_ready: bool,
)
    requires
        stage_consistent(stage, local),
    ensures
        ({
            let (s2, l2, _) = step_spec(stage, w, local, event, volumes_ready);
            stage_consistent(s2, l2)
        }),
{
}

/// A restart is acknowledged only when one was requested, and only once a
/// new container runs.
pub proof fn lemma_ack_only_when_requested(
    stage: WorkloadStage,
    w: AssignedWorkload,
    local: (Option<Seq<char>>, Option<Seq<char>>, Option<u32>),
    event: WorkloadEvent,
    volumes_ready: bool,
)
    requires
        step_spec(stage, w, local, event, volumes_ready).2 matches WorkloadAction::Done { ack: true, .. },
    ensures
        w.restart_requested,
        step_spec(stage, w, local, event, volumes_ready).1.0 is Some,
{
}

} // verus!
