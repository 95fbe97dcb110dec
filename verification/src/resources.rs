//! Docker-backed resources of the gateway: what an action on a resource
//! does to its container and status, how containers are named, and the
//! checks before logs, commands and deployments.
use vstd::prelude::*;
use crate::text::{
    chars_of, lowercase_of, replace_char, replace_chars, slice_chars, split_whitespace, split_ws,
    str_eq, string_from, to_lowercase,
};

verus! {

/// An error answer: its HTTP status and the text of its `error` field.
pub struct HttpError {
    pub status: u16,
    pub error: String,
}

/// The body of an action request: `start`, `stop` or `restart`.
pub struct ResourceActionRequest {
    pub action: String,
}

/// An action on a resource's container.
#[derive(Debug, Clone, Copy, PartialEq, Eq, Structural)]
pub enum ResourceAction {
    Start,
    Stop,
    Restart,
}

impl ResourceAction {
    /// The status a resource has after the action.
    pub open spec fn status(self) -> Seq<char> {
        match self {
            ResourceAction::Start => "running"@,
            ResourceAction::Stop => "stopped"@,
            ResourceAction::Restart => "running"@,
        }
    }

    /// The status after the action (see `status`).
    pub fn new_status(&self) -> (r: &'static str)
        ensures
            r@ == self.status(),
    {
        match self {
            ResourceAction::Start => "running",
            ResourceAction::Stop => "stopped",
            ResourceAction::Restart => "running",
        }
    }
}

/// The action an action request names, if it names one.
pub open spec fn action_named(s: Seq<char>) -> Option<ResourceAction> {
    if s == "start"@ {
        Some(ResourceAction::Start)
    } else if s == "stop"@ {
        Some(ResourceAction::Stop)
    } else if s == "restart"@ {
        Some(ResourceAction::Restart)
    } else {
        None
    }
}

/// Reads an action request; anything but the three actions is refused with
/// 400.
pub fn parse_resource_action(action: &str) -> (r: Result<ResourceAction, HttpError>)
    ensures
        match r {
            Ok(a) => action_named(action@) == Some(a),
            Err(e) => action_named(action@) is None && e.status == 400 && e.error@
                == "Invalid action. Must be 'start', 'stop', or 'restart'"@,
        },
{
    if str_eq(action, "start") {
        Ok(ResourceAction::Start)
    } else if str_eq(action, "stop") {
        Ok(ResourceAction::Stop)
    } else if str_eq(action, "restart") {
        Ok(ResourceAction::Restart)
    } else {
        Err(HttpError {
            status: 400,
            error: String::from_str("Invalid action. Must be 'start', 'stop', or 'restart'"),
        })
    }
}

/// The first eight characters of `id` are ASCII, so that its first eight
/// bytes are they.
pub open spec fn ascii_prefix8(id: Seq<char>) -> bool {
    id.len() >= 8 && forall|i: int| 0 <= i < 8 ==> (#[trigger] id[i] as u32) < 128
}

/// A container's name: the resource's name lowercased with spaces turned
/// into `-`, a `-`, and the first eight characters of an id.
pub open spec fn container_name_spec(name: Seq<char>, id: Seq<char>) -> Seq<char> {
    replace_char(lowercase_of(name), ' ', '-') + "-"@ + id.take(8)
}

/// Names a resource's container (see `container_name_spec`); the id is a
/// hyphenated UUID, whose first eight characters are hex digits.
pub fn container_name(name: &str, id: &str) -> (r: String)
    requires
        ascii_prefix8(id@),
    ensures
        r@ == container_name_spec(name@, id@),
{
    let lower = to_lowercase(name);
    let mut v = replace_chars(&chars_of(lower.as_str()), ' ', '-');
    v.push('-');
    let idc = chars_of(id);
    let head = slice_chars(&idc, 0, 8);
    let ghost before = v@;
    let mut k: usize = 0;
    while k < 8
        invariant
            k <= 8,
            head@.len() == 8,
            head@ == id@.take(8),
            v@ == before + head@.take(k as int),
        decreases 8 - k,
    {
        v.push(head[k]);
        assert(head@.take(k + 1) =~= head@.take(k as int).push(head@[k as int]));
        k = k + 1;
    }
    assert(head@.take(8) =~= head@);
    assert(v@ =~= replace_char(lowercase_of(name@), ' ', '-') + "-"@ + id@.take(8)) by {
        reveal_strlit("-");
    }
    string_from(v.as_slice())
}

/// Where an action on a resource stands.
#[derive(Debug, Clone, Copy, PartialEq, Eq, Structural)]
pub enum ActionStage {
    /// The container is being created (its image pulled first).
    Creating,
    /// The action is being run on the container.
    Acting,
    /// Nothing is left to do but to answer.
    Done,
}

/// An action on a resource under way: the action, where it stands, and the
/// container it concerns.
pub struct ActionRun {
    pub action: ResourceAction,
    pub stage: ActionStage,
    pub container_id: Option<String>,
}

/// What the gateway is to do next for an action.
pub enum ActionStep {
    /// Pull `image` (a failed pull is only logged) and create and start a
    /// container named `name` from it.
    CreateContainer { image: String, name: String },
    /// Run the action on the container.
    Act { target: String },
    /// Store the new status and, when given, the container id; answer with
    /// the stored resource.
    Persist { status: &'static str, container_id: Option<String> },
    /// Answer with an error.
    Refuse(HttpError),
}

/// The outcome of the last step.
pub enum ActionEvent {
    /// The new container's id, or the error text.
    Created(Result<String, String>),
    /// Whether the action ran, or the error text.
    Acted(Result<(), String>),
}

/// Starts an action on a resource: `docker_available` says whether the
/// gateway reaches a Docker daemon, `container_id` is the resource's
/// container, `config_image` the `image` of its configuration, and
/// `resource_id` its id as text. Without Docker only the status changes.
/// Starting a resource without a container creates one from the image, and
/// is refused with 400 without an image. Otherwise the action runs on the
/// container, if there is one.
pub fn begin_resource_action(
    action: ResourceAction,
    docker_available: bool,
    container_id: Option<String>,
    config_image: Option<String>,
    resource_name: &str,
    resource_id: &str,
) -> (r: (ActionRun, ActionStep))
    requires
        ascii_prefix8(resource_id@),
    ensures
        r.0.action == action,
        !docker_available ==> {
            &&& r.0.stage == ActionStage::Done
            &&& r.1 matches ActionStep::Persist { status, container_id: c } && status@ == action.status()
                && crate::workload_fsm::opt_string(c) == crate::workload_fsm::opt_string(container_id)
        },
        docker_available && container_id is None && action == ResourceAction::Start ==> match config_image {
            None => r.1 matches ActionStep::Refuse(e) && e.status == 400 && e.error@
                == "No Docker image specified in configuration"@,
            Some(img) => {
                &&& r.0.stage == ActionStage::Creating
                &&& r.1 matches ActionStep::CreateContainer { image, name } && image@ == img@ && name@
                    == container_name_spec(resource_name@, resource_id@)
            },
        },
        docker_available && !(container_id is None && action == ResourceAction::Start) ==> match container_id {
            Some(c) => {
                &&& r.0.stage == ActionStage::Acting
                &&& r.0.container_id matches Some(k) && k@ == c@
                &&& r.1 matches ActionStep::Act { target: k } && k@ == c@
            },
            None => {
                &&& r.0.stage == ActionStage::Done
                &&& r.1 matches ActionStep::Persist { status, container_id: None } && status@ == action.status()
            },
        },
{
    if !docker_available {
        let run = ActionRun { action, stage: ActionStage::Done, container_id: None };
        return (run, ActionStep::Persist { status: action.new_status(), container_id });
    }
    if container_id.is_none() && action == ResourceAction::Start {
        match config_image {
            None => {
                let run = ActionRun { action, stage: ActionStage::Done, container_id: None };
                (run, ActionStep::Refuse(HttpError {
                    status: 400,
                    error: String::from_str("No Docker image specified in configuration"),
                }))
            },
            Some(image) => {
                let name = container_name(resource_name, resource_id);
                let run = ActionRun { action, stage: ActionStage::Creating, container_id: None };
                (run, ActionStep::CreateContainer { image, name })
            },
        }
    } else {
        match container_id {
            Some(c) => {
                let run = ActionRun { action, stage: ActionStage::Acting, container_id: Some(c.clone()) };
                (run, ActionStep::Act { target: c })
            },
            None => {
                let run = ActionRun { action, stage: ActionStage::Done, container_id: None };
                (run, ActionStep::Persist { status: action.new_status(), container_id: None })
            },
        }
    }
}

/// Carries an action on: a created container is acted on, a failed creation
/// is refused with 500 `Failed to create Docker container: …`; after the
/// action the status and container are stored, a failed action is refused
/// with 500 `Docker operation failed: …`.
pub fn resume_resource_action(run: &mut ActionRun, event: ActionEvent) -> (r: ActionStep)
    requires
        old(run).stage == ActionStage::Creating ==> event is Created,
        old(run).stage == ActionStage::Acting ==> event is Acted && old(run).container_id is Some,
        old(run).stage != ActionStage::Done,
    ensures
        final(run).action == old(run).action,
        match (old(run).stage, event) {
            (ActionStage::Creating, ActionEvent::Created(Ok(cid))) => {
                &&& final(run).stage == ActionStage::Acting
                &&& final(run).container_id matches Some(k) && k@ == cid@
                &&& r matches ActionStep::Act { target: k } && k@ == cid@
            },
            (ActionStage::Creating, ActionEvent::Created(Err(e))) => {
                &&& final(run).stage == ActionStage::Done
                &&& r matches ActionStep::Refuse(h) && h.status == 500 && h.error@
                    == "Failed to create Docker container: "@ + e@
            },
            (ActionStage::Acting, ActionEvent::Acted(Ok(()))) => {
                &&& final(run).stage == ActionStage::Done
                &&& r matches ActionStep::Persist { status, container_id: Some(k) } && status@
                    == old(run).action.status() && crate::workload_fsm::opt_string(old(run).container_id) == Some(k@)
            },
            (ActionStage::Acting, ActionEvent::Acted(Err(e))) => {
                &&& final(run).stage == ActionStage::Done
                &&& r matches ActionStep::Refuse(h) && h.status == 500 && h.error@
                    == "Docker operation failed: "@ + e@
            },
            _ => false,
        },
{
    match event {
        ActionEvent::Created(Ok(cid)) => {
            run.stage = ActionStage::Acting;
            run.container_id = Some(cid.clone());
            ActionStep::Act { target: cid }
        },
        ActionEvent::Created(Err(e)) => {
            run.stage = ActionStage::Done;
            ActionStep::Refuse(HttpError {
                status: 500,
                error: String::from_str("Failed to create Docker container: ").concat(e.as_str()),
            })
        },
        ActionEvent::Acted(Ok(())) => {
            run.stage = ActionStage::Done;
            let c = match &run.container_id {
                Some(c) => c.clone(),
                None => String::new(),
            };
            ActionStep::Persist { status: run.action.new_status(), container_id: Some(c) }
        },
        ActionEvent::Acted(Err(e)) => {
            run.stage = ActionStage::Done;
            ActionStep::Refuse(HttpError {
                status: 500,
                error: String::from_str("Docker operation failed: ").concat(e.as_str()),
            })
        },
    }
}

/// A resource's status as Docker's container state gives it: `running`
/// stays, `exited` and `dead` are `stopped`, anything else is `error`.
pub open spec fn status_from_state(state: Seq<char>) -> Seq<char> {
    if state == "running"@ {
        "running"@
    } else if state == "exited"@ || state == "dead"@ {
        "stopped"@
    } else {
        "error"@
    }
}

/// Only a running container shows as `running`: the status is `running`
/// exactly for the state `running`, `stopped` exactly for `exited` and
/// `dead`, and `error` for every other state.
pub proof fn lemma_status_from_state(state: Seq<char>)
    ensures
        (status_from_state(state) == "running"@) == (state == "running"@),
        (status_from_state(state) == "stopped"@) == (state == "exited"@ || state == "dead"@),
        state != "running"@ && state != "exited"@ && state != "dead"@ ==> status_from_state(state) == "error"@,
{
    reveal_strlit("running");
    reveal_strlit("stopped");
    reveal_strlit("error");
    assert("running"@[0] != "stopped"@[0]);
    assert("running"@[0] != "error"@[0]);
    assert("stopped"@[0] != "error"@[0]);
    reveal_strlit("exited");
    reveal_strlit("dead");
    assert("running"@.len() != "exited"@.len() && "running"@.len() != "dead"@.len());
}

/// Maps a container state to a resource status (see `status_from_state`).
pub fn status_from_docker_state(state: &str) -> (r: &'static str)
    ensures
        r@ == status_from_state(state@),
{
    if str_eq(state, "running") {
        "running"
    } else if str_eq(state, "exited") || str_eq(state, "dead") {
        "stopped"
    } else {
        "error"
    }
}

/// The status a resource is answered with when it is read, and whether the
/// stored row is to be written: `inspected` is the container's state as
/// Docker reports it, `None` where there is no Docker, no container or the
/// inspection failed. With a state, the answer is its status (see
/// `status_from_state`), written exactly when it differs from the stored
/// one; without, the stored status stands and nothing is written.
pub fn sync_status(stored: &str, inspected: Option<&str>) -> (r: (String, bool))
    ensures
        match inspected {
            Some(s) => r.0@ == status_from_state(s@) && r.1 == (stored@ != status_from_state(s@)),
            None => r.0@ == stored@ && !r.1,
        },
{
    match inspected {
        Some(s) => {
            let status = status_from_docker_state(s);
            let changed = !str_eq(stored, status);
            (String::from_str(status), changed)
        },
        None => (String::from_str(stored), false),
    }
}

/// The indexes, in order, of the resources a listing across the
/// organization shows: `group_names[i]` is the name of resource `i`'s
/// group, `None` where it could not be found, and such a resource is left
/// out.
pub fn resources_with_group(group_names: &Vec<Option<String>>) -> (r: Vec<usize>)
    ensures
        r@.map_values(|i: usize| i as int) == crate::marketplace::unset_indexes(
            group_names@.map_values(|g: Option<String>| g is None),
        ),
{
    let mut missing: Vec<bool> = Vec::new();
    let mut k: usize = 0;
    while k < group_names.len()
        invariant
            k <= group_names.len(),
            missing@ =~= group_names@.take(k as int).map_values(|g: Option<String>| g is None),
        decreases group_names.len() - k,
    {
        missing.push(group_names[k].is_none());
        k = k + 1;
    }
    assert(group_names@.take(group_names@.len() as int) =~= group_names@);
    crate::marketplace::templates_to_insert(&missing)
}

/// The answer when the synced status could not be written: 500 `Failed to
/// sync container status`.
pub fn status_sync_failure() -> (r: HttpError)
    ensures
        r.status == 500 && r.error@ == "Failed to sync container status"@,
{
    HttpError { status: 500, error: String::from_str("Failed to sync container status") }
}

/// The resource's container, for logs and commands; 400 without one.
pub fn require_container(container_id: Option<String>) -> (r: Result<String, HttpError>)
    ensures
        match container_id {
            Some(c) => r matches Ok(k) && k@ == c@,
            None => r matches Err(e) && e.status == 400 && e.error@ == "Resource does not have a container ID"@,
        },
{
    match container_id {
        Some(c) => Ok(c),
        None => Err(HttpError { status: 400, error: String::from_str("Resource does not have a container ID") }),
    }
}

pub open spec fn word_views(v: Seq<String>) -> Seq<Seq<char>> {
    v.map_values(|s: String| s@)
}

/// The command to run in a container: the request's command split at
/// whitespace; 400 when that leaves nothing.
pub fn exec_command(command: &str) -> (r: Result<Vec<String>, HttpError>)
    ensures
        match r {
            Ok(parts) => word_views(parts@) == split_ws(command@) && parts@.len() > 0,
            Err(e) => split_ws(command@).len() == 0 && e.status == 400 && e.error@ == "Command cannot be empty"@,
        },
{
    let words = split_whitespace(&chars_of(command));
    let mut parts: Vec<String> = Vec::new();
    let mut k: usize = 0;
    while k < words.len()
        invariant
            k <= words.len(),
            word_views(parts@) == words@.take(k as int).map_values(|w: Vec<char>| w@),
        decreases words.len() - k,
    {
        let ghost before = parts@;
        parts.push(string_from(words[k].as_slice()));
        assert(word_views(parts@) =~= word_views(before).push(words@[k as int]@));
        assert(words@.take(k + 1) =~= words@.take(k as int).push(words@[k as int]));
        k = k + 1;
    }
    assert(words@.take(words@.len() as int) =~= words@);
    if parts.len() == 0 {
        return Err(HttpError { status: 400, error: String::from_str("Command cannot be empty") });
    }
    Ok(parts)
}

/// The gateway's Docker daemon, for the routes that need it; 503 without
/// one.
pub fn require_docker(docker_available: bool) -> (r: Result<(), HttpError>)
    ensures
        docker_available <==> r is Ok,
        r matches Err(e) ==> e.status == 503 && e.error@ == "Docker service not available"@,
{
    if docker_available {
        Ok(())
    } else {
        Err(HttpError { status: 503, error: String::from_str("Docker service not available") })
    }
}

/// What creating a resource does first: a `docker-container` resource with
/// an `image` in its configuration, on a gateway that reaches Docker, gets a
/// container (named from the resource's name and a fresh id); any other
/// resource starts `pending` without one.
pub fn plan_new_resource(
    resource_type: &str,
    docker_available: bool,
    config_image: Option<String>,
    name: &str,
    fresh_id: &str,
) -> (r: Option<(String, String)>)
    requires
        ascii_prefix8(fresh_id@),
    ensures
        match r {
            Some((image, cname)) => {
                &&& resource_type@ == "docker-container"@ && docker_available
                &&& config_image matches Some(i) && i@ == image@
                &&& cname@ == container_name_spec(name@, fresh_id@)
            },
            None => !(resource_type@ == "docker-container"@ && docker_available && config_image is Some),
        },
{
    if str_eq(resource_type, "docker-container") && docker_available {
        match config_image {
            Some(image) => Some((image, container_name(name, fresh_id))),
            None => None,
        }
    } else {
        None
    }
}

/// A new resource's status and container once the container step is done:
/// `pending` without a container, `running` with the created one, and 500
/// `Failed to create Docker container: …` when creating it failed.
pub fn new_resource_state(created: Option<Result<String, String>>) -> (r: Result<(&'static str, Option<String>), HttpError>)
    ensures
        match created {
            None => r matches Ok((s, None)) && s@ == "pending"@,
            Some(Ok(cid)) => r matches Ok((s, Some(k))) && s@ == "running"@ && k@ == cid@,
            Some(Err(e)) => r matches Err(h) && h.status == 500 && h.error@ == "Failed to create Docker container: "@ + e@,
        },
{
    match created {
        None => Ok(("pending", None)),
        Some(Ok(cid)) => Ok(("running", Some(cid))),
        Some(Err(e)) => Err(HttpError {
            status: 500,
            error: String::from_str("Failed to create Docker container: ").concat(e.as_str()),
        }),
    }
}

/// The answer to a failed deployment step: 400 `Failed to pull image: …`
/// when pulling failed, 500 `Failed to create container: …` when creating
/// failed.
pub fn deploy_failure(pull_failed: bool, error: &str) -> (r: HttpError)
    ensures
        pull_failed ==> r.status == 400 && r.error@ == "Failed to pull image: "@ + error@,
        !pull_failed ==> r.status == 500 && r.error@ == "Failed to create container: "@ + error@,
{
    if pull_failed {
        HttpError { status: 400, error: String::from_str("Failed to pull image: ").concat(error) }
    } else {
        HttpError { status: 500, error: String::from_str("Failed to create container: ").concat(error) }
    }
}

/// A request to deploy a container: its name, image, resource group,
/// description, and the port, environment and volume settings as given.
pub struct DeployContainerRequest {
    pub name: String,
    pub image: String,
    pub resource_group_id: [u8; 16],
    pub description: Option<String>,
    pub ports: Option<Vec<serde_json::Value>>,
    pub environment: Option<serde_json::Value>,
    pub volumes: Option<Vec<serde_json::Value>>,
}

/// The configuration stored with a deployed container: its image, and the
/// ports, environment and volumes exactly when the request gave them.
pub struct DeployConfiguration {
    pub image: String,
    pub ports: Option<Vec<serde_json::Value>>,
    pub environment: Option<serde_json::Value>,
    pub volumes: Option<Vec<serde_json::Value>>,
}

/// The configuration a new resource row carries.
pub enum ResourceConfiguration {
    /// Composed for a deployed container.
    Deployed(DeployConfiguration),
    /// A template's configuration, as stored with the template.
    Template(serde_json::Value),
}

/// A resource row to be stored.
pub struct NewResourceRow {
    pub name: String,
    pub resource_type: String,
    pub description: Option<String>,
    pub resource_group_id: [u8; 16],
    pub configuration: Option<ResourceConfiguration>,
    pub status: String,
    pub created_by: Option<[u8; 16]>,
    /// The `tags` object's entries, in order.
    pub tags: Option<Vec<(String, String)>>,
    pub container_id: Option<String>,
}

/// The row a deployment stores once its container runs: a
/// `docker-container` resource, `running`, with the request's name,
/// description and group, the configuration composed from the request, the
/// container and its creator, and no tags.
pub fn deployed_row(req: DeployContainerRequest, container_id: String, created_by: [u8; 16]) -> (r: NewResourceRow)
    ensures
        r.name == req.name,
        r.resource_type@ == "docker-container"@,
        r.description == req.description,
        r.resource_group_id == req.resource_group_id,
        r.configuration == Some(
            ResourceConfiguration::Deployed(
                DeployConfiguration {
                    image: req.image,
                    ports: req.ports,
                    environment: req.environment,
                    volumes: req.volumes,
                },
            ),
        ),
        r.status@ == "running"@,
        r.created_by == Some(created_by),
        r.tags is None,
        r.container_id == Some(container_id),
{
    NewResourceRow {
        name: req.name,
        resource_type: String::from_str("docker-container"),
        description: req.description,
        resource_group_id: req.resource_group_id,
        configuration: Some(
            ResourceConfiguration::Deployed(
                DeployConfiguration {
                    image: req.image,
                    ports: req.ports,
                    environment: req.environment,
                    volumes: req.volumes,
                },
            ),
        ),
        status: String::from_str("running"),
        created_by: Some(created_by),
        tags: None,
        container_id: Some(container_id),
    }
}

/// Where a deployment stands.
#[derive(Debug, Clone, Copy, PartialEq, Eq, Structural)]
pub enum DeployStage {
    /// The resource group is being looked up.
    LookingUpGroup,
    /// The image is being pulled.
    Pulling,
    /// The container is being created and started.
    Creating,
    /// The resource is being stored.
    Saving,
    /// The container is being stopped after the resource could not be stored.
    CleaningUp,
    /// Nothing is left to do but to answer.
    Done,
}

/// A deployment under way: where it stands, and the container it started.
pub struct DeployRun {
    pub stage: DeployStage,
    pub container_id: Option<String>,
}

/// What the gateway is to do next for a deployment.
pub enum DeployStep {
    /// Look the resource group up.
    LookUpGroup,
    /// Pull the image.
    PullImage,
    /// Create and start the container.
    CreateContainer,
    /// Store the resource, `running`, with this container.
    SaveResource { container_id: String },
    /// Stop this container.
    StopContainer { container_id: String },
    /// Answer 201 with the stored resource.
    Created,
    /// Answer with an error.
    Refuse(HttpError),
}

/// The outcome of the last step.
pub enum DeployEvent {
    /// Whether the group exists, or the lookup failed.
    GroupFound(Result<bool, ()>),
    /// Whether the image was pulled, or the error text.
    Pulled(Result<(), String>),
    /// The new container's id, or the error text.
    Started(Result<String, String>),
    /// Whether the resource was stored.
    Saved(bool),
    /// The container was stopped (or stopping it failed, which is only
    /// logged).
    Stopped,
}

/// The event answers what the stage waits for.
pub open spec fn deploy_fits(stage: DeployStage, event: DeployEvent) -> bool {
    match stage {
        DeployStage::LookingUpGroup => event is GroupFound,
        DeployStage::Pulling => event is Pulled,
        DeployStage::Creating => event is Started,
        DeployStage::Saving => event is Saved,
        DeployStage::CleaningUp => event is Stopped,
        DeployStage::Done => false,
    }
}

/// Starts a deployment: refused with 503 `Docker service not available`
/// without Docker; otherwise the resource group is looked up first.
pub fn begin_deploy(docker_available: bool) -> (r: (DeployRun, DeployStep))
    ensures
        r.0.container_id is None,
        docker_available ==> r.0.stage == DeployStage::LookingUpGroup && r.1 is LookUpGroup,
        !docker_available ==> r.0.stage == DeployStage::Done && (r.1 matches DeployStep::Refuse(e) && e.status == 503
            && e.error@ == "Docker service not available"@),
{
    if docker_available {
        (DeployRun { stage: DeployStage::LookingUpGroup, container_id: None }, DeployStep::LookUpGroup)
    } else {
        (
            DeployRun { stage: DeployStage::Done, container_id: None },
            DeployStep::Refuse(HttpError { status: 503, error: String::from_str("Docker service not available") }),
        )
    }
}

/// Carries a deployment on, in the order group lookup, pull, create and
/// start, store: a missing group is refused with 404 `Resource group not
/// found` and a failed lookup with 500 `Failed to retrieve resource group`;
/// a failed pull with 400 and a failed start with 500 (see
/// `deploy_failure`); a stored resource is answered with 201; when it could
/// not be stored, the container is stopped and the answer is 500 `Failed
/// to save deployed resource`.
pub fn resume_deploy(run: &mut DeployRun, event: DeployEvent) -> (r: DeployStep)
    requires
        deploy_fits(old(run).stage, event),
        old(run).stage == DeployStage::Saving || old(run).stage == DeployStage::CleaningUp ==> old(
            run,
        ).container_id is Some,
        old(run).stage == DeployStage::LookingUpGroup || old(run).stage == DeployStage::Pulling || old(run).stage
            == DeployStage::Creating ==> old(run).container_id is None,
    ensures
        match (old(run).stage, event) {
            (DeployStage::LookingUpGroup, DeployEvent::GroupFound(Ok(true))) => {
                &&& final(run).stage == DeployStage::Pulling
                &&& final(run).container_id is None
                &&& r is PullImage
            },
            (DeployStage::LookingUpGroup, DeployEvent::GroupFound(Ok(false))) => {
                &&& final(run).stage == DeployStage::Done
                &&& r matches DeployStep::Refuse(e) && e.status == 404 && e.error@ == "Resource group not found"@
            },
            (DeployStage::LookingUpGroup, DeployEvent::GroupFound(Err(()))) => {
                &&& final(run).stage == DeployStage::Done
                &&& r matches DeployStep::Refuse(e) && e.status == 500 && e.error@
                    == "Failed to retrieve resource group"@
            },
            (DeployStage::Pulling, DeployEvent::Pulled(Ok(()))) => {
                &&& final(run).stage == DeployStage::Creating
                &&& final(run).container_id is None
                &&& r is CreateContainer
            },
            (DeployStage::Pulling, DeployEvent::Pulled(Err(m))) => {
                &&& final(run).stage == DeployStage::Done
                &&& r matches DeployStep::Refuse(e) && e.status == 400 && e.error@ == "Failed to pull image: "@ + m@
            },
            (DeployStage::Creating, DeployEvent::Started(Ok(cid))) => {
                &&& final(run).stage == DeployStage::Saving
                &&& final(run).container_id matches Some(k) && k@ == cid@
                &&& r matches DeployStep::SaveResource { container_id: k } && k@ == cid@
            },
            (DeployStage::Creating, DeployEvent::Started(Err(m))) => {
                &&& final(run).stage == DeployStage::Done
                &&& r matches DeployStep::Refuse(e) && e.status == 500 && e.error@
                    == "Failed to create container: "@ + m@
            },
            (DeployStage::Saving, DeployEvent::Saved(true)) => {
                &&& final(run).stage == DeployStage::Done
                &&& r is Created
            },
            (DeployStage::Saving, DeployEvent::Saved(false)) => {
                &&& final(run).stage == DeployStage::CleaningUp
                &&& crate::workload_fsm::opt_string(final(run).container_id)
                    == crate::workload_fsm::opt_string(old(run).container_id)
                &&& r matches DeployStep::StopContainer { container_id: k } && Some(k@)
                    == crate::workload_fsm::opt_string(old(run).container_id)
            },
            (DeployStage::CleaningUp, DeployEvent::Stopped) => {
                &&& final(run).stage == DeployStage::Done
                &&& r matches DeployStep::Refuse(e) && e.status == 500 && e.error@
                    == "Failed to save deployed resource"@
            },
            _ => false,
        },
{
    match event {
        DeployEvent::GroupFound(Ok(true)) => {
            run.stage = DeployStage::Pulling;
            DeployStep::PullImage
        },
        DeployEvent::GroupFound(Ok(false)) => {
            run.stage = DeployStage::Done;
            DeployStep::Refuse(HttpError { status: 404, error: String::from_str("Resource group not found") })
        },
        DeployEvent::GroupFound(Err(())) => {
            run.stage = DeployStage::Done;
            DeployStep::Refuse(HttpError { status: 500, error: String::from_str("Failed to retrieve resource group") })
        },
        DeployEvent::Pulled(Ok(())) => {
            run.stage = DeployStage::Creating;
            DeployStep::CreateContainer
        },
        DeployEvent::Pulled(Err(m)) => {
            run.stage = DeployStage::Done;
            DeployStep::Refuse(deploy_failure(true, m.as_str()))
        },
        DeployEvent::Started(Ok(cid)) => {
            run.stage = DeployStage::Saving;
            run.container_id = Some(cid.clone());
            DeployStep::SaveResource { container_id: cid }
        },
        DeployEvent::Started(Err(m)) => {
            run.stage = DeployStage::Done;
            DeployStep::Refuse(deploy_failure(false, m.as_str()))
        },
        DeployEvent::Saved(true) => {
            run.stage = DeployStage::Done;
            DeployStep::Created
        },
        DeployEvent::Saved(false) => {
            run.stage = DeployStage::CleaningUp;
            let k = match &run.container_id {
                Some(c) => c.clone(),
                None => String::new(),
            };
            DeployStep::StopContainer { container_id: k }
        },
        DeployEvent::Stopped => {
            run.stage = DeployStage::Done;
            DeployStep::Refuse(HttpError { status: 500, error: String::from_str("Failed to save deployed resource") })
        },
    }
}

/// An image reference split into name and tag: with a `:`, the pieces
/// before and after the first `:` up to the next one; otherwise the whole
/// reference and `latest`.
pub open spec fn image_reference_spec(image: Seq<char>) -> (Seq<char>, Seq<char>) {
    let parts = crate::versions::split_char(image, ':');
    if parts.len() > 1 {
        (parts[0], parts[1])
    } else {
        (image, "latest"@)
    }
}

/// Splits an image reference (see `image_reference_spec`).
pub fn image_reference(image: &str) -> (r: (String, String))
    ensures
        (r.0@, r.1@) == image_reference_spec(image@),
{
    let parts = crate::versions::split_on(&chars_of(image), ':');
    if parts.len() > 1 {
        proof {
            assert(crate::versions::views(parts@)[0] == parts@[0]@);
            assert(crate::versions::views(parts@)[1] == parts@[1]@);
        }
        (string_from(parts[0].as_slice()), string_from(parts[1].as_slice()))
    } else {
        (String::from_str(image), String::from_str("latest"))
    }
}

/// What the gateway reports of a container.
pub struct ContainerInfo {
    pub id: String,
    pub name: String,
    pub image: String,
    pub state: String,
    pub status: String,
}

/// A container's display name: its first name without leading `/`, or
/// empty when it has none.
pub fn container_display_name(first_name: Option<&str>) -> (r: String)
    ensures
        r@ == match first_name {
            Some(n) => crate::text::trim_start_char(n@, '/'),
            None => Seq::<char>::empty(),
        },
{
    match first_name {
        Some(n) => string_from(crate::text::trim_start_matches(&chars_of(n), '/').as_slice()),
        None => String::new(),
    }
}

/// The fields of a resource that an update may change.
pub struct ResourceFields {
    pub name: String,
    pub description: Option<String>,
    pub configuration: Option<serde_json::Value>,
    pub status: String,
    pub tags: Option<serde_json::Value>,
}

/// The changes an update asks for; an absent field stays as it is.
pub struct UpdateResourceRequest {
    pub name: Option<String>,
    pub description: Option<String>,
    pub configuration: Option<serde_json::Value>,
    pub status: Option<String>,
    pub tags: Option<serde_json::Value>,
}

/// Applies an update to a resource: each field the request gives replaces
/// the stored one, and the others stay as they were.
pub fn apply_resource_update(current: ResourceFields, req: UpdateResourceRequest) -> (r: ResourceFields)
    ensures
        r.name@ == match req.name {
            Some(n) => n@,
            None => current.name@,
        },
        crate::workload_fsm::opt_string(r.description) == match req.description {
            Some(d) => Some(d@),
            None => crate::workload_fsm::opt_string(current.description),
        },
        r.configuration == match req.configuration {
            Some(c) => Some(c),
            None => current.configuration,
        },
        r.status@ == match req.status {
            Some(st) => st@,
            None => current.status@,
        },
        r.tags == match req.tags {
            Some(t) => Some(t),
            None => current.tags,
        },
{
    ResourceFields {
        name: match req.name {
            Some(n) => n,
            None => current.name,
        },
        description: match req.description {
            Some(d) => Some(d),
            None => current.description,
        },
        configuration: match req.configuration {
            Some(c) => Some(c),
            None => current.configuration,
        },
        status: match req.status {
            Some(st) => st,
            None => current.status,
        },
        tags: match req.tags {
            Some(t) => Some(t),
            None => current.tags,
        },
    }
}

/// The name of a resource's group as a response shows it: the group's name,
/// or `Unknown` when the group could not be found.
pub fn group_name_or_unknown(group_name: Option<String>) -> (r: String)
    ensures
        r@ == match group_name {
            Some(n) => n@,
            None => "Unknown"@,
        },
{
    match group_name {
        Some(n) => n,
        None => String::from_str("Unknown"),
    }
}

} // verus!
