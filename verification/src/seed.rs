//! What a fresh gateway database is seeded with: the RSA key's name, the
//! default organization, the permission catalogue, the three system roles
//! and their permissions, and the first administrator.
use vstd::prelude::*;

verus! {

pub const MAIN_KEY_NAME: &'static str = "main";
pub const DEFAULT_ORGANIZATION_NAME: &'static str = "Default Organization";
pub const DEFAULT_ORGANIZATION_DESCRIPTION: &'static str = "Default organization for all users";
/// The first administrator's user name and e-mail.
pub const ADMIN_USER: &'static str = "admin@local.com";
/// The first administrator's password, which must be changed at the first
/// sign-in.
pub const ADMIN_INITIAL_PASSWORD: &'static str = "admin";

/// A permission of the catalogue: its name, the resource and action it
/// grants, and a description.
pub struct PermissionSeed {
    pub name: &'static str,
    pub resource: &'static str,
    pub action: &'static str,
    pub description: &'static str,
}

/// The permission catalogue as `(resource, action)` pairs, in order.
pub open spec fn catalogue() -> Seq<(Seq<char>, Seq<char>)> {
    seq![
        ("organization"@, "view"@), ("organization"@, "update"@), ("organization"@, "delete"@),
        ("members"@, "view"@), ("members"@, "create"@), ("members"@, "update"@), ("members"@, "delete"@),
        ("users"@, "view"@), ("users"@, "create"@), ("users"@, "update"@), ("users"@, "delete"@),
        ("agents"@, "view"@), ("agents"@, "manage"@),
        ("workloads"@, "view"@), ("workloads"@, "manage"@),
        ("volumes"@, "view"@), ("volumes"@, "manage"@),
        ("networks"@, "view"@), ("networks"@, "manage"@)
    ]
}

/// The descriptions of the catalogue's permissions, in order.
pub open spec fn permission_descriptions() -> Seq<Seq<char>> {
    seq![
        "View organization details"@,
        "Update organization"@,
        "Delete organization"@,
        "View organization members"@,
        "Add members to organization"@,
        "Update member roles"@,
        "Remove members from organization"@,
        "View user list and details"@,
        "Create new users"@,
        "Update user details"@,
        "Delete users"@,
        "View agents and metrics"@,
        "Register and manage agents"@,
        "View workloads"@,
        "Create and delete workloads"@,
        "View volumes and snapshots"@,
        "Create, attach, detach and delete volumes"@,
        "View networks and policies"@,
        "Create and manage networks"@,
    ]
}

/// A permission's name: its resource, `.`, its action.
pub open spec fn permission_name(resource: Seq<char>, action: Seq<char>) -> Seq<char> {
    resource + "."@ + action
}

fn seed(name: &'static str, resource: &'static str, action: &'static str, description: &'static str) -> (r: PermissionSeed)
    ensures
        r.name@ == name@,
        r.resource@ == resource@,
        r.action@ == action@,
        r.description@ == description@,
{
    PermissionSeed { name, resource, action, description }
}

/// The permission catalogue: for each `(resource, action)` of `catalogue`,
/// in order, a permission named `resource.action`, with the description of
/// `permission_descriptions`.
pub fn default_permissions() -> (r: Vec<PermissionSeed>)
    ensures
        r@.len() == catalogue().len(),
        forall|i: int| 0 <= i < r@.len() ==> (#[trigger] r@[i]).resource@ == catalogue()[i].0 && r@[i].action@
            == catalogue()[i].1 && r@[i].name@ == permission_name(catalogue()[i].0, catalogue()[i].1),
        forall|i: int| 0 <= i < r@.len() ==> (#[trigger] r@[i]).description@ == permission_descriptions()[i],
{
    proof {
        reveal_strlit("organization.view");
        reveal_strlit("organization.update");
        reveal_strlit("organization.delete");
        reveal_strlit("members.view");
        reveal_strlit("members.create");
        reveal_strlit("members.update");
        reveal_strlit("members.delete");
        reveal_strlit("users.view");
        reveal_strlit("users.create");
        reveal_strlit("users.update");
        reveal_strlit("users.delete");
        reveal_strlit("agents.view");
        reveal_strlit("agents.manage");
        reveal_strlit("workloads.view");
        reveal_strlit("workloads.manage");
        reveal_strlit("volumes.view");
        reveal_strlit("volumes.manage");
        reveal_strlit("networks.view");
        reveal_strlit("networks.manage");
        reveal_strlit("organization");
        reveal_strlit("members");
        reveal_strlit("users");
        reveal_strlit("agents");
        reveal_strlit("workloads");
        reveal_strlit("volumes");
        reveal_strlit("networks");
        reveal_strlit("view");
        reveal_strlit("update");
        reveal_strlit("delete");
        reveal_strlit("create");
        reveal_strlit("manage");
        reveal_strlit(".");
    }
    let v = vec![
        seed("organization.view", "organization", "view", "View organization details"),
        seed("organization.update", "organization", "update", "Update organization"),
        seed("organization.delete", "organization", "delete", "Delete organization"),
        seed("members.view", "members", "view", "View organization members"),
        seed("members.create", "members", "create", "Add members to organization"),
        seed("members.update", "members", "update", "Update member roles"),
        seed("members.delete", "members", "delete", "Remove members from organization"),
        seed("users.view", "users", "view", "View user list and details"),
        seed("users.create", "users", "create", "Create new users"),
        seed("users.update", "users", "update", "Update user details"),
        seed("users.delete", "users", "delete", "Delete users"),
        seed("agents.view", "agents", "view", "View agents and metrics"),
        seed("agents.manage", "agents", "manage", "Register and manage agents"),
        seed("workloads.view", "workloads", "view", "View workloads"),
        seed("workloads.manage", "workloads", "manage", "Create and delete workloads"),
        seed("volumes.view", "volumes", "view", "View volumes and snapshots"),
        seed("volumes.manage", "volumes", "manage", "Create, attach, detach and delete volumes"),
        seed("networks.view", "networks", "view", "View networks and policies"),
        seed("networks.manage", "networks", "manage", "Create and manage networks"),
    ];
    assert forall|i: int| 0 <= i < v@.len() implies (#[trigger] v@[i]).resource@ == catalogue()[i].0 && v@[i].action@
        == catalogue()[i].1 && v@[i].name@ == permission_name(catalogue()[i].0, catalogue()[i].1) by {
        assert(permission_name(catalogue()[i].0, catalogue()[i].1) =~= v@[i].name@);
    }
    v
}

/// The system roles every organization starts with.
#[derive(Debug, Clone, Copy, PartialEq, Eq, Structural)]
pub enum SystemRole {
    Admin,
    Operator,
    Viewer,
}

impl SystemRole {
    /// The role's name and description.
    pub fn name_and_description(&self) -> (r: (&'static str, &'static str))
        ensures
            *self == SystemRole::Admin ==> r.0@ == "Admin"@ && r.1@ == "Full access to organization"@,
            *self == SystemRole::Operator ==> r.0@ == "Operator"@ && r.1@ == "Can manage resources but not users"@,
            *self == SystemRole::Viewer ==> r.0@ == "Viewer"@ && r.1@ == "Read-only access to resources"@,
    {
        match self {
            SystemRole::Admin => ("Admin", "Full access to organization"),
            SystemRole::Operator => ("Operator", "Can manage resources but not users"),
            SystemRole::Viewer => ("Viewer", "Read-only access to resources"),
        }
    }
}

/// The permissions a role is given, by name: the Admin every permission of
/// the catalogue; the Operator viewing and managing agents, workloads,
/// volumes and networks, and viewing members; the Viewer viewing agents,
/// workloads, volumes, networks, the organization and its members.
pub open spec fn role_grants(role: SystemRole) -> Seq<(Seq<char>, Seq<char>)> {
    match role {
        SystemRole::Admin => catalogue(),
        SystemRole::Operator => seq![
            ("agents"@, "view"@), ("agents"@, "manage"@),
            ("workloads"@, "view"@), ("workloads"@, "manage"@),
            ("volumes"@, "view"@), ("volumes"@, "manage"@),
            ("networks"@, "view"@), ("networks"@, "manage"@),
            ("members"@, "view"@)
        ],
        SystemRole::Viewer => seq![
            ("agents"@, "view"@), ("workloads"@, "view"@), ("volumes"@, "view"@), ("networks"@, "view"@),
            ("organization"@, "view"@), ("members"@, "view"@)
        ],
    }
}

/// The names of the permissions a role is given, in order (see
/// `role_grants`).
pub fn role_permission_names(role: SystemRole) -> (r: Vec<&'static str>)
    ensures
        r@.len() == role_grants(role).len(),
        forall|i: int| 0 <= i < r@.len() ==> (#[trigger] r@[i])@ == permission_name(role_grants(role)[i].0, role_grants(role)[i].1),
{
    proof {
        reveal_strlit("organization.view");
        reveal_strlit("organization.update");
        reveal_strlit("organization.delete");
        reveal_strlit("members.view");
        reveal_strlit("members.create");
        reveal_strlit("members.update");
        reveal_strlit("members.delete");
        reveal_strlit("users.view");
        reveal_strlit("users.create");
        reveal_strlit("users.update");
        reveal_strlit("users.delete");
        reveal_strlit("agents.view");
        reveal_strlit("agents.manage");
        reveal_strlit("workloads.view");
        reveal_strlit("workloads.manage");
        reveal_strlit("volumes.view");
        reveal_strlit("volumes.manage");
        reveal_strlit("networks.view");
        reveal_strlit("networks.manage");
        reveal_strlit("organization");
        reveal_strlit("members");
        reveal_strlit("users");
        reveal_strlit("agents");
        reveal_strlit("workloads");
        reveal_strlit("volumes");
        reveal_strlit("networks");
        reveal_strlit("view");
        reveal_strlit("update");
        reveal_strlit("delete");
        reveal_strlit("create");
        reveal_strlit("manage");
        reveal_strlit(".");
    }
    let v: Vec<&'static str> = match role {
        SystemRole::Admin => vec![
            "organization.view", "organization.update", "organization.delete",
            "members.view", "members.create", "members.update", "members.delete",
            "users.view", "users.create", "users.update", "users.delete",
            "agents.view", "agents.manage", "workloads.view", "workloads.manage",
            "volumes.view", "volumes.manage", "networks.view", "networks.manage",
        ],
        SystemRole::Operator => vec![
            "agents.view", "agents.manage", "workloads.view", "workloads.manage",
            "volumes.view", "volumes.manage", "networks.view", "networks.manage", "members.view",
        ],
        SystemRole::Viewer => vec![
            "agents.view", "workloads.view", "volumes.view", "networks.view", "organization.view", "members.view",
        ],
    };
    assert forall|i: int| 0 <= i < v@.len() implies (#[trigger] v@[i])@ == permission_name(role_grants(role)[i].0, role_grants(role)[i].1) by {
        assert(permission_name(role_grants(role)[i].0, role_grants(role)[i].1) =~= v@[i]@);
    }
    v
}

/// Every permission a system role is given is in the catalogue.
pub proof fn lemma_roles_within_catalogue(role: SystemRole, i: int)
    requires
        0 <= i < role_grants(role).len(),
    ensures
        catalogue().contains(role_grants(role)[i]),
{
    match role {
        SystemRole::Admin => {
            assert(catalogue()[i] == role_grants(role)[i]);
        },
        SystemRole::Operator => {
            let k: int = if i == 0 { 11 } else if i == 1 { 12 } else if i == 2 { 13 } else if i == 3 { 14 }
                else if i == 4 { 15 } else if i == 5 { 16 } else if i == 6 { 17 } else if i == 7 { 18 } else { 3 };
            assert(catalogue()[k] == role_grants(role)[i]);
        },
        SystemRole::Viewer => {
            let k: int = if i == 0 { 11 } else if i == 1 { 13 } else if i == 2 { 15 } else if i == 3 { 17 }
                else if i == 4 { 0 } else { 3 };
            assert(catalogue()[k] == role_grants(role)[i]);
        },
    }
}

/// The Viewer role only views: each of its permissions has the action
/// `view`.
pub proof fn lemma_viewer_read_only(i: int)
    requires
        0 <= i < role_grants(SystemRole::Viewer).len(),
    ensures
        role_grants(SystemRole::Viewer)[i].1 == "view"@,
{
}

/// Neither the Operator nor the Viewer may manage users.
pub proof fn lemma_only_admin_manages_users(role: SystemRole, i: int)
    requires
        role != SystemRole::Admin,
        0 <= i < role_grants(role).len(),
    ensures
        role_grants(role)[i].0 != "users"@,
{
    reveal_strlit("users");
    reveal_strlit("agents");
    reveal_strlit("workloads");
    reveal_strlit("volumes");
    reveal_strlit("networks");
    reveal_strlit("members");
    reveal_strlit("organization");
    assert("users"@[0] == 'u');
    assert("agents"@[0] == 'a');
    assert("workloads"@[0] == 'w');
    assert("volumes"@[0] == 'v');
    assert("networks"@[0] == 'n');
    assert("members"@[0] == 'm');
    assert("organization"@[0] == 'o');
}

/// The first administrator as the seeding stores it: the user name and
/// e-mail `ADMIN_USER`, the password `ADMIN_INITIAL_PASSWORD` (hashed with a
/// fresh salt when stored), and a pending forced password change.
pub struct AdminUserSeed {
    pub name: &'static str,
    pub email: &'static str,
    pub initial_password: &'static str,
    pub force_password_change: bool,
}

/// The first administrator (see `AdminUserSeed`).
pub fn admin_user_seed() -> (r: AdminUserSeed)
    ensures
        r.name == ADMIN_USER,
        r.email == ADMIN_USER,
        r.initial_password == ADMIN_INITIAL_PASSWORD,
        r.force_password_change,
{
    AdminUserSeed {
        name: ADMIN_USER,
        email: ADMIN_USER,
        initial_password: ADMIN_INITIAL_PASSWORD,
        force_password_change: true,
    }
}

/// What the database already holds of the seed, as the initialization looks
/// it up: the main key, the default organization, each permission of the
/// catalogue, the three system roles, the administrator, and the
/// administrator's membership in the default organization.
pub struct SeedState {
    pub key_exists: bool,
    pub organization_exists: bool,
    pub permissions_exist: Vec<bool>,
    pub admin_role_exists: bool,
    pub operator_role_exists: bool,
    pub viewer_role_exists: bool,
    pub admin_user_exists: bool,
    pub admin_is_member: bool,
}

/// The same, as mathematical values.
pub struct SeedFacts {
    pub key: bool,
    pub organization: bool,
    pub permissions: Seq<bool>,
    pub admin_role: bool,
    pub operator_role: bool,
    pub viewer_role: bool,
    pub admin_user: bool,
    pub admin_member: bool,
}

impl View for SeedState {
    type V = SeedFacts;

    open spec fn view(&self) -> SeedFacts {
        SeedFacts {
            key: self.key_exists,
            organization: self.organization_exists,
            permissions: self.permissions_exist@,
            admin_role: self.admin_role_exists,
            operator_role: self.operator_role_exists,
            viewer_role: self.viewer_role_exists,
            admin_user: self.admin_user_exists,
            admin_member: self.admin_is_member,
        }
    }
}

/// What one initialization inserts: the key, the organization, the
/// permissions of these catalogue indexes, these roles (each with the
/// permissions of `role_grants`), the administrator, and the
/// administrator's membership with this role.
pub struct SeedPlan {
    pub insert_key: bool,
    pub insert_organization: bool,
    pub insert_permissions: Vec<usize>,
    pub create_roles: Vec<SystemRole>,
    pub insert_admin_user: Option<AdminUserSeed>,
    pub add_admin_membership: Option<SystemRole>,
}

/// The same, as mathematical values.
pub struct PlanFacts {
    pub key: bool,
    pub organization: bool,
    pub permissions: Seq<int>,
    pub roles: Seq<SystemRole>,
    /// The administrator to insert: name, e-mail, initial password, and
    /// whether a password change is forced.
    pub admin_user: Option<(Seq<char>, Seq<char>, Seq<char>, bool)>,
    pub admin_membership: Option<SystemRole>,
}

impl View for SeedPlan {
    type V = PlanFacts;

    open spec fn view(&self) -> PlanFacts {
        PlanFacts {
            key: self.insert_key,
            organization: self.insert_organization,
            permissions: self.insert_permissions@.map_values(|i: usize| i as int),
            roles: self.create_roles@,
            admin_user: match self.insert_admin_user {
                Some(u) => Some((u.name@, u.email@, u.initial_password@, u.force_password_change)),
                None => None,
            },
            admin_membership: self.add_admin_membership,
        }
    }
}

/// The system roles still to be created, in the order Admin, Operator,
/// Viewer.
pub open spec fn roles_to_create(f: SeedFacts) -> Seq<SystemRole> {
    (if f.admin_role { Seq::empty() } else { seq![SystemRole::Admin] })
        + (if f.operator_role { Seq::empty() } else { seq![SystemRole::Operator] })
        + (if f.viewer_role { Seq::empty() } else { seq![SystemRole::Viewer] })
}

/// The initialization inserts exactly what is missing; the administrator
/// joins the default organization as Admin when not a member yet.
pub open spec fn plan_for(f: SeedFacts) -> PlanFacts {
    PlanFacts {
        key: !f.key,
        organization: !f.organization,
        permissions: crate::marketplace::unset_indexes(f.permissions),
        roles: roles_to_create(f),
        admin_user: if f.admin_user {
            None
        } else {
            Some((ADMIN_USER@, ADMIN_USER@, ADMIN_INITIAL_PASSWORD@, true))
        },
        admin_membership: if f.admin_member { None } else { Some(SystemRole::Admin) },
    }
}

/// What the database holds after a plan has been carried out.
pub open spec fn after_plan(f: SeedFacts, p: PlanFacts) -> SeedFacts {
    SeedFacts {
        key: f.key || p.key,
        organization: f.organization || p.organization,
        permissions: Seq::new(f.permissions.len(), |i: int| f.permissions[i] || p.permissions.contains(i)),
        admin_role: f.admin_role || p.roles.contains(SystemRole::Admin),
        operator_role: f.operator_role || p.roles.contains(SystemRole::Operator),
        viewer_role: f.viewer_role || p.roles.contains(SystemRole::Viewer),
        admin_user: f.admin_user || p.admin_user is Some,
        admin_member: f.admin_member || p.admin_membership is Some,
    }
}

/// A plan that inserts nothing.
pub open spec fn inserts_nothing(p: PlanFacts) -> bool {
    &&& !p.key
    &&& !p.organization
    &&& p.permissions.len() == 0
    &&& p.roles.len() == 0
    &&& p.admin_user is None
    &&& p.admin_membership is None
}

/// Plans an initialization from what the database holds (see `plan_for`);
/// a new administrator is the one of `admin_user_seed`: name and e-mail
/// `ADMIN_USER`, password `ADMIN_INITIAL_PASSWORD`, a forced change.
pub fn seed_plan(state: &SeedState) -> (r: SeedPlan)
    ensures
        r@ == plan_for(state@),
{
    let insert_permissions = crate::marketplace::templates_to_insert(&state.permissions_exist);
    let mut roles: Vec<SystemRole> = Vec::new();
    if !state.admin_role_exists {
        roles.push(SystemRole::Admin);
    }
    if !state.operator_role_exists {
        roles.push(SystemRole::Operator);
    }
    if !state.viewer_role_exists {
        roles.push(SystemRole::Viewer);
    }
    assert(roles@ =~= roles_to_create(state@));
    SeedPlan {
        insert_key: !state.key_exists,
        insert_organization: !state.organization_exists,
        insert_permissions,
        create_roles: roles,
        insert_admin_user: if state.admin_user_exists {
            None
        } else {
            Some(admin_user_seed())
        },
        add_admin_membership: if state.admin_is_member {
            None
        } else {
            Some(SystemRole::Admin)
        },
    }
}

/// A second initialization inserts nothing: once a plan has been carried
/// out, the next plan neither inserts a row nor resets the administrator.
pub proof fn lemma_second_initialization_inserts_nothing(f: SeedFacts)
    ensures
        inserts_nothing(plan_for(after_plan(f, plan_for(f)))),
{
    let g = after_plan(f, plan_for(f));
    crate::marketplace::lemma_seeding_inserts_exactly_the_missing(f.permissions);
    assert(g.permissions =~= crate::marketplace::seeded(f.permissions));
    if !f.admin_role {
        assert(roles_to_create(f)[0] == SystemRole::Admin);
    }
    if !f.operator_role {
        let k = if f.admin_role { 0int } else { 1int };
        assert(roles_to_create(f)[k] == SystemRole::Operator);
    }
    if !f.viewer_role {
        let k = roles_to_create(f).len() - 1;
        assert(roles_to_create(f)[k] == SystemRole::Viewer);
    }
    assert(roles_to_create(g) =~= Seq::<SystemRole>::empty());
}

} // verus!
