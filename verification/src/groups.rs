//! Resource groups: the lookups every route starts with, and the rule that
//! names are unique within an organization when groups are created or
//! renamed.
use vstd::prelude::*;
use crate::resources::HttpError;
use crate::text::str_eq;
use crate::workload_fsm::opt_string;

verus! {

/// The answer to a lookup that found nothing (404 with `missing`) or could
/// not be made (500 with `failed`).
pub fn lookup_failure(found: Result<bool, ()>, missing: &str, failed: &str) -> (r: Option<HttpError>)
    ensures
        match found {
            Ok(true) => r is None,
            Ok(false) => r matches Some(e) && e.status == 404 && e.error@ == missing@,
            Err(()) => r matches Some(e) && e.status == 500 && e.error@ == failed@,
        },
{
    match found {
        Ok(true) => None,
        Ok(false) => Some(HttpError { status: 404, error: String::from_str(missing) }),
        Err(()) => Some(HttpError { status: 500, error: String::from_str(failed) }),
    }
}

/// The organization every resource-group route works in: 404 `Organization
/// not found` when there is none, 500 when it could not be read.
pub fn require_organization(found: Result<bool, ()>) -> (r: Option<HttpError>)
    ensures
        match found {
            Ok(true) => r is None,
            Ok(false) => r matches Some(e) && e.status == 404 && e.error@ == "Organization not found"@,
            Err(()) => r matches Some(e) && e.status == 500 && e.error@ == "Failed to retrieve organization"@,
        },
{
    lookup_failure(found, "Organization not found", "Failed to retrieve organization")
}

/// The answer when a group name is taken.
pub open spec fn name_conflict_text() -> Seq<char> {
    "A resource group with this name already exists in your organization"@
}

/// Creating a group: refused with 409 when the organization has a group of
/// that name, with 500 when that could not be checked.
pub fn check_new_group_name(name_taken: Result<bool, ()>) -> (r: Option<HttpError>)
    ensures
        match name_taken {
            Ok(false) => r is None,
            Ok(true) => r matches Some(e) && e.status == 409 && e.error@ == name_conflict_text(),
            Err(()) => r matches Some(e) && e.status == 500 && e.error@ == "Failed to create resource group"@,
        },
{
    match name_taken {
        Ok(false) => None,
        Ok(true) => Some(HttpError {
            status: 409,
            error: String::from_str("A resource group with this name already exists in your organization"),
        }),
        Err(()) => Some(HttpError { status: 500, error: String::from_str("Failed to create resource group") }),
    }
}

/// The fields of a resource group that an update may change.
pub struct ResourceGroupFields {
    pub name: String,
    pub description: Option<String>,
    pub location: Option<String>,
    pub tags: Option<serde_json::Value>,
}

/// The changes an update asks for; an absent field stays as it is.
pub struct UpdateResourceGroupRequest {
    pub name: Option<String>,
    pub description: Option<String>,
    pub location: Option<String>,
    pub tags: Option<serde_json::Value>,
}

/// Whether an update must check that the new name is free: it renames the
/// group.
pub open spec fn renames(current_name: Seq<char>, new_name: Option<Seq<char>>) -> bool {
    new_name matches Some(n) && n != current_name
}

pub fn needs_name_check(current: &ResourceGroupFields, req: &UpdateResourceGroupRequest) -> (b: bool)
    ensures
        b == renames(current.name@, opt_string(req.name)),
{
    match &req.name {
        Some(n) => !str_eq(n.as_str(), current.name.as_str()),
        None => false,
    }
}

/// Applies an update to a group: when it renames the group, `name_taken`
/// is whether another group of the organization has the new name (`None`
/// when not asked), refused with 409 when so and 500 when it could not be
/// checked; otherwise each field given replaces the old one.
pub fn apply_group_update(
    current: ResourceGroupFields,
    req: UpdateResourceGroupRequest,
    name_taken: Option<Result<bool, ()>>,
) -> (r: Result<ResourceGroupFields, HttpError>)
    requires
        renames(current.name@, opt_string(req.name)) ==> name_taken is Some,
    ensures
        renames(current.name@, opt_string(req.name)) && name_taken == Some(Ok::<bool, ()>(true)) ==> (r matches Err(e)
            && e.status == 409 && e.error@ == name_conflict_text()),
        renames(current.name@, opt_string(req.name)) && name_taken == Some(Err::<bool, ()>(())) ==> (r matches Err(e)
            && e.status == 500 && e.error@ == "Failed to update resource group"@),
        !renames(current.name@, opt_string(req.name)) || name_taken == Some(Ok::<bool, ()>(false)) ==> (r matches Ok(g) && {
            &&& g.name@ == match req.name {
                Some(n) => n@,
                None => current.name@,
            }
            &&& opt_string(g.description) == match req.description {
                Some(d) => Some(d@),
                None => opt_string(current.description),
            }
            &&& opt_string(g.location) == match req.location {
                Some(l) => Some(l@),
                None => opt_string(current.location),
            }
            &&& g.tags == match req.tags {
                Some(t) => Some(t),
                None => current.tags,
            }
        }),
{
    if needs_name_check(&current, &req) {
        match name_taken {
            Some(Ok(true)) => {
                return Err(HttpError {
                    status: 409,
                    error: String::from_str("A resource group with this name already exists in your organization"),
                });
            },
            Some(Err(())) => {
                return Err(HttpError { status: 500, error: String::from_str("Failed to update resource group") });
            },
            _ => {},
        }
    }
    let name = match req.name {
        Some(n) => n,
        None => current.name,
    };
    let description = match req.description {
        Some(d) => Some(d),
        None => current.description,
    };
    let location = match req.location {
        Some(l) => Some(l),
        None => current.location,
    };
    let tags = match req.tags {
        Some(t) => Some(t),
        None => current.tags,
    };
    Ok(ResourceGroupFields { name, description, location, tags })
}

} // verus!
