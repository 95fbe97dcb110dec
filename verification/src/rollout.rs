//! Cluster updates driven through etcd: the keys the gateway, the updaters
//! and the agents share, and the gateway's side of scheduling, pausing and
//! reporting an update.
use vstd::prelude::*;
use crate::text::utf8_decode;
use crate::versions::{is_valid_version, valid_version};

verus! {

pub const ETCD_DESIRED_VERSION_KEY: &'static str = "/csf/config/desired_version";
pub const ETCD_AVAILABLE_FLAKE_REV_KEY: &'static str = "/csf/config/available_flake_rev";
pub const ETCD_DESIRED_FLAKE_REV_KEY: &'static str = "/csf/config/desired_flake_rev";
pub const ETCD_BUILD_STATUS_KEY: &'static str = "/csf/config/cp_build_status";
pub const ETCD_RESULT_KEY: &'static str = "/csf/config/last_build_result";
pub const ETCD_PAUSED_KEY: &'static str = "/csf/config/update_paused";

/// A request to update the cluster to a version.
pub struct UpdateRequest {
    pub version: String,
}

/// The answer to a scheduled update.
pub struct UpdateResponse {
    pub status: String,
    pub version: String,
}

/// Where a cluster update stands.
pub struct UpdateStatusResponse {
    pub current_version: String,
    pub desired_version: Option<String>,
    pub available_flake_rev: Option<String>,
    pub desired_flake_rev: Option<String>,
    pub build_status: Option<String>,
    pub last_result: Option<String>,
    pub paused: bool,
}

/// Schedules an update: a version that is not valid is refused with 422;
/// otherwise the answer says `update_scheduled` for the version (which the
/// gateway writes to the desired-version key).
pub fn schedule_update(req: UpdateRequest) -> (r: Result<UpdateResponse, u16>)
    ensures
        !valid_version(req.version@) ==> r == Err::<UpdateResponse, u16>(422),
        valid_version(req.version@) ==> (r matches Ok(a) && a.status@ == "update_scheduled"@ && a.version@
            == req.version@),
{
    if !is_valid_version(req.version.as_str()) {
        return Err(422);
    }
    Ok(UpdateResponse { status: String::from_str("update_scheduled"), version: req.version })
}

/// A key's value as text: the first value's bytes when they are UTF-8.
pub fn etcd_text(first_value: Option<&[u8]>) -> (r: Option<String>)
    ensures
        match first_value {
            None => r is None,
            Some(b) => match r {
                Some(s) => vstd::utf8::valid_utf8(b@) && s@ == vstd::utf8::decode_utf8(b@),
                None => !vstd::utf8::valid_utf8(b@),
            },
        },
{
    match first_value {
        None => None,
        Some(b) => utf8_decode(b),
    }
}

/// Updates are paused when the pause key holds exactly `true`.
pub fn is_paused(value: Option<&str>) -> (b: bool)
    ensures
        b == (value matches Some(v) && v@ == "true"@),
{
    match value {
        Some(v) => crate::text::str_eq(v, "true"),
        None => false,
    }
}

/// The status report from the values read.
pub fn update_status(
    current_version: &str,
    desired_version: Option<String>,
    available_flake_rev: Option<String>,
    desired_flake_rev: Option<String>,
    build_status: Option<String>,
    last_result: Option<String>,
    paused_value: Option<String>,
) -> (r: UpdateStatusResponse)
    ensures
        r.current_version@ == current_version@,
        r.desired_version == desired_version,
        r.available_flake_rev == available_flake_rev,
        r.desired_flake_rev == desired_flake_rev,
        r.build_status == build_status,
        r.last_result == last_result,
        r.paused == (paused_value matches Some(v) && v@ == "true"@),
{
    let paused = match &paused_value {
        Some(v) => is_paused(Some(v.as_str())),
        None => false,
    };
    UpdateStatusResponse {
        current_version: String::from_str(current_version),
        desired_version,
        available_flake_rev,
        desired_flake_rev,
        build_status,
        last_result,
        paused,
    }
}

} // verus!
