//! System settings kept by the gateway: how long logs are retained, and the
//! style of the avatar shown for users without a picture.
use vstd::prelude::*;
use crate::resources::HttpError;
use crate::text::str_eq;

verus! {

pub const RETENTION_KEY: &'static str = "logs.retention_days";
pub const MIN_RETENTION_DAYS: i64 = 1;
pub const MAX_RETENTION_DAYS: i64 = 365;
/// The retention used while none is stored.
pub const DEFAULT_RETENTION_DAYS: i64 = 30;
pub const AVATAR_FALLBACK_KEY: &'static str = "avatar.fallback_style";

/// The stored log retention.
pub struct LogsRetentionResponse {
    pub retention_days: i64,
}

/// A new log retention.
pub struct UpdateLogsRetentionRequest {
    pub retention_days: i64,
}

/// The avatar style.
pub struct AvatarFallbackResponse {
    pub style: String,
}

/// A new avatar style.
pub struct UpdateAvatarFallbackRequest {
    pub style: String,
}

/// A retention the gateway accepts: 1 to 365 days.
pub open spec fn retention_ok(days: i64) -> bool {
    MIN_RETENTION_DAYS <= days <= MAX_RETENTION_DAYS
}

/// Checks a new retention; 400 with the allowed range otherwise.
pub fn check_retention(req: &UpdateLogsRetentionRequest) -> (r: Result<i64, HttpError>)
    ensures
        retention_ok(req.retention_days) ==> r == Ok::<i64, HttpError>(req.retention_days),
        !retention_ok(req.retention_days) ==> (r matches Err(e) && e.status == 400 && e.error@
            == "retention_days must be between 1 and 365"@),
{
    if req.retention_days < MIN_RETENTION_DAYS || req.retention_days > MAX_RETENTION_DAYS {
        return Err(HttpError { status: 400, error: String::from_str("retention_days must be between 1 and 365") });
    }
    Ok(req.retention_days)
}

/// The retention in effect: the stored value when there is one and it is
/// an integer (`stored` is `None` without a stored setting, `Some(None)`
/// when its value is not an `i64`), else 30 days.
pub open spec fn retention_in_effect(stored: Option<Option<i64>>) -> i64 {
    match stored {
        Some(Some(d)) => d,
        _ => DEFAULT_RETENTION_DAYS,
    }
}

/// Reads the retention in effect (see `retention_in_effect`).
pub fn load_retention_days(stored: Option<Option<i64>>) -> (r: i64)
    ensures
        r == retention_in_effect(stored),
{
    match stored {
        Some(Some(d)) => d,
        _ => DEFAULT_RETENTION_DAYS,
    }
}

/// Reading the retention after an accepted update gives the value written.
pub proof fn lemma_retention_read_after_write(days: i64)
    requires
        retention_ok(days),
    ensures
        retention_in_effect(Some(Some(days))) == days,
{
}

/// The avatar styles the gateway offers.
pub open spec fn style_ok(style: Seq<char>) -> bool {
    style == "initials"@ || style == "blobatar"@
}

/// Checks a new avatar style; 400 naming the allowed styles otherwise.
pub fn check_avatar_style(req: &UpdateAvatarFallbackRequest) -> (r: Result<(), HttpError>)
    ensures
        style_ok(req.style@) <==> r is Ok,
        r matches Err(e) ==> e.status == 400 && e.error@ == "style must be one of initials, blobatar"@,
{
    if str_eq(req.style.as_str(), "initials") || str_eq(req.style.as_str(), "blobatar") {
        Ok(())
    } else {
        Err(HttpError { status: 400, error: String::from_str("style must be one of initials, blobatar") })
    }
}

/// The avatar style in effect: the stored one when it is a string, else
/// `initials`.
pub open spec fn style_in_effect(stored: Option<Seq<char>>) -> Seq<char> {
    match stored {
        Some(s) => s,
        None => "initials"@,
    }
}

/// Reads the avatar style in effect (see `style_in_effect`).
pub fn avatar_style(stored: Option<String>) -> (r: AvatarFallbackResponse)
    ensures
        r.style@ == style_in_effect(crate::workload_fsm::opt_string(stored)),
{
    match stored {
        Some(s) => AvatarFallbackResponse { style: s },
        None => AvatarFallbackResponse { style: String::from_str("initials") },
    }
}

/// Reading the avatar style after an accepted update gives the style written.
pub proof fn lemma_style_read_after_write(style: Seq<char>)
    requires
        style_ok(style),
    ensures
        style_in_effect(Some(style)) == style,
{
}

/// The answer to a failed settings lookup or write.
pub fn database_error() -> (r: HttpError)
    ensures
        r.status == 500,
        r.error@ == "database error"@,
{
    HttpError { status: 500, error: String::from_str("database error") }
}

} // verus!
