//! Self-updates of the gateway from its published releases: what a release
//! check reports, when an install is allowed, and how errors are answered.
use vstd::prelude::*;
use crate::text::{chars_of, string_from, trim_start_char, trim_start_matches};
use crate::versions::{is_newer, strip_v, version_compare};

verus! {

/// A published release, as the release API describes it.
pub struct GitHubRelease {
    pub tag_name: String,
    pub body: String,
    pub html_url: String,
    pub prerelease: bool,
}

/// What a release check reports.
pub struct VersionInfo {
    pub current_version: String,
    pub latest_version: String,
    pub update_available: bool,
    pub changelog: Option<String>,
    pub release_url: String,
    pub is_prerelease: bool,
    pub latest_beta_version: Option<String>,
    pub beta_release_url: Option<String>,
}

/// The index of the first pre-release among the releases, if any.
pub open spec fn first_prerelease(rs: Seq<GitHubRelease>) -> Option<int>
    decreases rs.len(),
{
    if rs.len() == 0 {
        None
    } else if rs[0].prerelease {
        Some(0)
    } else {
        match first_prerelease(rs.drop_first()) {
            Some(i) => Some(i + 1),
            None => None,
        }
    }
}

proof fn lemma_first_prerelease(rs: Seq<GitHubRelease>)
    ensures
        first_prerelease(rs) matches Some(i) ==> 0 <= i < rs.len() && rs[i].prerelease,
    decreases rs.len(),
{
    if rs.len() > 0 && !rs[0].prerelease {
        lemma_first_prerelease(rs.drop_first());
    }
}

/// Builds the release check's report from the running version, the latest
/// stable release and the list of all releases (newest first): the latest
/// version without its leading `v`s, whether it is newer than the running
/// one, its notes, address and pre-release flag, and the version (without
/// leading `v`s) and address of the first pre-release of the list.
pub fn version_info(current_version: &str, latest: GitHubRelease, all: &Vec<GitHubRelease>) -> (r: VersionInfo)
    ensures
        r.current_version@ == current_version@,
        r.latest_version@ == trim_start_char(latest.tag_name@, 'v'),
        r.update_available == is_newer(current_version@, trim_start_char(latest.tag_name@, 'v')),
        r.changelog matches Some(c) && c@ == latest.body@,
        r.release_url@ == latest.html_url@,
        r.is_prerelease == latest.prerelease,
        match first_prerelease(all@) {
            Some(i) => {
                &&& r.latest_beta_version matches Some(v) && v@ == trim_start_char(all@[i].tag_name@, 'v')
                &&& r.beta_release_url matches Some(u) && u@ == all@[i].html_url@
            },
            None => r.latest_beta_version is None && r.beta_release_url is None,
        },
{
    let latest_version = strip_v(latest.tag_name.as_str());
    let update_available = version_compare(current_version, latest_version.as_str());
    let mut k: usize = 0;
    let mut beta: Option<(String, String)> = None;
    assert(all@.skip(0) =~= all@);
    while k < all.len()
        invariant_except_break
            k <= all.len(),
            beta is None,
            first_prerelease(all@) == match first_prerelease(all@.skip(k as int)) {
                Some(i) => Some(i + k),
                None => None::<int>,
            },
        ensures
            match first_prerelease(all@) {
                Some(i) => beta matches Some((v, u)) && v@ == trim_start_char(all@[i].tag_name@, 'v')
                    && u@ == all@[i].html_url@,
                None => beta is None,
            },
        decreases all.len() - k,
    {
        assert(all@.skip(k as int).drop_first() =~= all@.skip(k + 1));
        assert(all@.skip(k as int)[0] == all@[k as int]);
        if all[k].prerelease {
            beta = Some((strip_v(all[k].tag_name.as_str()), all[k].html_url.clone()));
            break;
        }
        k = k + 1;
    }
    let (latest_beta_version, beta_release_url) = match beta {
        Some((v, u)) => (Some(v), Some(u)),
        None => (None, None),
    };
    VersionInfo {
        current_version: String::from_str(current_version),
        latest_version,
        update_available,
        changelog: Some(latest.body),
        release_url: latest.html_url,
        is_prerelease: latest.prerelease,
        latest_beta_version,
        beta_release_url,
    }
}

/// An install request: the version to install.
pub struct UpdateRequest {
    pub version: String,
}

/// The answer to an install request.
pub struct UpdateResponse {
    pub success: bool,
    pub message: String,
}

/// Whether an install goes ahead: only to a version newer than the running
/// one; otherwise it is declined with `Cannot install an older or same
/// version`. When it goes ahead the answer says that the update was
/// initiated.
pub fn install_answer(current_version: &str, requested: &str) -> (r: UpdateResponse)
    ensures
        r.success == is_newer(current_version@, requested@),
        r.success ==> r.message@ == "Update to version "@ + requested@
            + " initiated. The application will restart shortly."@,
        !r.success ==> r.message@ == "Cannot install an older or same version"@,
{
    if !version_compare(current_version, requested) {
        return UpdateResponse { success: false, message: String::from_str("Cannot install an older or same version") };
    }
    UpdateResponse {
        success: true,
        message: String::from_str("Update to version ").concat(requested).concat(
            " initiated. The application will restart shortly.",
        ),
    }
}

/// The release API address of a version's notes: by its tag, `v` and the
/// version without leading `v`s.
pub fn changelog_url(version: &str) -> (r: String)
    ensures
        r@ == "https://api.github.com/repos/CS-Foundry/CSF-Core/releases/tags/v"@ + trim_start_char(version@, 'v'),
{
    String::from_str("https://api.github.com/repos/CS-Foundry/CSF-Core/releases/tags/v").concat(strip_v(version).as_str())
}

/// An error of the update routes.
pub enum AppError {
    InternalError(String),
    NotFound(String),
}

impl AppError {
    /// The status and message it is answered with: 500 for an internal
    /// error, 404 for a missing version.
    pub fn status_and_message(self) -> (r: (u16, String))
        ensures
            match self {
                AppError::InternalError(m) => r.0 == 500 && r.1@ == m@,
                AppError::NotFound(m) => r.0 == 404 && r.1@ == m@,
            },
    {
        match self {
            AppError::InternalError(m) => (500, m),
            AppError::NotFound(m) => (404, m),
        }
    }
}

/// A version whose notes the release API does not have.
pub fn version_not_found(version: &str) -> (r: AppError)
    ensures
        r matches AppError::NotFound(m) && m@ == "Version "@ + version@ + " not found"@,
{
    AppError::NotFound(String::from_str("Version ").concat(version).concat(" not found"))
}

} // verus!
