//! Who may call the gateway: the session token a request carries, the
//! checks it must pass, the permission each protected route asks for, and
//! the agents' API keys.
use vstd::prelude::*;
use crate::crypto::{sha256, sha256_of};
use crate::text::{chars_of, has_prefix, slice_chars, split_once, split_once_at, string_from, trim, trim_ws};
use crate::versions::{split_char, split_on, views};

verus! {

/// What a verified session token says: whose it is and until when it holds
/// (seconds since the epoch).
#[derive(Debug, Clone, Copy)]
pub struct Claims {
    pub user_id: [u8; 16],
    pub exp: i64,
}

/// A signed-in user.
pub struct AuthenticatedUser(pub Claims);
/// A user allowed to view agents.
pub struct CanViewAgents(pub Claims);
/// A user allowed to view workloads.
pub struct CanViewWorkloads(pub Claims);
/// A user allowed to manage workloads.
pub struct CanManageWorkloads(pub Claims);
/// A user allowed to view volumes.
pub struct CanViewVolumes(pub Claims);
/// A user allowed to manage volumes.
pub struct CanManageVolumes(pub Claims);
/// A user allowed to view networks.
pub struct CanViewNetworks(pub Claims);
/// A user allowed to manage networks.
pub struct CanManageNetworks(pub Claims);
/// A user allowed to manage the system.
pub struct CanManageSystem(pub Claims);
/// A user allowed to view resource groups.
pub struct CanViewResourceGroups(pub Claims);
/// A user allowed to manage resource groups.
pub struct CanManageResourceGroups(pub Claims);
/// A user allowed to view logs.
pub struct CanViewLogs(pub Claims);
/// A user allowed to manage logs.
pub struct CanManageLogs(pub Claims);
/// A user allowed to view buckets.
pub struct CanViewBuckets(pub Claims);
/// A user allowed to manage buckets.
pub struct CanManageBuckets(pub Claims);

/// The permission a protected route asks for.
#[derive(Debug, Clone, Copy, PartialEq, Eq, Structural)]
pub enum Capability {
    ViewAgents,
    ViewWorkloads,
    ManageWorkloads,
    ViewVolumes,
    ManageVolumes,
    ViewNetworks,
    ManageNetworks,
    ManageSystem,
    ViewResourceGroups,
    ManageResourceGroups,
    ViewLogs,
    ManageLogs,
    ViewBuckets,
    ManageBuckets,
}

impl Capability {
    /// The resource and action a capability is checked as.
    pub open spec fn pair(self) -> (Seq<char>, Seq<char>) {
        match self {
            Capability::ViewAgents => ("agents"@, "view"@),
            Capability::ViewWorkloads => ("workloads"@, "view"@),
            Capability::ManageWorkloads => ("workloads"@, "manage"@),
            Capability::ViewVolumes => ("volumes"@, "view"@),
            Capability::ManageVolumes => ("volumes"@, "manage"@),
            Capability::ViewNetworks => ("networks"@, "view"@),
            Capability::ManageNetworks => ("networks"@, "manage"@),
            Capability::ManageSystem => ("system"@, "manage"@),
            Capability::ViewResourceGroups => ("resource_groups"@, "view"@),
            Capability::ManageResourceGroups => ("resource_groups"@, "manage"@),
            Capability::ViewLogs => ("logs"@, "view"@),
            Capability::ManageLogs => ("logs"@, "manage"@),
            Capability::ViewBuckets => ("buckets"@, "view"@),
            Capability::ManageBuckets => ("buckets"@, "manage"@),
        }
    }

    /// The resource and action (see `pair`).
    pub fn resource_action(&self) -> (r: (&'static str, &'static str))
        ensures
            (r.0@, r.1@) == self.pair(),
    {
        match self {
            Capability::ViewAgents => ("agents", "view"),
            Capability::ViewWorkloads => ("workloads", "view"),
            Capability::ManageWorkloads => ("workloads", "manage"),
            Capability::ViewVolumes => ("volumes", "view"),
            Capability::ManageVolumes => ("volumes", "manage"),
            Capability::ViewNetworks => ("networks", "view"),
            Capability::ManageNetworks => ("networks", "manage"),
            Capability::ManageSystem => ("system", "manage"),
            Capability::ViewResourceGroups => ("resource_groups", "view"),
            Capability::ManageResourceGroups => ("resource_groups", "manage"),
            Capability::ViewLogs => ("logs", "view"),
            Capability::ManageLogs => ("logs", "manage"),
            Capability::ViewBuckets => ("buckets", "view"),
            Capability::ManageBuckets => ("buckets", "manage"),
        }
    }
}

/// The value of the first `token=` cookie of a `Cookie` header: the header
/// split at `;`, each piece trimmed and split at its first `=`.
pub open spec fn token_cookie(pieces: Seq<Seq<char>>) -> Option<Seq<char>>
    decreases pieces.len(),
{
    if pieces.len() == 0 {
        None
    } else {
        match split_once_at(trim_ws(pieces[0]), '=') {
            Some((k, v)) => if k == "token"@ {
                Some(v)
            } else {
                token_cookie(pieces.drop_first())
            },
            None => token_cookie(pieces.drop_first()),
        }
    }
}

/// The session token of a request: what follows `Bearer ` in its
/// `Authorization` header, or else its `token` cookie.
pub open spec fn request_token_spec(authorization: Option<Seq<char>>, cookie: Option<Seq<char>>) -> Option<Seq<char>> {
    let bearer = match authorization {
        Some(h) => if has_prefix(h, "Bearer "@) {
            Some(h.subrange(7, h.len() as int))
        } else {
            None
        },
        None => None,
    };
    match bearer {
        Some(t) => Some(t),
        None => match cookie {
            Some(c) => token_cookie(split_char(c, ';')),
            None => None,
        },
    }
}

pub open spec fn opt_str(o: Option<&str>) -> Option<Seq<char>> {
    match o {
        Some(s) => Some(s@),
        None => None,
    }
}

fn find_token_cookie(pieces: &Vec<Vec<char>>) -> (r: Option<String>)
    ensures
        match r {
            Some(t) => token_cookie(views(pieces@)) == Some(t@),
            None => token_cookie(views(pieces@)) is None,
        },
{
    let key = chars_of("token");
    let mut k: usize = 0;
    assert(views(pieces@).skip(0) =~= views(pieces@));
    while k < pieces.len()
        invariant
            k <= pieces.len(),
            key@ == "token"@,
            token_cookie(views(pieces@)) == token_cookie(views(pieces@).skip(k as int)),
        decreases pieces.len() - k,
    {
        assert(views(pieces@).skip(k as int).drop_first() =~= views(pieces@).skip(k + 1));
        assert(views(pieces@).skip(k as int)[0] == pieces@[k as int]@);
        let t = trim(&pieces[k]);
        match split_once(&t, '=') {
            Some((name, value)) => {
                if crate::text::chars_eq(&name, &key) {
                    return Some(string_from(value.as_slice()));
                }
            },
            None => {},
        }
        k = k + 1;
    }
    None
}

/// Finds the session token of a request (see `request_token_spec`); the
/// headers are given as text, `None` when missing or not visible ASCII.
pub fn request_token(authorization: Option<&str>, cookie: Option<&str>) -> (r: Option<String>)
    ensures
        match r {
            Some(t) => request_token_spec(opt_str(authorization), opt_str(cookie)) == Some(t@),
            None => request_token_spec(opt_str(authorization), opt_str(cookie)) is None,
        },
{
    proof {
        reveal_strlit("Bearer ");
    }
    if let Some(h) = authorization {
        let hc = chars_of(h);
        let prefix = chars_of("Bearer ");
        if crate::text::starts_with(&hc, &prefix) {
            return Some(string_from(slice_chars(&hc, 7, hc.len()).as_slice()));
        }
    }
    match cookie {
        Some(c) => {
            let pieces = split_on(&chars_of(c), ';');
            find_token_cookie(&pieces)
        },
        None => None,
    }
}

/// The status a request is refused with, by the checks a session goes
/// through in order: it carries a token (401); the revocation list could be
/// read (500); the token is not revoked (401); it verifies (401); it has not
/// expired (401).
pub open spec fn session_verdict(
    token_present: bool,
    revoked: Option<bool>,
    verified: Option<Claims>,
    now: i64,
) -> Result<Claims, u16> {
    if !token_present {
        Err(401)
    } else {
        match revoked {
            None => Err(500),
            Some(true) => Err(401),
            Some(false) => match verified {
                None => Err(401),
                Some(c) => if c.exp < now {
                    Err(401)
                } else {
                    Ok(c)
                },
            },
        }
    }
}

/// Checks a session (see `session_verdict`): `revoked` is the revocation
/// list's answer (`None` when it could not be read), `verified` the token's
/// claims when its signature checks.
pub fn check_session(
    token_present: bool,
    revoked: Option<bool>,
    verified: Option<Claims>,
    now: i64,
) -> (r: Result<Claims, u16>)
    ensures
        r == session_verdict(token_present, revoked, verified, now),
{
    if !token_present {
        return Err(401);
    }
    match revoked {
        None => Err(500),
        Some(true) => Err(401),
        Some(false) => match verified {
            None => Err(401),
            Some(c) => if c.exp < now {
                Err(401)
            } else {
                Ok(c)
            },
        },
    }
}

/// The status a permission check ends with: 500 without a default
/// organisation or when the permission could not be read, 403 when it is
/// not granted.
pub fn check_permission(default_org_known: bool, granted: Option<bool>) -> (r: Result<(), u16>)
    ensures
        !default_org_known ==> r == Err::<(), u16>(500),
        default_org_known ==> r == match granted {
            None => Err::<(), u16>(500),
            Some(false) => Err::<(), u16>(403),
            Some(true) => Ok::<(), u16>(()),
        },
{
    if !default_org_known {
        return Err(500);
    }
    match granted {
        None => Err(500),
        Some(false) => Err(403),
        Some(true) => Ok(()),
    }
}

/// The lowercase hexadecimal digit for `d` (below 16).
pub open spec fn hex_digit(d: int) -> char {
    if d < 10 {
        ((d + 48) as u8) as char
    } else {
        ((d + 87) as u8) as char
    }
}

/// The bytes in lowercase hexadecimal, two digits each.
pub open spec fn hex_lower(b: Seq<u8>) -> Seq<char>
    decreases b.len(),
{
    if b.len() == 0 {
        Seq::empty()
    } else {
        hex_lower(b.drop_last()) + seq![hex_digit((b.last() / 16) as int), hex_digit((b.last() % 16) as int)]
    }
}

fn hex_char(d: u8) -> (c: char)
    requires
        d < 16,
    ensures
        c == hex_digit(d as int),
{
    if d < 10 {
        (d + 48) as char
    } else {
        (d + 87) as char
    }
}

/// Writes bytes in lowercase hexadecimal (see `hex_lower`).
pub fn to_hex_lower(b: &[u8]) -> (r: String)
    ensures
        r@ == hex_lower(b@),
{
    let mut out: Vec<char> = Vec::new();
    let mut k: usize = 0;
    while k < b.len()
        invariant
            k <= b.len(),
            out@ == hex_lower(b@.take(k as int)),
        decreases b.len() - k,
    {
        assert(b@.take(k + 1).drop_last() =~= b@.take(k as int));
        assert(b@.take(k + 1).last() == b@[k as int]);
        out.push(hex_char(b[k] / 16));
        out.push(hex_char(b[k] % 16));
        assert(out@ =~= hex_lower(b@.take(k + 1)));
        k = k + 1;
    }
    assert(b@.take(b@.len() as int) =~= b@);
    string_from(out.as_slice())
}

/// How an agent's API key is stored: the SHA-256 digest of its UTF-8 bytes
/// in lowercase hexadecimal.
pub open spec fn key_hash_spec(key: Seq<char>) -> Seq<char> {
    hex_lower(sha256_of(vstd::utf8::encode_utf8(key)))
}

/// Hashes an agent's API key (see `key_hash_spec`); the result always has
/// 64 characters.
pub fn hash_key(key: &str) -> (r: String)
    ensures
        r@ == key_hash_spec(key@),
        r@.len() == 64,
{
    let digest = sha256(key.as_bytes());
    let r = to_hex_lower(digest.as_slice());
    proof {
        lemma_hex_len(digest@);
    }
    r
}

proof fn lemma_hex_len(b: Seq<u8>)
    ensures
        hex_lower(b).len() == 2 * b.len(),
    decreases b.len(),
{
    if b.len() > 0 {
        lemma_hex_len(b.drop_last());
    }
}

/// The agent an API key belongs to, once the key's record and the agent
/// were looked up: 401 without a key, for an unknown or inactive key or a
/// missing agent, 500 when the database could not be read.
pub fn agent_for_key(
    key_present: bool,
    key_record: Result<Option<[u8; 16]>, ()>,
    agent_found: Result<bool, ()>,
) -> (r: Result<[u8; 16], u16>)
    ensures
        !key_present ==> r == Err::<[u8; 16], u16>(401),
        key_present ==> r == match key_record {
            Err(()) => Err::<[u8; 16], u16>(500),
            Ok(None) => Err::<[u8; 16], u16>(401),
            Ok(Some(id)) => match agent_found {
                Err(()) => Err::<[u8; 16], u16>(500),
                Ok(false) => Err::<[u8; 16], u16>(401),
                Ok(true) => Ok::<[u8; 16], u16>(id),
            },
        },
{
    if !key_present {
        return Err(401);
    }
    match key_record {
        Err(()) => Err(500),
        Ok(None) => Err(401),
        Ok(Some(id)) => match agent_found {
            Err(()) => Err(500),
            Ok(false) => Err(401),
            Ok(true) => Ok(id),
        },
    }
}

} // verus!
