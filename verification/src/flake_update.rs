//! The control-plane updaters: their configuration, the secrets they
//! decrypt, how they learn of a new revision, and the state machine that
//! builds and switches to it while reporting progress in etcd.
use vstd::prelude::*;
use crate::crypto::{aes256gcm_decrypt, aes256gcm_opened, base64_standard_decode, base64_standard_decoded};
use crate::numparse::{parse_u64, parse_unsigned};
use crate::text::{chars_of, str_eq, string_from, trim, trim_ws, utf8_decode};
use crate::versions::{is_sha, is_valid_sha, split_char, split_on, views};

verus! {

/// The updater's settings.
pub struct Config {
    pub etcd_endpoints: Vec<String>,
    pub poll_interval_secs: u64,
    pub infra_repo_mirror_url: String,
}

pub open spec fn trimmed_pieces(pieces: Seq<Seq<char>>) -> Seq<Seq<char>> {
    pieces.map_values(|p: Seq<char>| trim_ws(p))
}

/// Reads the settings from the environment's values: the etcd endpoints are
/// `ETCD_ENDPOINTS` (default `http://localhost:2379`) split at `,` and
/// trimmed; the poll interval is `POLL_INTERVAL_SECS` when it is a `u64`,
/// else 30; `INFRA_REPO_MIRROR_URL` must be set.
pub fn config_from_values(
    etcd_endpoints: Option<&str>,
    poll_interval_secs: Option<&str>,
    infra_repo_mirror_url: Option<String>,
) -> (r: Result<Config, String>)
    ensures
        match infra_repo_mirror_url {
            None => r matches Err(e) && e@ == "INFRA_REPO_MIRROR_URL must be set"@,
            Some(u) => r matches Ok(c) && {
                &&& c.infra_repo_mirror_url@ == u@
                &&& crate::assignments::string_views(c.etcd_endpoints@) == trimmed_pieces(split_char(
                    match etcd_endpoints {
                        Some(e) => e@,
                        None => "http://localhost:2379"@,
                    },
                    ',',
                ))
                &&& c.poll_interval_secs == match poll_interval_secs {
                    Some(p) => match parse_unsigned(p@, u64::MAX as int) {
                        Some(n) => n as u64,
                        None => 30u64,
                    },
                    None => 30u64,
                }
            },
        },
{
    let url = match infra_repo_mirror_url {
        Some(u) => u,
        None => return Err(String::from_str("INFRA_REPO_MIRROR_URL must be set")),
    };
    let raw = match etcd_endpoints {
        Some(e) => chars_of(e),
        None => chars_of("http://localhost:2379"),
    };
    let pieces = split_on(&raw, ',');
    let mut endpoints: Vec<String> = Vec::new();
    let mut k: usize = 0;
    while k < pieces.len()
        invariant
            k <= pieces.len(),
            crate::assignments::string_views(endpoints@) == trimmed_pieces(views(pieces@).take(k as int)),
        decreases pieces.len() - k,
    {
        let ghost before = endpoints@;
        endpoints.push(string_from(trim(&pieces[k]).as_slice()));
        assert(views(pieces@).take(k + 1) =~= views(pieces@).take(k as int).push(pieces@[k as int]@));
        assert(crate::assignments::string_views(endpoints@) =~= crate::assignments::string_views(before).push(trim_ws(pieces@[k as int]@)));
        k = k + 1;
    }
    assert(views(pieces@).take(pieces@.len() as int) =~= views(pieces@));
    let poll = match poll_interval_secs {
        Some(p) => match parse_u64(p) {
            Some(n) => n,
            None => 30,
        },
        None => 30,
    };
    Ok(Config { etcd_endpoints: endpoints, poll_interval_secs: poll, infra_repo_mirror_url: url })
}

/// Why a secret could not be decrypted.
pub enum SecretError {
    /// The key is not base64.
    KeyEncoding,
    /// The key does not have 32 bytes.
    InvalidKeyLength,
    /// The secret is not base64.
    SecretEncoding,
    /// The secret is shorter than its 12-byte nonce.
    InvalidCiphertext,
    /// The ciphertext does not authenticate under the key.
    DecryptionFailed,
    /// The plaintext is not UTF-8.
    NotUtf8,
}

/// What decrypting a secret gives: the key and the secret are standard
/// base64; the key has 32 bytes; the secret is a 12-byte nonce followed by
/// AES-256-GCM ciphertext; the plaintext is UTF-8 text.
pub open spec fn decrypted(encoded: Seq<char>, key_b64: Seq<char>) -> Result<Seq<char>, SecretError> {
    match base64_standard_decoded(vstd::utf8::encode_utf8(key_b64)) {
        None => Err(SecretError::KeyEncoding),
        Some(key) => if key.len() != 32 {
            Err(SecretError::InvalidKeyLength)
        } else {
            match base64_standard_decoded(vstd::utf8::encode_utf8(encoded)) {
                None => Err(SecretError::SecretEncoding),
                Some(combined) => if combined.len() < 12 {
                    Err(SecretError::InvalidCiphertext)
                } else {
                    match aes256gcm_opened(key, combined.subrange(0, 12), combined.subrange(12, combined.len() as int)) {
                        None => Err(SecretError::DecryptionFailed),
                        Some(plain) => if vstd::utf8::valid_utf8(plain) {
                            Ok(vstd::utf8::decode_utf8(plain))
                        } else {
                            Err(SecretError::NotUtf8)
                        },
                    }
                },
            }
        },
    }
}

/// Decrypts a secret (see `decrypted`).
pub fn decrypt_secret(encoded: &str, key_b64: &str) -> (r: Result<String, SecretError>)
    ensures
        match r {
            Ok(s) => decrypted(encoded@, key_b64@) matches Ok(t) && t == s@,
            Err(e) => decrypted(encoded@, key_b64@) == Err::<Seq<char>, SecretError>(e),
        },
{
    let key = match base64_standard_decode(key_b64.as_bytes()) {
        Some(k) => k,
        None => return Err(SecretError::KeyEncoding),
    };
    if key.len() != 32 {
        return Err(SecretError::InvalidKeyLength);
    }
    let combined = match base64_standard_decode(encoded.as_bytes()) {
        Some(c) => c,
        None => return Err(SecretError::SecretEncoding),
    };
    if combined.len() < 12 {
        return Err(SecretError::InvalidCiphertext);
    }
    let nonce = vstd::slice::slice_subrange(combined.as_slice(), 0, 12);
    let ciphertext = vstd::slice::slice_subrange(combined.as_slice(), 12, combined.len());
    let plain = match aes256gcm_decrypt(key.as_slice(), nonce, ciphertext) {
        Some(p) => p,
        None => return Err(SecretError::DecryptionFailed),
    };
    match utf8_decode(plain.as_slice()) {
        Some(s) => Ok(s),
        None => Err(SecretError::NotUtf8),
    }
}

/// Where an update cycle stands.
#[derive(Debug, Clone, Copy, PartialEq, Eq, Structural)]
pub enum CycleStage {
    /// Waiting for the pause flag and the desired revision.
    Reading,
    /// Waiting to learn whether the mirror has the revision.
    CheckingMirror,
    /// Waiting for the mirror to be fetched.
    SyncingMirror,
    /// Waiting to learn whether the fetched mirror has the revision.
    RecheckingMirror,
    /// Waiting for the build.
    Building,
    /// Waiting for the switch to the new system.
    Switching,
    /// The cycle is over.
    Finished,
}

/// How an updater proceeds: whether it makes sure its git mirror has the
/// revision first, and whether it builds before it switches.
#[derive(Debug, Clone, Copy, PartialEq, Eq, Structural)]
pub struct CycleKind {
    pub check_mirror: bool,
    pub build_first: bool,
}

/// The outcome of the last step.
pub enum CycleEvent {
    /// The values of the pause key and of the desired revision.
    Read { paused: Option<String>, desired: Option<String> },
    /// Whether the mirror has the revision.
    RevisionFound(bool),
    /// The mirror was fetched.
    Synced,
    /// Whether the build succeeded.
    Built(bool),
    /// Whether the switch succeeded.
    Switched(bool),
}

/// What the updater does next. `writes` go to etcd first, as
/// `(key, value)`, in order.
#[derive(Debug, Clone, Copy, PartialEq, Eq, Structural)]
pub enum CycleWork {
    CheckMirror,
    SyncMirror,
    Build,
    Switch,
    /// The cycle is over; `applied` says whether the revision was handled
    /// (and is to be remembered as the last one).
    Finish { applied: bool },
}

pub struct CycleStep {
    pub writes: Vec<(&'static str, &'static str)>,
    pub work: CycleWork,
}

pub const BUILD_STATUS_KEY: &'static str = "/csf/config/cp_build_status";
pub const RESULT_KEY: &'static str = "/csf/config/last_build_result";

/// The cycle's state: its kind, where it stands, the revision it handles and
/// the last revision applied.
pub struct Cycle {
    pub kind: CycleKind,
    pub stage: CycleStage,
    pub desired: String,
    pub last_applied: String,
}

pub open spec fn writes_view(w: Seq<(&'static str, &'static str)>) -> Seq<(Seq<char>, Seq<char>)> {
    w.map_values(|p: (&'static str, &'static str)| (p.0@, p.1@))
}

/// One step of a cycle, over the writes' keys and values: reading skips the
/// cycle when updates are paused (the pause key holds `true`) or the desired
/// revision is absent, empty or the last one applied; refuses a revision
/// that is not a full commit hash (result `failed`); otherwise checks the
/// mirror or starts. A revision still missing after a fetch fails. Building
/// and switching mark the build status `building`, then `ready` and result
/// `success` after a successful switch, or status and result `failed`.
pub open spec fn cycle_next(
    kind: CycleKind,
    stage: CycleStage,
    desired: Seq<char>,
    event_paused: Option<Seq<char>>,
    event_desired: Option<Seq<char>>,
    last_applied: Seq<char>,
    flag: bool,
) -> (CycleStage, Seq<(Seq<char>, Seq<char>)>, CycleWork) {
    let failed = seq![(BUILD_STATUS_KEY@, "failed"@), (RESULT_KEY@, "failed"@)];
    let start = if kind.build_first { CycleStage::Building } else { CycleStage::Switching };
    let start_work = if kind.build_first { CycleWork::Build } else { CycleWork::Switch };
    match stage {
        CycleStage::Reading => {
            if event_paused == Some("true"@) {
                (CycleStage::Finished, Seq::empty(), CycleWork::Finish { applied: false })
            } else {
                match event_desired {
                    None => (CycleStage::Finished, Seq::empty(), CycleWork::Finish { applied: false }),
                    Some(d) => if d.len() == 0 || d == last_applied {
                        (CycleStage::Finished, Seq::empty(), CycleWork::Finish { applied: false })
                    } else if !is_sha(d) {
                        (CycleStage::Finished, seq![(RESULT_KEY@, "failed"@)], CycleWork::Finish { applied: true })
                    } else if kind.check_mirror {
                        (CycleStage::CheckingMirror, Seq::empty(), CycleWork::CheckMirror)
                    } else {
                        (start, seq![(BUILD_STATUS_KEY@, "building"@)], start_work)
                    },
                }
            }
        },
        CycleStage::CheckingMirror => if flag {
            (start, seq![(BUILD_STATUS_KEY@, "building"@)], start_work)
        } else {
            (CycleStage::SyncingMirror, Seq::empty(), CycleWork::SyncMirror)
        },
        CycleStage::SyncingMirror => (CycleStage::RecheckingMirror, Seq::empty(), CycleWork::CheckMirror),
        CycleStage::RecheckingMirror => if flag {
            (start, seq![(BUILD_STATUS_KEY@, "building"@)], start_work)
        } else {
            (CycleStage::Finished, seq![(RESULT_KEY@, "failed"@)], CycleWork::Finish { applied: true })
        },
        CycleStage::Building => if flag {
            (CycleStage::Switching, Seq::empty(), CycleWork::Switch)
        } else {
            (CycleStage::Finished, failed, CycleWork::Finish { applied: true })
        },
        CycleStage::Switching => if flag {
            (CycleStage::Finished, seq![(BUILD_STATUS_KEY@, "ready"@), (RESULT_KEY@, "success"@)], CycleWork::Finish { applied: true })
        } else {
            (CycleStage::Finished, failed, CycleWork::Finish { applied: true })
        },
        CycleStage::Finished => (CycleStage::Finished, Seq::empty(), CycleWork::Finish { applied: false }),
    }
}

/// The event answers what the stage waits for.
pub open spec fn cycle_fits(stage: CycleStage, event: CycleEvent) -> bool {
    match stage {
        CycleStage::Reading => event is Read,
        CycleStage::CheckingMirror | CycleStage::RecheckingMirror => event is RevisionFound,
        CycleStage::SyncingMirror => event is Synced,
        CycleStage::Building => event is Built,
        CycleStage::Switching => event is Switched,
        CycleStage::Finished => false,
    }
}

pub open spec fn event_paused(e: CycleEvent) -> Option<Seq<char>> {
    match e {
        CycleEvent::Read { paused, .. } => crate::workload_fsm::opt_string(paused),
        _ => None,
    }
}

pub open spec fn event_desired(e: CycleEvent) -> Option<Seq<char>> {
    match e {
        CycleEvent::Read { desired, .. } => crate::workload_fsm::opt_string(desired),
        _ => None,
    }
}

pub open spec fn event_flag(e: CycleEvent) -> bool {
    match e {
        CycleEvent::RevisionFound(b) => b,
        CycleEvent::Built(b) => b,
        CycleEvent::Switched(b) => b,
        _ => false,
    }
}

impl Cycle {
    /// A new cycle of the given kind.
    pub fn new(kind: CycleKind, last_applied: String) -> (r: Cycle)
        ensures
            r.kind == kind,
            r.stage == CycleStage::Reading,
            r.last_applied@ == last_applied@,
    {
        Cycle { kind, stage: CycleStage::Reading, desired: String::new(), last_applied }
    }

    /// Takes one step (see `cycle_next`); the revision read becomes the one
    /// the cycle handles.
    pub fn step(&mut self, event: CycleEvent) -> (r: CycleStep)
        requires
            cycle_fits(old(self).stage, event),
        ensures
            final(self).kind == old(self).kind,
            final(self).last_applied@ == old(self).last_applied@,
            (final(self).stage, writes_view(r.writes@), r.work) == cycle_next(
                old(self).kind,
                old(self).stage,
                old(self).desired@,
                event_paused(event),
                event_desired(event),
                old(self).last_applied@,
                event_flag(event),
            ),
            event_paused(event) != Some("true"@) && event_desired(event) is Some ==> final(self).desired@ == event_desired(event).unwrap(),
    {
        let mut writes: Vec<(&'static str, &'static str)> = Vec::new();
        let start = if self.kind.build_first { CycleStage::Building } else { CycleStage::Switching };
        let start_work = if self.kind.build_first { CycleWork::Build } else { CycleWork::Switch };
        let ghost empty = writes_view(writes@);
        assert(empty =~= Seq::<(Seq<char>, Seq<char>)>::empty());
        match event {
            CycleEvent::Read { paused, desired } => {
                let is_paused = match &paused {
                    Some(p) => str_eq(p.as_str(), "true"),
                    None => false,
                };
                if is_paused {
                    self.stage = CycleStage::Finished;
                    return CycleStep { writes, work: CycleWork::Finish { applied: false } };
                }
                let d = match desired {
                    Some(d) => d,
                    None => {
                        self.stage = CycleStage::Finished;
                        return CycleStep { writes, work: CycleWork::Finish { applied: false } };
                    },
                };
                let skip = d.as_str().unicode_len() == 0 || str_eq(d.as_str(), self.last_applied.as_str());
                self.desired = d;
                if skip {
                    self.stage = CycleStage::Finished;
                    return CycleStep { writes, work: CycleWork::Finish { applied: false } };
                }
                if !is_valid_sha(self.desired.as_str()) {
                    writes.push((RESULT_KEY, "failed"));
                    self.stage = CycleStage::Finished;
                    assert(writes_view(writes@) =~= seq![(RESULT_KEY@, "failed"@)]);
                    return CycleStep { writes, work: CycleWork::Finish { applied: true } };
                }
                if self.kind.check_mirror {
                    self.stage = CycleStage::CheckingMirror;
                    CycleStep { writes, work: CycleWork::CheckMirror }
                } else {
                    writes.push((BUILD_STATUS_KEY, "building"));
                    self.stage = start;
                    assert(writes_view(writes@) =~= seq![(BUILD_STATUS_KEY@, "building"@)]);
                    CycleStep { writes, work: start_work }
                }
            },
            CycleEvent::RevisionFound(found) => {
                if found {
                    writes.push((BUILD_STATUS_KEY, "building"));
                    self.stage = start;
                    assert(writes_view(writes@) =~= seq![(BUILD_STATUS_KEY@, "building"@)]);
                    CycleStep { writes, work: start_work }
                } else if self.stage == CycleStage::CheckingMirror {
                    self.stage = CycleStage::SyncingMirror;
                    CycleStep { writes, work: CycleWork::SyncMirror }
                } else {
                    writes.push((RESULT_KEY, "failed"));
                    self.stage = CycleStage::Finished;
                    assert(writes_view(writes@) =~= seq![(RESULT_KEY@, "failed"@)]);
                    CycleStep { writes, work: CycleWork::Finish { applied: true } }
                }
            },
            CycleEvent::Synced => {
                self.stage = CycleStage::RecheckingMirror;
                CycleStep { writes, work: CycleWork::CheckMirror }
            },
            CycleEvent::Built(ok) => {
                if ok {
                    self.stage = CycleStage::Switching;
                    CycleStep { writes, work: CycleWork::Switch }
                } else {
                    writes.push((BUILD_STATUS_KEY, "failed"));
                    writes.push((RESULT_KEY, "failed"));
                    self.stage = CycleStage::Finished;
                    assert(writes_view(writes@) =~= seq![(BUILD_STATUS_KEY@, "failed"@), (RESULT_KEY@, "failed"@)]);
                    CycleStep { writes, work: CycleWork::Finish { applied: true } }
                }
            },
            CycleEvent::Switched(ok) => {
                if ok {
                    writes.push((BUILD_STATUS_KEY, "ready"));
                    writes.push((RESULT_KEY, "success"));
                    assert(writes_view(writes@) =~= seq![(BUILD_STATUS_KEY@, "ready"@), (RESULT_KEY@, "success"@)]);
                } else {
                    writes.push((BUILD_STATUS_KEY, "failed"));
                    writes.push((RESULT_KEY, "failed"));
                    assert(writes_view(writes@) =~= seq![(BUILD_STATUS_KEY@, "failed"@), (RESULT_KEY@, "failed"@)]);
                }
                self.stage = CycleStage::Finished;
                CycleStep { writes, work: CycleWork::Finish { applied: true } }
            },
        }
    }
}

/// A paused cluster is left alone: the cycle ends at once, writing nothing.
pub proof fn lemma_paused_writes_nothing(kind: CycleKind, desired: Seq<char>, ed: Option<Seq<char>>, last: Seq<char>, flag: bool)
    ensures
        ({
            let (s, w, k) = cycle_next(kind, CycleStage::Reading, desired, Some("true"@), ed, last, flag);
            s == CycleStage::Finished && w.len() == 0 && k == (CycleWork::Finish { applied: false })
        }),
{
}

/// A revision that is not a full commit hash is never built nor switched
/// to.
pub proof fn lemma_invalid_revision_not_built(kind: CycleKind, desired: Seq<char>, ep: Option<Seq<char>>, d: Seq<char>, last: Seq<char>, flag: bool)
    requires
        !is_sha(d),
    ensures
        ({
            let (s, _, k) = cycle_next(kind, CycleStage::Reading, desired, ep, Some(d), last, flag);
            s == CycleStage::Finished && k is Finish
        }),
{
}

/// `success` is recorded only when a switch succeeded.
pub proof fn lemma_success_only_after_switch(
    kind: CycleKind,
    stage: CycleStage,
    desired: Seq<char>,
    ep: Option<Seq<char>>,
    ed: Option<Seq<char>>,
    last: Seq<char>,
    flag: bool,
    i: int,
)
    requires
        0 <= i < cycle_next(kind, stage, desired, ep, ed, last, flag).1.len(),
        cycle_next(kind, stage, desired, ep, ed, last, flag).1[i].1 == "success"@,
    ensures
        stage == CycleStage::Switching && flag,
{
    reveal_strlit("success");
    reveal_strlit("failed");
    reveal_strlit("building");
    reveal_strlit("ready");
    assert("success"@.len() != "failed"@.len());
    assert("success"@.len() != "building"@.len());
    assert("success"@.len() != "ready"@.len());
}

/// Whether the mirror has a revision: `git cat-file -t` succeeded and
/// printed `commit` (surrounding whitespace aside).
pub fn revision_is_commit(succeeded: bool, stdout: &str) -> (b: bool)
    ensures
        b == (succeeded && trim_ws(stdout@) == "commit"@),
{
    if !succeeded {
        return false;
    }
    let t = trim(&chars_of(stdout));
    crate::text::chars_eq(&t, &chars_of("commit"))
}

/// The digest of an image: of its repo digests (`name@digest`), the first
/// that has a `@`, its text after the first `@` up to the next one.
pub open spec fn repo_digest(digests: Seq<Seq<char>>) -> Option<Seq<char>>
    decreases digests.len(),
{
    if digests.len() == 0 {
        None
    } else {
        let parts = split_char(digests[0], '@');
        if parts.len() > 1 {
            Some(parts[1])
        } else {
            repo_digest(digests.drop_first())
        }
    }
}

/// Picks the digest out of an image's repo digests (see `repo_digest`).
pub fn local_repo_digest(digests: &Vec<String>) -> (r: Option<String>)
    ensures
        match r {
            Some(d) => repo_digest(crate::assignments::string_views(digests@)) == Some(d@),
            None => repo_digest(crate::assignments::string_views(digests@)) is None,
        },
{
    let ghost all = crate::assignments::string_views(digests@);
    let mut k: usize = 0;
    assert(all.skip(0) =~= all);
    while k < digests.len()
        invariant
            k <= digests.len(),
            all == crate::assignments::string_views(digests@),
            repo_digest(all) == repo_digest(all.skip(k as int)),
        decreases digests.len() - k,
    {
        assert(all.skip(k as int).drop_first() =~= all.skip(k + 1));
        assert(all.skip(k as int)[0] == digests@[k as int]@);
        let parts = split_on(&chars_of(digests[k].as_str()), '@');
        if parts.len() > 1 {
            proof {
                assert(views(parts@)[1] == parts@[1]@);
            }
            return Some(string_from(parts[1].as_slice()));
        }
        k = k + 1;
    }
    None
}

/// What the tag poller does with the revision a tag resolves to: nothing
/// when it is already the available one, else publish it as available and
/// desired.
pub fn publish_resolved(current_available: Option<String>, sha: String) -> (r: Option<String>)
    ensures
        (current_available matches Some(c) && c@ == sha@) ==> r is None,
        !(current_available matches Some(c) && c@ == sha@) ==> (r matches Some(s) && s@ == sha@),
{
    match current_available {
        Some(c) => if str_eq(c.as_str(), sha.as_str()) {
            None
        } else {
            Some(sha)
        },
        None => Some(sha),
    }
}

/// The git tag a release version is published under: `v` and the version
/// without its leading `v`s.
pub fn version_tag(version: &str) -> (r: String)
    ensures
        r@ == seq!['v'] + crate::text::trim_start_char(version@, 'v'),
{
    crate::versions::release_tag(version)
}

/// The GitHub API address of a release's tag reference in the
/// infrastructure repository `repo` (`owner/name`).
pub fn tag_ref_url(repo: &str, version: &str) -> (r: String)
    ensures
        r@ == "https://api.github.com/repos/"@ + repo@ + "/git/ref/tags/"@ + seq!['v']
            + crate::text::trim_start_char(version@, 'v'),
{
    let tag = version_tag(version);
    String::from_str("https://api.github.com/repos/").concat(repo).concat("/git/ref/tags/").concat(tag.as_str())
}

/// The GitHub API address of an annotated tag object.
pub fn tag_object_url(repo: &str, tag_sha: &str) -> (r: String)
    ensures
        r@ == "https://api.github.com/repos/"@ + repo@ + "/git/tags/"@ + tag_sha@,
{
    String::from_str("https://api.github.com/repos/").concat(repo).concat("/git/tags/").concat(tag_sha)
}

/// What a tag reference points to: a commit, whose sha is the revision, or
/// an annotated tag, which is looked up once more.
pub enum TagTarget {
    Commit(String),
    AnnotatedTag(String),
}

/// Reads a tag reference's object: of type `tag` it is an annotated tag,
/// otherwise its sha is the revision.
pub fn tag_target(kind: &str, sha: String) -> (r: TagTarget)
    ensures
        kind@ == "tag"@ ==> (r matches TagTarget::AnnotatedTag(s) && s@ == sha@),
        kind@ != "tag"@ ==> (r matches TagTarget::Commit(s) && s@ == sha@),
{
    if str_eq(kind, "tag") {
        TagTarget::AnnotatedTag(sha)
    } else {
        TagTarget::Commit(sha)
    }
}

/// The GitHub API address of the newest commit on a branch of `repo`.
pub fn branch_commit_url(repo: &str, branch: &str) -> (r: String)
    ensures
        r@ == "https://api.github.com/repos/"@ + repo@ + "/commits/"@ + branch@,
{
    String::from_str("https://api.github.com/repos/").concat(repo).concat("/commits/").concat(branch)
}

/// Where a pull token for an image is asked of the GitHub container registry.
pub fn ghcr_token_url(image: &str) -> (r: String)
    ensures
        r@ == "https://ghcr.io/token?scope=repository:"@ + image@ + ":pull"@,
{
    String::from_str("https://ghcr.io/token?scope=repository:").concat(image).concat(":pull")
}

/// The registry address of an image's manifest for a tag.
pub fn ghcr_manifest_url(image: &str, tag: &str) -> (r: String)
    ensures
        r@ == "https://ghcr.io/v2/"@ + image@ + "/manifests/"@ + tag@,
{
    String::from_str("https://ghcr.io/v2/").concat(image).concat("/manifests/").concat(tag)
}

/// Compares a service's published digest with the digest of the image
/// pulled locally: equal, or refused with `digest mismatch for <service>:
/// remote=<remote> local=<local>`.
pub fn digest_verdict(service: &str, remote: &str, local: &str) -> (r: Result<(), String>)
    ensures
        remote@ == local@ ==> r is Ok,
        remote@ != local@ ==> (r matches Err(e) && e@ == "digest mismatch for "@ + service@ + ": remote="@ + remote@
            + " local="@ + local@),
{
    if str_eq(remote, local) {
        Ok(())
    } else {
        Err(String::from_str("digest mismatch for ").concat(service).concat(": remote=").concat(remote).concat(
            " local=",
        ).concat(local))
    }
}

/// The control-plane services whose images are verified.
pub fn verified_services() -> (r: Vec<&'static str>)
    ensures
        r@.len() == 6,
        r@[0]@ == "api-gateway"@,
        r@[1]@ == "registry"@,
        r@[2]@ == "scheduler"@,
        r@[3]@ == "volume-manager"@,
        r@[4]@ == "failover-controller"@,
        r@[5]@ == "sdn-controller"@,
{
    vec!["api-gateway", "registry", "scheduler", "volume-manager", "failover-controller", "sdn-controller"]
}

/// A service's image in the registry: `<org>/csf-ce-<service>`.
pub fn service_image(org: &str, service: &str) -> (r: String)
    ensures
        r@ == org@ + "/csf-ce-"@ + service@,
{
    String::from_str(org).concat("/csf-ce-").concat(service)
}

/// A service's image reference for `docker pull`:
/// `ghcr.io/<org>/csf-ce-<service>:<version>`.
pub fn local_image_ref(org: &str, service: &str, version: &str) -> (r: String)
    ensures
        r@ == "ghcr.io/"@ + org@ + "/csf-ce-"@ + service@ + ":"@ + version@,
{
    String::from_str("ghcr.io/").concat(org).concat("/csf-ce-").concat(service).concat(":").concat(version)
}

/// The flake reference of a revision in the mirror.
pub fn flake_url(mirror_dir: &str, rev: &str) -> (r: String)
    ensures
        r@ == "git+file://"@ + mirror_dir@ + "?rev="@ + rev@,
{
    String::from_str("git+file://").concat(mirror_dir).concat("?rev=").concat(rev)
}

} // verus!
