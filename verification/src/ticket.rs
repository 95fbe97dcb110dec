//! Proxy tickets: the signed `payload.signature` token that the control plane
//! obtains from the registry and that the agent checks before it serves a log,
//! exec, console, metrics, power or disks request.
use vstd::prelude::*;
use vstd::utf8::{decode_utf8, encode_utf8, encode_utf8_decode_utf8, encode_utf8_valid_utf8, valid_utf8};
use crate::crypto::{
    base64_url_nopad_decode, base64_url_nopad_decoded, certificate_public_key,
    der_subject_public_key, ecdsa_p256_sha256_verifies, ecdsa_p256_sha256_verify,
    pem_first_block, pem_first_block_contents,
};
use crate::numparse::{lemma_parse_signed_decimal, parse_i64_chars, parse_signed64, signed_decimal};
use crate::text::{chars_of, find_char_from, find_from, lemma_find_from, slice_chars, string_from, utf8_decode};

verus! {

/// Why a proxy ticket is refused.
#[derive(Debug, Clone, Copy, PartialEq, Eq, Structural)]
pub enum TicketError {
    /// The request carries no ticket header.
    MissingHeader,
    /// The ticket has no `.` between payload and signature.
    Malformed,
    /// The payload is not URL-safe base64.
    PayloadEncoding,
    /// The signature is not URL-safe base64.
    SignatureEncoding,
    /// The trusted CA certificate could not be read.
    CaUnavailable,
    /// The trusted CA certificate is not PEM.
    CaPem,
    /// The trusted CA certificate is not an X.509 certificate.
    CaCertificate,
    /// The signature does not verify under the CA's key.
    BadSignature,
    /// The payload is not UTF-8.
    PayloadNotUtf8,
    /// The payload has no workload id.
    MissingWorkloadId,
    /// The payload has no expiry.
    MissingExpiry,
    /// The expiry is not an `i64`.
    InvalidExpiry,
    /// The ticket names another workload (or scope).
    WorkloadMismatch,
    /// The ticket names another agent.
    AgentMismatch,
    /// The ticket has expired.
    Expired,
}

impl TicketError {
    /// The text the agent answers with when it refuses a ticket.
    pub open spec fn text(self) -> Seq<char> {
        match self {
            TicketError::MissingHeader => "missing X-Csfx-Proxy-Ticket header"@,
            TicketError::Malformed => "malformed proxy ticket"@,
            TicketError::PayloadEncoding => "invalid ticket payload encoding"@,
            TicketError::SignatureEncoding => "invalid ticket signature encoding"@,
            TicketError::CaUnavailable => "failed to load trusted CA certificate"@,
            TicketError::CaPem => "failed to parse CA PEM"@,
            TicketError::CaCertificate => "failed to parse CA certificate"@,
            TicketError::BadSignature => "proxy ticket signature verification failed"@,
            TicketError::PayloadNotUtf8 => "proxy ticket payload not utf8"@,
            TicketError::MissingWorkloadId => "proxy ticket missing workload_id"@,
            TicketError::MissingExpiry => "proxy ticket missing expiry"@,
            TicketError::InvalidExpiry => "proxy ticket expiry not a valid timestamp"@,
            TicketError::WorkloadMismatch => "proxy ticket workload_id mismatch"@,
            TicketError::AgentMismatch => "proxy ticket agent_id mismatch"@,
            TicketError::Expired => "proxy ticket expired"@,
        }
    }

    /// The refusal text (see `text`).
    pub fn message(&self) -> (r: String)
        ensures
            r@ == self.text(),
    {
        match self {
            TicketError::MissingHeader => String::from_str("missing X-Csfx-Proxy-Ticket header"),
            TicketError::Malformed => String::from_str("malformed proxy ticket"),
            TicketError::PayloadEncoding => String::from_str("invalid ticket payload encoding"),
            TicketError::SignatureEncoding => String::from_str("invalid ticket signature encoding"),
            TicketError::CaUnavailable => String::from_str("failed to load trusted CA certificate"),
            TicketError::CaPem => String::from_str("failed to parse CA PEM"),
            TicketError::CaCertificate => String::from_str("failed to parse CA certificate"),
            TicketError::BadSignature => String::from_str("proxy ticket signature verification failed"),
            TicketError::PayloadNotUtf8 => String::from_str("proxy ticket payload not utf8"),
            TicketError::MissingWorkloadId => String::from_str("proxy ticket missing workload_id"),
            TicketError::MissingExpiry => String::from_str("proxy ticket missing expiry"),
            TicketError::InvalidExpiry => String::from_str("proxy ticket expiry not a valid timestamp"),
            TicketError::WorkloadMismatch => String::from_str("proxy ticket workload_id mismatch"),
            TicketError::AgentMismatch => String::from_str("proxy ticket agent_id mismatch"),
            TicketError::Expired => String::from_str("proxy ticket expired"),
        }
    }
}

/// The claims a ticket payload carries: `agent_id.workload_id.expires_at`.
pub struct TicketClaims {
    pub agent_id: String,
    pub workload_id: String,
    pub expires_at: i64,
}

/// `str::split_once('.')`.
pub open spec fn split_once_dot(s: Seq<char>) -> Option<(Seq<char>, Seq<char>)> {
    let i = find_from(s, '.', 0);
    if 0 <= i < s.len() {
        Some((s.subrange(0, i), s.subrange(i + 1, s.len() as int)))
    } else {
        None
    }
}

/// Splits a ticket into its payload and signature at the first `.`.
pub fn split_ticket(raw: &str) -> (r: Option<(String, String)>)
    ensures
        match r {
            Some((a, b)) => split_once_dot(raw@) == Some((a@, b@)),
            None => split_once_dot(raw@) is None,
        },
{
    let v = chars_of(raw);
    let i = find_char_from(&v, '.', 0);
    proof {
        lemma_find_from(v@, '.', 0);
    }
    if i == v.len() {
        return None;
    }
    let a = slice_chars(&v, 0, i);
    let b = slice_chars(&v, i + 1, v.len());
    Some((string_from(a.as_slice()), string_from(b.as_slice())))
}

/// The ticket the control plane presents: payload, `.`, signature.
pub open spec fn ticket_text(payload: Seq<char>, signature: Seq<char>) -> Seq<char> {
    payload + seq!['.'] + signature
}

pub fn assemble_proxy_ticket(payload: &str, signature: &str) -> (r: String)
    ensures
        r@ == ticket_text(payload@, signature@),
{
    let mut v = chars_of(payload);
    v.push('.');
    let mut s = chars_of(signature);
    v.append(&mut s);
    string_from(v.as_slice())
}

/// The agent splits the ticket that the control plane assembles back into the
/// same payload and signature, whenever the payload holds no `.` (URL-safe
/// base64 never does).
pub proof fn lemma_ticket_round_trip(payload: Seq<char>, signature: Seq<char>)
    requires
        forall|k: int| 0 <= k < payload.len() ==> payload[k] != '.',
    ensures
        split_once_dot(ticket_text(payload, signature)) == Some((payload, signature)),
{
    let t = ticket_text(payload, signature);
    lemma_find_from(t, '.', 0);
    let i = find_from(t, '.', 0);
    assert(t[payload.len() as int] == '.');
    if i < payload.len() {
        assert(t[i] == payload[i]);
    }
    assert(i == payload.len());
    assert(t.subrange(0, i) =~= payload);
    assert(t.subrange(i + 1, t.len() as int) =~= signature);
}

/// The claims of a decoded payload: `splitn(3, '.')` gives agent id, workload
/// id and expiry, the last parsed as an `i64`.
pub open spec fn claims_of(s: Seq<char>) -> Result<(Seq<char>, Seq<char>, int), TicketError> {
    let i1 = find_from(s, '.', 0);
    if i1 < 0 || i1 >= s.len() {
        Err(TicketError::MissingWorkloadId)
    } else {
        let i2 = find_from(s, '.', i1 + 1);
        if i2 < 0 || i2 >= s.len() {
            Err(TicketError::MissingExpiry)
        } else {
            match parse_signed64(s.subrange(i2 + 1, s.len() as int)) {
                Some(e) => Ok((s.subrange(0, i1), s.subrange(i1 + 1, i2), e)),
                None => Err(TicketError::InvalidExpiry),
            }
        }
    }
}

/// The claims of a payload given as bytes.
pub open spec fn claims_of_bytes(b: Seq<u8>) -> Result<(Seq<char>, Seq<char>, int), TicketError> {
    if valid_utf8(b) {
        claims_of(decode_utf8(b))
    } else {
        Err(TicketError::PayloadNotUtf8)
    }
}

/// Reads the claims of a verified ticket payload.
pub fn parse_claims(payload_bytes: &[u8]) -> (r: Result<TicketClaims, TicketError>)
    ensures
        match r {
            Ok(c) => claims_of_bytes(payload_bytes@) == Ok::<_, TicketError>(
                (c.agent_id@, c.workload_id@, c.expires_at as int),
            ),
            Err(e) => claims_of_bytes(payload_bytes@) == Err::<(Seq<char>, Seq<char>, int), _>(e),
        },
{
    let text = match utf8_decode(payload_bytes) {
        Some(t) => t,
        None => return Err(TicketError::PayloadNotUtf8),
    };
    let v = chars_of(text.as_str());
    let i1 = find_char_from(&v, '.', 0);
    proof {
        lemma_find_from(v@, '.', 0);
    }
    if i1 == v.len() {
        return Err(TicketError::MissingWorkloadId);
    }
    let i2 = find_char_from(&v, '.', i1 + 1);
    proof {
        lemma_find_from(v@, '.', i1 + 1);
    }
    if i2 == v.len() {
        return Err(TicketError::MissingExpiry);
    }
    let exp = slice_chars(&v, i2 + 1, v.len());
    match parse_i64_chars(&exp) {
        Some(e) => {
            let agent_id = string_from(slice_chars(&v, 0, i1).as_slice());
            let workload_id = string_from(slice_chars(&v, i1 + 1, i2).as_slice());
            Ok(TicketClaims { agent_id, workload_id, expires_at: e })
        },
        None => Err(TicketError::InvalidExpiry),
    }
}

/// What the claims are checked against: the workload (or scope) of the
/// request, the agent's own id, and the time.
pub open spec fn claims_verdict(
    claims: (Seq<char>, Seq<char>, int),
    workload_id: Seq<char>,
    agent_id: Seq<char>,
    now: int,
) -> Result<(), TicketError> {
    if claims.1 != workload_id {
        Err(TicketError::WorkloadMismatch)
    } else if claims.0 != agent_id {
        Err(TicketError::AgentMismatch)
    } else if claims.2 < now {
        Err(TicketError::Expired)
    } else {
        Ok(())
    }
}

/// The verdict on a ticket once payload and signature are decoded.
pub open spec fn signed_verdict(
    payload: Seq<u8>,
    signature: Seq<u8>,
    ca_pem: Option<Seq<char>>,
    workload_id: Seq<char>,
    agent_id: Seq<char>,
    now: int,
) -> Result<(), TicketError> {
    match ca_pem {
        None => Err(TicketError::CaUnavailable),
        Some(pem) => match pem_first_block(encode_utf8(pem)) {
            None => Err(TicketError::CaPem),
            Some(der) => match der_subject_public_key(der) {
                None => Err(TicketError::CaCertificate),
                Some(key) => if !ecdsa_p256_sha256_verifies(key, payload, signature) {
                    Err(TicketError::BadSignature)
                } else {
                    match claims_of_bytes(payload) {
                        Err(e) => Err(e),
                        Ok(c) => claims_verdict(c, workload_id, agent_id, now),
                    }
                },
            },
        },
    }
}

/// The verdict on the ticket header of a request.
pub open spec fn ticket_verdict(
    header: Option<Seq<char>>,
    ca_pem: Option<Seq<char>>,
    workload_id: Seq<char>,
    agent_id: Seq<char>,
    now: int,
) -> Result<(), TicketError> {
    match header {
        None => Err(TicketError::MissingHeader),
        Some(raw) => match split_once_dot(raw) {
            None => Err(TicketError::Malformed),
            Some((p, s)) => match base64_url_nopad_decoded(encode_utf8(p)) {
                None => Err(TicketError::PayloadEncoding),
                Some(payload) => match base64_url_nopad_decoded(encode_utf8(s)) {
                    None => Err(TicketError::SignatureEncoding),
                    Some(signature) => signed_verdict(
                        payload,
                        signature,
                        ca_pem,
                        workload_id,
                        agent_id,
                        now,
                    ),
                },
            },
        },
    }
}

pub open spec fn opt_view(o: Option<&str>) -> Option<Seq<char>> {
    match o {
        Some(s) => Some(s@),
        None => None,
    }
}

/// No `.` in the text.
pub open spec fn no_dot(s: Seq<char>) -> bool {
    forall|k: int| 0 <= k < s.len() ==> s[k] != '.'
}

/// The claims text a ticket's payload carries: agent id, workload id and
/// expiry in decimal, separated by `.`.
pub open spec fn claims_text(agent_id: Seq<char>, workload_id: Seq<char>, expires_at: int) -> Seq<char> {
    agent_id + seq!['.'] + workload_id + seq!['.'] + signed_decimal(expires_at)
}

proof fn lemma_first_dot_after(s: Seq<char>, from: int, at: int)
    requires
        0 <= from <= at < s.len(),
        s[at] == '.',
        forall|k: int| from <= k < at ==> s[k] != '.',
    ensures
        find_from(s, '.', from) == at,
{
    lemma_find_from(s, '.', from);
    let i = find_from(s, '.', from);
    if i < at {
        assert(s[i] == '.');
    }
}

/// The claims written out as a payload are read back as they were, when the
/// ids hold no `.`.
pub proof fn lemma_claims_round_trip(agent_id: Seq<char>, workload_id: Seq<char>, expires_at: int)
    requires
        no_dot(agent_id),
        no_dot(workload_id),
        i64::MIN <= expires_at <= i64::MAX,
    ensures
        claims_of(claims_text(agent_id, workload_id, expires_at)) == Ok::<_, TicketError>(
            (agent_id, workload_id, expires_at),
        ),
{
    let t = claims_text(agent_id, workload_id, expires_at);
    let a = agent_id.len() as int;
    let w = workload_id.len() as int;
    assert forall|k: int| 0 <= k < a implies t[k] != '.' by {
        assert(t[k] == agent_id[k]);
    }
    assert(t[a] == '.');
    lemma_first_dot_after(t, 0, a);
    assert forall|k: int| a + 1 <= k < a + 1 + w implies t[k] != '.' by {
        assert(t[k] == workload_id[k - a - 1]);
    }
    assert(t[a + 1 + w] == '.');
    lemma_first_dot_after(t, a + 1, a + 1 + w);
    assert(t.subrange(0, a) =~= agent_id);
    assert(t.subrange(a + 1, a + 1 + w) =~= workload_id);
    assert(t.subrange(a + 2 + w, t.len() as int) =~= signed_decimal(expires_at));
    lemma_parse_signed_decimal(expires_at);
}

/// A ticket whose payload is the base64 of a claims text (the payload's
/// base64 holding no `.`), signed with the key of the CA the agent trusts,
/// is accepted for the workload and on the agent it names until it expires;
/// for another workload, on another agent, or after its expiry, it is
/// refused with the error that says so.
pub proof fn lemma_signed_ticket_verdict(
    payload_b64: Seq<char>,
    signature_b64: Seq<char>,
    ca_pem: Seq<char>,
    agent_id: Seq<char>,
    workload_id: Seq<char>,
    expires_at: int,
    requested_workload: Seq<char>,
    this_agent: Seq<char>,
    now: int,
)
    requires
        no_dot(payload_b64),
        no_dot(agent_id),
        no_dot(workload_id),
        i64::MIN <= expires_at <= i64::MAX,
        base64_url_nopad_decoded(encode_utf8(payload_b64)) == Some(
            encode_utf8(claims_text(agent_id, workload_id, expires_at)),
        ),
        base64_url_nopad_decoded(encode_utf8(signature_b64)) matches Some(signature)
            && pem_first_block(encode_utf8(ca_pem)) matches Some(der)
            && der_subject_public_key(der) matches Some(key)
            && ecdsa_p256_sha256_verifies(key, encode_utf8(claims_text(agent_id, workload_id, expires_at)), signature),
    ensures
        ticket_verdict(
            Some(ticket_text(payload_b64, signature_b64)),
            Some(ca_pem),
            requested_workload,
            this_agent,
            now,
        ) == if workload_id != requested_workload {
            Err(TicketError::WorkloadMismatch)
        } else if agent_id != this_agent {
            Err(TicketError::AgentMismatch)
        } else if expires_at < now {
            Err(TicketError::Expired)
        } else {
            Ok(())
        },
{
    lemma_ticket_round_trip(payload_b64, signature_b64);
    let text = claims_text(agent_id, workload_id, expires_at);
    encode_utf8_valid_utf8(text);
    encode_utf8_decode_utf8(text);
    lemma_claims_round_trip(agent_id, workload_id, expires_at);
}

fn check_signed(
    payload: &[u8],
    signature: &[u8],
    ca_pem: Option<&str>,
    workload_id: &str,
    expected_agent_id: &str,
    now: i64,
) -> (r: Result<(), TicketError>)
    ensures
        r == signed_verdict(payload@, signature@, opt_view(ca_pem), workload_id@, expected_agent_id@, now as int),
{
    let pem = match ca_pem {
        Some(p) => p,
        None => return Err(TicketError::CaUnavailable),
    };
    let der = match pem_first_block_contents(pem.as_bytes()) {
        Some(d) => d,
        None => return Err(TicketError::CaPem),
    };
    let key = match certificate_public_key(der.as_slice()) {
        Some(k) => k,
        None => return Err(TicketError::CaCertificate),
    };
    if !ecdsa_p256_sha256_verify(key.as_slice(), payload, signature) {
        return Err(TicketError::BadSignature);
    }
    let claims = match parse_claims(payload) {
        Ok(c) => c,
        Err(e) => return Err(e),
    };
    let w = chars_of(claims.workload_id.as_str());
    let a = chars_of(claims.agent_id.as_str());
    if !crate::text::chars_eq(&w, &chars_of(workload_id)) {
        return Err(TicketError::WorkloadMismatch);
    }
    if !crate::text::chars_eq(&a, &chars_of(expected_agent_id)) {
        return Err(TicketError::AgentMismatch);
    }
    if claims.expires_at < now {
        return Err(TicketError::Expired);
    }
    Ok(())
}

/// Checks the ticket header of a request for `workload_id` (or a scope such as
/// the metrics, power or disks scope) on the agent `expected_agent_id`, with
/// the trusted CA certificate (`None` when it could not be read) at time `now`.
/// The steps, each refusing with its own error: the header is present; it
/// splits at a `.`; both halves are URL-safe base64; the CA is a PEM
/// certificate; the signature verifies under its key; the payload's claims
/// parse; they name this workload and this agent; they have not expired.
pub fn verify_ticket(
    header: Option<&str>,
    ca_pem: Option<&str>,
    workload_id: &str,
    expected_agent_id: &str,
    now: i64,
) -> (r: Result<(), TicketError>)
    ensures
        r == ticket_verdict(opt_view(header), opt_view(ca_pem), workload_id@, expected_agent_id@, now as int),
{
    let raw = match header {
        Some(h) => h,
        None => return Err(TicketError::MissingHeader),
    };
    let (p, s) = match split_ticket(raw) {
        Some(parts) => parts,
        None => return Err(TicketError::Malformed),
    };
    let payload = match base64_url_nopad_decode(p.as_str().as_bytes()) {
        Some(b) => b,
        None => return Err(TicketError::PayloadEncoding),
    };
    let signature = match base64_url_nopad_decode(s.as_str().as_bytes()) {
        Some(b) => b,
        None => return Err(TicketError::SignatureEncoding),
    };
    check_signed(payload.as_slice(), signature.as_slice(), ca_pem, workload_id, expected_agent_id, now)
}

/// Why the registry's answer gave no ticket.
#[derive(Debug, Clone, Copy, PartialEq, Eq, Structural)]
pub enum ProxyTicketError {
    /// The registry answered with a status other than success.
    Refused,
    /// The registry's answer had no body.
    EmptyResponse,
    /// The body's `payload` is missing or not a string.
    MalformedPayload,
    /// The body's `signature` is missing or not a string.
    MalformedSignature,
}

/// What the registry's answer to a ticket request gives: the status was a
/// success, and the body has string fields `payload` and `signature`
/// (`body` is `None` without a body; a field is `None` when missing or not a
/// string).
pub open spec fn ticket_answer(
    success: bool,
    body: Option<(Option<&str>, Option<&str>)>,
) -> Result<Seq<char>, ProxyTicketError> {
    if !success {
        Err(ProxyTicketError::Refused)
    } else {
        match body {
            None => Err(ProxyTicketError::EmptyResponse),
            Some((None, _)) => Err(ProxyTicketError::MalformedPayload),
            Some((Some(_), None)) => Err(ProxyTicketError::MalformedSignature),
            Some((Some(p), Some(s))) => Ok(ticket_text(p@, s@)),
        }
    }
}

/// The ticket in the registry's answer, or why there is none.
pub fn proxy_ticket_from_answer(
    success: bool,
    body: Option<(Option<&str>, Option<&str>)>,
) -> (r: Result<String, ProxyTicketError>)
    ensures
        match r {
            Ok(t) => ticket_answer(success, body) == Ok::<Seq<char>, ProxyTicketError>(t@),
            Err(e) => ticket_answer(success, body) == Err::<Seq<char>, ProxyTicketError>(e),
        },
{
    if !success {
        return Err(ProxyTicketError::Refused);
    }
    match body {
        None => Err(ProxyTicketError::EmptyResponse),
        Some((None, _)) => Err(ProxyTicketError::MalformedPayload),
        Some((Some(_), None)) => Err(ProxyTicketError::MalformedSignature),
        Some((Some(p), Some(s))) => Ok(assemble_proxy_ticket(p, s)),
    }
}

} // verus!
