//! Users' SSH keys: their fingerprints, which keys agents install, and who
//! may delete a key.
use vstd::prelude::*;
use crate::crypto::{base64_standard_decode, base64_standard_decoded, base64_standard_encode, base64_standard_encoded, sha256, sha256_of};
use crate::text::{chars_of, split_whitespace, split_ws};

verus! {

/// A stored key as listed to its owner.
pub struct SshKeyResponse {
    pub id: String,
    pub name: String,
    pub fingerprint: String,
    pub created_at: String,
    pub expires_at: Option<String>,
}

/// The keys an agent installs.
pub struct SshKeysForAgentResponse {
    pub keys: Vec<String>,
}

/// The base64 part of an OpenSSH public key line: its second word, or the
/// whole line when it has fewer than two words.
pub open spec fn key_body(public_key: Seq<char>) -> Seq<char> {
    let words = split_ws(public_key);
    if words.len() >= 2 {
        words[1]
    } else {
        public_key
    }
}

/// A key's fingerprint: `SHA256:` and the standard base64 of the SHA-256
/// digest of its decoded base64 part (of nothing, when that part is not
/// base64).
pub open spec fn fingerprint_of(public_key: Seq<char>) -> Seq<char> {
    let body = vstd::utf8::encode_utf8(key_body(public_key));
    let decoded = match base64_standard_decoded(body) {
        Some(b) => b,
        None => Seq::<u8>::empty(),
    };
    "SHA256:"@ + base64_standard_encoded(sha256_of(decoded))
}

/// Computes a key's fingerprint (see `fingerprint_of`).
pub fn compute_fingerprint(public_key: &str) -> (r: String)
    ensures
        r@ == fingerprint_of(public_key@),
{
    let words = split_whitespace(&chars_of(public_key));
    let body = if words.len() >= 2 {
        proof {
            assert(words@.map_values(|w: Vec<char>| w@)[1] == words@[1]@);
        }
        crate::text::string_from(words[1].as_slice())
    } else {
        String::from_str(public_key)
    };
    let decoded = match base64_standard_decode(body.as_str().as_bytes()) {
        Some(b) => b,
        None => Vec::new(),
    };
    let digest = sha256(decoded.as_slice());
    String::from_str("SHA256:").concat(base64_standard_encode(digest.as_slice()).as_str())
}

/// A stored key as the agents' listing reads it: the key line and when it
/// expires (seconds since the epoch), if ever.
pub struct StoredKey {
    pub public_key: String,
    pub expires_at: Option<i64>,
}

/// A key is installed while it has not expired: it never expires, or
/// expires after `now`.
pub open spec fn key_active(k: StoredKey, now: i64) -> bool {
    match k.expires_at {
        None => true,
        Some(e) => e > now,
    }
}

/// The key lines agents install at time `now`: those of the active keys,
/// in order.
pub open spec fn active_key_lines(keys: Seq<StoredKey>, now: i64) -> Seq<Seq<char>> {
    keys.filter(|k: StoredKey| key_active(k, now)).map_values(|k: StoredKey| k.public_key@)
}

/// Lists the keys agents install (see `active_key_lines`).
pub fn keys_for_agent(keys: &Vec<StoredKey>, now: i64) -> (r: SshKeysForAgentResponse)
    ensures
        crate::assignments::string_views(r.keys@) == active_key_lines(keys@, now),
{
    let mut out: Vec<String> = Vec::new();
    let mut i: usize = 0;
    while i < keys.len()
        invariant
            i <= keys.len(),
            crate::assignments::string_views(out@) == active_key_lines(keys@.take(i as int), now),
        decreases keys.len() - i,
    {
        let k = &keys[i];
        let ghost t = keys@.take(i as int);
        assert(keys@.take(i + 1) =~= t.push(*k));
        proof {
            t.lemma_filter_push(*k, |k: StoredKey| key_active(k, now));
        }
        let ghost f = t.filter(|k: StoredKey| key_active(k, now));
        let active = match k.expires_at {
            None => true,
            Some(e) => e > now,
        };
        if active {
            let ghost before = out@;
            out.push(k.public_key.clone());
            assert(crate::assignments::string_views(out@) =~= crate::assignments::string_views(before).push(k.public_key@));
            assert(f.push(*k).map_values(|k: StoredKey| k.public_key@) =~= f.map_values(|k: StoredKey| k.public_key@).push(k.public_key@));
        }
        i = i + 1;
    }
    assert(keys@.take(keys@.len() as int) =~= keys@);
    SshKeysForAgentResponse { keys: out }
}

/// Whether a user may delete a key, once it was looked up (`None` when
/// there is no such key): 404 without the key, 403 when it belongs to
/// someone else.
pub fn may_delete_key(owner: Option<[u8; 16]>, user_id: [u8; 16]) -> (r: Result<(), u16>)
    ensures
        match owner {
            None => r == Err::<(), u16>(404),
            Some(o) => if o@ == user_id@ {
                r == Ok::<(), u16>(())
            } else {
                r == Err::<(), u16>(403)
            },
        },
{
    match owner {
        None => Err(404),
        Some(o) => {
            let mut same = true;
            let mut k: usize = 0;
            while k < 16
                invariant
                    k <= 16,
                    same == (forall|j: int| 0 <= j < k ==> o[j] == user_id[j]),
                decreases 16 - k,
            {
                if o[k] != user_id[k] {
                    same = false;
                }
                k = k + 1;
            }
            if same {
                assert(o@ =~= user_id@);
                Ok(())
            } else {
                Err(403)
            }
        },
    }
}

} // verus!
