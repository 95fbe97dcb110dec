//! Two-factor sign-in with time-based one-time codes (TOTP, SHA-1, six
//! digits, 30-second steps, one step of skew): drawing a user's secret and
//! checking a code against the stored one.
use vstd::prelude::*;
use crate::text::{chars_of, is_digit};

verus! {

/// The issuer that codes and QR images name.
pub const TOTP_ISSUER: &'static str = "CSF-Core";
/// The digits of a code.
pub const TOTP_DIGITS: usize = 6;
/// The steps of clock skew accepted on either side.
pub const TOTP_SKEW: u8 = 1;
/// The seconds a code is valid for.
pub const TOTP_STEP: u64 = 30;
/// The bytes of a freshly drawn secret.
pub const SECRET_BYTES: usize = 20;

/// What `totp_rs::Secret::Encoded(s).to_bytes()` gives: the RFC 4648 base32
/// decoding of `s` without padding, or `None` where `s` is not base32.
pub uninterp spec fn base32_decoded(s: Seq<char>) -> Option<Seq<u8>>;

/// What `totp_rs::Secret::Raw(b).to_encoded()` holds: the RFC 4648 base32
/// encoding of `b` without padding.
pub uninterp spec fn base32_encoded(b: Seq<u8>) -> Seq<char>;

/// What `totp_rs::TOTP::get_qr_base64` gives for a SHA-1 TOTP with these
/// parameters: a PNG of the QR code of its `otpauth` URL, base64-encoded, or
/// `None` where it reports an error.
pub uninterp spec fn totp_qr_image(
    secret: Seq<u8>,
    digits: usize,
    skew: u8,
    step: u64,
    issuer: Seq<char>,
    account_name: Seq<char>,
) -> Option<Seq<char>>;

/// What `totp_rs::TOTP::generate(time)` returns for a SHA-1 TOTP with this
/// secret, number of digits and step: the code of the step that holds
/// `time`.
pub uninterp spec fn totp_sha1_code(secret: Seq<u8>, digits: usize, step: u64, time: u64) -> Seq<char>;

/// Calls `totp_rs::Secret::Encoded(..).to_bytes()`; the result is the one
/// named above.
#[verifier::external_body]
fn decode_secret(encoded: &str) -> (r: Option<Vec<u8>>)
    ensures
        match r {
            Some(v) => base32_decoded(encoded@) == Some(v@),
            None => base32_decoded(encoded@) is None,
        },
{
    totp_rs::Secret::Encoded(encoded.to_string()).to_bytes().ok()
}

/// Calls `totp_rs::Secret::Raw(..).to_encoded()` and takes its text; the
/// result is the one named above.
#[verifier::external_body]
fn encode_secret(bytes: &[u8]) -> (r: String)
    ensures
        r@ == base32_encoded(bytes@),
{
    totp_rs::Secret::Raw(bytes.to_vec()).to_encoded().to_string()
}

/// Calls `rand::random::<u8>()`: a byte from the thread's random generator
/// (which is seeded from the operating system on first use). Nothing is
/// stated of it: it is random.
#[verifier::external_body]
fn random_byte() -> (r: u8) {
    rand::random::<u8>()
}

/// A code of the right form: exactly `digits` ASCII decimal digits.
pub open spec fn code_shaped(code: Seq<char>, digits: int) -> bool {
    code.len() == digits && forall|k: int| 0 <= k < code.len() ==> is_digit(#[trigger] code[k])
}

/// The time of the `i`-th step that the TOTP check tries around `time`: the
/// steps run from `skew` steps before the one that holds `time` to `skew`
/// steps after it.
pub open spec fn window_time(time: u64, step: u64, skew: u8, i: int) -> u64 {
    ((time / step - skew + i) * step) as u64
}

/// Whether `totp_rs::TOTP::check(code, time)` accepts the code: it is the
/// code of one of the `2 * skew + 1` steps around `time`.
pub open spec fn totp_window_accepts(
    secret: Seq<u8>,
    digits: usize,
    skew: u8,
    step: u64,
    time: u64,
    code: Seq<char>,
) -> bool {
    exists|i: int|
        0 <= i <= 2 * skew && #[trigger] totp_sha1_code(secret, digits, step, window_time(time, step, skew, i))
            == code
}

/// Builds `totp_rs::TOTP::new(Algorithm::SHA1, digits, skew, step, secret,
/// Some(issuer), account_name)` and calls `check(code, time)`. `TOTP::new`
/// accepts its arguments exactly when the digits are 6 to 8, the secret has
/// at least 16 bytes and neither the issuer nor the account name holds `:`;
/// `requires` keeps to those, to a step above zero, which the check divides
/// by, and to times for which its step arithmetic (`time / step - skew`, and
/// the later steps times `step`) neither underflows nor overflows. `check`
/// tries the steps from `time / step - skew` to `time / step + skew` in turn
/// and compares the code's bytes with what `generate` gives for each (named
/// above; issuer and account name do not enter it). `generate` writes
/// `digits` zero-padded decimal digits (`format!("{1:00$}", ..)`) and
/// `constant_time_eq` is false for slices of different lengths, so an
/// accepted code is exactly `digits` ASCII digits.
#[verifier::external_body]
fn totp_sha1_check(
    secret: &[u8],
    digits: usize,
    skew: u8,
    step: u64,
    issuer: &str,
    account_name: &str,
    code: &str,
    time: u64,
) -> (r: bool)
    requires
        6 <= digits <= 8,
        secret@.len() >= 16,
        step > 0,
        !issuer@.contains(':'),
        !account_name@.contains(':'),
        time / step >= skew,
        (time / step + skew) * step <= u64::MAX,
    ensures
        r == (exists|i: int| 0 <= i <= 2 * skew && #[trigger] totp_sha1_code(secret@, digits, step, window_time(time, step, skew, i)) == code@),
        r ==> code_shaped(code@, digits as int),
{
    let totp = totp_rs::TOTP::new(
        totp_rs::Algorithm::SHA1, digits, skew, step, secret.to_vec(), Some(issuer.to_string()),
        account_name.to_string(),
    );
    match totp {
        Ok(t) => t.check(code, time),
        Err(_) => false,
    }
}

/// Calls `SystemTime::elapsed` on `UNIX_EPOCH` and takes whole seconds:
/// the clock's time, `None` where it reads before the epoch. Nothing is
/// stated of it: it is the clock.
#[verifier::external_body]
fn seconds_since_epoch() -> (r: Option<u64>) {
    std::time::UNIX_EPOCH.elapsed().ok().map(|d| d.as_secs())
}

/// Builds the same `TOTP` and calls `get_qr_base64`; the result is the one
/// named above (`None` on its error: a URL too long for a QR code, or a
/// failed PNG encoding).
#[verifier::external_body]
fn totp_sha1_qr_base64(
    secret: &[u8],
    digits: usize,
    skew: u8,
    step: u64,
    issuer: &str,
    account_name: &str,
) -> (r: Option<String>)
    requires
        6 <= digits <= 8,
        secret@.len() >= 16,
        !issuer@.contains(':'),
        !account_name@.contains(':'),
    ensures
        match r {
            Some(q) => totp_qr_image(secret@, digits, skew, step, issuer@, account_name@) == Some(q@),
            None => totp_qr_image(secret@, digits, skew, step, issuer@, account_name@) is None,
        },
{
    let totp = totp_rs::TOTP::new(
        totp_rs::Algorithm::SHA1, digits, skew, step, secret.to_vec(), Some(issuer.to_string()),
        account_name.to_string(),
    );
    match totp {
        Ok(t) => t.get_qr_base64().ok(),
        Err(_) => None,
    }
}

proof fn lemma_issuer_has_no_colon()
    ensures
        !TOTP_ISSUER@.contains(':'),
{
    reveal_strlit("CSF-Core");
    if TOTP_ISSUER@.contains(':') {
        let k = choose|k: int| 0 <= k < TOTP_ISSUER@.len() && TOTP_ISSUER@[k] == ':';
        assert(TOTP_ISSUER@[k] == "CSF-Core"@[k]);
    }
}

/// Whether the text holds a `:`.
fn has_colon(s: &str) -> (b: bool)
    ensures
        b == s@.contains(':'),
{
    let v = chars_of(s);
    let mut k: usize = 0;
    while k < v.len()
        invariant
            k <= v.len(),
            v@ == s@,
            forall|j: int| 0 <= j < k ==> v@[j] != ':',
        decreases v.len() - k,
    {
        if v[k] == ':' {
            assert(s@[k as int] == ':');
            return true;
        }
        k = k + 1;
    }
    false
}

/// A stored secret the gateway can check codes with for the account: it is
/// base32 of at least 16 bytes, and the account name holds no `:`.
pub open spec fn usable_secret(encoded: Seq<char>, account_name: Seq<char>) -> bool {
    &&& base32_decoded(encoded) matches Some(b) && b.len() >= 16
    &&& !account_name.contains(':')
}

/// The codes the TOTP check (SHA-1, six digits, 30-second steps, one step
/// of skew) accepts for the stored secret at `time`.
pub open spec fn accepted_at(encoded: Seq<char>, code: Seq<char>, time: u64) -> bool {
    base32_decoded(encoded) matches Some(b) && totp_window_accepts(b, TOTP_DIGITS, TOTP_SKEW, TOTP_STEP, time, code)
}

/// The clock readings the check works with: from the first step on, and far
/// enough below the end of `u64` that the step after the current one fits.
pub open spec fn checkable_time(time: u64) -> bool {
    TOTP_STEP <= time <= u64::MAX - TOTP_STEP
}

/// A code the TOTP check can accept for the stored secret at some time:
/// exactly six ASCII digits, and one the check accepts at that time.
pub open spec fn code_of_secret(encoded: Seq<char>, code: Seq<char>) -> bool {
    &&& code_shaped(code, TOTP_DIGITS as int)
    &&& exists|t: u64| checkable_time(t) && #[trigger] accepted_at(encoded, code, t)
}

/// Checks a code against the user's stored secret (`None`: the user has
/// none) at the time `time`: wrong without a secret; otherwise the answer of
/// the TOTP check (SHA-1, six digits, 30-second steps, one step of skew,
/// issuer `TOTP_ISSUER`) on the secret's bytes.
pub fn verify_2fa_code_at(secret: Option<&str>, account_name: &str, code: &str, time: u64) -> (r: bool)
    requires
        secret matches Some(s) ==> usable_secret(s@, account_name@),
        checkable_time(time),
    ensures
        r == (secret matches Some(s) && accepted_at(s@, code@, time)),
        r ==> code_shaped(code@, TOTP_DIGITS as int),
{
    proof {
        lemma_issuer_has_no_colon();
    }
    match secret {
        None => false,
        Some(s) => match decode_secret(s) {
            Some(bytes) => {
                assert(time / TOTP_STEP >= TOTP_SKEW);
                assert((time / TOTP_STEP + TOTP_SKEW) * TOTP_STEP <= u64::MAX);
                totp_sha1_check(
                    bytes.as_slice(),
                    TOTP_DIGITS,
                    TOTP_SKEW,
                    TOTP_STEP,
                    TOTP_ISSUER,
                    account_name,
                    code,
                    time,
                )
            },
            None => false,
        },
    }
}

/// Checks a code against the user's stored secret at the current time (see
/// `verify_2fa_code_at`); false where the clock reads outside
/// `checkable_time`, before the epoch among them. It accepts only a code of
/// the secret (see `code_of_secret`); which one depends on the clock.
pub fn verify_2fa_code(secret: Option<&str>, account_name: &str, code: &str) -> (r: bool)
    requires
        secret matches Some(s) ==> usable_secret(s@, account_name@),
    ensures
        secret is None ==> !r,
        r ==> code_shaped(code@, TOTP_DIGITS as int),
        r ==> (secret matches Some(s) && code_of_secret(s@, code@)),
{
    match seconds_since_epoch() {
        Some(time) => {
            if TOTP_STEP <= time && time <= u64::MAX - TOTP_STEP {
                let r = verify_2fa_code_at(secret, account_name, code, time);
                proof {
                    if r {
                        let s = secret->0;
                        assert(checkable_time(time) && accepted_at(s@, code@, time));
                    }
                }
                r
            } else {
                false
            }
        },
        None => false,
    }
}

/// Checks a code where the stored secret may be unusable: `None` when it
/// is (see `usable_secret`), where no TOTP can be built from it; otherwise
/// the answer of `verify_2fa_code`.
pub fn check_2fa_code(secret: Option<&str>, account_name: &str, code: &str) -> (r: Option<bool>)
    ensures
        secret is None ==> r == Some(false),
        secret matches Some(s) ==> (r is None <==> !usable_secret(s@, account_name@)),
        r == Some(true) ==> code_shaped(code@, TOTP_DIGITS as int),
        r == Some(true) ==> (secret matches Some(s) && code_of_secret(s@, code@)),
{
    match secret {
        None => Some(false),
        Some(s) => {
            let usable = match decode_secret(s) {
                Some(bytes) => bytes.len() >= 16 && !has_colon(account_name),
                None => false,
            };
            if usable {
                Some(verify_2fa_code(secret, account_name, code))
            } else {
                None
            }
        },
    }
}

/// A user's new second factor: the secret in base32, and the QR image of
/// its `otpauth` URL as base64 PNG.
pub struct TwoFactorSetup {
    pub secret: String,
    pub qr_code: String,
}

/// Draws a fresh secret of `SECRET_BYTES` random bytes for the account and
/// gives it in base32 with the QR image that enrolls it; `None` when the QR
/// image could not be drawn. `requires` keeps out account names with `:`,
/// for which no TOTP can be built.
pub fn generate_2fa_secret(account_name: &str) -> (r: Option<TwoFactorSetup>)
    requires
        !account_name@.contains(':'),
    ensures
        r matches Some(t) ==> exists|b: Seq<u8>|
            {
                &&& #[trigger] b.len() == SECRET_BYTES
                &&& t.secret@ == base32_encoded(b)
                &&& totp_qr_image(b, TOTP_DIGITS, TOTP_SKEW, TOTP_STEP, TOTP_ISSUER@, account_name@) == Some(
                    t.qr_code@,
                )
            },
        r is None ==> exists|b: Seq<u8>|
            {
                &&& #[trigger] b.len() == SECRET_BYTES
                &&& totp_qr_image(b, TOTP_DIGITS, TOTP_SKEW, TOTP_STEP, TOTP_ISSUER@, account_name@) is None
            },
{
    let mut bytes: Vec<u8> = Vec::new();
    while bytes.len() < SECRET_BYTES
        invariant
            bytes.len() <= SECRET_BYTES,
        decreases SECRET_BYTES - bytes.len(),
    {
        bytes.push(random_byte());
    }
    proof {
        lemma_issuer_has_no_colon();
    }
    let secret = encode_secret(bytes.as_slice());
    match totp_sha1_qr_base64(bytes.as_slice(), TOTP_DIGITS, TOTP_SKEW, TOTP_STEP, TOTP_ISSUER, account_name) {
        Some(qr_code) => {
            let t = TwoFactorSetup { secret, qr_code };
            assert(bytes@.len() == SECRET_BYTES);
            Some(t)
        },
        None => {
            assert(bytes@.len() == SECRET_BYTES);
            None
        },
    }
}

} // verus!
