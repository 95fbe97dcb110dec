//! The account rules of the gateway's user service: when a sign-in
//! succeeds, when a second factor is asked for, and what changing a
//! password or the second factor requires.
use vstd::prelude::*;

verus! {

/// Why an account operation failed. The first three carry the text of the
/// outside error (database, password cryptography, token signing).
pub enum AuthError {
    DatabaseError(String),
    CryptoError(String),
    JwtError(String),
    UserNotFound,
    InvalidCredentials,
    UserAlreadyExists,
    TwoFactorRequired,
    InvalidTwoFactorCode,
    PasswordChangeRequired,
}

impl AuthError {
    pub open spec fn text(&self) -> Seq<char> {
        match self {
            AuthError::DatabaseError(e) => "Database error: "@ + e@,
            AuthError::CryptoError(e) => "Crypto error: "@ + e@,
            AuthError::JwtError(e) => "JWT error: "@ + e@,
            AuthError::UserNotFound => "User not found"@,
            AuthError::InvalidCredentials => "Invalid credentials"@,
            AuthError::UserAlreadyExists => "User already exists"@,
            AuthError::TwoFactorRequired => "2FA required"@,
            AuthError::InvalidTwoFactorCode => "Invalid 2FA code"@,
            AuthError::PasswordChangeRequired => "Password change required"@,
        }
    }

    /// The error's text.
    pub fn message(&self) -> (r: String)
        ensures
            r@ == self.text(),
    {
        match self {
            AuthError::DatabaseError(e) => String::from_str("Database error: ").concat(e.as_str()),
            AuthError::CryptoError(e) => String::from_str("Crypto error: ").concat(e.as_str()),
            AuthError::JwtError(e) => String::from_str("JWT error: ").concat(e.as_str()),
            AuthError::UserNotFound => String::from_str("User not found"),
            AuthError::InvalidCredentials => String::from_str("Invalid credentials"),
            AuthError::UserAlreadyExists => String::from_str("User already exists"),
            AuthError::TwoFactorRequired => String::from_str("2FA required"),
            AuthError::InvalidTwoFactorCode => String::from_str("Invalid 2FA code"),
            AuthError::PasswordChangeRequired => String::from_str("Password change required"),
        }
    }
}

/// The verdict on a sign-in: admit it, or refuse it with an error.
pub enum LoginGate {
    Admit,
    Refuse(AuthError),
}

/// What a sign-in comes to once the password has been checked: refused
/// with `InvalidCredentials` for a wrong password; with two-factor sign-in
/// on, refused with `TwoFactorRequired` without a code and with
/// `InvalidTwoFactorCode` for a wrong one; admitted otherwise.
/// `code_valid` is the second-factor check's answer for the code given
/// (see `two_factor::verify_2fa_code`).
pub open spec fn login_gate_spec(
    password_valid: bool,
    two_factor_enabled: bool,
    code_given: bool,
    code_valid: bool,
) -> Option<AuthError> {
    if !password_valid {
        Some(AuthError::InvalidCredentials)
    } else if two_factor_enabled && !code_given {
        Some(AuthError::TwoFactorRequired)
    } else if two_factor_enabled && !code_valid {
        Some(AuthError::InvalidTwoFactorCode)
    } else {
        None
    }
}

/// Decides a sign-in (see `login_gate_spec`).
pub fn login_gate(
    password_valid: bool,
    two_factor_enabled: bool,
    code_given: bool,
    code_valid: bool,
) -> (r: LoginGate)
    ensures
        match r {
            LoginGate::Admit => login_gate_spec(password_valid, two_factor_enabled, code_given, code_valid) is None,
            LoginGate::Refuse(e) => login_gate_spec(password_valid, two_factor_enabled, code_given, code_valid)
                == Some(e),
        },
{
    if !password_valid {
        LoginGate::Refuse(AuthError::InvalidCredentials)
    } else if two_factor_enabled && !code_given {
        LoginGate::Refuse(AuthError::TwoFactorRequired)
    } else if two_factor_enabled && !code_valid {
        LoginGate::Refuse(AuthError::InvalidTwoFactorCode)
    } else {
        LoginGate::Admit
    }
}

/// Whether changing a password checks the old one: always, unless the user
/// is being forced to change it.
pub fn must_verify_old_password(force_password_change: bool) -> (b: bool)
    ensures
        b == !force_password_change,
{
    !force_password_change
}

/// Whether a password change may go on past the old password. `old_check`
/// is the outcome of checking the old password, which is made exactly when
/// `must_verify_old_password` says so: whether the old password (decrypted
/// and hashed with the user's salt) matches the stored hash, or the error of
/// decrypting or hashing it. A forced change goes on whatever it says; else
/// a match goes on, a mismatch (an empty old password among them) is
/// refused with `InvalidCredentials`, and an error is passed on.
pub fn password_change_gate(force_password_change: bool, old_check: Result<bool, AuthError>) -> (r: Result<(), AuthError>)
    ensures
        force_password_change ==> r is Ok,
        !force_password_change ==> match old_check {
            Ok(true) => r is Ok,
            Ok(false) => r matches Err(AuthError::InvalidCredentials),
            Err(e) => r == Err::<(), AuthError>(e),
        },
{
    if !must_verify_old_password(force_password_change) {
        return Ok(());
    }
    match old_check {
        Ok(true) => Ok(()),
        Ok(false) => Err(AuthError::InvalidCredentials),
        Err(e) => Err(e),
    }
}

/// The stored password of a user: its hash, its salt, and whether a change
/// is being forced.
pub struct PasswordRecord {
    pub password_hash: String,
    pub salt: String,
    pub force_password_change: bool,
}

/// Changes a user's password once `password_change_gate` let it go on:
/// `new_password` is the new password's hash and its fresh salt, or the
/// error of decrypting or hashing it. On success the record holds the new
/// hash and salt, and a forced change is cleared. On an error, from the
/// gate or from the new password, the record stays as it is.
pub fn change_password(
    record: &mut PasswordRecord,
    gate: Result<(), AuthError>,
    new_password: Result<(String, String), AuthError>,
) -> (r: Result<(), AuthError>)
    ensures
        match (gate, new_password) {
            (Err(e), _) => r == Err::<(), AuthError>(e) && *final(record) == *old(record),
            (Ok(()), Err(e)) => r == Err::<(), AuthError>(e) && *final(record) == *old(record),
            (Ok(()), Ok((hash, salt))) => {
                &&& r is Ok
                &&& final(record).password_hash == hash
                &&& final(record).salt == salt
                &&& !final(record).force_password_change
            },
        },
{
    match gate {
        Err(e) => Err(e),
        Ok(()) => match new_password {
            Err(e) => Err(e),
            Ok((hash, salt)) => {
                record.password_hash = hash;
                record.salt = salt;
                record.force_password_change = false;
                Ok(())
            },
        },
    }
}

/// Turning two-factor sign-in on needs a stored secret and a valid code.
pub fn enable_2fa_gate(has_secret: bool, code_valid: bool) -> (r: Result<(), AuthError>)
    ensures
        (has_secret && code_valid) <==> r is Ok,
        r matches Err(e) ==> e is InvalidTwoFactorCode,
{
    if !has_secret || !code_valid {
        Err(AuthError::InvalidTwoFactorCode)
    } else {
        Ok(())
    }
}

/// What turning two-factor sign-in off does: nothing when it is off
/// (`Ok(false)`), refuse a wrong code, and otherwise turn it off and drop
/// the secret (`Ok(true)`).
pub fn disable_2fa_gate(enabled: bool, code_valid: bool) -> (r: Result<bool, AuthError>)
    ensures
        !enabled ==> r matches Ok(false),
        enabled && code_valid ==> r matches Ok(true),
        enabled && !code_valid ==> r matches Err(AuthError::InvalidTwoFactorCode),
{
    if !enabled {
        Ok(false)
    } else if !code_valid {
        Err(AuthError::InvalidTwoFactorCode)
    } else {
        Ok(true)
    }
}

} // verus!
