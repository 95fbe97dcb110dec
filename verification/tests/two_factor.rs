use base64::Engine;
use csf_core::two_factor::{check_2fa_code, generate_2fa_secret, verify_2fa_code, verify_2fa_code_at, SECRET_BYTES, TOTP_ISSUER};
use totp_rs::{Algorithm, Secret, TOTP};

fn totp_for(secret_b32: &str, account: &str) -> TOTP {
    let bytes = Secret::Encoded(secret_b32.to_string()).to_bytes().unwrap();
    TOTP::new(Algorithm::SHA1, 6, 1, 30, bytes, Some(TOTP_ISSUER.to_string()), account.to_string()).unwrap()
}

#[test]
fn codes_are_checked_against_the_stored_secret() {
    let secret = Secret::Raw(vec![7u8; 20]).to_encoded().to_string();
    let code = totp_for(&secret, "alice").generate_current().unwrap();
    assert!(verify_2fa_code(Some(&secret), "alice", &code));
    assert!(!verify_2fa_code(Some(&secret), "alice", "12345"));
    assert!(!verify_2fa_code(Some(&secret), "alice", &format!("{code} ")));
    assert!(!verify_2fa_code(Some(&secret), "alice", "abcdef"));
    assert!(!verify_2fa_code(None, "alice", &code));
    assert_eq!(check_2fa_code(Some(&secret), "alice", &code), Some(true));
    assert_eq!(check_2fa_code(None, "alice", &code), Some(false));
}

#[test]
fn unusable_secrets_are_reported() {
    let short = Secret::Raw(vec![1u8; 10]).to_encoded().to_string();
    assert_eq!(check_2fa_code(Some(&short), "alice", "123456"), None);
    assert_eq!(check_2fa_code(Some("not base32!"), "alice", "123456"), None);
    let good = Secret::Raw(vec![1u8; 16]).to_encoded().to_string();
    assert_eq!(check_2fa_code(Some(&good), "ali:ce", "123456"), None);
    assert_eq!(check_2fa_code(Some(&good), "alice", "12345"), Some(false));
}

#[test]
fn new_secrets_are_twenty_random_bytes_with_their_qr_image() {
    let a = generate_2fa_secret("bob").unwrap();
    let b = generate_2fa_secret("bob").unwrap();
    assert_ne!(a.secret, b.secret);
    let bytes = Secret::Encoded(a.secret.clone()).to_bytes().unwrap();
    assert_eq!(bytes.len(), SECRET_BYTES);
    assert_eq!(a.qr_code, totp_for(&a.secret, "bob").get_qr_base64().unwrap());
    let png = base64::engine::general_purpose::STANDARD.decode(&a.qr_code).unwrap();
    assert_eq!(&png[1..4], b"PNG");
    let code = totp_for(&a.secret, "bob").generate_current().unwrap();
    assert!(verify_2fa_code(Some(&a.secret), "bob", &code));
}

#[test]
fn code_checks_one_step_either_side_of_the_time() {
    // The RFC 6238 SHA-1 secret; its six-digit code for the step of time 59 is 287082.
    let secret = Some("GEZDGNBVGY3TQOJQGEZDGNBVGY3TQOJQ");
    assert!(verify_2fa_code_at(secret, "alice", "287082", 59));
    assert!(verify_2fa_code_at(secret, "alice", "287082", 89));
    assert!(verify_2fa_code_at(secret, "alice", "287082", 30));
    assert!(!verify_2fa_code_at(secret, "alice", "287082", 120));
    assert!(!verify_2fa_code_at(secret, "alice", "287083", 59));
    assert!(!verify_2fa_code_at(None, "alice", "287082", 59));
}
