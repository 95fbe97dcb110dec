use base64::engine::general_purpose::URL_SAFE_NO_PAD;
use base64::Engine;
use csf_core::numparse::{format_i64, format_u64, parse_i64, parse_u16, parse_u32, parse_u64};
use csf_core::order::lex_compare;
use csf_core::ticket::{
    assemble_proxy_ticket, parse_claims, proxy_ticket_from_answer, split_ticket, verify_ticket, ProxyTicketError,
    TicketError,
};
use csf_core::versions::{is_valid_sha, is_valid_version, release_tag, strip_v, version_compare};
use ring::rand::SystemRandom;
use ring::signature::{EcdsaKeyPair, ECDSA_P256_SHA256_ASN1_SIGNING};

fn chars(s: &str) -> Vec<char> {
    s.chars().collect()
}

const SAMPLES: &[&str] = &[
    "", "0", "7", "+7", "-7", "+", "-", "+-1", "-+1", "007", "12a", " 12", "12 ", "4294967295", "4294967296",
    "65535", "65536", "18446744073709551615", "18446744073709551616", "9223372036854775807",
    "9223372036854775808", "-9223372036854775808", "-9223372036854775809", "١٢", "1_000",
];

#[test]
fn integer_parsing_agrees_with_str_parse() {
    for s in SAMPLES {
        assert_eq!(parse_u64(s), s.parse::<u64>().ok(), "u64 {s:?}");
        assert_eq!(parse_u32(s), s.parse::<u32>().ok(), "u32 {s:?}");
        assert_eq!(parse_u16(s), s.parse::<u16>().ok(), "u16 {s:?}");
        assert_eq!(parse_i64(s), s.parse::<i64>().ok(), "i64 {s:?}");
    }
}

#[test]
fn integer_formatting_agrees_with_to_string() {
    for n in [0u64, 1, 9, 10, 99, 100, 4096, u64::MAX] {
        assert_eq!(format_u64(n), n.to_string());
    }
    for n in [0i64, -1, 1, -10, 12345, i64::MIN, i64::MAX] {
        assert_eq!(format_i64(n), n.to_string());
    }
}

#[test]
fn lexicographic_order_agrees_with_string_order() {
    let words = ["", "a", "ab", "abc", "b", "B", "ä", "a b", "ab\u{0}"];
    for x in words {
        for y in words {
            let expected: i8 = match x.cmp(y) {
                std::cmp::Ordering::Less => -1,
                std::cmp::Ordering::Equal => 0,
                std::cmp::Ordering::Greater => 1,
            };
            assert_eq!(lex_compare(&chars(x), &chars(y)), expected, "{x:?} {y:?}");
        }
    }
}

#[test]
fn newer_versions_compare_part_by_part() {
    assert!(version_compare("1.2.3", "1.2.4"));
    assert!(version_compare("1.2.3", "1.3"));
    assert!(version_compare("1.9", "1.10"));
    assert!(version_compare("1.2", "1.2.1"));
    assert!(!version_compare("1.2.4", "1.2.3"));
    assert!(!version_compare("1.2.3", "1.2.3"));
    assert!(!version_compare("1.2", "1.2.0"));
    assert!(!version_compare("1.2.0", "1.2"));
    // parts that are not numbers are left out before comparing
    assert!(version_compare("1.x.2", "1.3"));
    assert!(!version_compare("v1.2.3", "1.2.3"));
    assert!(version_compare("", "0.0.1"));
}

#[test]
fn version_order_is_strict() {
    let vs = ["0.1", "0.1.1", "0.2", "1.0", "1.0.0", "1.10", "1.9", "2", "x"];
    for a in vs {
        assert!(!version_compare(a, a));
        for b in vs {
            assert!(!(version_compare(a, b) && version_compare(b, a)));
            for c in vs {
                if version_compare(a, b) && version_compare(b, c) {
                    assert!(version_compare(a, c));
                }
            }
        }
    }
}

#[test]
fn revisions_and_versions_are_checked() {
    assert!(is_valid_sha("0123456789abcdefABCDEF0123456789abcdef01"));
    assert!(!is_valid_sha("0123456789abcdef0123456789abcdef0123456"));
    assert!(!is_valid_sha("0123456789abcdef0123456789abcdef012345678"));
    assert!(!is_valid_sha("g123456789abcdef0123456789abcdef01234567"));
    assert!(is_valid_version("v1.2.3"));
    assert!(is_valid_version("1.2.3-rc1"));
    assert!(is_valid_version("vv2"));
    assert!(!is_valid_version("v"));
    assert!(!is_valid_version(""));
    assert!(!is_valid_version("1.2 3"));
    assert!(!is_valid_version("1.2/3"));
    assert_eq!(strip_v("vv1.2"), "1.2");
    assert_eq!(strip_v("1.2"), "1.2");
    assert_eq!(release_tag("1.2"), "v1.2");
    assert_eq!(release_tag("v1.2"), "v1.2");
    assert_eq!(release_tag("vv"), "v");
}

#[test]
fn tickets_split_at_the_first_dot() {
    assert_eq!(split_ticket("abc.def"), Some(("abc".to_string(), "def".to_string())));
    assert_eq!(split_ticket("a.b.c"), Some(("a".to_string(), "b.c".to_string())));
    assert_eq!(split_ticket("abc"), None);
    let t = assemble_proxy_ticket("cGF5", "c2ln");
    assert_eq!(t, "cGF5.c2ln");
    assert_eq!(split_ticket(&t), Some(("cGF5".to_string(), "c2ln".to_string())));
}

#[test]
fn ticket_claims_are_agent_workload_and_expiry() {
    let c = parse_claims(b"agent-1.work-1.1700000000").ok().unwrap();
    assert_eq!((c.agent_id.as_str(), c.workload_id.as_str(), c.expires_at), ("agent-1", "work-1", 1700000000));
    let c = parse_claims(b"a.b.-5").ok().unwrap();
    assert_eq!(c.expires_at, -5);
    assert_eq!(parse_claims(b"agent").err(), Some(TicketError::MissingWorkloadId));
    assert_eq!(parse_claims(b"agent.work").err(), Some(TicketError::MissingExpiry));
    assert_eq!(parse_claims(b"agent.work.soon").err(), Some(TicketError::InvalidExpiry));
    assert_eq!(parse_claims(b"agent.work.1.2").err(), Some(TicketError::InvalidExpiry));
    assert_eq!(parse_claims(&[0xff, b'.', b'a', b'.', b'1']).err(), Some(TicketError::PayloadNotUtf8));
    assert_eq!(TicketError::Expired.message(), "proxy ticket expired");
    assert_eq!(TicketError::MissingHeader.message(), "missing X-Csfx-Proxy-Ticket header");
}

#[test]
fn registry_answers_give_tickets() {
    assert_eq!(proxy_ticket_from_answer(true, Some((Some("p"), Some("s")))).ok().as_deref(), Some("p.s"));
    assert_eq!(proxy_ticket_from_answer(false, Some((Some("p"), Some("s")))).err(), Some(ProxyTicketError::Refused));
    assert_eq!(proxy_ticket_from_answer(true, None).err(), Some(ProxyTicketError::EmptyResponse));
    assert_eq!(proxy_ticket_from_answer(true, Some((None, Some("s")))).err(), Some(ProxyTicketError::MalformedPayload));
    assert_eq!(proxy_ticket_from_answer(true, Some((Some("p"), None))).err(), Some(ProxyTicketError::MalformedSignature));
}

struct Issuer {
    ca_pem: String,
    key: EcdsaKeyPair,
}

fn issuer() -> Issuer {
    let kp = rcgen::KeyPair::generate().unwrap();
    let ca_pem = rcgen::CertificateParams::new(vec!["csfx-ca".to_string()]).unwrap().self_signed(&kp).unwrap().pem();
    let key = EcdsaKeyPair::from_pkcs8(&ECDSA_P256_SHA256_ASN1_SIGNING, &kp.serialize_der(), &SystemRandom::new())
        .unwrap();
    Issuer { ca_pem, key }
}

impl Issuer {
    fn ticket(&self, payload: &str) -> String {
        let sig = self.key.sign(&SystemRandom::new(), payload.as_bytes()).unwrap();
        assemble_proxy_ticket(&URL_SAFE_NO_PAD.encode(payload), &URL_SAFE_NO_PAD.encode(sig.as_ref()))
    }
}

#[test]
fn signed_tickets_are_accepted_for_their_workload_only() {
    let iss = issuer();
    let ca = Some(iss.ca_pem.as_str());
    let t = iss.ticket("agent-1.work-1.2000");
    assert_eq!(verify_ticket(Some(&t), ca, "work-1", "agent-1", 1999), Ok(()));
    assert_eq!(verify_ticket(Some(&t), ca, "work-1", "agent-1", 2000), Ok(()));
    assert_eq!(verify_ticket(Some(&t), ca, "work-1", "agent-1", 2001), Err(TicketError::Expired));
    assert_eq!(verify_ticket(Some(&t), ca, "work-2", "agent-1", 1999), Err(TicketError::WorkloadMismatch));
    assert_eq!(verify_ticket(Some(&t), ca, "work-1", "agent-2", 1999), Err(TicketError::AgentMismatch));
    let bad = iss.ticket("agent-1.work-1.never");
    assert_eq!(verify_ticket(Some(&bad), ca, "work-1", "agent-1", 0), Err(TicketError::InvalidExpiry));
}

#[test]
fn forged_and_broken_tickets_are_refused() {
    let iss = issuer();
    let other = issuer();
    let ca = Some(iss.ca_pem.as_str());
    let forged = other.ticket("agent-1.work-1.2000");
    assert_eq!(verify_ticket(Some(&forged), ca, "work-1", "agent-1", 0), Err(TicketError::BadSignature));
    let t = iss.ticket("agent-1.work-1.2000");
    let (_, sig) = t.split_once('.').unwrap();
    let swapped = format!("{}.{}", URL_SAFE_NO_PAD.encode("agent-1.work-1.9999"), sig);
    assert_eq!(verify_ticket(Some(&swapped), ca, "work-1", "agent-1", 0), Err(TicketError::BadSignature));
    assert_eq!(verify_ticket(None, ca, "work-1", "agent-1", 0), Err(TicketError::MissingHeader));
    assert_eq!(verify_ticket(Some("nodot"), ca, "work-1", "agent-1", 0), Err(TicketError::Malformed));
    assert_eq!(verify_ticket(Some("@@.AAAA"), ca, "work-1", "agent-1", 0), Err(TicketError::PayloadEncoding));
    assert_eq!(verify_ticket(Some("AAAA.@@"), ca, "work-1", "agent-1", 0), Err(TicketError::SignatureEncoding));
    assert_eq!(verify_ticket(Some(&t), None, "work-1", "agent-1", 0), Err(TicketError::CaUnavailable));
    assert_eq!(verify_ticket(Some(&t), Some("not a pem"), "work-1", "agent-1", 0), Err(TicketError::CaPem));
    let junk = "-----BEGIN CERTIFICATE-----\nAAAA\n-----END CERTIFICATE-----\n";
    assert_eq!(verify_ticket(Some(&t), Some(junk), "work-1", "agent-1", 0), Err(TicketError::CaCertificate));
}
