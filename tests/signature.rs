use ghost_relay::signature::{split_header, verify, RejectReason, Verdict};
use hmac::Mac;

fn tag_hex(secret: &str, parts: &[&[u8]]) -> String {
    let mut mac = hmac::Hmac::<sha2::Sha256>::new_from_slice(secret.as_bytes()).unwrap();
    for p in parts {
        mac.update(p);
    }
    hex::encode(mac.finalize().into_bytes())
}

const BODY: &[u8] = b"{\"post\":{\"current\":{\"title\":\"Hello\"}}}";
const SECRET: &str = "webhook-secret";

#[test]
fn body_only_signature_accepted_whatever_the_timestamp() {
    let sig = tag_hex(SECRET, &[BODY]);
    for ts in ["1700000000", "0", "", "not-a-number"] {
        let header = format!("sha256={}, t={}", sig, ts);
        assert_eq!(verify(BODY, Some(header.as_str()), SECRET), Verdict::Accept);
    }
}

#[test]
fn body_and_timestamp_signature_accepted() {
    let ts = "1700000123";
    let sig = tag_hex(SECRET, &[BODY, ts.as_bytes()]);
    let header = format!("sha256={}, t={}", sig, ts);
    assert_eq!(verify(BODY, Some(header.as_str()), SECRET), Verdict::Accept);
}

#[test]
fn body_and_timestamp_signature_is_bound_to_its_timestamp() {
    let sig = tag_hex(SECRET, &[BODY, b"1700000123"]);
    let header = format!("sha256={}, t={}", sig, "1700000124");
    assert_eq!(
        verify(BODY, Some(header.as_str()), SECRET),
        Verdict::Reject(RejectReason::SignatureMismatch)
    );
}

#[test]
fn uppercase_signature_accepted() {
    let sig = tag_hex(SECRET, &[BODY]).to_uppercase();
    let header = format!("sha256={}, t=1", sig);
    assert_eq!(verify(BODY, Some(header.as_str()), SECRET), Verdict::Accept);
}

#[test]
fn empty_body_signed_correctly_is_accepted() {
    let sig = tag_hex(SECRET, &[b""]);
    let header = format!("sha256={}, t=5", sig);
    assert_eq!(verify(b"", Some(header.as_str()), SECRET), Verdict::Accept);
}

#[test]
fn wrong_secret_is_a_mismatch() {
    let sig = tag_hex("other-secret", &[BODY]);
    let header = format!("sha256={}, t=1", sig);
    assert_eq!(
        verify(BODY, Some(header.as_str()), SECRET),
        Verdict::Reject(RejectReason::SignatureMismatch)
    );
}

#[test]
fn body_itself_as_signature_is_a_mismatch() {
    let header = format!("sha256={}, t=1", hex::encode(BODY));
    assert_eq!(
        verify(BODY, Some(header.as_str()), SECRET),
        Verdict::Reject(RejectReason::SignatureMismatch)
    );
}

#[test]
fn missing_header_rejected() {
    assert_eq!(
        verify(BODY, None, SECRET),
        Verdict::Reject(RejectReason::MissingHeader)
    );
}

#[test]
fn header_without_timestamp_is_malformed() {
    let header = format!("sha256={}", tag_hex(SECRET, &[BODY]));
    assert_eq!(
        verify(BODY, Some(header.as_str()), SECRET),
        Verdict::Reject(RejectReason::MalformedHeader)
    );
}

#[test]
fn header_without_signature_is_malformed() {
    assert_eq!(
        verify(BODY, Some("t=1700000000"), SECRET),
        Verdict::Reject(RejectReason::MalformedHeader)
    );
}

#[test]
fn swapped_tokens_are_malformed() {
    let header = format!("t=1700000000, sha256={}", tag_hex(SECRET, &[BODY]));
    assert_eq!(
        verify(BODY, Some(header.as_str()), SECRET),
        Verdict::Reject(RejectReason::MalformedHeader)
    );
}

#[test]
fn three_tokens_are_malformed() {
    let header = format!("sha256={}, t=1, x=2", tag_hex(SECRET, &[BODY]));
    assert_eq!(
        verify(BODY, Some(header.as_str()), SECRET),
        Verdict::Reject(RejectReason::MalformedHeader)
    );
}

#[test]
fn wrong_prefixes_are_malformed() {
    assert_eq!(
        verify(BODY, Some("sha1=abcd, t=1"), SECRET),
        Verdict::Reject(RejectReason::MalformedHeader)
    );
    assert_eq!(
        verify(BODY, Some("sha256=abcd, ts=1"), SECRET),
        Verdict::Reject(RejectReason::MalformedHeader)
    );
    assert_eq!(
        verify(BODY, Some(""), SECRET),
        Verdict::Reject(RejectReason::MalformedHeader)
    );
}

#[test]
fn split_header_returns_both_parts() {
    assert_eq!(split_header("sha256=ab12, t=99"), Some(("ab12", "99")));
    assert_eq!(split_header("sha256=, t="), Some(("", "")));
    assert_eq!(split_header("sha256=ab12,t=99"), None);
}
