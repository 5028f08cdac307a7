use pbft_core::digest::{compute_digest, generate_fake_request_msg, verify_msg};
use pbft_core::message::{PrePrepareMsg, RequestMsg};
use sha2::Digest;

fn request(op: &str, ts: u64, cid: u32, sid: u32) -> RequestMsg {
    RequestMsg {
        operation: op.to_string(),
        time_stamp: ts,
        client_id: cid,
        sequence_id: sid,
        digest: String::new(),
    }
}

/// The digest pipeline against an independently built oracle: the
/// canonical JSON assembled by hand, hashed and hex-encoded directly.
fn manual_digest(json: &str) -> String {
    hex::encode(sha2::Sha256::digest(json.as_bytes()))
}

#[test]
fn digest_matches_manual_canonical_json() {
    let r = request("x", 1, 7, 0);
    let expected = manual_digest("{\"operation\":\"x\",\"time_stamp\":1,\"client_id\":7,\"sequence_id\":0}");
    assert_eq!(compute_digest(&r), expected);
}

#[test]
fn digest_escapes_operation_content() {
    let r = request("a\"b\\c\nd\te", 2, 3, 4);
    let expected = manual_digest(
        "{\"operation\":\"a\\\"b\\\\c\\nd\\te\",\"time_stamp\":2,\"client_id\":3,\"sequence_id\":4}",
    );
    assert_eq!(compute_digest(&r), expected);
}

#[test]
fn digest_escapes_rare_control_bytes() {
    let r = request("\u{01}\u{1f}", 0, 0, 0);
    let expected = manual_digest(
        "{\"operation\":\"\\u0001\\u001f\",\"time_stamp\":0,\"client_id\":0,\"sequence_id\":0}",
    );
    assert_eq!(compute_digest(&r), expected);
}

#[test]
fn digest_passes_multibyte_operations_through() {
    let r = request("héllo→", 11, 22, 33);
    let expected = manual_digest(
        "{\"operation\":\"héllo→\",\"time_stamp\":11,\"client_id\":22,\"sequence_id\":33}",
    );
    assert_eq!(compute_digest(&r), expected);
}

#[test]
fn s5_digest_is_stable_across_invocations() {
    let a = request("op", 0, 0, 0);
    let b = request("op", 0, 0, 0);
    assert_eq!(compute_digest(&a), compute_digest(&b));
    let fake1 = generate_fake_request_msg();
    let fake2 = generate_fake_request_msg();
    assert_eq!(fake1.digest, fake2.digest);
    assert_eq!(fake1.operation, "fake");
}

#[test]
fn digest_is_64_lowercase_hex_characters() {
    let d = compute_digest(&request("anything", 5, 6, 7));
    assert_eq!(d.len(), 64);
    assert!(d.chars().all(|c| c.is_ascii_hexdigit() && !c.is_ascii_uppercase()));
}

#[test]
fn digest_ignores_the_digest_field() {
    let mut a = request("same", 1, 2, 3);
    let d1 = compute_digest(&a);
    a.digest = d1.clone();
    assert_eq!(compute_digest(&a), d1);
}

#[test]
fn digest_depends_on_every_serialized_field() {
    let base = compute_digest(&request("op", 1, 2, 3));
    assert_ne!(compute_digest(&request("oq", 1, 2, 3)), base);
    assert_ne!(compute_digest(&request("op", 9, 2, 3)), base);
    assert_ne!(compute_digest(&request("op", 1, 9, 3)), base);
    assert_ne!(compute_digest(&request("op", 1, 2, 9)), base);
}

#[test]
fn verify_msg_accepts_matching_view_and_digest() {
    let mut r = request("x", 1, 7, 0);
    let d = compute_digest(&r);
    r.digest = d.clone();
    let pp = PrePrepareMsg { view_id: 9999, sequence_id: 0, digest: d.clone(), request_msg: r };
    assert!(verify_msg(&pp, 9999, d));
}

#[test]
fn verify_msg_rejects_view_or_digest_mismatch() {
    let mut r = request("x", 1, 7, 0);
    let d = compute_digest(&r);
    r.digest = d.clone();
    let pp = PrePrepareMsg {
        view_id: 9999,
        sequence_id: 0,
        digest: d.clone(),
        request_msg: r,
    };
    assert!(!verify_msg(&pp, 5, d.clone()));
    let mut wrong = d;
    wrong.truncate(10);
    assert!(!verify_msg(&pp, 9999, wrong));
}

#[test]
fn digest_of_empty_operation() {
    let r = request("", 0, 0, 0);
    let expected = manual_digest("{\"operation\":\"\",\"time_stamp\":0,\"client_id\":0,\"sequence_id\":0}");
    assert_eq!(compute_digest(&r), expected);
}

#[test]
fn digest_renders_the_largest_timestamp() {
    let r = request("x", u64::MAX, u32::MAX, u32::MAX);
    let expected = manual_digest(
        "{\"operation\":\"x\",\"time_stamp\":18446744073709551615,\"client_id\":4294967295,\"sequence_id\":4294967295}",
    );
    assert_eq!(compute_digest(&r), expected);
}
