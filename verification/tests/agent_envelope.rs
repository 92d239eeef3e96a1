use scp::agent::envelope::{
    agent_envelope_signing_bytes, agent_envelope_time_status, build_agent_envelope, contact_card_from_identity, verify_agent_envelope,
    AgentEnvelopeDraft, AgentEnvelopeTimeStatus, AgentReplyTo, EnvelopeError, IdentityFile,
    MAX_AGENT_ENVELOPE_TTL_SECS,
};
use scp::agent::receive::{
    agent_message_outcome, agent_receive_result, assess_agent_envelope, seen_record_is_stale, AgentAssessment,
    AgentMessageOutcome, AgentReceiveError, AgentReceiveTally, AgentRejection, RouteDedup,
};
use scp::crypto::keys::{x25519_generate_keypair, KeyPair};
use scp::hex::hex_encode;
use scp::wire_format::signing::handshake_sig_message;

fn test_identity() -> IdentityFile {
    let ops_kp = KeyPair::generate();
    let (hs_priv, hs_pub) = x25519_generate_keypair();
    let expires_at = 1_000_000;
    let sig = ops_kp.sign(&handshake_sig_message(&hs_pub, expires_at));
    IdentityFile {
        ops_pub: hex_encode(&ops_kp.public),
        ops_priv: hex_encode(&ops_kp.secret),
        handshake_pub: hex_encode(&hs_pub),
        handshake_priv: hex_encode(&hs_priv),
        handshake_sig: hex_encode(&sig),
        handshake_expires_at: expires_at,
    }
}

fn draft(identity: &IdentityFile, task: &str, created_at: u64, ttl: u64, mailbox: String) -> AgentEnvelopeDraft {
    AgentEnvelopeDraft {
        task_id: task.to_string(),
        kind: "echo".to_string(),
        from: contact_card_from_identity(identity),
        reply_to: AgentReplyTo { relays: vec!["127.0.0.1:7700".to_string()], mailbox },
        created_at,
        ttl,
        body: "hello".to_string(),
    }
}

#[test]
fn agent_envelope_signature_verifies_and_rejects_tamper() {
    let identity = test_identity();
    let mut envelope = build_agent_envelope(&identity, draft(&identity, "task-1", 1_000, 60, "a".repeat(64))).unwrap();
    verify_agent_envelope(&envelope).unwrap();
    envelope.body = "tampered".to_string();
    assert!(verify_agent_envelope(&envelope).is_err());
}

#[test]
fn agent_envelope_expiry_is_receiver_enforced() {
    let identity = test_identity();
    let mut envelope = build_agent_envelope(&identity, draft(&identity, "task-2", 1_000, 10, "b".repeat(64))).unwrap();
    assert!(matches!(
        agent_envelope_time_status(&envelope, 1_010),
        AgentEnvelopeTimeStatus::Current { .. }
    ));
    assert!(matches!(agent_envelope_time_status(&envelope, 1_011), AgentEnvelopeTimeStatus::Expired));
    envelope.created_at = 1_500;
    assert!(matches!(agent_envelope_time_status(&envelope, 1_000), AgentEnvelopeTimeStatus::Invalid(_)));
}

#[test]
fn agent_envelope_rejects_oversized_ttl() {
    let identity = test_identity();
    let envelope = build_agent_envelope(
        &identity,
        draft(&identity, "task-3", 1_000, MAX_AGENT_ENVELOPE_TTL_SECS + 1, "c".repeat(64)),
    )
    .unwrap();
    assert!(verify_agent_envelope(&envelope).is_err());
}

#[test]
fn envelope_refusals_name_their_reason() {
    let identity = test_identity();
    let mut envelope = build_agent_envelope(&identity, draft(&identity, "t", 1_000, 60, "d".repeat(64))).unwrap();
    envelope.ttl = 0;
    assert_eq!(verify_agent_envelope(&envelope), Err(EnvelopeError::ZeroTtl));
    envelope.ttl = 60;
    envelope.schema_version = 2;
    assert_eq!(verify_agent_envelope(&envelope), Err(EnvelopeError::UnsupportedSchema(2)));
    envelope.schema_version = 1;
    envelope.ttl = MAX_AGENT_ENVELOPE_TTL_SECS + 1;
    assert_eq!(verify_agent_envelope(&envelope), Err(EnvelopeError::TtlTooLarge));
}

#[test]
fn time_status_exact_boundaries() {
    let identity = test_identity();
    let mut envelope = build_agent_envelope(&identity, draft(&identity, "t", 1_000, 10, "e".repeat(64))).unwrap();
    assert!(matches!(
        agent_envelope_time_status(&envelope, 0),
        AgentEnvelopeTimeStatus::Invalid(_)
    ));
    assert!(matches!(
        agent_envelope_time_status(&envelope, 700),
        AgentEnvelopeTimeStatus::Current { expires_at: 1_010 }
    ));
    envelope.created_at = u64::MAX;
    assert!(matches!(
        agent_envelope_time_status(&envelope, u64::MAX),
        AgentEnvelopeTimeStatus::Invalid(_)
    ));
}

#[test]
fn assessment_pins_the_sender() {
    let alice = test_identity();
    let mallory = test_identity();
    let envelope = build_agent_envelope(&alice, draft(&alice, "t", 1_000, 60, "f".repeat(64))).unwrap();
    assert!(matches!(
        assess_agent_envelope(&envelope, &alice.ops_pub, 1_030),
        AgentAssessment::Current { expires_at: 1_060 }
    ));
    assert!(matches!(
        assess_agent_envelope(&envelope, &mallory.ops_pub, 1_030),
        AgentAssessment::Rejected(AgentRejection::SenderMismatch)
    ));
    assert!(matches!(assess_agent_envelope(&envelope, &alice.ops_pub, 2_000), AgentAssessment::Expired));
}

#[test]
fn route_dedup_accepts_each_route_once() {
    let mut d = RouteDedup::new();
    assert!(d.insert(&[1u8; 16]));
    assert!(d.insert(&[2u8; 16]));
    assert!(!d.insert(&[1u8; 16]));
}

#[test]
fn seen_records_go_stale_after_expiry() {
    assert!(seen_record_is_stale(None, 0));
    assert!(seen_record_is_stale(Some(&[1, 2, 3]), 0));
    let rec = 100u64.to_le_bytes();
    assert!(!seen_record_is_stale(Some(&rec), 100));
    assert!(seen_record_is_stale(Some(&rec), 101));
}

#[test]
fn signing_bytes_move_a_field_boundary() {
    let identity = test_identity();
    let a = build_agent_envelope(&identity, draft(&identity, "ab", 1_000, 60, "g".repeat(64))).unwrap();
    let mut shifted = draft(&identity, "a", 1_000, 60, "g".repeat(64));
    shifted.kind = "becho".to_string();
    let b = build_agent_envelope(&identity, shifted).unwrap();
    assert_ne!(agent_envelope_signing_bytes(&a), agent_envelope_signing_bytes(&b));
    let mut more_relays = draft(&identity, "ab", 1_000, 60, "g".repeat(64));
    more_relays.reply_to.relays.push(String::new());
    let c = build_agent_envelope(&identity, more_relays).unwrap();
    assert_ne!(agent_envelope_signing_bytes(&a), agent_envelope_signing_bytes(&c));
    let bytes = agent_envelope_signing_bytes(&a);
    assert!(bytes.starts_with(b"scp-agent-envelope-v0"));
    assert_eq!(&bytes[21..23], &[1, 0]);
    assert_eq!(&bytes[23..31], &2u64.to_le_bytes());
    assert_eq!(&bytes[31..33], b"ab");
}

#[test]
fn agent_message_is_verified_only_when_every_stage_passes() {
    let current = AgentAssessment::Current { expires_at: 10 };
    assert_eq!(agent_message_outcome(true, true, true, &current, true), AgentMessageOutcome::Verified);
    assert_eq!(agent_message_outcome(false, true, true, &current, true), AgentMessageOutcome::Rejected);
    assert_eq!(agent_message_outcome(true, false, true, &current, true), AgentMessageOutcome::Duplicate);
    assert_eq!(agent_message_outcome(true, true, false, &current, true), AgentMessageOutcome::Rejected);
    assert_eq!(agent_message_outcome(true, true, true, &current, false), AgentMessageOutcome::Duplicate);
    assert_eq!(agent_message_outcome(true, true, true, &AgentAssessment::Expired, true), AgentMessageOutcome::Expired);
    let rejected = AgentAssessment::Rejected(AgentRejection::SenderMismatch);
    assert_eq!(agent_message_outcome(true, true, true, &rejected, true), AgentMessageOutcome::Rejected);
}

#[test]
fn receive_run_fails_only_when_no_relay_answers() {
    assert_eq!(agent_receive_result(true), Ok(()));
    assert_eq!(agent_receive_result(false), Err(AgentReceiveError::AllRelaysFailed));
    let mut tally = AgentReceiveTally::new();
    tally.count(AgentMessageOutcome::Verified);
    tally.count(AgentMessageOutcome::Duplicate);
    tally.count(AgentMessageOutcome::Duplicate);
    tally.count(AgentMessageOutcome::Expired);
    assert_eq!((tally.verified, tally.rejected, tally.expired, tally.duplicates), (1, 0, 1, 2));
}
