use scp::crypto::keys::{x25519_generate_keypair, KeyPair};
use scp::relay::perturbation::PerturbationEngine;
use scp::transport::corridor::receive;
use scp::transport::flash::{
    FlashSession, FlashSessionLifecycle, PublishedHandshakeKey, RecipientState, TransportError,
};
use scp::transport::harness::{receive_harness, send_harness_direct, DevMailboxId, HarnessError};
use scp::transport::quorum::{revocation_commitment, ProviderQuorum, QuorumResult};
use scp::transport::replay::ReplayWindow;
use scp::transport::state::StubStateProvider;
use scp::vitality::{vitality_from_byte, vitality_to_byte, VitalityEvidenceStore, VitalityState};
use scp::wire_format::signing::handshake_sig_message;

struct Recipient {
    ops: KeyPair,
    hs_priv: [u8; 32],
    hs_pub: [u8; 32],
    expires_at: u64,
}

fn recipient(expires_at: u64) -> Recipient {
    let ops = KeyPair::generate();
    let (hs_priv, hs_pub) = x25519_generate_keypair();
    Recipient { ops, hs_priv, hs_pub, expires_at }
}

fn state_for(r: &Recipient, vitality: VitalityState) -> RecipientState {
    let sig = r.ops.sign(&handshake_sig_message(&r.hs_pub, r.expires_at));
    RecipientState {
        ops_pub: r.ops.public,
        vitality,
        routing_hints: Vec::new(),
        handshake_ephemeral: Some(PublishedHandshakeKey { pub_key: r.hs_pub, sig, expires_at: r.expires_at }),
    }
}

#[test]
fn replay_window_accepts_each_nonce_once() {
    let mut w = ReplayWindow::new();
    assert!(w.check_and_insert(10));
    assert!(!w.check_and_insert(10));
    assert!(w.check_and_insert(5));
    assert!(!w.check_and_insert(5));
    assert!(w.check_and_insert(100));
    assert!(!w.check_and_insert(10));
    assert!(w.check_and_insert(37));
    assert!(!w.check_and_insert(36));
    assert!(!w.check_and_insert(100));
}

#[test]
fn replay_window_first_nonce_zero_is_accepted() {
    let mut w = ReplayWindow::new();
    assert!(w.check_and_insert(0));
    assert!(!w.check_and_insert(0));
    assert!(w.check_and_insert(u64::MAX));
    assert!(!w.check_and_insert(0));
}

#[test]
fn v2_burst_round_trips_to_recipient() {
    let r = recipient(2_000);
    let engine = PerturbationEngine::new(std::time::Duration::ZERO);
    let prepared = FlashSession::prepare_send_at(state_for(&r, VitalityState::Active), b"hello corridor", &engine, 1_000)
        .expect("a valid, unexpired handshake key must be accepted");
    assert_eq!(prepared.session.lifecycle, FlashSessionLifecycle::WarmCache { ttl: 600 });
    assert_eq!(prepared.normalized.len(), 256);
    let env = prepared.envelope.expect("v2 path yields an envelope");
    assert_eq!(env.protocol_version, 2);
    assert_eq!(env.route_id.0, prepared.session.route.0);
    assert_eq!(receive(&env, &r.hs_priv), Ok(b"hello corridor".to_vec()));
    let (other_priv, _) = x25519_generate_keypair();
    assert_eq!(receive(&env, &other_priv), Err(TransportError::DecryptionFailed));
}

#[test]
fn v2_envelope_with_wrong_version_is_not_receivable() {
    let r = recipient(2_000);
    let engine = PerturbationEngine::passthrough();
    let prepared = FlashSession::prepare_send_at(state_for(&r, VitalityState::Warm), b"x", &engine, 1_000).unwrap();
    let mut env = prepared.envelope.unwrap();
    env.protocol_version = 1;
    assert_eq!(receive(&env, &r.hs_priv), Err(TransportError::V1PathNotReceivable));
}

#[test]
fn expired_handshake_key_is_refused() {
    let r = recipient(1_000);
    let engine = PerturbationEngine::passthrough();
    let result = FlashSession::prepare_send_at(state_for(&r, VitalityState::Active), b"late", &engine, 1_000);
    assert!(matches!(result, Err(TransportError::HandshakeKeyExpired)));
}

#[test]
fn forged_handshake_key_is_refused() {
    let r = recipient(2_000);
    let mut state = state_for(&r, VitalityState::Active);
    if let Some(hk) = state.handshake_ephemeral.as_mut() {
        hk.sig[5] ^= 0x40;
    }
    let engine = PerturbationEngine::passthrough();
    let result = FlashSession::prepare_send_at(state, b"forged", &engine, 1_000);
    assert!(matches!(result, Err(TransportError::HandshakeKeyInvalid)));
}

#[test]
fn closed_corridor_refuses_to_send() {
    let r = recipient(2_000);
    let engine = PerturbationEngine::passthrough();
    let result = FlashSession::prepare_send_at(state_for(&r, VitalityState::Severed), b"x", &engine, 1_000);
    assert!(matches!(result, Err(TransportError::VitalityInsufficient(VitalityState::Severed))));
}

#[test]
fn v1_path_has_no_envelope() {
    let state = FlashSession::retrieve_state_at(&StubStateProvider, &[3u8; 32], 0).unwrap();
    assert!(state.handshake_ephemeral.is_none());
    assert_eq!(state.vitality, VitalityState::Active);
    let engine = PerturbationEngine::new(std::time::Duration::ZERO);
    let prepared = FlashSession::prepare_send_at(state, &[1u8; 300], &engine, 0).unwrap();
    assert!(prepared.envelope.is_none());
    assert_eq!(prepared.normalized.len(), 512);
    let route = prepared.session.route.0;
    assert_eq!(prepared.session.dissolve().route.0, route);
}

#[test]
fn harness_burst_round_trips() {
    let r = recipient(2_000);
    let burst = send_harness_direct(&r.ops.public, &r.hs_pub, b"harness payload");
    assert_eq!(burst.vitality_byte, 0);
    assert_eq!(receive_harness(&r.hs_priv, &r.ops.public, &burst), Ok(b"harness payload".to_vec()));
    let other = KeyPair::generate();
    assert_eq!(
        receive_harness(&r.hs_priv, &other.public, &burst),
        Err(HarnessError::Transport(TransportError::DecryptionFailed))
    );
}

#[test]
fn harness_burst_with_unknown_vitality_byte_is_refused() {
    let r = recipient(2_000);
    let mut burst = send_harness_direct(&r.ops.public, &r.hs_pub, b"p");
    burst.vitality_byte = 9;
    assert_eq!(receive_harness(&r.hs_priv, &r.ops.public, &burst), Err(HarnessError::VitalityByte(9)));
}

#[test]
fn mailbox_id_hex_round_trips() {
    let id = DevMailboxId::generate();
    let text = id.to_hex();
    assert_eq!(text.len(), 64);
    assert_eq!(DevMailboxId::from_hex(&text).unwrap().0, id.0);
    assert!(matches!(DevMailboxId::from_hex("zz"), Err(HarnessError::Hex(_))));
    assert_eq!(
        DevMailboxId::from_hex("abcd").err(),
        Some(HarnessError::Length { expected: 32, got: 2 })
    );
}

#[test]
fn quorum_of_stub_providers_agrees() {
    let mut q: ProviderQuorum<StubStateProvider> = ProviderQuorum::new();
    assert!(q.is_empty());
    assert!(matches!(q.is_revoked_quorum(&[1u8; 32]), QuorumResult::Unavailable));
    assert!(matches!(q.get_commitment_quorum_at(&[1u8; 32], 10), QuorumResult::Unavailable));
    q.add([1u8; 32], StubStateProvider);
    q.add([2u8; 32], StubStateProvider);
    assert_eq!(q.len(), 2);
    assert!(matches!(q.is_revoked_quorum(&[1u8; 32]), QuorumResult::Agree(false)));
    assert!(matches!(q.get_handshake_ephemeral_quorum(&[1u8; 32], 10), QuorumResult::Agree(None)));
    let expected = RecipientState {
        ops_pub: [1u8; 32],
        vitality: VitalityState::Active,
        routing_hints: Vec::new(),
        handshake_ephemeral: None,
    }
    .commitment();
    match q.get_commitment_quorum_at(&[1u8; 32], 10) {
        QuorumResult::Agree(c) => assert_eq!(c, expected),
        _ => panic!("identical stub providers must agree"),
    }
}

#[test]
fn revocation_commitment_depends_on_status() {
    let k = [4u8; 32];
    assert_ne!(revocation_commitment(&k, true), revocation_commitment(&k, false));
    assert_eq!(revocation_commitment(&k, true), revocation_commitment(&k, true));
}

#[test]
fn vitality_bytes_round_trip() {
    for b in 0u8..6 {
        let v = vitality_from_byte(b).unwrap();
        assert_eq!(vitality_to_byte(&v), b);
    }
    assert_eq!(vitality_from_byte(6), None);
    assert!(VitalityState::Dormant.is_open());
    assert!(!VitalityState::Suspended.is_open());
}

#[test]
fn vitality_evidence_is_never_overwritten_by_initialize() {
    let mut store = VitalityEvidenceStore::new();
    let h = [8u8; 32];
    assert!(!store.record_reaffirmation(h, 5));
    assert_eq!(store.elapsed_since_reaffirmation(&h, 10), None);
    assert!(store.initialize_at(h, 100));
    assert!(!store.initialize_at(h, 200));
    assert_eq!(store.last_reaffirmed_at(&h), Some(100));
    assert_eq!(store.elapsed_since_reaffirmation(&h, 150), Some(50));
    assert_eq!(store.elapsed_since_reaffirmation(&h, 50), Some(0));
    assert!(store.record_reaffirmation(h, 300));
    assert_eq!(store.elapsed_since_reaffirmation(&h, 310), Some(10));
}

#[test]
fn replay_window_decides_by_the_accepted_set() {
    let mut w = ReplayWindow::new();
    // Accepted so far: {100}; max 100.
    assert!(w.check_and_insert(100));
    // Within the 64 values ending at 100 and not accepted: accepted.
    assert!(w.check_and_insert(37));
    // 36 is 64 below the max: outside the window.
    assert!(!w.check_and_insert(36));
    // A rejected nonce changes nothing: 36 stays out, 37 stays in.
    assert!(!w.check_and_insert(36));
    assert!(!w.check_and_insert(37));
    // Above the max: accepted, and the window slides.
    assert!(w.check_and_insert(164));
    assert!(!w.check_and_insert(100));
    assert!(w.check_and_insert(101));
}

#[test]
fn unknown_relationship_fails_closed() {
    let mut store = VitalityEvidenceStore::new();
    assert_eq!(store.elapsed_or_suspended(&[1u8; 32], 500), Err(VitalityState::Suspended));
    assert!(store.initialize_at([1u8; 32], 100));
    assert_eq!(store.elapsed_or_suspended(&[1u8; 32], 500), Ok(400));
    assert_eq!(store.elapsed_or_suspended(&[1u8; 32], 50), Ok(0));
}

#[test]
fn simulated_retrieval_takes_vitality_from_the_evidence_store() {
    let store = VitalityEvidenceStore::new();
    let s = FlashSession::retrieve_state_sim_at(&StubStateProvider, &[3u8; 32], &store, &[7u8; 32], 0, VitalityState::Warm)
        .unwrap();
    assert_eq!(s.vitality, VitalityState::Suspended);
    let mut store = VitalityEvidenceStore::new();
    assert!(store.initialize_at([7u8; 32], 0));
    let s = FlashSession::retrieve_state_sim_at(&StubStateProvider, &[3u8; 32], &store, &[7u8; 32], 10, VitalityState::Warm)
        .unwrap();
    assert_eq!(s.vitality, VitalityState::Warm);
}

#[test]
fn send_refusal_is_decided_before_any_sealing() {
    let r = recipient(1_000);
    assert_eq!(
        FlashSession::send_refusal_at(&state_for(&r, VitalityState::Severed), 500),
        Some(TransportError::VitalityInsufficient(VitalityState::Severed))
    );
    assert_eq!(FlashSession::send_refusal_at(&state_for(&r, VitalityState::Active), 1_000), Some(TransportError::HandshakeKeyExpired));
    assert_eq!(FlashSession::send_refusal_at(&state_for(&r, VitalityState::Active), 999), None);
    let mut forged = state_for(&r, VitalityState::Active);
    if let Some(hk) = forged.handshake_ephemeral.as_mut() {
        hk.sig[0] ^= 1;
    }
    assert_eq!(FlashSession::send_refusal_at(&forged, 999), Some(TransportError::HandshakeKeyInvalid));
}
