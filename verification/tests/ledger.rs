use scp::crypto::keys::{hash, KeyPair};
use scp::ledger::cosmos::CosmosLedger;
use scp::ledger::substrate::SubstrateLedger;
use scp::ledger::{tunnel_consent_hash, LedgerError, LedgerIdentityRecord, TunnelConsent, TunnelState};
use scp::wire_format::signing::{registration_message, rotation_message};

fn record_for(root: &KeyPair, ops: &KeyPair) -> LedgerIdentityRecord {
    LedgerIdentityRecord {
        k_root_pub: root.public,
        k_ops_pub: ops.public,
        recovery_policy_hash: [7u8; 32],
        continuity_commitment: [9u8; 32],
    }
}

fn registration_sig(root: &KeyPair, record: &LedgerIdentityRecord) -> [u8; 64] {
    root.sign(&hash(&registration_message(&record.k_root_pub, &record.k_ops_pub, &record.recovery_policy_hash)))
}

fn consent_for(x: &KeyPair, y: &KeyPair) -> TunnelConsent {
    let ch = tunnel_consent_hash(&x.public, &y.public);
    let (a, b) = if x.public <= y.public { (x, y) } else { (y, x) };
    TunnelConsent {
        party_a: a.public,
        party_b: b.public,
        sig_a: a.sign(&ch).to_vec(),
        sig_b: b.sign(&ch).to_vec(),
    }
}

#[test]
fn registration_makes_ops_key_current() {
    let root = KeyPair::generate();
    let ops = KeyPair::generate();
    let record = record_for(&root, &ops);
    let mut ledger = SubstrateLedger::new();
    assert_eq!(ledger.query_current_ops_key(&root.public), Err(LedgerError::NotFound));
    assert_eq!(ledger.register_identity(&record, &registration_sig(&root, &record)), Ok(()));
    assert_eq!(ledger.query_current_ops_key(&root.public), Ok(ops.public));
    assert!(!ledger.is_revoked(&ops.public));
}

#[test]
fn registration_twice_is_refused() {
    let root = KeyPair::generate();
    let ops = KeyPair::generate();
    let record = record_for(&root, &ops);
    let sig = registration_sig(&root, &record);
    let mut ledger = CosmosLedger::new();
    assert_eq!(ledger.register_identity(&record, &sig), Ok(()));
    assert_eq!(ledger.register_identity(&record, &sig), Err(LedgerError::AlreadyRegistered));
}

#[test]
fn registration_with_wrong_signer_is_refused() {
    let root = KeyPair::generate();
    let ops = KeyPair::generate();
    let record = record_for(&root, &ops);
    let forged = registration_sig(&ops, &record);
    let mut ledger = SubstrateLedger::new();
    assert_eq!(ledger.register_identity(&record, &forged), Err(LedgerError::InvalidSignature));
    assert_eq!(ledger.query_current_ops_key(&root.public), Err(LedgerError::NotFound));
}

#[test]
fn rotation_replaces_and_revokes_old_key() {
    let root = KeyPair::generate();
    let ops = KeyPair::generate();
    let next = KeyPair::generate();
    let record = record_for(&root, &ops);
    let mut ledger = SubstrateLedger::new();
    ledger.register_identity(&record, &registration_sig(&root, &record)).unwrap();
    let sig = root.sign(&rotation_message(&ops.public, &next.public, 5));
    assert_eq!(ledger.rotate_key(&ops.public, &next.public, 5, &sig), Ok(()));
    assert_eq!(ledger.query_current_ops_key(&root.public), Ok(next.public));
    assert!(ledger.is_revoked(&ops.public));
    assert!(!ledger.is_revoked(&next.public));
}

#[test]
fn rotation_of_unknown_key_is_not_found() {
    let root = KeyPair::generate();
    let stranger = KeyPair::generate();
    let next = KeyPair::generate();
    let sig = root.sign(&rotation_message(&stranger.public, &next.public, 1));
    let mut ledger = CosmosLedger::new();
    assert_eq!(ledger.rotate_key(&stranger.public, &next.public, 1, &sig), Err(LedgerError::NotFound));
}

#[test]
fn rotation_signed_for_another_nonce_is_refused() {
    let root = KeyPair::generate();
    let ops = KeyPair::generate();
    let next = KeyPair::generate();
    let record = record_for(&root, &ops);
    let mut ledger = CosmosLedger::new();
    ledger.register_identity(&record, &registration_sig(&root, &record)).unwrap();
    let sig = root.sign(&rotation_message(&ops.public, &next.public, 5));
    assert_eq!(ledger.rotate_key(&ops.public, &next.public, 6, &sig), Err(LedgerError::InvalidSignature));
    assert_eq!(ledger.query_current_ops_key(&root.public), Ok(ops.public));
    assert!(!ledger.is_revoked(&ops.public));
}

#[test]
fn revoke_marks_ops_key_revoked() {
    let root = KeyPair::generate();
    let ops = KeyPair::generate();
    let record = record_for(&root, &ops);
    let mut ledger = SubstrateLedger::new();
    ledger.register_identity(&record, &registration_sig(&root, &record)).unwrap();
    let bad = ops.sign(&ops.public);
    assert_eq!(ledger.revoke(&ops.public, &bad), Err(LedgerError::InvalidSignature));
    assert!(!ledger.is_revoked(&ops.public));
    let good = root.sign(&ops.public);
    assert_eq!(ledger.revoke(&ops.public, &good), Ok(()));
    assert!(ledger.is_revoked(&ops.public));
    let unknown = KeyPair::generate();
    assert_eq!(ledger.revoke(&unknown.public, &good), Err(LedgerError::NotFound));
}

#[test]
fn tunnel_lifecycle_reads_unknown_active_revoked() {
    let x = KeyPair::generate();
    let y = KeyPair::generate();
    let mut ledger = SubstrateLedger::new();
    assert_eq!(ledger.query_tunnel(&x.public, &y.public), TunnelState::Unknown);
    assert_eq!(ledger.register_tunnel(consent_for(&x, &y)), Ok(()));
    assert_eq!(ledger.query_tunnel(&x.public, &y.public), TunnelState::Active);
    assert_eq!(ledger.query_tunnel(&y.public, &x.public), TunnelState::Active);
    let ch = tunnel_consent_hash(&y.public, &x.public);
    let sig = y.sign(&ch);
    assert_eq!(ledger.revoke_tunnel(&y.public, &sig, &x.public), Ok(()));
    assert_eq!(ledger.query_tunnel(&x.public, &y.public), TunnelState::Revoked);
    assert_eq!(ledger.query_tunnel(&y.public, &x.public), TunnelState::Revoked);
}

#[test]
fn tunnel_with_short_signature_is_refused() {
    let x = KeyPair::generate();
    let y = KeyPair::generate();
    let mut consent = consent_for(&x, &y);
    consent.sig_b.truncate(63);
    let mut ledger = CosmosLedger::new();
    assert_eq!(ledger.register_tunnel(consent), Err(LedgerError::InvalidSignature));
    assert_eq!(ledger.query_tunnel(&x.public, &y.public), TunnelState::Unknown);
}

#[test]
fn tunnel_with_one_bad_signature_is_refused() {
    let x = KeyPair::generate();
    let y = KeyPair::generate();
    let mut consent = consent_for(&x, &y);
    consent.sig_a[0] ^= 1;
    let mut ledger = SubstrateLedger::new();
    assert_eq!(ledger.register_tunnel(consent), Err(LedgerError::InvalidSignature));
}

#[test]
fn revoking_an_unknown_tunnel_is_not_found() {
    let x = KeyPair::generate();
    let y = KeyPair::generate();
    let ch = tunnel_consent_hash(&x.public, &y.public);
    let sig = x.sign(&ch);
    let mut ledger = CosmosLedger::new();
    assert_eq!(ledger.revoke_tunnel(&x.public, &sig, &y.public), Err(LedgerError::NotFound));
}

#[test]
fn tunnel_consent_hash_is_order_independent() {
    let a = [1u8; 32];
    let b = [2u8; 32];
    assert_eq!(tunnel_consent_hash(&a, &b), tunnel_consent_hash(&b, &a));
    assert_ne!(tunnel_consent_hash(&a, &b), tunnel_consent_hash(&a, &a));
}

#[test]
fn registration_signed_over_raw_message_is_refused() {
    let root = KeyPair::generate();
    let ops = KeyPair::generate();
    let record = record_for(&root, &ops);
    let mut ledger = SubstrateLedger::new();
    let raw = root.sign(&registration_message(&record.k_root_pub, &record.k_ops_pub, &record.recovery_policy_hash));
    assert_eq!(ledger.register_identity(&record, &raw), Err(LedgerError::InvalidSignature));
    assert_eq!(ledger.register_identity(&record, &registration_sig(&root, &record)), Ok(()));
    assert_eq!(ledger.query_current_ops_key(&root.public), Ok(ops.public));
}

#[test]
fn revoked_tunnel_stays_revoked_after_later_operations() {
    let x = KeyPair::generate();
    let y = KeyPair::generate();
    let mut ledger = SubstrateLedger::new();
    ledger.register_tunnel(consent_for(&x, &y)).unwrap();
    let ch = tunnel_consent_hash(&x.public, &y.public);
    ledger.revoke_tunnel(&x.public, &x.sign(&ch), &y.public).unwrap();
    assert_eq!(ledger.register_tunnel(consent_for(&y, &x)), Ok(()));
    let root = KeyPair::generate();
    let record = record_for(&root, &x);
    ledger.register_identity(&record, &registration_sig(&root, &record)).unwrap();
    assert_eq!(ledger.query_tunnel(&x.public, &y.public), TunnelState::Revoked);
    assert_eq!(ledger.query_tunnel(&y.public, &x.public), TunnelState::Revoked);
}
