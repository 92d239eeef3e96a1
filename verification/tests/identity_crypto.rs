use scp::crypto::algorithms::AlgorithmSuite;
use scp::crypto::domains::{scp_derive_key, DomainLabel};
use scp::crypto::keys::{hash, x25519_dh, x25519_generate_keypair, CryptoError, KeyPair, PublicKey, SessionKey};
use scp::hex::{hex_decode, hex_encode, HexError};
use scp::identity::{u64_from_le, IdentityGenesis, RotationEvent, DEFAULT_RECOVERY_POLICY};
use scp::ledger::substrate::SubstrateLedger;
use scp::ledger::LedgerIdentityRecord;
use scp::wire_format::signing::registration_message;

#[test]
fn genesis_commits_to_its_keys() {
    let a = IdentityGenesis::execute().unwrap();
    assert_eq!(a.recovery_policy_hash, hash(&DEFAULT_RECOVERY_POLICY));
    assert_eq!(&DEFAULT_RECOVERY_POLICY[..], b"scp:recovery:3-of-5:v1");
    let mut input = Vec::new();
    input.extend_from_slice(&a.k_root_pub);
    input.extend_from_slice(&a.k_ops_pub);
    input.extend_from_slice(&a.recovery_policy_hash);
    assert_eq!(a.continuity_commitment, hash(&input));
    assert_ne!(a.k_root_pub, a.k_ops_pub);
    let root = KeyPair { public: a.k_root_pub, secret: a.k_root_priv };
    let sig = root.sign(b"m");
    assert!(PublicKey(a.k_root_pub).verify(b"m", &sig));
}

#[test]
fn rotation_event_verifies_under_root_only() {
    let root = KeyPair::generate();
    let other = KeyPair::generate();
    let ev = RotationEvent::sign([1u8; 32], [2u8; 32], &root).unwrap();
    assert_eq!(ev.old_ops_pub, [1u8; 32]);
    assert_eq!(ev.root_sig.len(), 64);
    assert!(ev.verify(&root.public));
    assert!(!ev.verify(&other.public));
    let mut truncated = ev;
    truncated.root_sig.pop();
    assert!(!truncated.verify(&root.public));
}

#[test]
fn rotation_event_is_accepted_by_the_ledger() {
    let root = KeyPair::generate();
    let ops = KeyPair::generate();
    let next = KeyPair::generate();
    let record = LedgerIdentityRecord {
        k_root_pub: root.public,
        k_ops_pub: ops.public,
        recovery_policy_hash: [0u8; 32],
        continuity_commitment: [0u8; 32],
    };
    let mut ledger = SubstrateLedger::new();
    let reg = root.sign(&hash(&registration_message(&root.public, &ops.public, &[0u8; 32])));
    ledger.register_identity(&record, &reg).unwrap();
    let ev = RotationEvent::sign(ops.public, next.public, &root).unwrap();
    let mut sig = [0u8; 64];
    sig.copy_from_slice(&ev.root_sig);
    assert_eq!(ledger.rotate_key(&ev.old_ops_pub, &ev.new_ops_pub, ev.nonce, &sig), Ok(()));
    assert_eq!(ledger.query_current_ops_key(&root.public), Ok(next.public));
}

#[test]
fn u64_from_le_reads_little_endian() {
    assert_eq!(u64_from_le(&[1, 0, 0, 0, 0, 0, 0, 0]), 1);
    assert_eq!(u64_from_le(&[0, 1, 0, 0, 0, 0, 0, 0]), 256);
    assert_eq!(u64_from_le(&[0xff; 8]), u64::MAX);
    assert_eq!(u64_from_le(&0x0102030405060708u64.to_le_bytes()), 0x0102030405060708);
}

#[test]
fn hex_round_trips_and_rejects() {
    assert_eq!(hex_encode(&[0x00, 0x9a, 0xff]), "009aff");
    assert_eq!(hex_decode("009aff"), Ok(vec![0x00, 0x9a, 0xff]));
    assert_eq!(hex_decode("009AFF"), Ok(vec![0x00, 0x9a, 0xff]));
    assert_eq!(hex_decode(""), Ok(vec![]));
    assert_eq!(hex_decode("abc"), Err(HexError::OddLength));
    assert_eq!(hex_decode("zz"), Err(HexError::InvalidDigit));
    let bytes: Vec<u8> = (0..=255u8).collect();
    assert_eq!(hex_decode(&hex_encode(&bytes)), Ok(bytes));
}

#[test]
fn session_key_seals_and_opens() {
    let key = SessionKey([7u8; 32]);
    let (ct, nonce) = key.encrypt(b"secret");
    assert_eq!(ct.len(), 6 + 16);
    assert_ne!(&ct[..6], b"secret");
    assert_eq!(key.decrypt(&ct, &nonce), Ok(b"secret".to_vec()));
    let wrong = SessionKey([8u8; 32]);
    assert_eq!(wrong.decrypt(&ct, &nonce), Err(CryptoError::DecryptionFailed));
}

#[test]
fn x25519_agreement_is_symmetric() {
    let (a_priv, a_pub) = x25519_generate_keypair();
    let (b_priv, b_pub) = x25519_generate_keypair();
    assert_eq!(x25519_dh(&a_priv, &b_pub), x25519_dh(&b_priv, &a_pub));
    let ka = SessionKey::derive_x25519(&a_priv, &b_pub);
    let kb = SessionKey::derive_x25519(&b_priv, &a_pub);
    assert_eq!(ka.0, kb.0);
    assert_eq!(ka.0, hash(&x25519_dh(&a_priv, &b_pub)));
}

#[test]
fn domain_separated_keys_differ() {
    let t = scp_derive_key(DomainLabel::Transport, b"material");
    let r = scp_derive_key(DomainLabel::Relay, b"material");
    assert_ne!(t, r);
    assert_eq!(t, blake3::derive_key("scp:transport:v1:", b"material"));
    assert_eq!(DomainLabel::Tunnel.as_context(), "scp:tunnel:v1:");
    assert_eq!(AlgorithmSuite::default(), AlgorithmSuite::Current);
}

#[test]
fn ed25519_signature_binds_message() {
    let kp = KeyPair::generate();
    let sig = kp.sign(b"one");
    assert!(PublicKey(kp.public).verify(b"one", &sig));
    assert!(!PublicKey(kp.public).verify(b"two", &sig));
    assert!(!PublicKey([0xffu8; 32]).verify(b"one", &sig));
}

#[test]
fn hash_is_blake3() {
    assert_eq!(hash(b"abc"), *blake3::hash(b"abc").as_bytes());
    assert_ne!(hash(b"abc"), hash(b"abd"));
    assert_eq!(
        hex_encode(&hash(b"")),
        "af1349b9f5f9a1a6a0404dea36dcc9499bcb25c9adc112b7cc9a93cae41f3262"
    );
}
