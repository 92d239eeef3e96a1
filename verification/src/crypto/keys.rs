//! Identity keys (Ed25519), handshake agreement (X25519), session
//! encryption (ChaCha20-Poly1305) and hashing (BLAKE3).
use chacha20poly1305::aead::{Aead, KeyInit};
use rand_core::RngCore;
use vstd::prelude::*;

verus! {

/// The BLAKE3 digest of `data` (`blake3::hash`).
pub uninterp spec fn spec_blake3_hash(data: Seq<u8>) -> Seq<u8>;

/// The Ed25519 public key of the 32-byte secret `secret`
/// (`SigningKey::from_bytes(secret).verifying_key()`).
pub uninterp spec fn spec_ed25519_public(secret: Seq<u8>) -> Seq<u8>;

/// The Ed25519 signature of `message` under the 32-byte secret `secret`
/// (`SigningKey::sign`, deterministic per RFC 8032).
pub uninterp spec fn spec_ed25519_sign(secret: Seq<u8>, message: Seq<u8>) -> Seq<u8>;

/// Whether `signature` is a valid strict Ed25519 signature of `message` under
/// `public` (`VerifyingKey::from_bytes` then `verify_strict`).
pub uninterp spec fn spec_ed25519_verify(public: Seq<u8>, message: Seq<u8>, signature: Seq<u8>) -> bool;

/// The X25519 public key of the 32-byte secret `secret`
/// (`PublicKey::from(&StaticSecret::from(secret))`).
pub uninterp spec fn spec_x25519_public(secret: Seq<u8>) -> Seq<u8>;

/// The raw X25519 shared secret of `secret` and `public`
/// (`StaticSecret::from(secret).diffie_hellman(&public)`).
pub uninterp spec fn spec_x25519(secret: Seq<u8>, public: Seq<u8>) -> Seq<u8>;

/// The ChaCha20-Poly1305 ciphertext with tag of `plaintext` under `key` and
/// `nonce`, with empty associated data.
pub uninterp spec fn spec_chacha_seal(key: Seq<u8>, nonce: Seq<u8>, plaintext: Seq<u8>) -> Seq<u8>;

/// The ChaCha20-Poly1305 plaintext of `ciphertext` under `key` and `nonce`
/// with empty associated data, or `None` when the tag does not verify.
pub uninterp spec fn spec_chacha_open(key: Seq<u8>, nonce: Seq<u8>, ciphertext: Seq<u8>) -> Option<
    Seq<u8>,
>;

/// Largest plaintext that ChaCha20-Poly1305 accepts: the cipher refuses a
/// buffer of `u32::MAX` 64-byte blocks or more.
pub open spec fn chacha_max_plaintext() -> nat {
    64 * 0xffff_ffff
}

/// Root or operational public key (Ed25519).
#[derive(Clone, Debug, PartialEq, Eq)]
pub struct PublicKey(pub [u8; 32]);

/// Keypair for root or operational identities.
pub struct KeyPair {
    pub public: [u8; 32],
    pub secret: [u8; 32],
}

/// Ephemeral symmetric session key (ChaCha20-Poly1305, 32 bytes).
pub struct SessionKey(pub [u8; 32]);

#[derive(Debug, Clone, Copy, PartialEq, Eq, Structural)]
pub enum CryptoError {
    /// Decryption failed: authentication tag mismatch.
    DecryptionFailed,
    /// Invalid key material.
    InvalidKey,
}

/// Hash `data` with BLAKE3 (`blake3::hash`). Returns a 32-byte digest.
/// Trusted: the digest is a function of `data` alone.
#[verifier::external_body]
pub fn hash(data: &[u8]) -> (digest: [u8; 32])
    ensures
        digest@ == spec_blake3_hash(data@),
{
    *blake3::hash(data).as_bytes()
}

/// Fills `N` bytes from the operating-system RNG (`OsRng::fill_bytes`).
/// Nothing is claimed of the bytes.
#[verifier::external_body]
pub(crate) fn os_random_bytes<const N: usize>() -> [u8; N] {
    let mut buf = [0u8; N];
    rand_core::OsRng.fill_bytes(&mut buf);
    buf
}

impl KeyPair {
    /// Generate a fresh Ed25519 keypair using the OS RNG
    /// (`SigningKey::generate(&mut OsRng)`). Trusted: the secret is random;
    /// the public half is the Ed25519 public key of the secret.
    #[verifier::external_body]
    pub fn generate() -> (kp: Self)
        ensures
            kp.public@ == spec_ed25519_public(kp.secret@),
    {
        let sk = ed25519_dalek::SigningKey::generate(&mut rand_core::OsRng);
        Self { public: sk.verifying_key().to_bytes(), secret: sk.to_bytes() }
    }

    /// Sign `message` with the secret key (`SigningKey::sign`). Returns a
    /// 64-byte Ed25519 signature. Trusted: the signature is the deterministic
    /// Ed25519 signature of the message under the secret; the public half is
    /// not consulted.
    #[verifier::external_body]
    pub fn sign(&self, message: &[u8]) -> (sig: [u8; 64])
        ensures
            sig@ == spec_ed25519_sign(self.secret@, message@),
    {
        let sk = ed25519_dalek::SigningKey::from_bytes(&self.secret);
        ed25519_dalek::Signer::sign(&sk, message).to_bytes()
    }
}

impl PublicKey {
    /// Verify a detached Ed25519 signature over `message`
    /// (`VerifyingKey::from_bytes`, then `verify_strict`). Trusted: the answer
    /// is a function of the key, the message and the signature; a key that
    /// does not decode is answered `false`.
    #[verifier::external_body]
    pub fn verify(&self, message: &[u8], sig: &[u8; 64]) -> (ok: bool)
        ensures
            ok == spec_ed25519_verify(self.0@, message@, sig@),
    {
        let Ok(vk) = ed25519_dalek::VerifyingKey::from_bytes(&self.0) else {
            return false;
        };
        vk.verify_strict(message, &ed25519_dalek::Signature::from_bytes(sig)).is_ok()
    }
}

/// Raw X25519 agreement between a local secret and a remote public key
/// (`StaticSecret::from(secret).diffie_hellman(&PublicKey::from(public))`).
/// Trusted: the output is a function of the two inputs alone.
#[verifier::external_body]
pub fn x25519_dh(local_secret: &[u8; 32], remote_public: &[u8; 32]) -> (shared: [u8; 32])
    ensures
        shared@ == spec_x25519(local_secret@, remote_public@),
{
    x25519_dalek::StaticSecret::from(*local_secret).diffie_hellman(
        &x25519_dalek::PublicKey::from(*remote_public),
    ).to_bytes()
}

/// Fresh X25519 keypair `(secret, public)` from the OS RNG
/// (`StaticSecret::random_from_rng(OsRng)`, `PublicKey::from`). Trusted: the
/// secret is random; the public half is the X25519 public key of the secret,
/// and agreement with it commutes as X25519 does: any secret `b` agreeing with
/// this public key gets what this secret gets agreeing with `b`'s public key.
#[verifier::external_body]
pub fn x25519_generate_keypair() -> (kp: ([u8; 32], [u8; 32]))
    ensures
        kp.1@ == spec_x25519_public(kp.0@),
        forall|b: Seq<u8>|
            #![trigger spec_x25519(b, kp.1@)]
            b.len() == 32 ==> spec_x25519(b, kp.1@) == spec_x25519(kp.0@, spec_x25519_public(b)),
{
    let secret = x25519_dalek::StaticSecret::random_from_rng(rand_core::OsRng);
    let public = x25519_dalek::PublicKey::from(&secret);
    (secret.to_bytes(), public.to_bytes())
}

/// ChaCha20-Poly1305 encryption with empty associated data
/// (`ChaCha20Poly1305::new(key).encrypt(nonce, plaintext)`). Trusted: the
/// ciphertext is a function of key, nonce and plaintext, is 16 bytes longer
/// than the plaintext, and opens under the same key and nonce to the
/// plaintext.
#[verifier::external_body]
fn chacha_seal(key: &[u8; 32], nonce: &[u8; 12], plaintext: &[u8]) -> (ct: Vec<u8>)
    requires
        plaintext@.len() < chacha_max_plaintext(),
    ensures
        ct@ == spec_chacha_seal(key@, nonce@, plaintext@),
        ct@.len() == plaintext@.len() + 16,
        spec_chacha_open(key@, nonce@, ct@) == Some(plaintext@),
{
    chacha20poly1305::ChaCha20Poly1305::new(chacha20poly1305::Key::from_slice(key)).encrypt(
        chacha20poly1305::Nonce::from_slice(nonce),
        plaintext,
    ).unwrap()
}

/// ChaCha20-Poly1305 decryption with empty associated data
/// (`ChaCha20Poly1305::new(key).decrypt(nonce, ciphertext)`). Trusted: the
/// outcome is a function of key, nonce and ciphertext.
#[verifier::external_body]
fn chacha_open(key: &[u8; 32], nonce: &[u8; 12], ciphertext: &[u8]) -> (pt: Option<Vec<u8>>)
    ensures
        match pt {
            Some(p) => spec_chacha_open(key@, nonce@, ciphertext@) == Some(p@),
            None => spec_chacha_open(key@, nonce@, ciphertext@) is None,
        },
{
    chacha20poly1305::ChaCha20Poly1305::new(chacha20poly1305::Key::from_slice(key)).decrypt(
        chacha20poly1305::Nonce::from_slice(nonce),
        ciphertext,
    ).ok()
}

impl SessionKey {
    /// Derive an ephemeral session key from a local X25519 secret and remote X25519 public key.
    /// The raw DH shared secret is hashed with BLAKE3 to produce the symmetric key.
    pub fn derive_x25519(local_secret: &[u8; 32], remote_public: &[u8; 32]) -> (k: Self)
        ensures
            k.0@ == spec_blake3_hash(spec_x25519(local_secret@, remote_public@)),
    {
        let shared = x25519_dh(local_secret, remote_public);
        SessionKey(hash(shared.as_slice()))
    }

    /// Encrypt `plaintext` with ChaCha20-Poly1305 under a fresh random nonce.
    /// Returns `(ciphertext_with_tag, nonce)`; whatever nonce was drawn, the
    /// ciphertext opens under this key and that nonce to the plaintext.
    pub fn encrypt(&self, plaintext: &[u8]) -> (out: (Vec<u8>, [u8; 12]))
        requires
            plaintext@.len() < chacha_max_plaintext(),
        ensures
            out.0@ == spec_chacha_seal(self.0@, out.1@, plaintext@),
            out.0@.len() == plaintext@.len() + 16,
            spec_chacha_open(self.0@, out.1@, out.0@) == Some(plaintext@),
    {
        let nonce: [u8; 12] = os_random_bytes();
        let ct = chacha_seal(&self.0, &nonce, plaintext);
        (ct, nonce)
    }

    /// Decrypt `ciphertext` (with authentication tag) using the provided nonce.
    pub fn decrypt(&self, ciphertext: &[u8], nonce: &[u8; 12]) -> (r: Result<Vec<u8>, CryptoError>)
        ensures
            match spec_chacha_open(self.0@, nonce@, ciphertext@) {
                Some(p) => r matches Ok(v) && v@ == p,
                None => r == Err::<Vec<u8>, CryptoError>(CryptoError::DecryptionFailed),
            },
    {
        match chacha_open(&self.0, nonce, ciphertext) {
            Some(p) => Ok(p),
            None => Err(CryptoError::DecryptionFailed),
        }
    }
}

} // verus!
