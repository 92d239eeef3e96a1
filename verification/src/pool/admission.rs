//! Provider admission: a signed challenge-response gate with a rolling
//! admit budget.
use crate::byte_map::ByteMap;
use crate::clock::{duration_nanos, instant_elapsed, instant_now};
use crate::crypto::keys::{spec_ed25519_verify, PublicKey};
use vstd::prelude::*;

verus! {

/// Domain prefix of an admission challenge: `scp:admission-challenge:v1:`.
pub const ADMISSION_PREFIX: [u8; 27] = [
    0x73u8, 0x63, 0x70, 0x3a, 0x61, 0x64, 0x6d, 0x69, 0x73, 0x73, 0x69, 0x6f, 0x6e, 0x2d, 0x63,
    0x68, 0x61, 0x6c, 0x6c, 0x65, 0x6e, 0x67, 0x65, 0x3a, 0x76, 0x31, 0x3a,
];

/// Layout of the admission challenge message.
pub open spec fn admission_bytes(provider_id: Seq<u8>, challenge: Seq<u8>) -> Seq<u8> {
    ADMISSION_PREFIX@ + provider_id + challenge
}

/// Domain-separated message candidates sign to prove key ownership:
/// `"scp:admission-challenge:v1:" ‖ provider_id ‖ challenge` = 91 bytes.
pub fn admission_challenge_message(provider_id: &[u8; 32], challenge: &[u8; 32]) -> (msg: [u8; 91])
    ensures
        msg@ == admission_bytes(provider_id@, challenge@),
        msg@.subrange(0, 27) == ADMISSION_PREFIX@,
        msg@.subrange(27, 59) == provider_id@,
        msg@.subrange(59, 91) == challenge@,
{
    let mut msg: [u8; 91] = [0u8; 91];
    let prefix = ADMISSION_PREFIX;
    crate::bytes::write_at(&mut msg, 0, prefix.as_slice());
    crate::bytes::write_at(&mut msg, 27, provider_id.as_slice());
    crate::bytes::write_at(&mut msg, 59, challenge.as_slice());
    assert(msg@ =~= admission_bytes(provider_id@, challenge@));
    msg
}

/// Field positions of the admission challenge message: the 27-byte prefix,
/// the provider id at 27..59 and the challenge at 59..91.
pub proof fn lemma_admission_layout(provider_id: Seq<u8>, challenge: Seq<u8>)
    requires
        provider_id.len() == 32,
        challenge.len() == 32,
    ensures
        admission_bytes(provider_id, challenge).len() == 91,
        admission_bytes(provider_id, challenge).subrange(0, 27) == ADMISSION_PREFIX@,
        admission_bytes(provider_id, challenge).subrange(27, 59) == provider_id,
        admission_bytes(provider_id, challenge).subrange(59, 91) == challenge,
{
    assert(admission_bytes(provider_id, challenge).subrange(0, 27) =~= ADMISSION_PREFIX@);
    assert(admission_bytes(provider_id, challenge).subrange(27, 59) =~= provider_id);
    assert(admission_bytes(provider_id, challenge).subrange(59, 91) =~= challenge);
}

/// Configuration for the provider admission gate.
pub struct AdmissionConfig {
    /// Maximum provider admits allowed per rolling time window.
    pub max_admits_per_window: u32,
    /// Duration of the rolling window for the admit budget.
    pub window_duration: std::time::Duration,
    /// How long a pending challenge remains valid before it expires.
    pub challenge_ttl: std::time::Duration,
}

/// Errors returned by `request_admission()` and `complete_admission()`.
#[derive(Debug, Clone, Copy, PartialEq, Eq, Structural)]
pub enum AdmissionError {
    /// Admission gate not configured.
    NotConfigured,
    /// Admit budget exhausted for this window.
    BudgetExhausted,
    /// `provider_id` is already in the active or dormant set.
    AlreadyInPool,
    /// A challenge is already pending for this `provider_id`.
    PendingChallenge,
    /// No pending challenge found; call `request_admission()` first.
    ChallengeNotFound,
    /// Challenge TTL elapsed before `complete_admission()` was called.
    ChallengeExpired,
    /// Ed25519 signature verification failed.
    SignatureInvalid,
    /// Provider is permanently banned by an operator.
    Banned,
    /// Provider was evicted and the cooldown period has not yet elapsed;
    /// `eligible_at_secs` is the earliest Unix time re-admission may proceed.
    EvictionCooldown { eligible_at_secs: u64 },
    /// Provider has been re-admitted the maximum number of times allowed.
    MaxReAdmissionsExceeded,
}

/// A challenge issued to a candidate, awaiting its signed response.
pub struct PendingAdmission {
    pub challenge: [u8; 32],
    pub issued_at: std::time::Instant,
}

/// Runtime admission state: the configuration, pending challenges by
/// provider id, and the rolling budget.
pub struct AdmissionState {
    pub config: AdmissionConfig,
    pub pending: ByteMap<PendingAdmission>,
    pub budget_count: u32,
    pub budget_window_start: std::time::Instant,
}

/// The outcome of verifying a challenge response, given whether the
/// challenge's TTL has elapsed.
pub open spec fn admission_verdict(
    pending: Map<Seq<u8>, PendingAdmission>,
    provider_id: Seq<u8>,
    sig: Seq<u8>,
    expired: bool,
) -> Result<(), AdmissionError> {
    if !pending.contains_key(provider_id) {
        Err(AdmissionError::ChallengeNotFound)
    } else if expired {
        Err(AdmissionError::ChallengeExpired)
    } else if !spec_ed25519_verify(
        provider_id,
        admission_bytes(provider_id, pending[provider_id].challenge@),
        sig,
    ) {
        Err(AdmissionError::SignatureInvalid)
    } else {
        Ok(())
    }
}

impl AdmissionState {
    pub open spec fn wf(&self) -> bool {
        self.pending.wf()
    }

    pub fn new(config: AdmissionConfig) -> (s: Self)
        ensures
            s.wf(),
            s.budget_count == 0,
            s.pending@ == Map::<Seq<u8>, PendingAdmission>::empty(),
            s.config == config,
    {
        AdmissionState { budget_count: 0, budget_window_start: instant_now(), pending: ByteMap::new(), config }
    }

    /// Claims one admit from the budget, given whether the budget window has
    /// elapsed: an elapsed window restarts the count at zero. Refuses when
    /// the count has reached the per-window maximum.
    pub fn claim_budget_at(&mut self, window_elapsed: bool) -> (ok: bool)
        ensures
            ({
                let start: int = if window_elapsed { 0 } else { old(self).budget_count as int };
                &&& ok == (start < old(self).config.max_admits_per_window)
                &&& final(self).budget_count == if ok { start + 1 } else { start }
            }),
            final(self).config == old(self).config,
            final(self).pending == old(self).pending,
    {
        if window_elapsed {
            self.budget_count = 0;
            self.budget_window_start = instant_now();
        }
        if self.budget_count >= self.config.max_admits_per_window {
            return false;
        }
        self.budget_count = self.budget_count + 1;
        true
    }

    /// Checks and claims one admit from the rolling budget; the count restarts
    /// when the window has elapsed. Whatever the clock read, an admit is
    /// granted only while the count is below the maximum, and the count never
    /// exceeds it.
    pub fn check_and_claim_budget(&mut self) -> (ok: bool)
        ensures
            ok ==> final(self).budget_count <= final(self).config.max_admits_per_window,
            ok ==> final(self).budget_count >= 1,
            ok ==> final(self).budget_count == 1 || final(self).budget_count == old(self).budget_count + 1,
            !ok ==> final(self).budget_count == 0 || final(self).budget_count == old(self).budget_count,
            !ok ==> final(self).budget_count >= final(self).config.max_admits_per_window,
            final(self).config == old(self).config,
            final(self).pending == old(self).pending,
    {
        let elapsed = instant_elapsed(&self.budget_window_start);
        let window_elapsed = duration_nanos(&elapsed) >= duration_nanos(&self.config.window_duration);
        self.claim_budget_at(window_elapsed)
    }

    /// Verifies a challenge response without removing the pending entry,
    /// given whether the challenge's TTL has elapsed.
    pub fn verify_at(&self, provider_id: &[u8; 32], sig: &[u8; 64], expired: bool) -> (r: Result<(), AdmissionError>)
        requires
            self.wf(),
        ensures
            r == admission_verdict(self.pending@, provider_id@, sig@, expired),
    {
        match self.pending.get(provider_id) {
            None => Err(AdmissionError::ChallengeNotFound),
            Some(p) => {
                if expired {
                    return Err(AdmissionError::ChallengeExpired);
                }
                let msg = admission_challenge_message(provider_id, &p.challenge);
                if !PublicKey(*provider_id).verify(msg.as_slice(), sig) {
                    return Err(AdmissionError::SignatureInvalid);
                }
                Ok(())
            },
        }
    }

    /// Verifies a challenge response without removing the pending entry.
    /// On failure, the pending entry remains (consumable until TTL expires).
    /// The answer is the verdict for whether the TTL had elapsed when the
    /// clock was read.
    pub fn verify(&self, provider_id: &[u8; 32], sig: &[u8; 64]) -> (r: Result<(), AdmissionError>)
        requires
            self.wf(),
        ensures
            exists|expired: bool| r == admission_verdict(self.pending@, provider_id@, sig@, expired),
            !self.pending@.contains_key(provider_id@) ==> r == Err::<(), AdmissionError>(AdmissionError::ChallengeNotFound),
    {
        let expired = match self.pending.get(provider_id) {
            None => false,
            Some(p) => {
                let age = instant_elapsed(&p.issued_at);
                duration_nanos(&age) > duration_nanos(&self.config.challenge_ttl)
            },
        };
        self.verify_at(provider_id, sig, expired)
    }
}

} // verus!
