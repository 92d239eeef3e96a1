//! Bounded size noise before relay handoff.
use vstd::prelude::*;

verus! {

// ── Protocol-level perturbation budget constants ────────────────────────────
/// Maximum random timing jitter added to any outgoing burst (milliseconds).
pub const MAX_JITTER_MS: u64 = 250;

/// Payload normalization bucket size (bytes). Bursts are padded to the next
/// multiple of this value to reduce length-based traffic fingerprinting.
pub const MIN_PAYLOAD_BUCKET: usize = 256;

/// Maximum padding that normalize_payload() will ever append (bytes).
pub const MAX_PADDING_BYTES: usize = 512;

/// The whole milliseconds of a duration (`Duration::as_millis`).
pub uninterp spec fn spec_duration_millis(d: std::time::Duration) -> nat;

/// `Duration::from_millis(ms)`. Trusted: the duration is `ms` milliseconds.
#[verifier::external_body]
pub(crate) fn duration_from_millis(ms: u64) -> (d: std::time::Duration)
    ensures
        spec_duration_millis(d) == ms,
{
    std::time::Duration::from_millis(ms)
}

/// The whole milliseconds of `d` (`Duration::as_millis`).
#[verifier::external_body]
fn duration_millis(d: &std::time::Duration) -> (ms: u128)
    ensures
        ms == spec_duration_millis(*d),
{
    d.as_millis()
}

/// A uniformly drawn integer in `0..=max` from the thread-local generator
/// (`rand::thread_rng().gen_range(0..=max)`). Trusted: the draw is at most
/// `max`; nothing else is claimed of it.
#[verifier::external_body]
fn random_up_to(max: u64) -> (r: u64)
    ensures
        r <= max,
{
    rand::Rng::gen_range(&mut rand::thread_rng(), 0..=max)
}

/// The bucketed length of an `n`-byte payload: the next multiple of the
/// bucket size, and one whole bucket for an empty payload.
pub open spec fn spec_bucket_ceil(n: nat) -> nat {
    if n == 0 {
        MIN_PAYLOAD_BUCKET as nat
    } else {
        ((n + 255) / 256) * 256
    }
}

/// The normalized form of `payload`: the payload, then zero bytes up to its
/// bucketed length.
pub open spec fn normalized(payload: Seq<u8>) -> Seq<u8> {
    payload + Seq::new((spec_bucket_ceil(payload.len()) - payload.len()) as nat, |i: int| 0u8)
}

/// Injects bounded timing and size noise before relay handoff.
pub struct PerturbationEngine {
    /// Upper bound on timing jitter. A zero duration disables jitter.
    pub max_jitter: std::time::Duration,
    /// Whether payloads are padded to the bucket boundary.
    pub normalize: bool,
}

impl PerturbationEngine {
    /// An engine with the given jitter bound that normalizes payloads.
    pub fn new(max_jitter: std::time::Duration) -> (e: Self)
        ensures
            e.max_jitter == max_jitter,
            e.normalize,
    {
        Self { max_jitter, normalize: true }
    }

    /// Zero-jitter, zero-normalization engine for tests and local-direct mode.
    pub fn passthrough() -> (e: Self)
        ensures
            spec_duration_millis(e.max_jitter) == 0,
            !e.normalize,
    {
        Self { max_jitter: duration_from_millis(0), normalize: false }
    }

    /// What `normalize_payload` makes of `payload`: its normalized form when
    /// the engine normalizes, the payload itself otherwise.
    pub open spec fn spec_output(&self, payload: Seq<u8>) -> Seq<u8> {
        if self.normalize {
            normalized(payload)
        } else {
            payload
        }
    }

    /// A bounded random jitter delay: a whole number of milliseconds no
    /// larger than `max_jitter` (its milliseconds taken modulo 2^64, as the
    /// conversion to `u64` truncates), and zero when `max_jitter` is under a
    /// millisecond. The caller sleeps for it before relay handoff.
    pub fn jitter_delay(&self) -> (d: std::time::Duration)
        ensures
            spec_duration_millis(d) <= (spec_duration_millis(self.max_jitter) as u64),
            spec_duration_millis(self.max_jitter) == 0 ==> spec_duration_millis(d) == 0,
    {
        let m = duration_millis(&self.max_jitter);
        if m == 0 {
            return duration_from_millis(0);
        }
        #[verifier::truncate]
        let max_ms: u64 = m as u64;
        let ms = random_up_to(max_ms);
        duration_from_millis(ms)
    }

    /// Pad `payload` with zero bytes to the next MIN_PAYLOAD_BUCKET boundary;
    /// a passthrough engine hands the payload back unchanged.
    pub fn normalize_payload(&self, payload: &[u8]) -> (out: Vec<u8>)
        requires
            self.normalize ==> payload@.len() + 255 <= usize::MAX,
        ensures
            out@ == self.spec_output(payload@),
    {
        if !self.normalize {
            let mut out: Vec<u8> = Vec::new();
            crate::bytes::append_bytes(&mut out, payload);
            assert(out@ =~= payload@);
            return out;
        }
        let padded_len = bucket_ceil(payload.len());
        let mut out: Vec<u8> = Vec::new();
        crate::bytes::append_bytes(&mut out, payload);
        let n = payload.len();
        proof {
            lemma_bucket_ceil_bounds(n as nat);
        }
        while out.len() < padded_len
            invariant
                n == payload@.len(),
                padded_len == spec_bucket_ceil(n as nat),
                n <= padded_len,
                n <= out@.len() <= padded_len,
                out@.subrange(0, n as int) == payload@,
                forall|j: int| n <= j < out@.len() ==> out@[j] == 0u8,
            decreases padded_len - out@.len(),
        {
            out.push(0u8);
        }
        assert(out@ =~= normalized(payload@));
        out
    }
}

/// The bucketed length of `n`.
fn bucket_ceil(n: usize) -> (r: usize)
    requires
        n + 255 <= usize::MAX,
    ensures
        r == spec_bucket_ceil(n as nat),
{
    let b = MIN_PAYLOAD_BUCKET;
    if n == 0 {
        return b;
    }
    proof {
        lemma_bucket_ceil_bounds(n as nat);
    }
    ((n + (b - 1)) / b) * b
}

/// Normalization pads to a whole number of buckets, never shortens the
/// payload, and adds fewer bytes than one bucket (so never more than
/// MAX_PADDING_BYTES), except that an empty payload becomes one full bucket.
pub proof fn lemma_bucket_ceil_bounds(n: nat)
    ensures
        spec_bucket_ceil(n) % 256 == 0,
        spec_bucket_ceil(n) >= n,
        spec_bucket_ceil(n) > 0,
        n > 0 ==> spec_bucket_ceil(n) < n + 256,
        spec_bucket_ceil(n) <= n + 256,
        spec_bucket_ceil(n) - n <= MAX_PADDING_BYTES,
{
    if n > 0 {
        let q = (n + 255) / 256;
        assert(q * 256 <= n + 255 && n + 255 < q * 256 + 256) by (nonlinear_arith)
            requires
                q == (n + 255) / 256,
        ;
        assert((q * 256) % 256 == 0) by (nonlinear_arith);
        assert(q >= 1);
        assert(q * 256 >= 256) by (nonlinear_arith)
            requires
                q >= 1,
        ;
    }
}

/// The normalized payload starts with the payload and has a bucketed length.
pub proof fn lemma_normalized_shape(payload: Seq<u8>)
    ensures
        normalized(payload).len() == spec_bucket_ceil(payload.len()),
        normalized(payload).subrange(0, payload.len() as int) == payload,
        normalized(payload).len() % 256 == 0,
{
    lemma_bucket_ceil_bounds(payload.len());
    assert(normalized(payload).subrange(0, payload.len() as int) =~= payload);
}

} // verus!
