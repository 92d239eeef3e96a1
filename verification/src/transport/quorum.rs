//! Multi-provider quorum over state providers: monotonic revocation,
//! latest-valid handshake ephemerals, and all-agree state commitments with
//! equivocation evidence.
use crate::crypto::keys::{hash, spec_blake3_hash};
use crate::transport::flash::{state_commitment, PublishedHandshakeKey, RecipientState};
use crate::transport::state::StateProvider;
use crate::vitality::VitalityState;
use vstd::prelude::*;

verus! {

/// A single provider's observation of a state value, with a verifiable commitment.
///
/// The `commitment` field is a BLAKE3 hash over the canonical encoding of `value`,
/// allowing provider outputs to be compared without transmitting raw values.
pub struct ProviderObservation<T> {
    pub provider_id: [u8; 32],
    pub observed_at: u64,
    pub value: T,
    pub commitment: [u8; 32],
}

/// The outcome of a multi-provider quorum query.
pub enum QuorumResult<T> {
    /// All relevant providers agreed; the resolved value is returned.
    Agree(T),
    /// Two providers returned conflicting commitments — hard equivocation.
    Equivocation(EquivocationEvidence),
    /// No providers were queried, or all providers were filtered (e.g. all revoked).
    Unavailable,
}

/// Evidence that two providers disagree on a consensus-relevant claim.
pub struct EquivocationEvidence {
    pub ops_pub: [u8; 32],
    pub provider_a_id: [u8; 32],
    pub provider_b_id: [u8; 32],
    pub commitment_a: [u8; 32],
    pub commitment_b: [u8; 32],
}

/// Multi-provider dispatcher that applies the resolution rule of each
/// semantic class.
pub struct ProviderQuorum<P> {
    providers: Vec<([u8; 32], P)>,
}

impl<P> View for ProviderQuorum<P> {
    type V = Seq<([u8; 32], P)>;

    /// The providers, in the order they were added, with their ids.
    closed spec fn view(&self) -> Seq<([u8; 32], P)> {
        self.providers@
    }
}

/// Whether some provider in `providers` records `ops_pub` as revoked.
pub open spec fn any_revoked<P: StateProvider>(providers: Seq<([u8; 32], P)>, ops_pub: Seq<u8>) -> bool {
    exists|i: int| 0 <= i < providers.len() && #[trigger] providers[i].1.spec_is_revoked(ops_pub)
}

/// The ephemeral kept when `candidate` meets the best so far: a present key
/// replaces an absent one, and a later-or-equal expiry replaces an earlier one.
pub open spec fn later_ephemeral(
    best: Option<PublishedHandshakeKey>,
    candidate: Option<PublishedHandshakeKey>,
) -> Option<PublishedHandshakeKey> {
    match candidate {
        None => best,
        Some(c) => match best {
            None => candidate,
            Some(b) => if c.expires_at >= b.expires_at { candidate } else { best },
        },
    }
}

/// Whether `key`, if present, expires no later than `t`.
pub open spec fn expires_no_later(key: Option<PublishedHandshakeKey>, t: u64) -> bool {
    match key {
        Some(k) => k.expires_at <= t,
        None => true,
    }
}

/// The latest-expiring handshake ephemeral served by `providers` for
/// `ops_pub` at `now`; among equally late keys, the one served last.
pub open spec fn latest_ephemeral<P: StateProvider>(
    providers: Seq<([u8; 32], P)>,
    ops_pub: Seq<u8>,
    now: u64,
) -> Option<PublishedHandshakeKey>
    decreases providers.len(),
{
    if providers.len() == 0 {
        None
    } else {
        later_ephemeral(
            latest_ephemeral(providers.drop_last(), ops_pub, now),
            providers.last().1.spec_handshake_ephemeral(ops_pub, now),
        )
    }
}

/// The (provider id, state commitment) observations of the providers that
/// do not record `ops_pub` as revoked, in provider order. Each commitment is
/// over the state `retrieve_state` would build from that provider at `now`.
pub open spec fn commitment_observations<P: StateProvider>(
    providers: Seq<([u8; 32], P)>,
    ops_pub: Seq<u8>,
    now: u64,
) -> Seq<([u8; 32], Seq<u8>)>
    decreases providers.len(),
{
    if providers.len() == 0 {
        Seq::empty()
    } else {
        let prev = commitment_observations(providers.drop_last(), ops_pub, now);
        let (id, p) = providers.last();
        if p.spec_is_revoked(ops_pub) {
            prev
        } else {
            prev.push(
                (
                    id,
                    state_commitment(
                        ops_pub,
                        VitalityState::Active,
                        p.spec_handshake_ephemeral(ops_pub, now),
                    ),
                ),
            )
        }
    }
}

/// Whether `o` is the observation of some provider of `providers` that does
/// not record `ops_pub` as revoked: that provider's id, with the commitment
/// over the Active state carrying the ephemeral it serves at `now`.
pub open spec fn observed_from_unrevoked<P: StateProvider>(
    providers: Seq<([u8; 32], P)>,
    ops_pub: Seq<u8>,
    now: u64,
    o: ([u8; 32], Seq<u8>),
) -> bool {
    exists|i: int|
        0 <= i < providers.len() && !providers[i].1.spec_is_revoked(ops_pub) && o == (
            providers[i].0,
            state_commitment(ops_pub, VitalityState::Active, #[trigger] providers[i].1.spec_handshake_ephemeral(ops_pub, now)),
        )
}

/// Revoked providers contribute nothing to a commitment quorum: every
/// observation comes from a provider that does not record the key as
/// revoked, every such provider contributes its observation, and so there
/// is no observation at all exactly when every provider records the key as
/// revoked.
pub proof fn lemma_observations_are_the_unrevoked<P: StateProvider>(
    providers: Seq<([u8; 32], P)>,
    ops_pub: Seq<u8>,
    now: u64,
)
    ensures
        ({
            let obs = commitment_observations(providers, ops_pub, now);
            &&& (obs.len() == 0 <==> forall|i: int|
                0 <= i < providers.len() ==> #[trigger] providers[i].1.spec_is_revoked(ops_pub))
            &&& forall|j: int| 0 <= j < obs.len() ==> observed_from_unrevoked(providers, ops_pub, now, #[trigger] obs[j])
            &&& forall|i: int|
                0 <= i < providers.len() && !#[trigger] providers[i].1.spec_is_revoked(ops_pub) ==> exists|j: int|
                    0 <= j < obs.len() && obs[j] == (
                        providers[i].0,
                        state_commitment(
                            ops_pub,
                            VitalityState::Active,
                            providers[i].1.spec_handshake_ephemeral(ops_pub, now),
                        ),
                    )
        }),
    decreases providers.len(),
{
    let obs = commitment_observations(providers, ops_pub, now);
    if providers.len() == 0 {
        return;
    }
    let pre = providers.drop_last();
    let n = providers.len() - 1;
    lemma_observations_are_the_unrevoked(pre, ops_pub, now);
    let prev = commitment_observations(pre, ops_pub, now);
    assert forall|i: int| 0 <= i < pre.len() implies pre[i] == providers[i] by {}
    let last = providers[n];
    let o_last = (last.0, state_commitment(ops_pub, VitalityState::Active, last.1.spec_handshake_ephemeral(ops_pub, now)));
    if last.1.spec_is_revoked(ops_pub) {
        assert(obs == prev);
    } else {
        assert(obs == prev.push(o_last));
    }
    // Every observation comes from an unrevoked provider.
    assert forall|j: int| 0 <= j < obs.len() implies observed_from_unrevoked(providers, ops_pub, now, #[trigger] obs[j]) by {
        if j < prev.len() {
            assert(obs[j] == prev[j]);
            assert(observed_from_unrevoked(pre, ops_pub, now, prev[j]));
            let i = choose|i: int|
                0 <= i < pre.len() && !pre[i].1.spec_is_revoked(ops_pub) && prev[j] == (
                    pre[i].0,
                    state_commitment(ops_pub, VitalityState::Active, #[trigger] pre[i].1.spec_handshake_ephemeral(ops_pub, now)),
                );
            assert(pre[i] == providers[i]);
            assert(providers[i].1.spec_handshake_ephemeral(ops_pub, now) == pre[i].1.spec_handshake_ephemeral(ops_pub, now));
        } else {
            assert(obs[j] == o_last);
            assert(providers[n].1.spec_handshake_ephemeral(ops_pub, now) == last.1.spec_handshake_ephemeral(ops_pub, now));
        }
    }
    // Every unrevoked provider contributes.
    assert forall|i: int|
        0 <= i < providers.len() && !#[trigger] providers[i].1.spec_is_revoked(ops_pub) implies exists|j: int|
            0 <= j < obs.len() && obs[j] == (
                providers[i].0,
                state_commitment(
                    ops_pub,
                    VitalityState::Active,
                    providers[i].1.spec_handshake_ephemeral(ops_pub, now),
                ),
            ) by {
        if i < n {
            assert(pre[i] == providers[i]);
            assert(!pre[i].1.spec_is_revoked(ops_pub));
            let j = choose|j: int|
                0 <= j < prev.len() && prev[j] == (
                    pre[i].0,
                    state_commitment(ops_pub, VitalityState::Active, pre[i].1.spec_handshake_ephemeral(ops_pub, now)),
                );
            assert(obs[j] == prev[j]);
        } else {
            assert(obs[prev.len() as int] == o_last);
        }
    }
    // No observation exactly when every provider is revoked.
    if obs.len() == 0 {
        assert forall|i: int| 0 <= i < providers.len() implies #[trigger] providers[i].1.spec_is_revoked(ops_pub) by {
            if i < n {
                assert(pre[i] == providers[i]);
                assert(pre[i].1.spec_is_revoked(ops_pub));
            }
        }
    } else if forall|i: int| 0 <= i < providers.len() ==> #[trigger] providers[i].1.spec_is_revoked(ops_pub) {
        assert forall|i: int| 0 <= i < pre.len() implies #[trigger] pre[i].1.spec_is_revoked(ops_pub) by {
            assert(pre[i] == providers[i]);
            assert(providers[i].1.spec_is_revoked(ops_pub));
        }
        assert(last.1.spec_is_revoked(ops_pub));
        assert(false);
    }
}

/// How a sequence of commitment observations resolves: `Unavailable` when
/// empty; `Equivocation` naming the first observation and the first one that
/// differs from it; otherwise `Agree` on the common commitment.
pub open spec fn commitment_resolution(
    obs: Seq<([u8; 32], Seq<u8>)>,
    ops_pub: [u8; 32],
    r: QuorumResult<[u8; 32]>,
) -> bool {
    match r {
        QuorumResult::Unavailable => obs.len() == 0,
        QuorumResult::Agree(c) => obs.len() > 0 && c@ == obs[0].1 && forall|j: int|
            0 <= j < obs.len() ==> #[trigger] obs[j].1 == obs[0].1,
        QuorumResult::Equivocation(ev) => obs.len() > 0 && exists|j: int|
            {
                &&& 1 <= j < obs.len()
                &&& #[trigger] obs[j].1 != obs[0].1
                &&& forall|k: int| 1 <= k < j ==> #[trigger] obs[k].1 == obs[0].1
                &&& ev.ops_pub == ops_pub
                &&& ev.provider_a_id == obs[0].0
                &&& ev.commitment_a@ == obs[0].1
                &&& ev.provider_b_id == obs[j].0
                &&& ev.commitment_b@ == obs[j].1
            },
    }
}

/// Domain prefix of a revocation commitment: `scp:revocation:v0:`.
pub const REVOCATION_COMMITMENT_PREFIX: [u8; 18] = [
    0x73u8, 0x63, 0x70, 0x3a, 0x72, 0x65, 0x76, 0x6f, 0x63, 0x61, 0x74, 0x69, 0x6f, 0x6e, 0x3a,
    0x76, 0x30, 0x3a,
];

/// Input of a revocation commitment: prefix ‖ ops_pub(32) ‖ [is_revoked as u8].
pub open spec fn revocation_commitment_input(ops_pub: Seq<u8>, is_revoked: bool) -> Seq<u8> {
    REVOCATION_COMMITMENT_PREFIX@ + ops_pub + seq![if is_revoked { 1u8 } else { 0u8 }]
}

/// Domain-separated BLAKE3 commitment over a revocation claim:
/// BLAKE3("scp:revocation:v0:" ‖ ops_pub(32) ‖ [is_revoked as u8]).
pub fn revocation_commitment(ops_pub: &[u8; 32], is_revoked: bool) -> (c: [u8; 32])
    ensures
        c@ == spec_blake3_hash(revocation_commitment_input(ops_pub@, is_revoked)),
{
    let mut data: Vec<u8> = Vec::new();
    crate::bytes::append_bytes(&mut data, REVOCATION_COMMITMENT_PREFIX.as_slice());
    crate::bytes::append_bytes(&mut data, ops_pub.as_slice());
    data.push(if is_revoked { 1u8 } else { 0u8 });
    assert(data@ =~= revocation_commitment_input(ops_pub@, is_revoked));
    hash(data.as_slice())
}

/// Distinct revocation claims have distinct commitment inputs: the claims
/// differ in the key or in the flag, and the encoding keeps both apart.
pub proof fn lemma_revocation_inputs_injective(a: Seq<u8>, ra: bool, b: Seq<u8>, rb: bool)
    requires
        a.len() == 32,
        b.len() == 32,
        revocation_commitment_input(a, ra) == revocation_commitment_input(b, rb),
    ensures
        a == b,
        ra == rb,
{
    let ia = revocation_commitment_input(a, ra);
    let ib = revocation_commitment_input(b, rb);
    assert(ia.subrange(18, 50) =~= a);
    assert(ib.subrange(18, 50) =~= b);
    assert(ia[50] == (if ra { 1u8 } else { 0u8 }));
    assert(ib[50] == (if rb { 1u8 } else { 0u8 }));
}

/// The latest-ephemeral resolution never under-serves: it is absent only
/// when no provider serves a key; otherwise it is a key some provider
/// serves, expiring no earlier than any served key.
pub proof fn lemma_latest_ephemeral_is_latest<P: StateProvider>(
    providers: Seq<([u8; 32], P)>,
    ops_pub: Seq<u8>,
    now: u64,
)
    ensures
        match latest_ephemeral(providers, ops_pub, now) {
            None => forall|i: int|
                0 <= i < providers.len() ==> #[trigger] providers[i].1.spec_handshake_ephemeral(
                    ops_pub,
                    now,
                ) is None,
            Some(best) => {
                &&& exists|i: int|
                    0 <= i < providers.len() && #[trigger] providers[i].1.spec_handshake_ephemeral(
                        ops_pub,
                        now,
                    ) == Some(best)
                &&& forall|i: int|
                    0 <= i < providers.len() ==> expires_no_later(
                        #[trigger] providers[i].1.spec_handshake_ephemeral(ops_pub, now),
                        best.expires_at,
                    )
            },
        },
    decreases providers.len(),
{
    if providers.len() > 0 {
        let prefix = providers.drop_last();
        lemma_latest_ephemeral_is_latest(prefix, ops_pub, now);
        let n = providers.len() - 1;
        assert forall|i: int| 0 <= i < n implies providers[i] == #[trigger] prefix[i] by {}
        match latest_ephemeral(providers, ops_pub, now) {
            None => {
                assert forall|i: int| 0 <= i < providers.len() implies #[trigger] providers[i].1.spec_handshake_ephemeral(
                    ops_pub,
                    now,
                ) is None by {
                    if i < n {
                        assert(prefix[i] == providers[i]);
                    }
                }
            },
            Some(best) => {
                let prev = latest_ephemeral(prefix, ops_pub, now);
                let cand = providers.last().1.spec_handshake_ephemeral(ops_pub, now);
                if cand == Some(best) {
                    assert(providers[n].1.spec_handshake_ephemeral(ops_pub, now) == Some(best));
                } else {
                    let i0 = choose|i: int|
                        0 <= i < prefix.len() && #[trigger] prefix[i].1.spec_handshake_ephemeral(
                            ops_pub,
                            now,
                        ) == Some(best);
                    assert(providers[i0] == prefix[i0]);
                }
                assert forall|i: int| 0 <= i < providers.len() implies expires_no_later(
                    #[trigger] providers[i].1.spec_handshake_ephemeral(ops_pub, now),
                    best.expires_at,
                ) by {
                    if i < n {
                        assert(prefix[i] == providers[i]);
                    }
                }
            },
        }
    }
}

impl<P: StateProvider> ProviderQuorum<P> {
    pub fn new() -> (q: Self)
        ensures
            q@ == Seq::<([u8; 32], P)>::empty(),
    {
        Self { providers: Vec::new() }
    }

    pub fn from_providers(providers: Vec<([u8; 32], P)>) -> (q: Self)
        ensures
            q@ == providers@,
    {
        Self { providers }
    }

    pub fn len(&self) -> (n: usize)
        ensures
            n == self@.len(),
    {
        self.providers.len()
    }

    pub fn is_empty(&self) -> (b: bool)
        ensures
            b == (self@.len() == 0),
    {
        self.providers.len() == 0
    }

    pub fn add(&mut self, provider_id: [u8; 32], provider: P)
        ensures
            final(self)@ == old(self)@.push((provider_id, provider)),
    {
        self.providers.push((provider_id, provider));
    }

    /// Whether any provider records `ops_pub` as revoked.
    fn any_provider_revoked(&self, ops_pub: &[u8; 32]) -> (b: bool)
        ensures
            b == any_revoked(self@, ops_pub@),
    {
        let mut i: usize = 0;
        while i < self.providers.len()
            invariant
                0 <= i <= self.providers@.len(),
                forall|j: int| 0 <= j < i ==> !(#[trigger] self.providers@[j]).1.spec_is_revoked(ops_pub@),
            decreases self.providers@.len() - i,
        {
            if self.providers[i].1.is_revoked(ops_pub) {
                assert(self.providers@[i as int].1.spec_is_revoked(ops_pub@));
                return true;
            }
            i += 1;
        }
        proof {
            assert forall|j: int| 0 <= j < self@.len() implies !(#[trigger] self@[j].1.spec_is_revoked(ops_pub@)) by {
                assert(self.providers@[j] == self@[j]);
            }
        }
        false
    }

    /// The latest-expiring ephemeral served by any provider at `now`.
    fn latest_provider_ephemeral(&self, ops_pub: &[u8; 32], now: u64) -> (r: Option<PublishedHandshakeKey>)
        ensures
            r == latest_ephemeral(self@, ops_pub@, now),
    {
        let mut best: Option<PublishedHandshakeKey> = None;
        let mut i: usize = 0;
        while i < self.providers.len()
            invariant
                0 <= i <= self.providers@.len(),
                best == latest_ephemeral(self.providers@.subrange(0, i as int), ops_pub@, now),
            decreases self.providers@.len() - i,
        {
            let cand = self.providers[i].1.get_handshake_ephemeral(ops_pub, now);
            proof {
                let s = self.providers@.subrange(0, i + 1);
                assert(s.drop_last() =~= self.providers@.subrange(0, i as int));
                assert(s.last() == self.providers@[i as int]);
            }
            match cand {
                None => {},
                Some(c) => {
                    let replace = match &best {
                        None => true,
                        Some(b) => c.expires_at >= b.expires_at,
                    };
                    if replace {
                        best = Some(c);
                    }
                },
            }
            i += 1;
        }
        assert(self.providers@.subrange(0, self.providers@.len() as int) =~= self.providers@);
        best
    }

    /// Quorum query for revocation status (monotonic): `Agree(true)` if any
    /// provider sees the key as revoked, `Agree(false)` if none does, and
    /// `Unavailable` for an empty quorum.
    pub fn is_revoked_quorum(&self, ops_pub: &[u8; 32]) -> (r: QuorumResult<bool>)
        ensures
            self@.len() == 0 ==> r == QuorumResult::<bool>::Unavailable,
            self@.len() > 0 ==> r == QuorumResult::<bool>::Agree(any_revoked(self@, ops_pub@)),
    {
        if self.providers.len() == 0 {
            return QuorumResult::Unavailable;
        }
        QuorumResult::Agree(self.any_provider_revoked(ops_pub))
    }

    /// Quorum query for the handshake ephemeral (soft state): `Agree` with
    /// the latest-expiring ephemeral any provider serves at `now` (absence is
    /// weak), and `Unavailable` for an empty quorum.
    pub fn get_handshake_ephemeral_quorum(&self, ops_pub: &[u8; 32], now: u64) -> (r: QuorumResult<
        Option<PublishedHandshakeKey>,
    >)
        ensures
            self@.len() == 0 ==> r is Unavailable,
            self@.len() > 0 ==> r == QuorumResult::<Option<PublishedHandshakeKey>>::Agree(
                latest_ephemeral(self@, ops_pub@, now),
            ),
    {
        if self.providers.len() == 0 {
            return QuorumResult::Unavailable;
        }
        QuorumResult::Agree(self.latest_provider_ephemeral(ops_pub, now))
    }

    /// Quorum query for the state commitment (consensus-relevant) at time
    /// `now`: every non-revoked provider's commitment must agree; the first
    /// disagreement with the first observation is reported as equivocation.
    /// `Unavailable` when the quorum is empty or every provider is revoked.
    pub fn get_commitment_quorum_at(&self, ops_pub: &[u8; 32], now: u64) -> (r: QuorumResult<[u8; 32]>)
        ensures
            commitment_resolution(commitment_observations(self@, ops_pub@, now), *ops_pub, r),
            r is Unavailable <==> forall|i: int|
                0 <= i < self@.len() ==> #[trigger] self@[i].1.spec_is_revoked(ops_pub@),
            r matches QuorumResult::Agree(c) ==> exists|i: int|
                0 <= i < self@.len() && !self@[i].1.spec_is_revoked(ops_pub@) && c@ == state_commitment(
                    ops_pub@,
                    VitalityState::Active,
                    #[trigger] self@[i].1.spec_handshake_ephemeral(ops_pub@, now),
                ),
    {
        proof {
            lemma_observations_are_the_unrevoked(self@, ops_pub@, now);
        }
        let mut observations: Vec<([u8; 32], [u8; 32])> = Vec::new();
        let ghost mut obs_view: Seq<([u8; 32], Seq<u8>)> = Seq::empty();
        let mut i: usize = 0;
        while i < self.providers.len()
            invariant
                0 <= i <= self.providers@.len(),
                obs_view == commitment_observations(self.providers@.subrange(0, i as int), ops_pub@, now),
                observations@.len() == obs_view.len(),
                forall|j: int| 0 <= j < obs_view.len() ==> (#[trigger] observations@[j]).0 == obs_view[j].0
                    && observations@[j].1@ == obs_view[j].1,
            decreases self.providers@.len() - i,
        {
            proof {
                let s = self.providers@.subrange(0, i + 1);
                assert(s.drop_last() =~= self.providers@.subrange(0, i as int));
                assert(s.last() == self.providers@[i as int]);
            }
            let (id, p) = (&self.providers[i].0, &self.providers[i].1);
            if !p.is_revoked(ops_pub) {
                let state = RecipientState {
                    ops_pub: *ops_pub,
                    vitality: VitalityState::Active,
                    routing_hints: Vec::new(),
                    handshake_ephemeral: p.get_handshake_ephemeral(ops_pub, now),
                };
                let c = state.commitment();
                observations.push((*id, c));
                proof {
                    obs_view = obs_view.push((*id, c@));
                }
            }
            i += 1;
        }
        assert(self.providers@.subrange(0, self.providers@.len() as int) =~= self.providers@);
        if observations.len() == 0 {
            return QuorumResult::Unavailable;
        }
        let (first_id, first_commitment) = observations[0];
        let mut j: usize = 1;
        while j < observations.len()
            invariant
                1 <= j <= observations@.len(),
                obs_view == commitment_observations(self@, ops_pub@, now),
                observations@.len() == obs_view.len(),
                obs_view.len() > 0,
                first_id == obs_view[0].0,
                first_commitment@ == obs_view[0].1,
                forall|k: int| 0 <= k < obs_view.len() ==> (#[trigger] observations@[k]).0 == obs_view[k].0
                    && observations@[k].1@ == obs_view[k].1,
                forall|k: int| 1 <= k < j ==> #[trigger] obs_view[k].1 == obs_view[0].1,
            decreases observations@.len() - j,
        {
            let (id, commitment) = observations[j];
            assert(observations@[j as int].1@ == obs_view[j as int].1);
            if !crate::bytes::bytes32_eq(&commitment, &first_commitment) {
                let ev = EquivocationEvidence {
                    ops_pub: *ops_pub,
                    provider_a_id: first_id,
                    provider_b_id: id,
                    commitment_a: first_commitment,
                    commitment_b: commitment,
                };
                proof {
                    lemma_observations_are_the_unrevoked(self@, ops_pub@, now);
                    let jj = j as int;
                    assert(obs_view[jj].1 != obs_view[0].1);
                    assert(ev.provider_b_id == obs_view[jj].0);
                    assert(ev.commitment_b@ == obs_view[jj].1);
                }
                return QuorumResult::Equivocation(ev);
            }
            j += 1;
        }
        assert forall|k: int| 0 <= k < obs_view.len() implies #[trigger] obs_view[k].1 == obs_view[0].1 by {
            if k >= 1 {
                assert(obs_view[k].1 == obs_view[0].1);
            }
        }
        QuorumResult::Agree(first_commitment)
    }

    /// Quorum query for the state commitment at the current wall-clock time.
    pub fn get_commitment_quorum(&self, ops_pub: &[u8; 32]) -> (r: QuorumResult<[u8; 32]>)
        ensures
            exists|now: u64| commitment_resolution(commitment_observations(self@, ops_pub@, now), *ops_pub, r),
    {
        let now = crate::clock::unix_time_secs();
        self.get_commitment_quorum_at(ops_pub, now)
    }
}

impl<P: StateProvider> StateProvider for ProviderQuorum<P> {
    /// Monotonic: any provider's revocation claim wins.
    open spec fn spec_is_revoked(&self, ops_pub: Seq<u8>) -> bool {
        any_revoked(self@, ops_pub)
    }

    /// Soft state: the latest-expiring served ephemeral wins.
    open spec fn spec_handshake_ephemeral(&self, ops_pub: Seq<u8>, now: u64) -> Option<
        PublishedHandshakeKey,
    > {
        latest_ephemeral(self@, ops_pub, now)
    }

    fn is_revoked(&self, ops_pub: &[u8; 32]) -> (r: bool) {
        self.any_provider_revoked(ops_pub)
    }

    fn get_handshake_ephemeral(&self, ops_pub: &[u8; 32], now: u64) -> (r: Option<
        PublishedHandshakeKey,
    >) {
        self.latest_provider_ephemeral(ops_pub, now)
    }
}

impl<P: StateProvider> Default for ProviderQuorum<P> {
    fn default() -> (q: Self)
        ensures
            q@ == Seq::<([u8; 32], P)>::empty(),
    {
        Self::new()
    }
}

} // verus!
