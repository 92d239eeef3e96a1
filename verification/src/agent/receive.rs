//! The receiving endpoint's decisions: which decrypted bursts are new,
//! what becomes of each agent envelope, the seen-task ledger's keys and
//! staleness, and the final tally.
use crate::agent::envelope::{
    agent_envelope_time_status, envelope_valid, push_str, time_status, verify_agent_envelope,
    AgentEnvelopeTimeStatus, AgentEnvelopeV0, EnvelopeError,
};
use crate::bytes::{append_bytes, u64_le};
use crate::crypto::keys::{hash, spec_blake3_hash};
use crate::hex::{ascii_chars, hex_codes, hex_encode};
use vstd::prelude::*;

verus! {

/// Domain of a seen-task ledger key: `scp-agent-seen-task-v1`.
pub const AGENT_SEEN_TASK_DOMAIN: [u8; 22] = [
    0x73u8, 0x63, 0x70, 0x2d, 0x61, 0x67, 0x65, 0x6e, 0x74, 0x2d, 0x73, 0x65, 0x65, 0x6e, 0x2d, 0x74,
    0x61, 0x73, 0x6b, 0x2d, 0x76, 0x31,
];

/// Route ids of the bursts already accepted in this receive run. Only a
/// burst that decrypted and authenticated is ever recorded, so a forged
/// blob cannot suppress a genuine one.
pub struct RouteDedup {
    seen: Vec<[u8; 16]>,
}

impl RouteDedup {
    pub closed spec fn spec_seen(&self) -> Set<Seq<u8>> {
        self.seen@.map_values(|r: [u8; 16]| r@).to_set()
    }

    pub fn new() -> (d: Self)
        ensures
            d.spec_seen() == Set::<Seq<u8>>::empty(),
    {
        let d = RouteDedup { seen: Vec::new() };
        assert(d.spec_seen() =~= Set::<Seq<u8>>::empty());
        d
    }

    /// Record `route_id`; `true` iff it was not seen before.
    pub fn insert(&mut self, route_id: &[u8; 16]) -> (fresh: bool)
        ensures
            fresh == !old(self).spec_seen().contains(route_id@),
            final(self).spec_seen() == old(self).spec_seen().insert(route_id@),
    {
        let ghost views = self.seen@.map_values(|r: [u8; 16]| r@);
        let mut i: usize = 0;
        while i < self.seen.len()
            invariant
                0 <= i <= self.seen@.len(),
                views == self.seen@.map_values(|r: [u8; 16]| r@),
                forall|j: int| 0 <= j < i ==> self.seen@[j]@ != route_id@,
            decreases self.seen@.len() - i,
        {
            if crate::bytes::bytes_eq(&self.seen[i], route_id) {
                proof {
                    assert(views[i as int] == route_id@);
                    assert(self.spec_seen().contains(route_id@));
                    assert(self.spec_seen().insert(route_id@) =~= self.spec_seen());
                }
                return false;
            }
            i += 1;
        }
        proof {
            assert forall|j: int| 0 <= j < views.len() implies views[j] != route_id@ by {
                assert(views[j] == self.seen@[j]@);
            }
            assert(!views.contains(route_id@));
        }
        self.seen.push(*route_id);
        proof {
            assert(self.seen@.map_values(|r: [u8; 16]| r@) =~= views.push(route_id@));
            let r = route_id@;
            assert forall|x: Seq<u8>| #[trigger] views.push(r).contains(x) <==> (views.contains(x) || x == r) by {
                if views.push(r).contains(x) {
                    let j = choose|j: int| 0 <= j < views.push(r).len() && views.push(r)[j] == x;
                    if j < views.len() {
                        assert(views[j] == x);
                    }
                }
                if views.contains(x) {
                    let j = choose|j: int| 0 <= j < views.len() && views[j] == x;
                    assert(views.push(r)[j] == x);
                }
                if x == r {
                    assert(views.push(r)[views.len() as int] == x);
                }
            }
            assert(views.push(r).to_set() =~= views.to_set().insert(r));
        }
        true
    }
}

/// Why an agent envelope was rejected.
pub enum AgentRejection {
    /// It failed a schema, lifetime, card or signature check.
    Envelope(EnvelopeError),
    /// It is validly signed, but not by the pinned sender.
    SenderMismatch,
    /// Its time window is invalid, for the reason given.
    Time(String),
}

/// What becomes of one decoded agent envelope.
pub enum AgentAssessment {
    Rejected(AgentRejection),
    Expired,
    /// Acceptable until `expires_at`, pending the seen-task check.
    Current { expires_at: u64 },
}

/// Assess one decoded envelope for the pinned sender's ops key (hex text).
pub fn assess_agent_envelope(envelope: &AgentEnvelopeV0, expected_sender_ops_pub: &String, now: u64) -> (a: AgentAssessment)
    ensures
        !envelope_valid(*envelope) ==> a matches AgentAssessment::Rejected(AgentRejection::Envelope(_)),
        envelope_valid(*envelope) && envelope.from.ops_pub@ != expected_sender_ops_pub@ ==> a matches AgentAssessment::Rejected(
            AgentRejection::SenderMismatch,
        ),
        envelope_valid(*envelope) && envelope.from.ops_pub@ == expected_sender_ops_pub@ ==> match time_status(
            envelope.created_at,
            envelope.ttl,
            now,
        ) {
            None => a matches AgentAssessment::Rejected(AgentRejection::Time(_)),
            Some(None) => a is Expired,
            Some(Some(t)) => a == AgentAssessment::Current { expires_at: t },
        },
{
    match verify_agent_envelope(envelope) {
        Err(e) => {
            return AgentAssessment::Rejected(AgentRejection::Envelope(e));
        },
        Ok(()) => {},
    }
    if !(envelope.from.ops_pub == *expected_sender_ops_pub) {
        return AgentAssessment::Rejected(AgentRejection::SenderMismatch);
    }
    match agent_envelope_time_status(envelope, now) {
        AgentEnvelopeTimeStatus::Current { expires_at } => AgentAssessment::Current { expires_at },
        AgentEnvelopeTimeStatus::Expired => AgentAssessment::Expired,
        AgentEnvelopeTimeStatus::Invalid(reason) => AgentAssessment::Rejected(AgentRejection::Time(reason)),
    }
}

/// What one polled agent message comes to.
#[derive(Debug, Clone, Copy, PartialEq, Eq, Structural)]
pub enum AgentMessageOutcome {
    Rejected,
    Duplicate,
    Expired,
    Verified,
}

/// What one polled message comes to, from the stages it went through in
/// turn: it must decrypt and authenticate (`decrypted`), its route must be
/// new to this run (`route_fresh`), its plaintext must decode as an
/// envelope (`decoded`), the envelope's `assessment` must be current, and
/// its (sender, task) pair must not have been claimed before
/// (`newly_claimed`). The first stage that fails decides; a message is
/// verified only when every stage passes.
pub open spec fn spec_agent_message_outcome(
    decrypted: bool,
    route_fresh: bool,
    decoded: bool,
    assessment: AgentAssessment,
    newly_claimed: bool,
) -> AgentMessageOutcome {
    if !decrypted {
        AgentMessageOutcome::Rejected
    } else if !route_fresh {
        AgentMessageOutcome::Duplicate
    } else if !decoded {
        AgentMessageOutcome::Rejected
    } else {
        match assessment {
            AgentAssessment::Rejected(_) => AgentMessageOutcome::Rejected,
            AgentAssessment::Expired => AgentMessageOutcome::Expired,
            AgentAssessment::Current { .. } => if newly_claimed {
                AgentMessageOutcome::Verified
            } else {
                AgentMessageOutcome::Duplicate
            },
        }
    }
}

/// What one polled message comes to (see `spec_agent_message_outcome`).
pub fn agent_message_outcome(
    decrypted: bool,
    route_fresh: bool,
    decoded: bool,
    assessment: &AgentAssessment,
    newly_claimed: bool,
) -> (o: AgentMessageOutcome)
    ensures
        o == spec_agent_message_outcome(decrypted, route_fresh, decoded, *assessment, newly_claimed),
{
    if !decrypted {
        AgentMessageOutcome::Rejected
    } else if !route_fresh {
        AgentMessageOutcome::Duplicate
    } else if !decoded {
        AgentMessageOutcome::Rejected
    } else {
        match assessment {
            AgentAssessment::Rejected(_) => AgentMessageOutcome::Rejected,
            AgentAssessment::Expired => AgentMessageOutcome::Expired,
            AgentAssessment::Current { .. } => if newly_claimed {
                AgentMessageOutcome::Verified
            } else {
                AgentMessageOutcome::Duplicate
            },
        }
    }
}

/// A receive run fails when no relay could be polled at all.
pub fn agent_receive_result(any_reachable: bool) -> (r: Result<(), AgentReceiveError>)
    ensures
        r is Ok <==> any_reachable,
{
    if any_reachable {
        Ok(())
    } else {
        Err(AgentReceiveError::AllRelaysFailed)
    }
}

/// Why a receive run failed.
#[derive(Debug, Clone, Copy, PartialEq, Eq, Structural)]
pub enum AgentReceiveError {
    /// Every configured relay's poll failed.
    AllRelaysFailed,
}

/// Counts of a receive run.
pub struct AgentReceiveTally {
    pub verified: usize,
    pub rejected: usize,
    pub expired: usize,
    pub duplicates: usize,
}

/// `n + 1`, saturating.
pub open spec fn bump(n: usize) -> usize {
    if n == usize::MAX { n } else { (n + 1) as usize }
}

impl AgentReceiveTally {
    pub fn new() -> (t: Self)
        ensures
            t == (AgentReceiveTally { verified: 0, rejected: 0, expired: 0, duplicates: 0 }),
    {
        AgentReceiveTally { verified: 0, rejected: 0, expired: 0, duplicates: 0 }
    }

    pub fn count_verified(&mut self)
        ensures
            *final(self) == (AgentReceiveTally { verified: bump(old(self).verified), ..*old(self) }),
    {
        self.verified = self.verified.saturating_add(1);
    }

    pub fn count_rejected(&mut self)
        ensures
            *final(self) == (AgentReceiveTally { rejected: bump(old(self).rejected), ..*old(self) }),
    {
        self.rejected = self.rejected.saturating_add(1);
    }

    pub fn count_expired(&mut self)
        ensures
            *final(self) == (AgentReceiveTally { expired: bump(old(self).expired), ..*old(self) }),
    {
        self.expired = self.expired.saturating_add(1);
    }

    pub fn count_duplicate(&mut self)
        ensures
            *final(self) == (AgentReceiveTally { duplicates: bump(old(self).duplicates), ..*old(self) }),
    {
        self.duplicates = self.duplicates.saturating_add(1);
    }

    /// Count one message by its outcome.
    pub fn count(&mut self, o: AgentMessageOutcome)
        ensures
            *final(self) == match o {
                AgentMessageOutcome::Rejected => AgentReceiveTally { rejected: bump(old(self).rejected), ..*old(self) },
                AgentMessageOutcome::Duplicate => AgentReceiveTally { duplicates: bump(old(self).duplicates), ..*old(self) },
                AgentMessageOutcome::Expired => AgentReceiveTally { expired: bump(old(self).expired), ..*old(self) },
                AgentMessageOutcome::Verified => AgentReceiveTally { verified: bump(old(self).verified), ..*old(self) },
            },
    {
        match o {
            AgentMessageOutcome::Rejected => self.count_rejected(),
            AgentMessageOutcome::Duplicate => self.count_duplicate(),
            AgentMessageOutcome::Expired => self.count_expired(),
            AgentMessageOutcome::Verified => self.count_verified(),
        }
    }
}

/// The material hashed into a seen-task key: domain ‖ salt ‖ sender ‖ task.
pub open spec fn seen_task_material(salt: Seq<u8>, sender: Seq<char>, task_id: Seq<char>) -> Seq<u8> {
    AGENT_SEEN_TASK_DOMAIN@ + salt + crate::agent::envelope::str_field(sender) + crate::agent::envelope::str_field(task_id)
}

/// The seen-task ledger key of a (sender, task) pair under a salt: the
/// lowercase hex BLAKE3 digest of the key material.
pub fn seen_task_digest(salt: &[u8; 32], sender_ops_pub: &str, task_id: &str) -> (d: String)
    ensures
        d@ == ascii_chars(hex_codes(spec_blake3_hash(seen_task_material(salt@, sender_ops_pub@, task_id@)))),
{
    let mut material: Vec<u8> = Vec::new();
    append_bytes(&mut material, AGENT_SEEN_TASK_DOMAIN.as_slice());
    append_bytes(&mut material, salt.as_slice());
    push_str(&mut material, sender_ops_pub);
    push_str(&mut material, task_id);
    assert(material@ =~= seen_task_material(salt@, sender_ops_pub@, task_id@));
    let digest = hash(material.as_slice());
    hex_encode(digest.as_slice())
}

/// Whether a seen-task record is stale at `now`: unreadable, not an 8-byte
/// expiry, or past its expiry.
pub fn seen_record_is_stale(contents: Option<&[u8]>, now: u64) -> (stale: bool)
    ensures
        stale == match contents {
            None => true,
            Some(b) => b@.len() != 8 || (exists|t: u64| u64_le(t) == b@ && now > t),
        },
{
    match contents {
        None => true,
        Some(b) => {
            if b.len() != 8 {
                return true;
            }
            let mut arr: [u8; 8] = [0u8; 8];
            let mut i: usize = 0;
            while i < 8
                invariant
                    0 <= i <= 8,
                    b@.len() == 8,
                    arr@.len() == 8,
                    forall|j: int| 0 <= j < i ==> arr@[j] == b@[j],
                decreases 8 - i,
            {
                arr[i] = b[i];
                i += 1;
            }
            assert(arr@ =~= b@);
            let t = crate::identity::u64_from_le(&arr);
            proof {
                assert forall|t2: u64| u64_le(t2) == b@ implies t2 == t by {
                    crate::bytes::lemma_u64_le_roundtrip(t2);
                    crate::bytes::lemma_u64_le_roundtrip(t);
                }
            }
            now > t
        },
    }
}

} // verus!
