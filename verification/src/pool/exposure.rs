//! Receipt-bound (admissible) outcome accounting: every recorded outcome
//! must present a receipt the tracker issued, at most once, in the epoch it
//! was issued, for the provider it was issued for.
use crate::byte_map::ByteMap;
use crate::pool::rotation::{spec_resets_at, ExposureResetPolicy};
use std::collections::HashMap;
use vstd::prelude::*;

verus! {

broadcast use vstd::std_specs::hash::group_hash_axioms;

/// Receipt for one selected provider; required to record that selection's
/// outcome. Binds the provider, the selection event and the epoch.
#[derive(Debug, Clone, Copy, PartialEq, Eq)]
pub struct SelectionReceipt {
    epoch_count: u32,
    observation_id: u64,
    provider_id: [u8; 32],
}

impl SelectionReceipt {
    pub closed spec fn spec_epoch_count(&self) -> u32 {
        self.epoch_count
    }

    pub closed spec fn spec_observation_id(&self) -> u64 {
        self.observation_id
    }

    pub closed spec fn spec_provider_id(&self) -> [u8; 32] {
        self.provider_id
    }

    /// The epoch counter value at the moment this receipt was issued.
    pub fn epoch_count(&self) -> (e: u32)
        ensures
            e == self.spec_epoch_count(),
    {
        self.epoch_count
    }

    /// The monotone observation ID for this selection event.
    pub fn observation_id(&self) -> (o: u64)
        ensures
            o == self.spec_observation_id(),
    {
        self.observation_id
    }

    /// The provider ID encoded in this receipt.
    pub fn provider_id(&self) -> (p: [u8; 32])
        ensures
            p == self.spec_provider_id(),
    {
        self.provider_id
    }

    /// A copy of this receipt naming a different provider.
    pub fn with_provider_id(self, provider_id: [u8; 32]) -> (r: Self)
        ensures
            r.spec_provider_id() == provider_id,
            r.spec_epoch_count() == self.spec_epoch_count(),
            r.spec_observation_id() == self.spec_observation_id(),
    {
        SelectionReceipt { provider_id, ..self }
    }
}

/// Errors of receipt-bound outcome recording and receipt issuance.
#[derive(Debug, Clone, Copy, PartialEq, Eq, Structural)]
pub enum AdmissibilityError {
    /// Admissible tracking was not configured.
    NotConfigured,
    /// The receipt was issued in an earlier epoch.
    StaleEpoch,
    /// The receipt is not outstanding: never issued, already consumed, or forged.
    UnknownReceipt,
    /// The receipt names a different provider than the one it was issued for.
    ProviderMismatch,
    /// The observation-id counter is exhausted.
    CounterExhausted,
    /// The outstanding receipt count is at the configured bound.
    ReceiptCapacityExhausted,
}

/// Receipt-paired outcome tracker.
pub struct AdmissibleExposureTracker {
    max_outstanding_receipts: usize,
    outstanding: HashMap<u64, [u8; 32]>,
    next_observation_id: u64,
    current_epoch_count: u32,
    admissible_response_total: u64,
    admissible_failure_total: u64,
    admissible_selection_total: u64,
    admissible_appearances: ByteMap<u64>,
    reset_policy: ExposureResetPolicy,
}

/// The verdict on presenting `receipt` to a tracker in epoch `epoch` with
/// outstanding receipts `outstanding`.
pub open spec fn receipt_verdict(
    epoch: u32,
    outstanding: Map<u64, [u8; 32]>,
    receipt: SelectionReceipt,
) -> Result<(), AdmissibilityError> {
    if receipt.spec_epoch_count() != epoch {
        Err(AdmissibilityError::StaleEpoch)
    } else if !outstanding.contains_key(receipt.spec_observation_id()) {
        Err(AdmissibilityError::UnknownReceipt)
    } else if outstanding[receipt.spec_observation_id()]@ != receipt.spec_provider_id()@ {
        Err(AdmissibilityError::ProviderMismatch)
    } else {
        Ok(())
    }
}

impl AdmissibleExposureTracker {
    /// Outstanding receipts: observation id → provider id.
    pub closed spec fn spec_outstanding(&self) -> Map<u64, [u8; 32]> {
        self.outstanding@
    }

    pub closed spec fn spec_max_outstanding(&self) -> usize {
        self.max_outstanding_receipts
    }

    pub closed spec fn spec_next_observation_id(&self) -> u64 {
        self.next_observation_id
    }

    pub closed spec fn spec_epoch(&self) -> u32 {
        self.current_epoch_count
    }

    pub closed spec fn spec_response_total(&self) -> u64 {
        self.admissible_response_total
    }

    pub closed spec fn spec_failure_total(&self) -> u64 {
        self.admissible_failure_total
    }

    pub closed spec fn spec_selection_total(&self) -> u64 {
        self.admissible_selection_total
    }

    pub closed spec fn spec_appearances(&self) -> Map<Seq<u8>, u64> {
        self.admissible_appearances@
    }

    pub closed spec fn spec_reset_policy(&self) -> ExposureResetPolicy {
        self.reset_policy
    }

    /// The tracker's invariant: the outstanding count is within its bound,
    /// every outstanding id was issued, and every recorded outcome consumed
    /// a selection.
    pub closed spec fn wf(&self) -> bool {
        &&& self.admissible_appearances.wf()
        &&& self.outstanding@.dom().finite()
        &&& self.outstanding@.len() <= self.max_outstanding_receipts
        &&& forall|k: u64| #[trigger] self.outstanding@.contains_key(k) ==> k < self.next_observation_id
        &&& self.admissible_response_total + self.admissible_failure_total + self.outstanding@.len()
            <= self.admissible_selection_total
        &&& self.admissible_selection_total <= self.next_observation_id
        &&& forall|p: Seq<u8>| #[trigger] self.admissible_appearances@.contains_key(p)
            ==> self.admissible_appearances@[p] <= self.admissible_response_total
    }

    /// A well-formed tracker has no more receipts outstanding than its bound.
    pub proof fn lemma_outstanding_within_bound(&self)
        requires
            self.wf(),
        ensures
            self.spec_outstanding().len() <= self.spec_max_outstanding(),
    {
    }

    pub fn new(reset_policy: ExposureResetPolicy, max_outstanding_receipts: usize, epoch_count: u32) -> (t: Self)
        ensures
            t.wf(),
            t.spec_outstanding() == Map::<u64, [u8; 32]>::empty(),
            t.spec_max_outstanding() == max_outstanding_receipts,
            t.spec_next_observation_id() == 0,
            t.spec_epoch() == epoch_count,
            t.spec_response_total() == 0,
            t.spec_failure_total() == 0,
            t.spec_selection_total() == 0,
            t.spec_appearances() == Map::<Seq<u8>, u64>::empty(),
            t.spec_reset_policy() == reset_policy,
    {
        AdmissibleExposureTracker {
            max_outstanding_receipts,
            outstanding: HashMap::new(),
            next_observation_id: 0,
            current_epoch_count: epoch_count,
            admissible_response_total: 0,
            admissible_failure_total: 0,
            admissible_selection_total: 0,
            admissible_appearances: ByteMap::new(),
            reset_policy,
        }
    }

    /// Number of outstanding receipts.
    pub fn outstanding_len(&self) -> (n: usize)
        requires
            self.wf(),
        ensures
            n == self.spec_outstanding().len(),
    {
        self.outstanding.len()
    }

    /// The bound on outstanding receipts.
    pub fn max_outstanding_receipts(&self) -> (n: usize)
        ensures
            n == self.spec_max_outstanding(),
    {
        self.max_outstanding_receipts
    }

    /// The current epoch.
    pub fn current_epoch_count(&self) -> (e: u32)
        ensures
            e == self.spec_epoch(),
    {
        self.current_epoch_count
    }

    /// Totals of accepted responses, accepted failures and issued receipts.
    pub fn totals(&self) -> (t: (u64, u64, u64))
        ensures
            t == (self.spec_response_total(), self.spec_failure_total(), self.spec_selection_total()),
    {
        (self.admissible_response_total, self.admissible_failure_total, self.admissible_selection_total)
    }

    /// Issue a receipt for `provider_id` selected in epoch `epoch_count`.
    /// Refused, with nothing changed, when the outstanding count is at its
    /// bound or the id counter is exhausted; otherwise the next id is
    /// issued and recorded as outstanding.
    pub fn issue_receipt(&mut self, epoch_count: u32, provider_id: [u8; 32]) -> (r: Result<SelectionReceipt, AdmissibilityError>)
        requires
            old(self).wf(),
        ensures
            final(self).wf(),
            old(self).spec_outstanding().len() >= old(self).spec_max_outstanding() ==> r
                == Err::<SelectionReceipt, AdmissibilityError>(AdmissibilityError::ReceiptCapacityExhausted)
                && *final(self) == *old(self),
            old(self).spec_outstanding().len() < old(self).spec_max_outstanding()
                && old(self).spec_next_observation_id() == u64::MAX ==> r == Err::<
                SelectionReceipt,
                AdmissibilityError,
            >(AdmissibilityError::CounterExhausted) && *final(self) == *old(self),
            r matches Ok(rc) ==> {
                &&& rc.spec_epoch_count() == epoch_count
                &&& rc.spec_provider_id() == provider_id
                &&& rc.spec_observation_id() == old(self).spec_next_observation_id()
                &&& !old(self).spec_outstanding().contains_key(rc.spec_observation_id())
                &&& final(self).spec_outstanding() == old(self).spec_outstanding().insert(
                    rc.spec_observation_id(),
                    provider_id,
                )
                &&& final(self).spec_outstanding().len() == old(self).spec_outstanding().len() + 1
                &&& final(self).spec_next_observation_id() == old(self).spec_next_observation_id() + 1
                &&& final(self).spec_selection_total() == old(self).spec_selection_total() + 1
                &&& final(self).spec_response_total() == old(self).spec_response_total()
                &&& final(self).spec_failure_total() == old(self).spec_failure_total()
                &&& final(self).spec_appearances() == old(self).spec_appearances()
                &&& final(self).spec_epoch() == old(self).spec_epoch()
                &&& final(self).spec_max_outstanding() == old(self).spec_max_outstanding()
                &&& final(self).spec_reset_policy() == old(self).spec_reset_policy()
            },
            r is Ok <==> (old(self).spec_outstanding().len() < old(self).spec_max_outstanding()
                && old(self).spec_next_observation_id() < u64::MAX),
    {
        if self.outstanding.len() >= self.max_outstanding_receipts {
            return Err(AdmissibilityError::ReceiptCapacityExhausted);
        }
        let oid = self.next_observation_id;
        if oid == u64::MAX {
            return Err(AdmissibilityError::CounterExhausted);
        }
        self.next_observation_id = oid + 1;
        assert(!self.outstanding@.contains_key(oid));
        self.outstanding.insert(oid, provider_id);
        self.admissible_selection_total = self.admissible_selection_total + 1;
        proof {
            assert(self.outstanding@.len() == old(self).outstanding@.len() + 1);
        }
        Ok(SelectionReceipt { epoch_count, observation_id: oid, provider_id })
    }

    /// Record an admissible response: on a valid receipt it is consumed,
    /// the response total and the provider's appearances grow by one;
    /// otherwise nothing changes.
    pub fn record_admissible_response(&mut self, receipt: &SelectionReceipt) -> (r: Result<(), AdmissibilityError>)
        requires
            old(self).wf(),
        ensures
            final(self).wf(),
            r == receipt_verdict(old(self).spec_epoch(), old(self).spec_outstanding(), *receipt),
            r is Err ==> *final(self) == *old(self),
            r is Ok ==> {
                &&& final(self).spec_outstanding() == old(self).spec_outstanding().remove(
                    receipt.spec_observation_id(),
                )
                &&& final(self).spec_response_total() == old(self).spec_response_total() + 1
                &&& final(self).spec_appearances() == old(self).spec_appearances().insert(
                    receipt.spec_provider_id()@,
                    (if old(self).spec_appearances().contains_key(receipt.spec_provider_id()@) {
                        old(self).spec_appearances()[receipt.spec_provider_id()@] + 1
                    } else {
                        1
                    }) as u64,
                )
                &&& final(self).spec_failure_total() == old(self).spec_failure_total()
                &&& final(self).spec_selection_total() == old(self).spec_selection_total()
                &&& final(self).spec_next_observation_id() == old(self).spec_next_observation_id()
                &&& final(self).spec_epoch() == old(self).spec_epoch()
                &&& final(self).spec_max_outstanding() == old(self).spec_max_outstanding()
                &&& final(self).spec_reset_policy() == old(self).spec_reset_policy()
            },
    {
        let v = self.check_receipt(receipt);
        if v.is_err() {
            return v;
        }
        let oid = receipt.observation_id;
        self.outstanding.remove(&oid);
        proof {
            assert(self.outstanding@.len() + 1 == old(self).outstanding@.len());
        }
        self.admissible_response_total = self.admissible_response_total + 1;
        let prev = match self.admissible_appearances.get(&receipt.provider_id) {
            Some(c) => *c,
            None => 0,
        };
        self.admissible_appearances.insert(receipt.provider_id, prev + 1);
        proof {
            assert forall|p: Seq<u8>| #[trigger] self.admissible_appearances@.contains_key(p) implies self.admissible_appearances@[p]
                <= self.admissible_response_total by {
                if p != receipt.provider_id@ {
                    assert(old(self).admissible_appearances@.contains_key(p));
                }
            }
        }
        Ok(())
    }

    /// Record an admissible failure: same conditions as a response; on a
    /// valid receipt it is consumed and the failure total grows by one.
    pub fn record_admissible_failure(&mut self, receipt: &SelectionReceipt) -> (r: Result<(), AdmissibilityError>)
        requires
            old(self).wf(),
        ensures
            final(self).wf(),
            r == receipt_verdict(old(self).spec_epoch(), old(self).spec_outstanding(), *receipt),
            r is Err ==> *final(self) == *old(self),
            r is Ok ==> {
                &&& final(self).spec_outstanding() == old(self).spec_outstanding().remove(
                    receipt.spec_observation_id(),
                )
                &&& final(self).spec_failure_total() == old(self).spec_failure_total() + 1
                &&& final(self).spec_response_total() == old(self).spec_response_total()
                &&& final(self).spec_appearances() == old(self).spec_appearances()
                &&& final(self).spec_selection_total() == old(self).spec_selection_total()
                &&& final(self).spec_next_observation_id() == old(self).spec_next_observation_id()
                &&& final(self).spec_epoch() == old(self).spec_epoch()
                &&& final(self).spec_max_outstanding() == old(self).spec_max_outstanding()
                &&& final(self).spec_reset_policy() == old(self).spec_reset_policy()
            },
    {
        let v = self.check_receipt(receipt);
        if v.is_err() {
            return v;
        }
        let oid = receipt.observation_id;
        self.outstanding.remove(&oid);
        proof {
            assert(self.outstanding@.len() + 1 == old(self).outstanding@.len());
        }
        self.admissible_failure_total = self.admissible_failure_total + 1;
        Ok(())
    }

    fn check_receipt(&self, receipt: &SelectionReceipt) -> (r: Result<(), AdmissibilityError>)
        requires
            self.wf(),
        ensures
            r == receipt_verdict(self.spec_epoch(), self.spec_outstanding(), *receipt),
    {
        if receipt.epoch_count != self.current_epoch_count {
            return Err(AdmissibilityError::StaleEpoch);
        }
        match self.outstanding.get(&receipt.observation_id) {
            None => Err(AdmissibilityError::UnknownReceipt),
            Some(pid) => {
                if !crate::bytes::bytes32_eq(pid, &receipt.provider_id) {
                    Err(AdmissibilityError::ProviderMismatch)
                } else {
                    Ok(())
                }
            },
        }
    }

    /// Epoch rotation: every outstanding receipt is drained and the epoch
    /// becomes `new_epoch_count`; the totals and appearances are zeroed when
    /// the reset policy says so. The id counter is never reset.
    pub fn drain_epoch(&mut self, new_epoch_count: u32)
        requires
            old(self).wf(),
        ensures
            final(self).wf(),
            final(self).spec_outstanding() == Map::<u64, [u8; 32]>::empty(),
            final(self).spec_epoch() == new_epoch_count,
            final(self).spec_next_observation_id() == old(self).spec_next_observation_id(),
            final(self).spec_max_outstanding() == old(self).spec_max_outstanding(),
            final(self).spec_reset_policy() == old(self).spec_reset_policy(),
            spec_resets_at(old(self).spec_reset_policy(), new_epoch_count) ==> {
                &&& final(self).spec_response_total() == 0
                &&& final(self).spec_failure_total() == 0
                &&& final(self).spec_selection_total() == 0
                &&& final(self).spec_appearances() == Map::<Seq<u8>, u64>::empty()
            },
            !spec_resets_at(old(self).spec_reset_policy(), new_epoch_count) ==> {
                &&& final(self).spec_response_total() == old(self).spec_response_total()
                &&& final(self).spec_failure_total() == old(self).spec_failure_total()
                &&& final(self).spec_selection_total() == old(self).spec_selection_total()
                &&& final(self).spec_appearances() == old(self).spec_appearances()
            },
    {
        self.outstanding.clear();
        self.current_epoch_count = new_epoch_count;
        if self.reset_policy.resets_at(new_epoch_count) {
            self.admissible_response_total = 0;
            self.admissible_failure_total = 0;
            self.admissible_selection_total = 0;
            self.admissible_appearances.clear();
        }
    }
}

/// At most one terminal outcome per receipt: once a receipt has been
/// accepted, presenting it again is refused as unknown.
pub proof fn lemma_receipt_consumed_once(pre: AdmissibleExposureTracker, receipt: SelectionReceipt, post: AdmissibleExposureTracker)
    requires
        receipt_verdict(pre.spec_epoch(), pre.spec_outstanding(), receipt) is Ok,
        post.spec_outstanding() == pre.spec_outstanding().remove(receipt.spec_observation_id()),
        post.spec_epoch() == pre.spec_epoch(),
    ensures
        receipt_verdict(post.spec_epoch(), post.spec_outstanding(), receipt) == Err::<(), AdmissibilityError>(
            AdmissibilityError::UnknownReceipt,
        ),
{
}

/// A receipt issued before an epoch change is stale afterwards.
pub proof fn lemma_drained_receipt_is_stale(receipt: SelectionReceipt, outstanding: Map<u64, [u8; 32]>, new_epoch: u32)
    requires
        receipt.spec_epoch_count() != new_epoch,
    ensures
        receipt_verdict(new_epoch, outstanding, receipt) == Err::<(), AdmissibilityError>(
            AdmissibilityError::StaleEpoch,
        ),
{
}

} // verus!
