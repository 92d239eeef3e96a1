//! The mailbox relay: token-keyed queues of opaque bursts, and the relay's
//! wire framing.
use crate::byte_map::ByteMap;
use crate::bytes::{append_bytes, le_bytes};
use vstd::prelude::*;

verus! {

/// Largest burst the relay accepts on store (1 MiB).
pub const MAX_BURST_BYTES: usize = 1_048_576;

/// Deepest a mailbox queue gets; the oldest burst is evicted on overflow.
pub const MAX_QUEUE_DEPTH: usize = 100;

/// Largest burst count a poll response may claim before the client refuses it.
pub const MAX_BURSTS_PER_POLL: usize = 100_000;

/// Store command byte.
pub const STORE_COMMAND: u8 = 0x01;

/// Poll command byte.
pub const POLL_COMMAND: u8 = 0x02;

/// Store acknowledgement byte.
pub const STORE_ACK: u8 = 0x00;

/// The queue after storing `payload`: appended, the oldest dropped first
/// when the queue is full.
pub open spec fn stored(queue: Seq<Vec<u8>>, payload: Vec<u8>) -> Seq<Vec<u8>> {
    if queue.len() >= MAX_QUEUE_DEPTH {
        queue.drop_first().push(payload)
    } else {
        queue.push(payload)
    }
}

/// Mailboxes by token; routes only by token, never by identity.
pub struct MailboxStore {
    mailboxes: ByteMap<Vec<Vec<u8>>>,
}

impl MailboxStore {
    /// Every queue is within the depth bound.
    pub closed spec fn wf(&self) -> bool {
        &&& self.mailboxes.wf()
        &&& forall|t: Seq<u8>| #[trigger] self.mailboxes@.contains_key(t) ==> self.mailboxes@[t]@.len() <= MAX_QUEUE_DEPTH
    }

    /// The queue of `token` (empty when it has none).
    pub closed spec fn queue(&self, token: Seq<u8>) -> Seq<Vec<u8>> {
        if self.mailboxes@.contains_key(token) {
            self.mailboxes@[token]@
        } else {
            Seq::empty()
        }
    }

    pub fn new() -> (s: Self)
        ensures
            s.wf(),
            forall|t: Seq<u8>| #[trigger] s.queue(t) == Seq::<Vec<u8>>::empty(),
    {
        MailboxStore { mailboxes: ByteMap::new() }
    }

    /// Append `payload` to the token's queue, evicting the oldest burst when
    /// the queue is full.
    pub fn store(&mut self, token: [u8; 32], payload: Vec<u8>)
        requires
            old(self).wf(),
        ensures
            final(self).wf(),
            final(self).queue(token@) == stored(old(self).queue(token@), payload),
            forall|t: Seq<u8>| t != token@ ==> #[trigger] final(self).queue(t) == old(self).queue(t),
            final(self).queue(token@).len() <= MAX_QUEUE_DEPTH,
    {
        let mut queue = match self.mailboxes.remove(&token) {
            Some(q) => q,
            None => Vec::new(),
        };
        let ghost q0 = queue@;
        if queue.len() >= MAX_QUEUE_DEPTH {
            queue.remove(0);
            assert(queue@ =~= q0.drop_first());
        }
        queue.push(payload);
        self.mailboxes.insert(token, queue);
        proof {
            assert forall|t: Seq<u8>| #[trigger] self.mailboxes@.contains_key(t) implies self.mailboxes@[t]@.len() <= MAX_QUEUE_DEPTH by {
                if t != token@ {
                    assert(old(self).mailboxes@.contains_key(t));
                }
            }
            assert forall|t: Seq<u8>| t != token@ implies #[trigger] self.queue(t) == old(self).queue(t) by {}
        }
    }

    /// Remove and return every burst queued for the token, oldest first.
    pub fn drain(&mut self, token: &[u8; 32]) -> (bursts: Vec<Vec<u8>>)
        requires
            old(self).wf(),
        ensures
            final(self).wf(),
            bursts@ == old(self).queue(token@),
            final(self).queue(token@) == Seq::<Vec<u8>>::empty(),
            forall|t: Seq<u8>| t != token@ ==> #[trigger] final(self).queue(t) == old(self).queue(t),
    {
        let r = match self.mailboxes.remove(token) {
            Some(q) => q,
            None => Vec::new(),
        };
        proof {
            assert forall|t: Seq<u8>| #[trigger] self.mailboxes@.contains_key(t) implies self.mailboxes@[t]@.len() <= MAX_QUEUE_DEPTH by {
                assert(old(self).mailboxes@.contains_key(t));
            }
            assert forall|t: Seq<u8>| t != token@ implies #[trigger] self.queue(t) == old(self).queue(t) by {}
        }
        r
    }
}

/// A stored burst is handed out by the next drain of its mailbox, last.
pub proof fn lemma_store_then_drain(queue: Seq<Vec<u8>>, payload: Vec<u8>)
    ensures
        stored(queue, payload).last() == payload,
        stored(queue, payload).len() <= if queue.len() >= MAX_QUEUE_DEPTH { queue.len() } else { queue.len() + 1 },
{
}

/// A mailbox token as lowercase hexadecimal text, for the relay's log.
pub fn hex(b: &[u8]) -> (s: String)
    ensures
        s@ == crate::hex::ascii_chars(crate::hex::hex_codes(b@)),
{
    crate::hex::hex_encode(b)
}

/// Whether a burst of `len` bytes is within the relay's store bound.
pub fn burst_len_within_bound(len: u32) -> (b: bool)
    ensures
        b == (len <= MAX_BURST_BYTES),
{
    (len as usize) <= MAX_BURST_BYTES
}

/// Whether a poll response's claimed burst count is within the client's bound.
pub fn poll_count_within_bound(count: u32) -> (b: bool)
    ensures
        b == (count <= MAX_BURSTS_PER_POLL),
{
    (count as usize) <= MAX_BURSTS_PER_POLL
}

/// The store request: `[0x01][32 token][4 len LE][N bytes]`.
pub open spec fn store_request_bytes(token: Seq<u8>, payload: Seq<u8>) -> Seq<u8> {
    seq![STORE_COMMAND] + token + le_bytes(payload.len(), 4) + payload
}

/// Encode a store request.
pub fn encode_store_request(token: &[u8; 32], payload: &[u8]) -> (out: Vec<u8>)
    requires
        payload@.len() <= u32::MAX,
    ensures
        out@ == store_request_bytes(token@, payload@),
{
    let mut out: Vec<u8> = Vec::new();
    out.push(STORE_COMMAND);
    append_bytes(&mut out, token.as_slice());
    crate::bytes::append_le(&mut out, payload.len() as u64, 4);
    append_bytes(&mut out, payload);
    assert(out@ =~= store_request_bytes(token@, payload@));
    out
}

/// The poll request: `[0x02][32 token]`.
pub fn encode_poll_request(token: &[u8; 32]) -> (out: Vec<u8>)
    ensures
        out@ == seq![POLL_COMMAND] + token@,
{
    let mut out: Vec<u8> = Vec::new();
    out.push(POLL_COMMAND);
    append_bytes(&mut out, token.as_slice());
    out
}

/// The framed bursts of a poll response after its count.
pub open spec fn framed_bursts(bursts: Seq<Vec<u8>>) -> Seq<u8>
    decreases bursts.len(),
{
    if bursts.len() == 0 {
        Seq::empty()
    } else {
        framed_bursts(bursts.drop_last()) + le_bytes(bursts.last()@.len(), 4) + bursts.last()@
    }
}

/// The poll response: `[4 count LE]` then each burst as `[4 len LE][N bytes]`.
pub open spec fn poll_response_bytes(bursts: Seq<Vec<u8>>) -> Seq<u8> {
    le_bytes(bursts.len(), 4) + framed_bursts(bursts)
}

/// Encode a poll response.
pub fn encode_poll_response(bursts: &Vec<Vec<u8>>) -> (out: Vec<u8>)
    requires
        bursts@.len() <= u32::MAX,
        forall|i: int| 0 <= i < bursts@.len() ==> (#[trigger] bursts@[i])@.len() <= u32::MAX,
    ensures
        out@ == poll_response_bytes(bursts@),
{
    let mut out: Vec<u8> = Vec::new();
    crate::bytes::append_le(&mut out, bursts.len() as u64, 4);
    let ghost head = out@;
    let mut i: usize = 0;
    while i < bursts.len()
        invariant
            0 <= i <= bursts@.len(),
            forall|j: int| 0 <= j < bursts@.len() ==> (#[trigger] bursts@[j])@.len() <= u32::MAX,
            out@ == head + framed_bursts(bursts@.subrange(0, i as int)),
        decreases bursts@.len() - i,
    {
        let b = &bursts[i];
        crate::bytes::append_le(&mut out, b.len() as u64, 4);
        append_bytes(&mut out, b.as_slice());
        proof {
            let s = bursts@.subrange(0, i + 1);
            assert(s.drop_last() =~= bursts@.subrange(0, i as int));
            assert(s.last() == bursts@[i as int]);
        }
        i += 1;
    }
    assert(bursts@.subrange(0, bursts@.len() as int) =~= bursts@);
    out
}

} // verus!
