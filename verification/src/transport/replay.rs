//! Sliding bitmap replay window for freshness nonces.
use vstd::prelude::*;

verus! {

/// What a replay window remembers: whether it has accepted anything, the
/// highest nonce accepted, and the accepted nonces among the 64 values ending
/// at that highest nonce.
pub struct ReplayView {
    pub initialized: bool,
    pub max_seen: u64,
    pub window: Set<u64>,
}

/// Whether a window in state `m` accepts `nonce`.
pub open spec fn replay_accepts(m: ReplayView, nonce: u64) -> bool {
    ||| !m.initialized
    ||| nonce > m.max_seen
    ||| (m.max_seen - nonce < 64 && !m.window.contains(nonce))
}

/// The state after presenting `nonce` to a window in state `m`.
pub open spec fn replay_next(m: ReplayView, nonce: u64) -> ReplayView {
    if !replay_accepts(m, nonce) {
        m
    } else if !m.initialized {
        ReplayView { initialized: true, max_seen: nonce, window: set![nonce] }
    } else if nonce > m.max_seen {
        ReplayView {
            initialized: true,
            max_seen: nonce,
            window: m.window.filter(|x: u64| nonce - x < 64).insert(nonce),
        }
    } else {
        ReplayView { initialized: true, max_seen: m.max_seen, window: m.window.insert(nonce) }
    }
}

/// The state after presenting each of `nonces` in turn.
pub open spec fn replay_run(m: ReplayView, nonces: Seq<u64>) -> ReplayView
    decreases nonces.len(),
{
    if nonces.len() == 0 {
        m
    } else {
        replay_run(replay_next(m, nonces[0]), nonces.drop_first())
    }
}

/// Bit `i` of `b`.
pub open spec fn bit(b: u64, i: u64) -> bool {
    (b >> i) & 1u64 == 1u64
}

/// Sliding bitmap replay window for FreshnessNonce.
///
/// Tracks 64 nonce values ending at the highest accepted value (`max_seen`).
/// A nonce is accepted if it is novel and not older than max_seen − 63.
/// Any nonce > max_seen slides the window forward and is accepted.
///
/// This is transport-local and ephemeral: never persist, export, or share a
/// ReplayWindow across relay hops.
pub struct ReplayWindow {
    /// Highest nonce accepted so far.
    max_seen: u64,
    /// Bit i represents nonce (max_seen − i); bit 0 is max_seen itself.
    bitmap: u64,
    /// False until the first nonce is accepted; avoids max_seen = 0 ambiguity.
    initialized: bool,
}

impl View for ReplayWindow {
    type V = ReplayView;

    closed spec fn view(&self) -> ReplayView {
        ReplayView {
            initialized: self.initialized,
            max_seen: self.max_seen,
            window: Set::new(
                |x: u64|
                    self.initialized && x <= self.max_seen && self.max_seen - x < 64 && bit(
                        self.bitmap,
                        (self.max_seen - x) as u64,
                    ),
            ),
        }
    }
}

proof fn lemma_bit_one(i: u64)
    requires
        i < 64,
    ensures
        bit(1u64, i) == (i == 0),
{
    assert(i < 64 ==> (((1u64 >> i) & 1u64 == 1u64) == (i == 0u64))) by (bit_vector);
}

proof fn lemma_bit_shift_or_one(b: u64, s: u64, i: u64)
    requires
        0 < s < 64,
        i < 64,
    ensures
        bit((b << s) | 1u64, i) == (i == 0 || (i >= s && bit(b, (i - s) as u64))),
{
    assert(0 < s < 64 && i < 64 ==> ((((b << s) | 1u64) >> i) & 1u64 == 1u64) == (i == 0u64 || (
    i >= s && ((b >> ((i - s) as u64)) & 1u64 == 1u64)))) by (bit_vector);
}

proof fn lemma_bit_set(b: u64, o: u64, i: u64)
    requires
        o < 64,
        i < 64,
    ensures
        bit(b | (1u64 << o), i) == (bit(b, i) || i == o),
        (b & (1u64 << o) != 0) == bit(b, o),
{
    assert(o < 64 && i < 64 ==> ((((b | (1u64 << o)) >> i) & 1u64 == 1u64) == (((b >> i) & 1u64
        == 1u64) || i == o))) by (bit_vector);
    assert(o < 64 ==> ((b & (1u64 << o) != 0) == ((b >> o) & 1u64 == 1u64))) by (bit_vector);
}

impl ReplayWindow {
    /// A fresh window has accepted nothing.
    pub fn new() -> (w: Self)
        ensures
            !w@.initialized,
            w@.window == Set::<u64>::empty(),
    {
        let w = Self { max_seen: 0, bitmap: 0, initialized: false };
        assert(w@.window =~= Set::<u64>::empty());
        w
    }

    /// Validate and record `nonce`. Returns `true` if accepted, `false` if
    /// duplicate or outside the window (replay or stale).
    pub fn check_and_insert(&mut self, nonce: u64) -> (accepted: bool)
        ensures
            accepted == replay_accepts(old(self)@, nonce),
            final(self)@ == replay_next(old(self)@, nonce),
    {
        let ghost m = self@;
        if !self.initialized {
            self.max_seen = nonce;
            self.bitmap = 1u64;
            self.initialized = true;
            proof {
                assert forall|x: u64| self@.window.contains(x) == (x == nonce) by {
                    if x <= nonce && nonce - x < 64 {
                        lemma_bit_one((nonce - x) as u64);
                    }
                }
                assert(self@.window =~= set![nonce]);
            }
            return true;
        }
        if nonce > self.max_seen {
            let shift = nonce - self.max_seen;
            let ghost old_bitmap = self.bitmap;
            let ghost old_max = self.max_seen;
            self.bitmap = if shift >= 64 {
                1u64
            } else {
                (self.bitmap << shift) | 1u64
            };
            self.max_seen = nonce;
            proof {
                let target = m.window.filter(|x: u64| nonce - x < 64).insert(nonce);
                assert forall|x: u64| self@.window.contains(x) == target.contains(x) by {
                    if x <= nonce && nonce - x < 64 {
                        let i = (nonce - x) as u64;
                        if shift >= 64 {
                            lemma_bit_one(i);
                        } else {
                            lemma_bit_shift_or_one(old_bitmap, shift, i);
                            if i >= shift {
                                assert((i - shift) as u64 == (old_max - x) as u64);
                            }
                        }
                    }
                }
                assert(self@.window =~= target);
            }
            true
        } else {
            let offset = self.max_seen - nonce;
            if offset >= 64 {
                return false;
            }
            let mask = 1u64 << offset;
            proof {
                lemma_bit_set(self.bitmap, offset, offset);
            }
            if self.bitmap & mask != 0 {
                false
            } else {
                let ghost old_bitmap = self.bitmap;
                self.bitmap = self.bitmap | mask;
                proof {
                    assert forall|x: u64| self@.window.contains(x) == m.window.insert(
                        nonce,
                    ).contains(x) by {
                        if x <= self.max_seen && self.max_seen - x < 64 {
                            lemma_bit_set(old_bitmap, offset, (self.max_seen - x) as u64);
                        }
                    }
                    assert(self@.window =~= m.window.insert(nonce));
                }
                true
            }
        }
    }
}

impl Default for ReplayWindow {
    fn default() -> (w: Self)
        ensures
            !w@.initialized,
            w@.window == Set::<u64>::empty(),
    {
        Self::new()
    }
}

/// `x` has been accepted by a window in state `m`: it is at most the highest
/// accepted nonce and either still in the window or too old for it.
pub open spec fn remembers(m: ReplayView, x: u64) -> bool {
    m.initialized && x <= m.max_seen && (m.max_seen - x >= 64 || m.window.contains(x))
}

/// A window remembers every nonce it accepts, and keeps remembering it
/// whatever it is shown next.
pub proof fn lemma_remembers_step(m: ReplayView, x: u64, y: u64)
    ensures
        replay_accepts(m, x) ==> remembers(replay_next(m, x), x),
        remembers(m, x) ==> remembers(replay_next(m, y), x),
{
    if replay_accepts(m, x) {
        let n = replay_next(m, x);
        assert(n.window.contains(x));
    }
    if remembers(m, x) && replay_accepts(m, y) && m.initialized && y > m.max_seen {
        let n = replay_next(m, y);
        if y - x < 64 {
            assert(m.max_seen - x < 64);
            assert(n.window.contains(x));
        }
    }
}

/// No replay: once a window accepts a nonce, it rejects that nonce on every
/// later check, whatever other nonces it sees in between.
pub proof fn lemma_no_replay(m: ReplayView, x: u64, between: Seq<u64>)
    requires
        replay_accepts(m, x),
    ensures
        !replay_accepts(replay_run(replay_next(m, x), between), x),
{
    lemma_remembers_step(m, x, x);
    lemma_remembers_run(replay_next(m, x), x, between);
}

proof fn lemma_remembers_run(m: ReplayView, x: u64, ys: Seq<u64>)
    requires
        remembers(m, x),
    ensures
        remembers(replay_run(m, ys), x),
        !replay_accepts(replay_run(m, ys), x),
    decreases ys.len(),
{
    if ys.len() > 0 {
        lemma_remembers_step(m, x, ys[0]);
        lemma_remembers_run(replay_next(m, ys[0]), x, ys.drop_first());
    }
}

/// The state of a window that started in `m0` after it was shown `nonces`
/// in order, one `check_and_insert` each.
pub open spec fn replay_state(m0: ReplayView, nonces: Seq<u64>) -> ReplayView
    decreases nonces.len(),
{
    if nonces.len() == 0 {
        m0
    } else {
        replay_next(replay_state(m0, nonces.drop_last()), nonces.last())
    }
}

/// The nonces that a window starting in `m0` accepted while it was shown
/// `nonces` in order.
pub open spec fn accepted_nonces(m0: ReplayView, nonces: Seq<u64>) -> Set<u64>
    decreases nonces.len(),
{
    if nonces.len() == 0 {
        Set::empty()
    } else {
        let prev = accepted_nonces(m0, nonces.drop_last());
        if replay_accepts(replay_state(m0, nonces.drop_last()), nonces.last()) {
            prev.insert(nonces.last())
        } else {
            prev
        }
    }
}

/// The largest element of `s` (meaningful for a finite, non-empty `s`).
pub open spec fn max_of(s: Set<u64>) -> u64 {
    choose|x: u64| s.contains(x) && (forall|y: u64| #[trigger] s.contains(y) ==> y <= x)
}

/// How a window's state `m` stands to the set `s` of nonces it accepted:
/// it has accepted something exactly when `s` is non-empty; then its
/// highest nonce is the largest of `s`, and within the 64 values ending
/// there it holds exactly the members of `s`.
spec fn history_inv(m: ReplayView, s: Set<u64>) -> bool {
    &&& s.finite()
    &&& m.initialized == (s != Set::<u64>::empty())
    &&& forall|x: u64| #[trigger] m.window.contains(x) ==> m.initialized && x <= m.max_seen && m.max_seen - x < 64
    &&& m.initialized ==> s.contains(m.max_seen)
    &&& forall|y: u64| #[trigger] s.contains(y) ==> y <= m.max_seen
    &&& forall|x: u64|
        x <= m.max_seen && m.max_seen - x < 64 && m.initialized ==> (#[trigger] m.window.contains(x) == s.contains(x))
}

proof fn lemma_history_inv(m0: ReplayView, nonces: Seq<u64>)
    requires
        !m0.initialized,
        m0.window == Set::<u64>::empty(),
    ensures
        history_inv(replay_state(m0, nonces), accepted_nonces(m0, nonces)),
    decreases nonces.len(),
{
    if nonces.len() == 0 {
        return;
    }
    let pre = nonces.drop_last();
    let n = nonces.last();
    lemma_history_inv(m0, pre);
    let m = replay_state(m0, pre);
    let s = accepted_nonces(m0, pre);
    let m2 = replay_state(m0, nonces);
    let s2 = accepted_nonces(m0, nonces);
    assert(m2 == replay_next(m, n));
    if replay_accepts(m, n) {
        assert(s2 == s.insert(n));
        assert(s2.contains(n));
        if !m.initialized {
            assert(s == Set::<u64>::empty()) by {
                if s != Set::<u64>::empty() {
                    assert(m.initialized);
                }
            }
            assert(m2.window =~= set![n]);
            assert(s2 =~= set![n]);
        } else if n > m.max_seen {
            assert forall|x: u64| x <= m2.max_seen && m2.max_seen - x < 64 && m2.initialized implies (
            #[trigger] m2.window.contains(x) == s2.contains(x)) by {
                if x != n && x > m.max_seen {
                    assert(!m.window.contains(x));
                    assert(!s.contains(x));
                }
            }
        }
        assert(s2 != Set::<u64>::empty());
    }
}

/// The replay law over everything a window has accepted. Take a window
/// made by `ReplayWindow::new` and shown `nonces` in order, and let `S` be
/// the set of nonces it accepted. It accepts `n` next exactly when `S` is
/// empty, or `n` exceeds the largest of `S`, or `n` is among the 64 values
/// ending at that largest nonce and not in `S`; after the call the accepted
/// set is `S` with `n` added if it was accepted, and `S` otherwise.
pub proof fn lemma_replay_law(m0: ReplayView, nonces: Seq<u64>, n: u64)
    requires
        !m0.initialized,
        m0.window == Set::<u64>::empty(),
    ensures
        ({
            let s = accepted_nonces(m0, nonces);
            let m = replay_state(m0, nonces);
            &&& s.finite()
            &&& replay_accepts(m, n) == (s == Set::<u64>::empty() || n > max_of(s) || (max_of(s) - n < 64
                && !s.contains(n)))
            &&& replay_state(m0, nonces.push(n)) == replay_next(m, n)
            &&& accepted_nonces(m0, nonces.push(n)) == if replay_accepts(m, n) {
                s.insert(n)
            } else {
                s
            }
        }),
{
    lemma_history_inv(m0, nonces);
    let s = accepted_nonces(m0, nonces);
    let m = replay_state(m0, nonces);
    assert(nonces.push(n).drop_last() =~= nonces);
    if s != Set::<u64>::empty() {
        assert(m.initialized);
        assert(s.contains(m.max_seen) && (forall|y: u64| #[trigger] s.contains(y) ==> y <= m.max_seen));
        let x = max_of(s);
        assert(s.contains(x) && (forall|y: u64| #[trigger] s.contains(y) ==> y <= x));
        assert(x <= m.max_seen && m.max_seen <= x);
        if n <= m.max_seen && m.max_seen - n < 64 {
            assert(m.window.contains(n) == s.contains(n));
        }
    }
}

} // verus!
