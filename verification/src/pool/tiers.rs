//! The active and dormant tiers of a provider pool, and the integer
//! selection and rotation engine over them.
use crate::pool::eviction::EvictionError;
use crate::pool::liveness::{spec_is_live, LivenessConfig, LivenessTable};
use crate::pool::random::{lemire_uniform, RandomSource};
use crate::pool::rotation::ChurnBudget;
use vstd::multiset::Multiset;
use vstd::prelude::*;

verus! {

broadcast use {vstd::seq_lib::group_to_multiset_ensures, vstd::multiset::group_multiset_axioms};

/// Removing index `i` by swapping the last element into its place removes
/// exactly that element from the multiset.
pub proof fn lemma_swap_remove_multiset<A>(s: Seq<A>, i: int)
    requires
        0 <= i < s.len(),
    ensures
        s.update(i, s.last()).drop_last().to_multiset() =~= s.to_multiset().remove(s[i]),
{
    let t = s.update(i, s.last());
    assert(t =~= t.drop_last().push(t.last()));
    assert(t.last() == s.last());
    assert(t.to_multiset() == t.drop_last().to_multiset().insert(s.last()));
    assert(t.to_multiset() == s.to_multiset().insert(s.last()).remove(s[i]));
    assert forall|a: A| #[trigger] t.drop_last().to_multiset().count(a) == s.to_multiset().remove(s[i]).count(a) by {
        assert(t.drop_last().to_multiset().insert(s.last()).count(a) == s.to_multiset().insert(s.last()).remove(s[i]).count(a));
    }
}

/// Whether the first `n` entries avoid `id`.
pub open spec fn absent_before<P>(s: Seq<([u8; 32], P)>, id: Seq<u8>, n: int) -> bool {
    forall|k: int| 0 <= k < n ==> (#[trigger] s[k]).0@ != id
}

/// `i` is the first position of `id` in `s`.
pub open spec fn first_position<P>(s: Seq<([u8; 32], P)>, id: Seq<u8>, i: int) -> bool {
    0 <= i < s.len() && s[i].0@ == id && absent_before(s, id, i)
}

/// The sequence after the swap-removal of index `i`.
pub open spec fn swap_removed<A>(s: Seq<A>, i: int) -> Seq<A> {
    s.update(i, s.last()).drop_last()
}

/// At most one entry of `s` has id `id`.
pub open spec fn unique_in<P>(s: Seq<([u8; 32], P)>, id: Seq<u8>) -> bool {
    forall|p: int, q: int|
        0 <= p < s.len() && 0 <= q < s.len() && (#[trigger] s[p]).0@ == id && (#[trigger] s[q]).0@ == id ==> p == q
}

/// Swap-removing the only entry with id `id` leaves no entry with that id.
pub proof fn lemma_swap_removed_unique<P>(s: Seq<([u8; 32], P)>, id: Seq<u8>, i: int)
    requires
        first_position(s, id, i),
        unique_in(s, id),
    ensures
        absent_before(swap_removed(s, i), id, s.len() - 1),
{
    let t = swap_removed(s, i);
    assert forall|k: int| 0 <= k < s.len() - 1 implies (#[trigger] t[k]).0@ != id by {
        if k == i {
            assert(t[k] == s[s.len() - 1]);
            if s[s.len() - 1].0@ == id {
                assert(s[i].0@ == id);
            }
        } else {
            assert(t[k] == s[k]);
            if s[k].0@ == id {
                assert(s[i].0@ == id);
            }
        }
    }
}

/// A rotation of `n` from tiers `(active0, dormant0)` to `(active1, dormant1)`:
/// `n` entries leave the active tier and are appended to the dormant tier
/// after the activations, and `n` entries of the dormant tier as it stood
/// before the rotation join the active tier.
pub open spec fn rotation_swaps<P>(
    active0: Seq<([u8; 32], P)>,
    dormant0: Seq<([u8; 32], P)>,
    active1: Seq<([u8; 32], P)>,
    dormant1: Seq<([u8; 32], P)>,
    n: nat,
) -> bool {
    exists|kept: Multiset<([u8; 32], P)>, rest: Seq<([u8; 32], P)>, retired: Seq<([u8; 32], P)>, activated: Seq<([u8; 32], P)>|
        #![trigger kept.add(retired.to_multiset()), rest.to_multiset().add(activated.to_multiset())]
        {
            &&& retired.len() == n
            &&& activated.len() == n
            &&& active0.to_multiset() == kept.add(retired.to_multiset())
            &&& active1.to_multiset() == kept.add(activated.to_multiset())
            &&& dormant0.to_multiset() == rest.to_multiset().add(activated.to_multiset())
            &&& dormant1 == rest + retired
        }
}

/// A rotation whose churn is the whole dormant tier activates every
/// provider that was dormant.
pub proof fn lemma_full_churn_activates_dormant<P>(
    active0: Seq<([u8; 32], P)>,
    dormant0: Seq<([u8; 32], P)>,
    active1: Seq<([u8; 32], P)>,
    dormant1: Seq<([u8; 32], P)>,
    n: nat,
    e: ([u8; 32], P),
)
    requires
        rotation_swaps(active0, dormant0, active1, dormant1, n),
        n == dormant0.len(),
        dormant0.contains(e),
    ensures
        active1.contains(e),
{
    let (kept, rest, retired, activated) = choose|
        kept: Multiset<([u8; 32], P)>,
        rest: Seq<([u8; 32], P)>,
        retired: Seq<([u8; 32], P)>,
        activated: Seq<([u8; 32], P)>,
    |
        #![trigger kept.add(retired.to_multiset()), rest.to_multiset().add(activated.to_multiset())]
        {
            &&& retired.len() == n
            &&& activated.len() == n
            &&& active0.to_multiset() == kept.add(retired.to_multiset())
            &&& active1.to_multiset() == kept.add(activated.to_multiset())
            &&& dormant0.to_multiset() == rest.to_multiset().add(activated.to_multiset())
            &&& dormant1 == rest + retired
        };
    vstd::seq_lib::to_multiset_len(dormant0);
    vstd::seq_lib::to_multiset_len(rest);
    vstd::seq_lib::to_multiset_len(activated);
    assert(rest.len() == 0);
    assert(rest =~= Seq::<([u8; 32], P)>::empty());
    assert(rest.to_multiset() =~= Multiset::empty());
    assert(dormant0.to_multiset() =~= activated.to_multiset());
    assert(dormant0.to_multiset().count(e) > 0);
    assert(active1.to_multiset().count(e) > 0);
}

/// No id is in both tiers.
pub open spec fn tiers_disjoint<P>(active: Seq<([u8; 32], P)>, dormant: Seq<([u8; 32], P)>) -> bool {
    forall|i: int, j: int|
        0 <= i < active.len() && 0 <= j < dormant.len() ==> (#[trigger] active[i]).0@ != (#[trigger] dormant[j]).0@
}

/// The rotation law for a pool in which no id is both active and dormant: a
/// rotation of `n` takes exactly `n` providers out of the active tier (the
/// multiset difference of the old and new active tiers has `n` members), and
/// every provider the new active tier holds more of came from the dormant
/// tier as it stood before.
pub proof fn lemma_rotation_changes_n_active<P>(
    active0: Seq<([u8; 32], P)>,
    dormant0: Seq<([u8; 32], P)>,
    active1: Seq<([u8; 32], P)>,
    dormant1: Seq<([u8; 32], P)>,
    n: nat,
)
    requires
        rotation_swaps(active0, dormant0, active1, dormant1, n),
        tiers_disjoint(active0, dormant0),
    ensures
        active0.to_multiset().sub(active1.to_multiset()).len() == n,
        forall|e: ([u8; 32], P)|
            #[trigger] active1.to_multiset().count(e) > active0.to_multiset().count(e) ==> dormant0.contains(e),
{
    let (kept, rest, retired, activated) = choose|
        kept: Multiset<([u8; 32], P)>,
        rest: Seq<([u8; 32], P)>,
        retired: Seq<([u8; 32], P)>,
        activated: Seq<([u8; 32], P)>,
    |
        #![trigger kept.add(retired.to_multiset()), rest.to_multiset().add(activated.to_multiset())]
        {
            &&& retired.len() == n
            &&& activated.len() == n
            &&& active0.to_multiset() == kept.add(retired.to_multiset())
            &&& active1.to_multiset() == kept.add(activated.to_multiset())
            &&& dormant0.to_multiset() == rest.to_multiset().add(activated.to_multiset())
            &&& dormant1 == rest + retired
        };
    assert forall|x: ([u8; 32], P)| #[trigger] active0.to_multiset().sub(active1.to_multiset()).count(x)
        == retired.to_multiset().count(x) by {
        if retired.to_multiset().count(x) > 0 {
            assert(active0.to_multiset().count(x) > 0);
            assert(active0.contains(x));
            if dormant0.contains(x) {
                let i = choose|i: int| 0 <= i < active0.len() && active0[i] == x;
                let j = choose|j: int| 0 <= j < dormant0.len() && dormant0[j] == x;
                assert(active0[i].0@ != dormant0[j].0@);
            }
            assert(dormant0.to_multiset().count(x) == 0);
            assert(activated.to_multiset().count(x) == 0);
        }
    }
    assert(active0.to_multiset().sub(active1.to_multiset()) =~= retired.to_multiset());
    vstd::seq_lib::to_multiset_len(retired);
    assert forall|e: ([u8; 32], P)|
        #[trigger] active1.to_multiset().count(e) > active0.to_multiset().count(e) implies dormant0.contains(e) by {
        assert(activated.to_multiset().count(e) > 0);
        assert(dormant0.to_multiset().count(e) > 0);
    }
}

/// The index of the first entry of `s` with id `id`.
fn position_of<P>(s: &Vec<([u8; 32], P)>, id: &[u8; 32]) -> (r: Option<usize>)
    ensures
        match r {
            Some(i) => first_position(s@, id@, i as int),
            None => absent_before(s@, id@, s@.len() as int),
        },
{
    let mut i: usize = 0;
    while i < s.len()
        invariant
            0 <= i <= s@.len(),
            absent_before(s@, id@, i as int),
        decreases s@.len() - i,
    {
        if crate::bytes::bytes32_eq(&s[i].0, id) {
            return Some(i);
        }
        i += 1;
    }
    None
}

/// `k` distinct candidates drawn by a partial Fisher–Yates shuffle (all of
/// them when there are fewer than `k`).
pub fn select_random_k<R: RandomSource>(rng: &mut R, candidates: &Vec<usize>, k: usize) -> (r: Vec<usize>)
    requires
        candidates@.no_duplicates(),
    ensures
        r@.len() == if k < candidates@.len() { k as int } else { candidates@.len() as int },
        r@.no_duplicates(),
        forall|x: usize| #[trigger] r@.contains(x) ==> candidates@.contains(x),
{
    let n = candidates.len();
    let k = if k < n { k } else { n };
    let mut live: Vec<usize> = candidates.clone();
    let mut i: usize = 0;
    while i < k
        invariant
            k <= n,
            n == candidates@.len(),
            0 <= i <= k,
            live@.len() == n,
            live@.no_duplicates(),
            forall|x: usize| #[trigger] live@.contains(x) <==> candidates@.contains(x),
        decreases k - i,
    {
        let off = lemire_uniform(rng, (n - i) as u64);
        let j = i + off as usize;
        let a = live[i];
        let b = live[j];
        let ghost before = live@;
        live.set(i, b);
        live.set(j, a);
        proof {
            assert forall|x: usize| #[trigger] live@.contains(x) <==> before.contains(x) by {
                if live@.contains(x) {
                    let p = choose|p: int| 0 <= p < live@.len() && live@[p] == x;
                    if p == i {
                        assert(before[j as int] == x);
                    } else if p == j {
                        assert(before[i as int] == x);
                    } else {
                        assert(before[p] == x);
                    }
                }
                if before.contains(x) {
                    let p = choose|p: int| 0 <= p < before.len() && before[p] == x;
                    if p == i {
                        assert(live@[j as int] == x);
                    } else if p == j {
                        assert(live@[i as int] == x);
                    } else {
                        assert(live@[p] == x);
                    }
                }
            }
            assert forall|p: int, q: int| 0 <= p < live@.len() && 0 <= q < live@.len() && p != q implies live@[p]
                != live@[q] by {
                let bp = if p == i { j as int } else if p == j { i as int } else { p };
                let bq = if q == i { j as int } else if q == j { i as int } else { q };
                assert(live@[p] == before[bp]);
                assert(live@[q] == before[bq]);
            }
        }
        i += 1;
    }
    let mut out: Vec<usize> = Vec::new();
    let mut t: usize = 0;
    while t < k
        invariant
            k <= n,
            live@.len() == n,
            live@.no_duplicates(),
            forall|x: usize| #[trigger] live@.contains(x) <==> candidates@.contains(x),
            0 <= t <= k,
            out@ == live@.subrange(0, t as int),
        decreases k - t,
    {
        out.push(live[t]);
        t += 1;
        assert(out@ =~= live@.subrange(0, t as int));
    }
    proof {
        assert forall|x: usize| #[trigger] out@.contains(x) implies candidates@.contains(x) by {
            let p = choose|p: int| 0 <= p < out@.len() && out@[p] == x;
            assert(live@[p] == x);
            assert(live@.contains(x));
        }
    }
    out
}

/// The active and dormant tiers, and the size of the active window.
pub struct ProviderTiers<P> {
    active: Vec<([u8; 32], P)>,
    dormant: Vec<([u8; 32], P)>,
    active_window: usize,
}

impl<P> ProviderTiers<P> {
    pub closed spec fn spec_active(&self) -> Seq<([u8; 32], P)> {
        self.active@
    }

    pub closed spec fn spec_dormant(&self) -> Seq<([u8; 32], P)> {
        self.dormant@
    }

    pub closed spec fn spec_window(&self) -> usize {
        self.active_window
    }

    /// Every provider of the pool, active first.
    pub open spec fn universe(&self) -> Multiset<([u8; 32], P)> {
        self.spec_active().to_multiset().add(self.spec_dormant().to_multiset())
    }

    /// Empty tiers with the given active window.
    pub fn new(active_window: usize) -> (t: Self)
        ensures
            t.spec_active() == Seq::<([u8; 32], P)>::empty(),
            t.spec_dormant() == Seq::<([u8; 32], P)>::empty(),
            t.spec_window() == active_window,
    {
        ProviderTiers { active: Vec::new(), dormant: Vec::new(), active_window }
    }

    pub fn set_active_window(&mut self, n: usize)
        ensures
            final(self).spec_window() == n,
            final(self).spec_active() == old(self).spec_active(),
            final(self).spec_dormant() == old(self).spec_dormant(),
    {
        self.active_window = n;
    }

    pub fn active_window(&self) -> (n: usize)
        ensures
            n == self.spec_window(),
    {
        self.active_window
    }

    /// Admit a provider: into the active window while it has room, into
    /// the dormant tier otherwise.
    pub fn place(&mut self, provider_id: [u8; 32], provider: P)
        ensures
            final(self).spec_window() == old(self).spec_window(),
            old(self).spec_active().len() < old(self).spec_window() ==> {
                &&& final(self).spec_active() == old(self).spec_active().push((provider_id, provider))
                &&& final(self).spec_dormant() == old(self).spec_dormant()
            },
            old(self).spec_active().len() >= old(self).spec_window() ==> {
                &&& final(self).spec_dormant() == old(self).spec_dormant().push((provider_id, provider))
                &&& final(self).spec_active() == old(self).spec_active()
            },
    {
        if self.active.len() < self.active_window {
            self.active.push((provider_id, provider));
        } else {
            self.dormant.push((provider_id, provider));
        }
    }

    pub fn active_len(&self) -> (n: usize)
        ensures
            n == self.spec_active().len(),
    {
        self.active.len()
    }

    pub fn dormant_len(&self) -> (n: usize)
        ensures
            n == self.spec_dormant().len(),
    {
        self.dormant.len()
    }

    /// The active entry at index `i`.
    pub fn active_at(&self, i: usize) -> (e: &([u8; 32], P))
        requires
            i < self.spec_active().len(),
        ensures
            *e == self.spec_active()[i as int],
    {
        &self.active[i]
    }

    /// The dormant entry at index `i`.
    pub fn dormant_at(&self, i: usize) -> (e: &([u8; 32], P))
        requires
            i < self.spec_dormant().len(),
        ensures
            *e == self.spec_dormant()[i as int],
    {
        &self.dormant[i]
    }

    /// Whether some entry of either tier has id `id`.
    pub open spec fn holds(&self, id: Seq<u8>) -> bool {
        !(absent_before(self.spec_active(), id, self.spec_active().len() as int) && absent_before(
            self.spec_dormant(),
            id,
            self.spec_dormant().len() as int,
        ))
    }

    /// At most one entry of the two tiers has id `id`.
    pub open spec fn held_at_most_once(&self, id: Seq<u8>) -> bool {
        &&& unique_in(self.spec_active(), id)
        &&& unique_in(self.spec_dormant(), id)
        &&& (absent_before(self.spec_active(), id, self.spec_active().len() as int) || absent_before(
            self.spec_dormant(),
            id,
            self.spec_dormant().len() as int,
        ))
    }

    /// Why `remove_for_eviction(id)` refuses, if it does: `NotFound` for an
    /// id in neither tier; `WouldViolateDormantFloor` for an id that is only
    /// dormant when the window is bounded and removing one dormant provider
    /// would leave fewer than the window.
    pub open spec fn eviction_refusal(&self, id: Seq<u8>) -> Option<EvictionError> {
        let alen = self.spec_active().len();
        let dlen = self.spec_dormant().len();
        let in_active = !absent_before(self.spec_active(), id, alen as int);
        let in_dormant = !absent_before(self.spec_dormant(), id, dlen as int);
        if !in_active && !in_dormant {
            Some(EvictionError::NotFound)
        } else if !in_active && self.spec_window() != usize::MAX && (if dlen >= 1 {
            dlen - 1
        } else {
            0
        }) < self.spec_window() {
            Some(EvictionError::WouldViolateDormantFloor)
        } else {
            None
        }
    }

    /// Whether `provider_id` is in either tier.
    pub fn contains(&self, provider_id: &[u8; 32]) -> (b: bool)
        ensures
            b == self.holds(provider_id@),
    {
        let a = position_of(&self.active, provider_id);
        if a.is_some() {
            return true;
        }
        let d = position_of(&self.dormant, provider_id);
        d.is_some()
    }

    /// The ids of the active providers, in order.
    pub fn active_ids(&self) -> (ids: Vec<[u8; 32]>)
        ensures
            ids@.len() == self.spec_active().len(),
            forall|i: int| 0 <= i < ids@.len() ==> #[trigger] ids@[i] == self.spec_active()[i].0,
    {
        let mut ids: Vec<[u8; 32]> = Vec::new();
        let mut i: usize = 0;
        while i < self.active.len()
            invariant
                0 <= i <= self.active@.len(),
                ids@.len() == i,
                forall|j: int| 0 <= j < i ==> #[trigger] ids@[j] == self.active@[j].0,
            decreases self.active@.len() - i,
        {
            ids.push(self.active[i].0);
            i += 1;
        }
        ids
    }

    /// Indices of the active providers that are live at `now`, in order.
    pub fn live_active_indices(&self, table: &LivenessTable, config: &LivenessConfig, now: u64) -> (r: Vec<usize>)
        requires
            table.wf(),
        ensures
            r@.no_duplicates(),
            forall|i: usize| #[trigger] r@.contains(i) <==> (i < self.spec_active().len() && spec_is_live(
                table.spec_state(self.spec_active()[i as int].0@),
                *config,
                now,
            )),
    {
        let mut r: Vec<usize> = Vec::new();
        let mut i: usize = 0;
        while i < self.active.len()
            invariant
                table.wf(),
                0 <= i <= self.active@.len(),
                forall|p: int| 0 <= p < r@.len() ==> #[trigger] r@[p] < i,
                forall|p: int, q: int| 0 <= p < q < r@.len() ==> r@[p] < r@[q],
                forall|x: usize| #[trigger] r@.contains(x) <==> (x < i && spec_is_live(
                    table.spec_state(self.active@[x as int].0@),
                    *config,
                    now,
                )),
            decreases self.active@.len() - i,
        {
            let live = table.is_live_at(&self.active[i].0, config, now);
            let ghost before = r@;
            if live {
                r.push(i);
            }
            proof {
                assert forall|x: usize| #[trigger] r@.contains(x) <==> (x < i + 1 && spec_is_live(
                    table.spec_state(self.active@[x as int].0@),
                    *config,
                    now,
                )) by {
                    if r@.contains(x) {
                        let p = choose|p: int| 0 <= p < r@.len() && r@[p] == x;
                        if p < before.len() {
                            assert(before[p] == x);
                            assert(before.contains(x));
                        } else {
                            assert(x == i);
                        }
                    }
                    if x < i && spec_is_live(table.spec_state(self.active@[x as int].0@), *config, now) {
                        assert(before.contains(x));
                        let p = choose|p: int| 0 <= p < before.len() && before[p] == x;
                        assert(r@[p] == x);
                    }
                    if x == i && live {
                        assert(r@[r@.len() - 1] == x);
                    }
                    if x == i && !live {
                        if r@.contains(x) {
                            let p = choose|p: int| 0 <= p < r@.len() && r@[p] == x;
                            assert(before[p] < i);
                        }
                    }
                }
            }
            i += 1;
        }
        proof {
            assert forall|p: int, q: int| 0 <= p < r@.len() && 0 <= q < r@.len() && p != q implies r@[p] != r@[q] by {
                if p < q {
                    assert(r@[p] < r@[q]);
                } else {
                    assert(r@[q] < r@[p]);
                }
            }
        }
        r
    }

    /// Remove a provider from whichever tier holds it (its first entry,
    /// active tier first), swapping the tier's last entry into its place.
    /// Refused when it is in neither tier, or when it is dormant and
    /// removing it would leave fewer dormant providers than a bounded
    /// active window.
    pub fn remove_for_eviction(&mut self, provider_id: &[u8; 32]) -> (r: Result<(), EvictionError>)
        ensures
            final(self).spec_window() == old(self).spec_window(),
            r is Err ==> *final(self) == *old(self),
            match old(self).eviction_refusal(provider_id@) {
                Some(e) => r == Err::<(), EvictionError>(e),
                None => r is Ok,
            },
            r is Ok ==> final(self).spec_active().len() + final(self).spec_dormant().len() + 1
                == old(self).spec_active().len() + old(self).spec_dormant().len(),
            r is Ok && old(self).held_at_most_once(provider_id@) ==> !final(self).holds(provider_id@),
            match r {
                Ok(()) => {
                    ||| exists|i: int| {
                        &&& first_position(old(self).spec_active(), provider_id@, i)
                        &&& final(self).spec_active() == swap_removed(old(self).spec_active(), i)
                        &&& final(self).spec_dormant() == old(self).spec_dormant()
                    }
                    ||| exists|j: int| {
                        &&& absent_before(old(self).spec_active(), provider_id@, old(self).spec_active().len() as int)
                        &&& first_position(old(self).spec_dormant(), provider_id@, j)
                        &&& (old(self).spec_window() == usize::MAX || old(self).spec_dormant().len() - 1 >= old(self).spec_window())
                        &&& final(self).spec_dormant() == swap_removed(old(self).spec_dormant(), j)
                        &&& final(self).spec_active() == old(self).spec_active()
                    }
                },
                Err(e) => {
                    &&& final(self).spec_active() == old(self).spec_active()
                    &&& final(self).spec_dormant() == old(self).spec_dormant()
                    &&& absent_before(old(self).spec_active(), provider_id@, old(self).spec_active().len() as int)
                    &&& (e == EvictionError::NotFound <==> absent_before(
                        old(self).spec_dormant(),
                        provider_id@,
                        old(self).spec_dormant().len() as int,
                    ))
                    &&& (e == EvictionError::WouldViolateDormantFloor <==> !absent_before(
                        old(self).spec_dormant(),
                        provider_id@,
                        old(self).spec_dormant().len() as int,
                    ))
                    &&& e == EvictionError::WouldViolateDormantFloor ==> (old(self).spec_window() != usize::MAX
                        && (if old(self).spec_dormant().len() >= 1 { old(self).spec_dormant().len() - 1 } else { 0 })
                        < old(self).spec_window())
                },
            },
    {
        let ghost pre_a = self.active@;
        let ghost pre_d = self.dormant@;
        let ghost held_once = self.held_at_most_once(provider_id@);
        let in_active = position_of(&self.active, provider_id);
        match in_active {
            Some(i) => {
                self.active.swap_remove(i);
                proof {
                    if held_once {
                        lemma_swap_removed_unique(pre_a, provider_id@, i as int);
                    }
                }
                assert(first_position(old(self).spec_active(), provider_id@, i as int)
                    && final(self).spec_active() == swap_removed(old(self).spec_active(), i as int)
                    && final(self).spec_dormant() == old(self).spec_dormant());
                return Ok(());
            },
            None => {},
        }
        let in_dormant = position_of(&self.dormant, provider_id);
        match in_dormant {
            None => Err(EvictionError::NotFound),
            Some(j) => {
                if self.active_window != usize::MAX && self.dormant.len().saturating_sub(1) < self.active_window {
                    return Err(EvictionError::WouldViolateDormantFloor);
                }
                self.dormant.swap_remove(j);
                proof {
                    if held_once {
                        lemma_swap_removed_unique(pre_d, provider_id@, j as int);
                    }
                }
                assert(first_position(old(self).spec_dormant(), provider_id@, j as int)
                    && final(self).spec_dormant() == swap_removed(old(self).spec_dormant(), j as int)
                    && final(self).spec_active() == old(self).spec_active());
                Ok(())
            },
        }
    }

    /// The churn count of one rotation: a uniform draw in
    /// `[min(min_churn, max), max]` where `max` is the smallest of
    /// `max_churn` and both tier sizes.
    pub fn churn_count<R: RandomSource>(&self, rng: &mut R, budget: &ChurnBudget) -> (n: usize)
        requires
            self.spec_active().len() < u64::MAX,
        ensures
            ({
                let max_possible = vstd::math::min(
                    vstd::math::min(budget.max_churn as int, self.spec_active().len() as int),
                    self.spec_dormant().len() as int,
                );
                let min_possible = vstd::math::min(budget.min_churn as int, max_possible);
                min_possible <= n <= max_possible
            }),
    {
        let mut max_possible = budget.max_churn;
        if self.active.len() < max_possible {
            max_possible = self.active.len();
        }
        if self.dormant.len() < max_possible {
            max_possible = self.dormant.len();
        }
        let min_possible = if budget.min_churn < max_possible { budget.min_churn } else { max_possible };
        let spread = (max_possible - min_possible) as u64;
        if spread == 0 {
            min_possible
        } else {
            let d = lemire_uniform(rng, spread + 1);
            min_possible + d as usize
        }
    }

    /// Swap-remove a uniformly drawn active provider and hand it back.
    pub fn retire_random<R: RandomSource>(&mut self, rng: &mut R) -> (e: ([u8; 32], P))
        requires
            old(self).spec_active().len() > 0,
        ensures
            final(self).spec_window() == old(self).spec_window(),
            final(self).spec_dormant() == old(self).spec_dormant(),
            exists|i: int| 0 <= i < old(self).spec_active().len() && e == old(self).spec_active()[i]
                && final(self).spec_active() == swap_removed(old(self).spec_active(), i),
    {
        let i = lemire_uniform(rng, self.active.len() as u64) as usize;
        self.active.swap_remove(i)
    }

    /// Move the dormant provider at index `j` into the active window
    /// (swap-removal from the dormant tier).
    pub fn activate(&mut self, j: usize)
        requires
            j < old(self).spec_dormant().len(),
        ensures
            final(self).spec_window() == old(self).spec_window(),
            final(self).spec_active() == old(self).spec_active().push(old(self).spec_dormant()[j as int]),
            final(self).spec_dormant() == swap_removed(old(self).spec_dormant(), j as int),
    {
        let e = self.dormant.swap_remove(j);
        self.active.push(e);
    }

    /// Return retired providers to the dormant tier, in order.
    pub fn restore(&mut self, retired: Vec<([u8; 32], P)>)
        ensures
            final(self).spec_window() == old(self).spec_window(),
            final(self).spec_active() == old(self).spec_active(),
            final(self).spec_dormant() == old(self).spec_dormant() + retired@,
    {
        let mut retired = retired;
        self.dormant.append(&mut retired);
    }

    /// One uniform rotation: draw the churn count, retire that many random
    /// active providers, activate as many uniformly drawn dormant ones (from
    /// the dormant tier as it was before retirement), then return the
    /// retired ones to the dormant tier. Returns the churn count. No
    /// provider enters or leaves the pool and both tier sizes are kept.
    pub fn rotate_uniform<R: RandomSource>(&mut self, rng: &mut R, budget: &ChurnBudget) -> (n: usize)
        requires
            old(self).spec_active().len() < u64::MAX,
        ensures
            final(self).spec_window() == old(self).spec_window(),
            final(self).spec_active().len() == old(self).spec_active().len(),
            final(self).spec_dormant().len() == old(self).spec_dormant().len(),
            final(self).universe() =~= old(self).universe(),
            rotation_swaps(
                old(self).spec_active(),
                old(self).spec_dormant(),
                final(self).spec_active(),
                final(self).spec_dormant(),
                n as nat,
            ),
            ({
                let max_possible = vstd::math::min(
                    vstd::math::min(budget.max_churn as int, old(self).spec_active().len() as int),
                    old(self).spec_dormant().len() as int,
                );
                let min_possible = vstd::math::min(budget.min_churn as int, max_possible);
                min_possible <= n <= max_possible
            }),
    {
        let n = self.churn_count(rng, budget);
        let ghost active0 = self.active@;
        let ghost dormant0 = self.dormant@;
        let ghost a0 = self.active@.len();
        let ghost d0 = self.dormant@.len();
        let ghost u0 = self.universe();
        let mut retired: Vec<([u8; 32], P)> = Vec::new();
        let mut t: usize = 0;
        while t < n
            invariant
                n <= a0,
                n <= d0,
                0 <= t <= n,
                self.active@.len() == a0 - t,
                self.dormant@.len() == d0,
                retired@.len() == t,
                self.spec_window() == old(self).spec_window(),
                self.universe().add(retired@.to_multiset()) =~= u0,
                self.active@.to_multiset().add(retired@.to_multiset()) =~= active0.to_multiset(),
                self.dormant@ == dormant0,
            decreases n - t,
        {
            let ghost before = self.active@;
            let e = self.retire_random(rng);
            proof {
                let i = choose|i: int| 0 <= i < before.len() && e == before[i] && self.active@ == swap_removed(before, i);
                lemma_swap_remove_multiset(before, i);
            }
            retired.push(e);
            t += 1;
        }
        let ghost kept = self.active@.to_multiset();
        let ghost mut activated: Seq<([u8; 32], P)> = Seq::empty();
        let mut s: usize = 0;
        while s < n
            invariant
                n <= a0,
                n <= d0,
                0 <= s <= n,
                self.active@.len() == a0 - n + s,
                self.dormant@.len() == d0 - s,
                retired@.len() == n,
                self.spec_window() == old(self).spec_window(),
                self.universe().add(retired@.to_multiset()) =~= u0,
                activated.len() == s,
                self.active@.to_multiset() =~= kept.add(activated.to_multiset()),
                self.dormant@.to_multiset().add(activated.to_multiset()) =~= dormant0.to_multiset(),
            decreases n - s,
        {
            let j = lemire_uniform(rng, self.dormant.len() as u64) as usize;
            let ghost before = self.dormant@;
            let ghost before_active = self.active@;
            self.activate(j);
            proof {
                lemma_swap_remove_multiset(before, j as int);
                let e = before[j as int];
                assert(activated.push(e).to_multiset() =~= activated.to_multiset().insert(e));
                assert(self.active@.to_multiset() =~= before_active.to_multiset().insert(e));
                activated = activated.push(e);
            }
            s += 1;
        }
        let ghost dpre = self.dormant@;
        let ghost rv = retired@;
        self.restore(retired);
        proof {
            vstd::seq_lib::lemma_multiset_commutative(dpre, rv);
            assert(self.dormant@ == dpre + rv);
            assert(self.universe() =~= self.active@.to_multiset().add(dpre.to_multiset()).add(rv.to_multiset()));
            assert(active0.to_multiset() =~= kept.add(rv.to_multiset()));
            assert(dormant0.to_multiset() =~= dpre.to_multiset().add(activated.to_multiset()));
            assert(rotation_swaps(active0, dormant0, self.active@, self.dormant@, n as nat)) by {
                assert(self.dormant@ == dpre + rv);
            }
        }
        n
    }
}

} // verus!
