//! The per-minute budget of dummy queries.
use crate::clock::{duration_nanos, instant_elapsed, instant_now};
use vstd::prelude::*;

verus! {

/// Maximum dummy queries issued per 60-second window per pool instance.
pub const MAX_DUMMY_QUERIES_PER_MINUTE: u32 = 3;

/// Dummy queries issued in the current 60-second window.
pub struct DummyQueryBudget {
    count: u32,
    window_start: std::time::Instant,
}

impl DummyQueryBudget {
    pub closed spec fn spec_count(&self) -> u32 {
        self.count
    }

    pub fn new() -> (b: Self)
        ensures
            b.spec_count() == 0,
    {
        DummyQueryBudget { count: 0, window_start: instant_now() }
    }

    /// Claims one dummy query, given whether a full minute has passed since
    /// the window started (which restarts the count).
    pub fn claim_at(&mut self, minute_elapsed: bool) -> (ok: bool)
        ensures
            ({
                let start: int = if minute_elapsed { 0 } else { old(self).spec_count() as int };
                &&& ok == (start < MAX_DUMMY_QUERIES_PER_MINUTE)
                &&& final(self).spec_count() == if ok { start + 1 } else { start }
            }),
    {
        if minute_elapsed {
            self.count = 0;
            self.window_start = instant_now();
        }
        if self.count >= MAX_DUMMY_QUERIES_PER_MINUTE {
            return false;
        }
        self.count = self.count + 1;
        true
    }

    /// Claims one dummy query in the current minute. Whatever the clock
    /// read, at most three are granted per window.
    pub fn can_emit(&mut self) -> (ok: bool)
        ensures
            ok ==> 1 <= final(self).spec_count() <= MAX_DUMMY_QUERIES_PER_MINUTE,
            !ok ==> final(self).spec_count() >= MAX_DUMMY_QUERIES_PER_MINUTE,
    {
        let elapsed = instant_elapsed(&self.window_start);
        let minute_elapsed = duration_nanos(&elapsed) >= 60_000_000_000u128;
        self.claim_at(minute_elapsed)
    }
}

} // verus!
