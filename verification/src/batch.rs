//! The bounded-concurrency, rate-limited batch schedule for per-location menu
//! fetches.
//!
//! A run partitions its location list into chunks of at most
//! `concurrency_limit` locations. The application executes one chunk at a
//! time — all of that chunk's fetches concurrently, in any completion order —
//! and records the chunk's outcomes; between chunks the run demands a delay.
//! One location's failure never stops the run: every outcome, success or
//! failure, is recorded against its location, and the final results carry
//! exactly one entry per input location, in input order.

use vstd::prelude::*;
use vstd::pervasive::VecAdditionalExecFns;

use crate::api_key::ApiKey;
use crate::error::GetError;
use crate::locations::Location;
use crate::summary::Summary;

verus! {

/// One location's outcome, reported by the application against the
/// location's index in the run's list.
pub struct LocationOutcome {
    pub index: usize,
    pub outcome: Result<Summary, GetError>,
}

/// One entry of the final batch result: a location and what its menu fetch
/// came to.
pub struct BatchEntry {
    pub location: Location,
    pub outcome: Result<Summary, GetError>,
}

/// What the application must do next to advance a batch run.
#[derive(Debug)]
pub enum BatchAction {
    /// Fetch the menus of the locations with indices in `start..end`, all
    /// concurrently, and record the chunk's outcomes.
    FetchChunk { start: usize, end: usize },
    /// Sleep this long, then report the delay as elapsed.
    Delay { milliseconds: u64 },
    /// The run is complete; take the results.
    Done,
}

/// Some reported outcome carries index `i`.
pub open spec fn spec_outcome_reported(outcomes: Seq<LocationOutcome>, i: int) -> bool {
    exists|k: int| 0 <= k < outcomes.len() && (#[trigger] outcomes[k]).index == i
}

/// The outcome the application reported for location index `i`: with the
/// chunk's indices distinct, the one entry carrying `i`.
pub open spec fn spec_outcome_for(outcomes: Seq<LocationOutcome>, i: int) -> Result<
    Summary,
    GetError,
> {
    let k = choose|k: int| 0 <= k < outcomes.len() && outcomes[k].index == i;
    outcomes[k].outcome
}

/// Chunks abut and are bounded: in any mid-run state the pending chunk starts
/// exactly where the recorded ones end, and it is `limit` locations long
/// unless fewer remain, in which case it reaches exactly to the end. Together
/// with `record_chunk` advancing to the chunk's end, the chunks partition the
/// location list.
pub proof fn lemma_chunk_shape(run: BatchRun)
    requires
        run.wf(),
        run.spec_next_index() < run.spec_total(),
    ensures
        run.spec_next_index() < run.spec_chunk_end() <= run.spec_total(),
        run.spec_chunk_end() - run.spec_next_index() == if run.spec_total() - run.spec_next_index()
            >= run.spec_limit() {
            run.spec_limit()
        } else {
            run.spec_total() - run.spec_next_index()
        },
{
}

/// One batch run over a location list: its policy, its progress, and the
/// outcomes recorded so far.
pub struct BatchRun {
    locations: Vec<Location>,
    api_key: ApiKey,
    concurrency_limit: usize,
    batch_delay_ms: u64,
    next_index: usize,
    slots: Vec<Option<Result<Summary, GetError>>>,
    awaiting_delay: bool,
}

impl BatchRun {
    /// The locations of the run, in input order.
    pub closed spec fn spec_locations(&self) -> Seq<Location> {
        self.locations@
    }

    /// How many locations the run covers.
    pub open spec fn spec_total(&self) -> int {
        self.spec_locations().len() as int
    }

    /// The in-flight bound: the size of every chunk but the last.
    pub closed spec fn spec_limit(&self) -> int {
        self.concurrency_limit as int
    }

    /// The delay demanded between consecutive chunks.
    pub closed spec fn spec_delay_ms(&self) -> u64 {
        self.batch_delay_ms
    }

    /// The shared credential every fetch of the run reads.
    pub closed spec fn spec_api_key(&self) -> Seq<char> {
        self.api_key@
    }

    /// The index of the first location whose chunk has not been recorded.
    pub closed spec fn spec_next_index(&self) -> int {
        self.next_index as int
    }

    /// The run is between chunks: a delay is owed before the next chunk.
    pub closed spec fn spec_awaiting_delay(&self) -> bool {
        self.awaiting_delay
    }

    /// The recorded outcome of the location with index `i`.
    pub closed spec fn spec_outcome(&self, i: int) -> Result<Summary, GetError>
        recommends
            0 <= i < self.spec_next_index(),
    {
        self.slots@[i]->0
    }

    /// Where the chunk starting at the current index ends: `limit` further
    /// on, or at the end of the list, whichever is first.
    pub open spec fn spec_chunk_end(&self) -> int {
        if self.spec_next_index() + self.spec_limit() <= self.spec_total() {
            self.spec_next_index() + self.spec_limit()
        } else {
            self.spec_total()
        }
    }

    /// The run's invariant: outcomes are recorded for exactly the locations
    /// before `next_index`, and a delay is only ever owed in mid-run.
    pub closed spec fn wf(&self) -> bool {
        &&& self.concurrency_limit > 0
        &&& self.slots@.len() == self.locations@.len()
        &&& self.next_index <= self.locations@.len()
        &&& (forall|i: int| 0 <= i < self.next_index ==> self.slots@[i] is Some)
        &&& (forall|i: int|
            self.next_index <= i < self.slots@.len() ==> self.slots@[i] is None)
        &&& (self.awaiting_delay ==> self.next_index < self.locations@.len())
    }

    /// Starts a run over `locations` with the given policy. Nothing is
    /// fetched yet; the first action is the first chunk, or `Done` for an
    /// empty list.
    pub fn new(
        locations: Vec<Location>,
        api_key: ApiKey,
        concurrency_limit: usize,
        batch_delay_ms: u64,
    ) -> (r: BatchRun)
        requires
            concurrency_limit > 0,
        ensures
            r.wf(),
            r.spec_locations() == locations@,
            r.spec_api_key() == api_key@,
            r.spec_limit() == concurrency_limit as int,
            r.spec_delay_ms() == batch_delay_ms,
            r.spec_next_index() == 0,
            !r.spec_awaiting_delay(),
    {
        let total = locations.len();
        let mut slots: Vec<Option<Result<Summary, GetError>>> = Vec::new();
        let mut i: usize = 0;
        while i < total
            invariant
                0 <= i <= total,
                slots@.len() == i,
                forall|j: int| 0 <= j < i ==> slots@[j] is None,
            decreases total - i,
        {
            slots.push(None);
            i += 1;
        }
        BatchRun {
            locations,
            api_key,
            concurrency_limit,
            batch_delay_ms,
            next_index: 0,
            slots,
            awaiting_delay: false,
        }
    }

    /// How many locations the run covers.
    pub fn total(&self) -> (r: usize)
        ensures
            r == self.spec_total(),
    {
        self.locations.len()
    }

    /// How many locations have a recorded outcome: the progress an external
    /// observer sees after each chunk.
    pub fn completed(&self) -> (r: usize)
        ensures
            r == self.spec_next_index(),
    {
        self.next_index
    }

    /// The location with index `i`.
    pub fn location_at(&self, i: usize) -> (r: &Location)
        requires
            i < self.spec_total(),
        ensures
            *r == self.spec_locations()[i as int],
    {
        &self.locations[i]
    }

    /// The shared credential for the run's fetches.
    pub fn api_key(&self) -> (r: &ApiKey)
        ensures
            r@ == self.spec_api_key(),
    {
        &self.api_key
    }

    /// What the application must do next: the pending delay if one is owed,
    /// else the next chunk, else nothing.
    pub fn next_action(&self) -> (a: BatchAction)
        requires
            self.wf(),
        ensures
            match a {
                BatchAction::FetchChunk { start, end } => {
                    &&& !self.spec_awaiting_delay()
                    &&& start == self.spec_next_index()
                    &&& end == self.spec_chunk_end()
                    &&& start < end <= self.spec_total()
                    &&& end - start <= self.spec_limit()
                },
                BatchAction::Delay { milliseconds } => self.spec_awaiting_delay() && milliseconds
                    == self.spec_delay_ms(),
                BatchAction::Done => !self.spec_awaiting_delay() && self.spec_next_index()
                    == self.spec_total(),
            },
    {
        if self.awaiting_delay {
            BatchAction::Delay { milliseconds: self.batch_delay_ms }
        } else {
            let total = self.locations.len();
            if self.next_index < total {
                let start = self.next_index;
                let end = if self.concurrency_limit < total - start {
                    start + self.concurrency_limit
                } else {
                    total
                };
                BatchAction::FetchChunk { start, end }
            } else {
                BatchAction::Done
            }
        }
    }

    /// Reports the inter-chunk delay as elapsed; the next chunk may start.
    pub fn delay_elapsed(&mut self)
        requires
            old(self).wf(),
            old(self).spec_awaiting_delay(),
        ensures
            final(self).wf(),
            !final(self).spec_awaiting_delay(),
            final(self).spec_locations() == old(self).spec_locations(),
            final(self).spec_api_key() == old(self).spec_api_key(),
            final(self).spec_limit() == old(self).spec_limit(),
            final(self).spec_delay_ms() == old(self).spec_delay_ms(),
            final(self).spec_next_index() == old(self).spec_next_index(),
            forall|i: int|
                0 <= i < old(self).spec_next_index()
                    ==> final(self).spec_outcome(i) == old(self).spec_outcome(i),
    {
        self.awaiting_delay = false;
    }

    /// Records the outcomes of the pending chunk, one per location index in
    /// `start..end`, in any order. Progress does not depend on what the
    /// outcomes hold: failures are recorded like successes, and the rest of
    /// the run proceeds. A delay is owed afterwards exactly when locations
    /// remain.
    pub fn record_chunk(&mut self, outcomes: Vec<LocationOutcome>)
        requires
            old(self).wf(),
            !old(self).spec_awaiting_delay(),
            old(self).spec_next_index() < old(self).spec_total(),
            forall|k: int|
                0 <= k < outcomes@.len() ==> old(self).spec_next_index() <= (
                #[trigger] outcomes@[k]).index < old(self).spec_chunk_end(),
            forall|k1: int, k2: int|
                0 <= k1 < k2 < outcomes@.len() ==> (#[trigger] outcomes@[k1]).index != (
                #[trigger] outcomes@[k2]).index,
            forall|i: int|
                old(self).spec_next_index() <= i < old(self).spec_chunk_end()
                    ==> #[trigger] spec_outcome_reported(outcomes@, i),
        ensures
            final(self).wf(),
            final(self).spec_locations() == old(self).spec_locations(),
            final(self).spec_api_key() == old(self).spec_api_key(),
            final(self).spec_limit() == old(self).spec_limit(),
            final(self).spec_delay_ms() == old(self).spec_delay_ms(),
            final(self).spec_next_index() == old(self).spec_chunk_end(),
            final(self).spec_awaiting_delay() == (old(self).spec_chunk_end()
                < old(self).spec_total()),
            forall|i: int|
                0 <= i < old(self).spec_next_index()
                    ==> final(self).spec_outcome(i) == old(self).spec_outcome(i),
            forall|i: int|
                old(self).spec_next_index() <= i < old(self).spec_chunk_end()
                    ==> final(self).spec_outcome(i) == spec_outcome_for(outcomes@, i),
    {
        let ghost all = outcomes@;
        let ghost start = old(self).spec_next_index();
        let ghost end = old(self).spec_chunk_end();
        let total = self.locations.len();
        let exec_end = if self.concurrency_limit < total - self.next_index {
            self.next_index + self.concurrency_limit
        } else {
            total
        };
        let mut rem = outcomes;
        while rem.len() > 0
            invariant
                self.locations == old(self).locations,
                self.api_key == old(self).api_key,
                self.concurrency_limit == old(self).concurrency_limit,
                self.batch_delay_ms == old(self).batch_delay_ms,
                self.next_index == old(self).next_index,
                self.awaiting_delay == old(self).awaiting_delay,
                old(self).wf(),
                start == old(self).spec_next_index(),
                end == old(self).spec_chunk_end(),
                start < end <= self.locations@.len(),
                self.slots@.len() == old(self).slots@.len(),
                rem@ == all.take(rem@.len() as int),
                rem@.len() <= all.len(),
                forall|k: int|
                    0 <= k < all.len() ==> start <= (#[trigger] all[k]).index < end,
                forall|k1: int, k2: int|
                    0 <= k1 < k2 < all.len() ==> (#[trigger] all[k1]).index != (
                    #[trigger] all[k2]).index,
                forall|i: int| 0 <= i < start ==> self.slots@[i] == old(self).slots@[i],
                forall|i: int| end <= i < self.slots@.len() ==> self.slots@[i] is None,
                forall|j: int|
                    rem@.len() <= j < all.len() ==> self.slots@[(#[trigger] all[j]).index as int]
                        == Some(all[j].outcome),
                forall|i: int|
                    start <= i < end && self.slots@[i] is Some ==> exists|j: int|
                        rem@.len() <= j < all.len() && (#[trigger] all[j]).index == i,
            decreases rem@.len(),
        {
            let ghost rem_before = rem@;
            let o = rem.pop().unwrap();
            proof {
                assert(rem_before.last() == all[rem@.len() as int]);
                assert(rem@ =~= all.take(rem@.len() as int));
            }
            self.slots.set(o.index, Some(o.outcome));
            proof {
                let ghost jo = rem@.len() as int;
                assert forall|j: int|
                    rem@.len() <= j < all.len() implies self.slots@[(#[trigger] all[j]).index
                    as int] == Some(all[j].outcome) by {
                    if j != jo {
                        assert(all[jo].index != all[j].index);
                    }
                }
                assert forall|i: int|
                    start <= i < end && self.slots@[i] is Some implies exists|j: int|
                    rem@.len() <= j < all.len() && (#[trigger] all[j]).index == i by {
                    if i == o.index {
                        assert(rem@.len() <= jo < all.len() && all[jo].index == i);
                    }
                }
            }
        }
        proof {
            assert forall|i: int| start <= i < end implies self.slots@[i] is Some by {
                assert(spec_outcome_reported(all, i));
                let j = choose|j: int| 0 <= j < all.len() && (#[trigger] all[j]).index == i;
                assert(self.slots@[all[j].index as int] == Some(all[j].outcome));
            }
        }
        self.next_index = exec_end;
        self.awaiting_delay = exec_end < total;
        proof {
            assert forall|i: int|
                start <= i < end implies final(self).spec_outcome(i) == spec_outcome_for(
                all,
                i,
            ) by {
                assert(spec_outcome_reported(all, i));
                let j = choose|j: int| 0 <= j < all.len() && (#[trigger] all[j]).index == i;
                let k = choose|k: int| 0 <= k < all.len() && all[k].index == i;
                if j != k {
                    if j < k {
                        assert(all[j].index != all[k].index);
                    } else {
                        assert(all[k].index != all[j].index);
                    }
                }
                assert(self.slots@[all[j].index as int] == Some(all[j].outcome));
            }
        }
    }

    /// The final results of a completed run: exactly one entry per input
    /// location, in input order, each carrying that location's recorded
    /// outcome.
    pub fn into_results(self) -> (r: Vec<BatchEntry>)
        requires
            self.wf(),
            self.spec_next_index() == self.spec_total(),
        ensures
            r@.len() == self.spec_total(),
            forall|i: int|
                0 <= i < r@.len() ==> (#[trigger] r@[i]).location == self.spec_locations()[i]
                    && r@[i].outcome == self.spec_outcome(i),
    {
        let ghost total = self.spec_total();
        let mut locs = self.locations;
        let mut slots = self.slots;
        let mut rev: Vec<BatchEntry> = Vec::new();
        while locs.len() > 0
            invariant
                self.wf(),
                self.spec_next_index() == total,
                total == self.spec_total(),
                locs@.len() == slots@.len(),
                locs@ == self.spec_locations().take(locs@.len() as int),
                slots@ == self.slots@.take(slots@.len() as int),
                rev@.len() + locs@.len() == total,
                forall|j: int|
                    0 <= j < rev@.len() ==> (#[trigger] rev@[j]).location
                        == self.spec_locations()[total - 1 - j] && rev@[j].outcome
                        == self.spec_outcome(total - 1 - j),
            decreases locs@.len(),
        {
            let ghost k = locs@.len() as int;
            let loc = locs.pop().unwrap();
            let slot = slots.pop().unwrap();
            proof {
                assert(loc == self.spec_locations()[k - 1]);
                assert(slot == self.slots@[k - 1]);
                assert(locs@ =~= self.spec_locations().take(locs@.len() as int));
                assert(slots@ =~= self.slots@.take(slots@.len() as int));
            }
            let outcome = slot.unwrap();
            rev.push(BatchEntry { location: loc, outcome });
        }
        let ghost full_rev = rev@;
        let mut out: Vec<BatchEntry> = Vec::new();
        while rev.len() > 0
            invariant
                rev@ == full_rev.take(rev@.len() as int),
                out@.len() + rev@.len() == full_rev.len(),
                forall|i: int|
                    0 <= i < out@.len() ==> #[trigger] out@[i] == full_rev[full_rev.len() - 1 - i],
            decreases rev@.len(),
        {
            let entry = rev.pop().unwrap();
            out.push(entry);
            proof {
                assert(rev@ =~= full_rev.take(rev@.len() as int));
            }
        }
        out
    }
}

} // verus!
