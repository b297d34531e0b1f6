//! The race itself: a non-empty ordered collection of queries together with
//! its completion state.
//!
//! A `RaceSet` is created from the caller's query list, driven by a
//! [`crate::driver::RaceDriver`], and resolves exactly once: to the first
//! query that completes successfully (ties on the driver's clock go to the
//! lower index), or to the full, index-aligned list of errors when every
//! query fails.  Once decided, nothing a late query does can change the
//! result.

use vstd::prelude::*;

use crate::query::AsyncQuery;
use crate::query::PollStep;
use crate::query::QueryOutcome;
use crate::query::QueryState;

verus! {

/// Misuse of the race at construction: an empty query list is rejected
/// rather than deadlocking.
#[derive(Debug)]
pub enum RaceError {
    EmptyRace,
}

/// One query's failure, tagged with the index of the query that produced
/// it, so a caller can tell which source reported which cause.
pub struct SourceError {
    pub index: usize,
    pub cause: String,
}

/// Completion state of a race: still undecided, resolved to a winning
/// query, or failed with one error per query.
pub enum RaceState {
    Pending,
    Resolved { winner_index: usize, value: u64 },
    Failed { errors: Vec<SourceError> },
}

/// The terminal result handed back to the caller: the winner's index,
/// identity and value, or the ordered errors of all queries.
pub enum RaceOutcome {
    Resolved { winner_index: usize, winner_identity: String, value: u64 },
    AllFailed { errors: Vec<SourceError> },
}

/// `w` is the index the race must report as winner: a successful query
/// that no other successful query beats, either by completing strictly
/// earlier or by completing at the same instant with a lower index.
pub open spec fn winning_index(qs: Seq<AsyncQuery>, w: int) -> bool {
    &&& 0 <= w < qs.len()
    &&& qs[w].succeeds()
    &&& forall|j: int|
        0 <= j < qs.len() && (#[trigger] qs[j]).succeeds() ==> qs[w].ready_time()
            < qs[j].ready_time() || (qs[w].ready_time() == qs[j].ready_time() && w <= j)
}

/// At least one query in the list eventually succeeds.
pub open spec fn some_success(qs: Seq<AsyncQuery>) -> bool {
    exists|i: int| 0 <= i < qs.len() && (#[trigger] qs[i]).succeeds()
}

/// The decision is deterministic: only one index can satisfy the winning
/// condition, so every run over the same scripts reports the same winner.
pub proof fn lemma_winner_unique(qs: Seq<AsyncQuery>, w1: int, w2: int)
    requires
        winning_index(qs, w1),
        winning_index(qs, w2),
    ensures
        w1 == w2,
{
    assert(qs[w1].succeeds());
    assert(qs[w2].succeeds());
}

/// The tie-break: when two queries would succeed at the same instant, the
/// higher of the two indices is never reported as the winner.
pub proof fn lemma_tie_breaks_low(qs: Seq<AsyncQuery>, w: int, i: int, j: int)
    requires
        winning_index(qs, w),
        0 <= i < j < qs.len(),
        qs[i].succeeds(),
        qs[j].succeeds(),
        qs[i].ready_time() == qs[j].ready_time(),
    ensures
        w != j,
{
    assert(qs[i].succeeds());
}

/// A non-empty ordered collection of queries plus the race's completion
/// state.  The order of the list is significant only as the deterministic
/// tie-break.
pub struct RaceSet {
    queries: Vec<AsyncQuery>,
    state: RaceState,
}

impl RaceSet {
    /// The queries in their original submission order.
    pub closed spec fn queries(self) -> Seq<AsyncQuery> {
        self.queries@
    }

    /// The race's completion state.
    pub closed spec fn race_state(self) -> RaceState {
        self.state
    }

    /// How many queries race.
    pub open spec fn count(self) -> nat {
        self.queries().len()
    }

    /// The query at index `i`.
    pub open spec fn query(self, i: int) -> AsyncQuery {
        self.queries()[i]
    }

    /// A decided race has been resolved or has failed; it never becomes
    /// undecided again.
    pub open spec fn decided(self) -> bool {
        !(self.race_state() is Pending)
    }

    /// A well-formed race set is non-empty and every query's progress
    /// state agrees with its script.
    pub open spec fn wf(self) -> bool {
        &&& self.count() > 0
        &&& forall|i: int| 0 <= i < self.count() ==> (#[trigger] self.query(i)).wf()
    }

    /// A fresh race set is undecided and none of its queries has started.
    pub open spec fn fresh(self) -> bool {
        &&& !self.decided()
        &&& forall|i: int| 0 <= i < self.count() ==> (#[trigger] self.query(i)).progress()
            is NotStarted
    }

    /// The two sets hold the same number of queries, with the same script
    /// at every index.
    pub open spec fn same_scripts(self, other: RaceSet) -> bool {
        &&& self.count() == other.count()
        &&& forall|i: int| 0 <= i < self.count() ==> (#[trigger] self.query(i)).same_script(
            other.query(i),
        )
    }

    /// Wraps a query list into a race.  An empty list is a contract
    /// violation and is rejected with `EmptyRace`; any non-empty list is
    /// accepted unchanged, with the race still undecided.
    pub fn new(queries: Vec<AsyncQuery>) -> (result: Result<RaceSet, RaceError>)
        ensures
            result is Err <==> queries@.len() == 0,
            result matches Err(e) ==> e is EmptyRace,
            result matches Ok(set) ==> set.queries() == queries@ && set.race_state() is Pending,
    {
        if queries.len() == 0 {
            Err(RaceError::EmptyRace)
        } else {
            Ok(RaceSet { queries, state: RaceState::Pending })
        }
    }

    /// How many queries race.
    pub fn query_count(&self) -> (n: usize)
        ensures
            n == self.count(),
    {
        self.queries.len()
    }

    /// Whether the race has been decided, one way or the other.
    pub fn is_decided(&self) -> (b: bool)
        ensures
            b == self.decided(),
    {
        match &self.state {
            RaceState::Pending => false,
            _ => true,
        }
    }

    /// Whether the race ended with every query failing.
    pub fn is_failed(&self) -> (b: bool)
        ensures
            b == (self.race_state() is Failed),
    {
        match &self.state {
            RaceState::Failed { .. } => true,
            _ => false,
        }
    }

    /// The index of the winning query, once the race has resolved.
    pub fn resolved_winner(&self) -> (r: Option<usize>)
        ensures
            match self.race_state() {
                RaceState::Resolved { winner_index, .. } => r == Some(winner_index),
                _ => r is None,
            },
    {
        match &self.state {
            RaceState::Resolved { winner_index, .. } => Some(*winner_index),
            _ => None,
        }
    }

    /// The winning value, once the race has resolved.
    pub fn resolved_value(&self) -> (r: Option<u64>)
        ensures
            match self.race_state() {
                RaceState::Resolved { value, .. } => r == Some(value),
                _ => r is None,
            },
    {
        match &self.state {
            RaceState::Resolved { value, .. } => Some(*value),
            _ => None,
        }
    }

    /// Launches the query at `index`.
    pub fn start_query(&mut self, index: usize)
        requires
            index < old(self).count(),
            old(self).query(index as int).progress() is NotStarted,
        ensures
            final(self).count() == old(self).count(),
            final(self).race_state() == old(self).race_state(),
            forall|j: int|
                0 <= j < old(self).count() && j != index ==> (#[trigger] final(self).query(j))
                    == old(self).query(j),
            final(self).query(index as int).same_script(old(self).query(index as int)),
            final(self).query(index as int).progress() is Pending,
            final(self).query(index as int).wf(),
    {
        let q = &mut self.queries[index];
        q.start();
    }

    /// Whether the query at `index` has reached a terminal state.
    pub fn query_terminal(&self, index: usize) -> (b: bool)
        requires
            index < self.count(),
        ensures
            b == self.query(index as int).terminal(),
    {
        self.queries[index].is_terminal()
    }

    /// Whether every query has reached a terminal state.
    pub fn all_terminal(&self) -> (b: bool)
        ensures
            b == forall|i: int| 0 <= i < self.count() ==> (#[trigger] self.query(i)).terminal(),
    {
        let n = self.queries.len();
        let mut i: usize = 0;
        while i < n
            invariant
                n == self.count(),
                i <= n,
                forall|k: int| 0 <= k < i ==> (#[trigger] self.query(k)).terminal(),
            decreases n - i,
        {
            if !self.query_terminal(i) {
                return false;
            }
            i += 1;
        }
        true
    }

    /// Advances the query at `index` at instant `now` and reports what it
    /// did; the race's completion state is untouched.
    pub fn poll_query(&mut self, index: usize, now: u64) -> (step: PollStep)
        requires
            index < old(self).count(),
            old(self).query(index as int).progress() is Pending,
        ensures
            final(self).count() == old(self).count(),
            final(self).race_state() == old(self).race_state(),
            forall|j: int|
                0 <= j < old(self).count() && j != index ==> (#[trigger] final(self).query(j))
                    == old(self).query(j),
            final(self).query(index as int).same_script(old(self).query(index as int)),
            final(self).query(index as int).wf(),
            now < old(self).query(index as int).ready_time() ==> step is Pending
                && final(self).query(index as int).progress() is Pending,
            now >= old(self).query(index as int).ready_time()
                && old(self).query(index as int).succeeds()
                ==> step == PollStep::ReadyOk(old(self).query(index as int).success_value())
                && final(self).query(index as int).progress()
                == QueryState::CompletedOk(old(self).query(index as int).success_value()),
            now >= old(self).query(index as int).ready_time()
                && !old(self).query(index as int).succeeds()
                ==> step is ReadyErr
                && final(self).query(index as int).progress() is CompletedErr,
    {
        let q = &mut self.queries[index];
        q.poll(now)
    }

    /// Hands out a copy of the identity of the query at `index`.
    pub fn query_identity(&self, index: usize) -> (label: String)
        requires
            index < self.count(),
        ensures
            label@ == self.query(index as int).id(),
    {
        self.queries[index].identity_label()
    }

    /// Records that the query at `index` completed with `outcome`.  On an
    /// undecided race a success resolves it to that query; a failure
    /// leaves the race running.  On a decided race nothing changes: the
    /// result already returned can never be overwritten by a late
    /// completion.
    pub fn record_completion(&mut self, index: usize, outcome: QueryOutcome)
        requires
            index < old(self).count(),
        ensures
            final(self).queries() == old(self).queries(),
            old(self).decided() ==> final(self).race_state() == old(self).race_state(),
            !old(self).decided() ==> match outcome {
                QueryOutcome::Success(v) => final(self).race_state() == (RaceState::Resolved {
                    winner_index: index,
                    value: v,
                }),
                QueryOutcome::Failure(_) => final(self).race_state() == old(self).race_state(),
            },
    {
        if let RaceState::Pending = &self.state {
            if let QueryOutcome::Success(v) = outcome {
                self.state = RaceState::Resolved { winner_index: index, value: v };
            }
        }
    }

    /// Seals a race in which every query has failed: the completion state
    /// becomes `Failed` with one error per query, index-aligned with the
    /// original list, and the same list is handed back.
    pub fn seal_all_failed(&mut self) -> (errors: Vec<SourceError>)
        requires
            old(self).wf(),
            !old(self).decided(),
            forall|i: int|
                0 <= i < old(self).count() ==> (#[trigger] old(self).query(i)).progress()
                    is CompletedErr,
        ensures
            final(self).queries() == old(self).queries(),
            final(self).decided(),
            errors@.len() == old(self).count(),
            forall|i: int|
                0 <= i < errors@.len() ==> (#[trigger] errors@[i]).index == i
                    && errors@[i].cause@ == old(self).query(i).failure_cause(),
            final(self).race_state() matches RaceState::Failed { errors: stored }
                && stored@.len() == old(self).count() && forall|i: int|
                0 <= i < stored@.len() ==> (#[trigger] stored@[i]).index == i
                    && stored@[i].cause@ == old(self).query(i).failure_cause(),
    {
        let n = self.queries.len();
        let mut stored: Vec<SourceError> = Vec::new();
        let mut reported: Vec<SourceError> = Vec::new();
        let mut i: usize = 0;
        while i < n
            invariant
                n == self.count(),
                self.wf(),
                i <= n,
                forall|k: int|
                    0 <= k < self.count() ==> (#[trigger] self.query(k)).progress()
                        is CompletedErr,
                stored@.len() == i,
                reported@.len() == i,
                forall|k: int|
                    0 <= k < i ==> (#[trigger] stored@[k]).index == k && stored@[k].cause@
                        == self.query(k).failure_cause(),
                forall|k: int|
                    0 <= k < i ==> (#[trigger] reported@[k]).index == k && reported@[k].cause@
                        == self.query(k).failure_cause(),
            decreases n - i,
        {
            proof {
                assert(self.query(i as int).wf());
                assert(self.query(i as int).progress() is CompletedErr);
            }
            let cause_stored = self.queries[i].error_cause();
            let cause_reported = self.queries[i].error_cause();
            stored.push(SourceError { index: i, cause: cause_stored });
            reported.push(SourceError { index: i, cause: cause_reported });
            i += 1;
        }
        self.state = RaceState::Failed { errors: stored };
        reported
    }
}

} // verus!
