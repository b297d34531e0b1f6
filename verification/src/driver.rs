//! The scheduling harness that advances a race until it resolves.
//!
//! The driver is a cooperative scheduler: on every step of its clock it
//! polls each still-pending query once, in index order.  The first query to
//! report success decides the race; queries that complete at the same
//! instant are decided in favour of the lower index, and once the race is
//! decided no further query is polled.  If every query fails, the driver
//! reports one error per query, in the original order.

use vstd::prelude::*;

use crate::query::AsyncQuery;
use crate::query::PollStep;
use crate::query::QueryOutcome;
use crate::query::QueryState;
use crate::race_set::RaceOutcome;
use crate::race_set::RaceSet;
use crate::race_set::RaceState;
use crate::race_set::some_success;
use crate::race_set::winning_index;

verus! {

/// The latest instant at which any query in the list is scripted to
/// complete; no race outlives it.
pub open spec fn max_ready(qs: Seq<AsyncQuery>) -> int
    decreases qs.len(),
{
    if qs.len() == 0 {
        0
    } else if qs.last().ready_time() as int > max_ready(qs.drop_last()) {
        qs.last().ready_time() as int
    } else {
        max_ready(qs.drop_last())
    }
}

proof fn lemma_max_ready_bounds(qs: Seq<AsyncQuery>)
    ensures
        forall|i: int| 0 <= i < qs.len() ==> (#[trigger] qs[i]).ready_time() <= max_ready(qs),
    decreases qs.len(),
{
    if qs.len() > 0 {
        lemma_max_ready_bounds(qs.drop_last());
        assert forall|i: int|
            0 <= i < qs.len() implies (#[trigger] qs[i]).ready_time() <= max_ready(qs) by {
            if i < qs.len() - 1 {
                assert(qs.drop_last()[i] == qs[i]);
                assert(qs.drop_last()[i].ready_time() <= max_ready(qs.drop_last()));
            }
        }
    }
}

/// The execution substrate: a cooperative scheduler over a worker pool of
/// a fixed, configured size.  The pool size bounds the substrate's
/// resources; it does not change which query wins, because every pending
/// query is advanced on every step of the clock.
pub struct RaceDriver {
    pool_size: usize,
}

impl RaceDriver {
    /// The configured number of workers.
    pub closed spec fn pool(self) -> usize {
        self.pool_size
    }

    /// Builds a driver over a pool of `pool_size` workers; a pool must
    /// hold at least one worker.
    pub fn new(pool_size: usize) -> (driver: RaceDriver)
        requires
            pool_size >= 1,
        ensures
            driver.pool() == pool_size,
    {
        RaceDriver { pool_size }
    }

    /// The configured number of workers.
    pub fn pool_size(&self) -> (n: usize)
        ensures
            n == self.pool(),
    {
        self.pool_size
    }

    /// Runs the race to its decision: starts every query, advances all of
    /// them concurrently, and returns as soon as the state machine can
    /// decide.  The first query to succeed wins — at equal instants the
    /// lower index — and its identity and value are reported; if every
    /// query fails, the full index-aligned error list is reported
    /// instead.  Either way the set is left decided, its scripts intact,
    /// and no query is advanced past the decision.
    #[verifier::loop_isolation(false)]
    pub fn run(&self, set: &mut RaceSet) -> (out: RaceOutcome)
        requires
            old(set).wf(),
            old(set).fresh(),
        ensures
            final(set).wf(),
            final(set).same_scripts(*old(set)),
            final(set).decided(),
            (out is Resolved) == some_success(old(set).queries()),
            out matches RaceOutcome::Resolved { winner_index, winner_identity, value } ==> {
                &&& winning_index(old(set).queries(), winner_index as int)
                &&& winner_identity@ == old(set).query(winner_index as int).id()
                &&& value == old(set).query(winner_index as int).success_value()
                &&& final(set).query(winner_index as int).progress() == QueryState::CompletedOk(
                    value,
                )
                &&& final(set).race_state() == (RaceState::Resolved { winner_index, value })
                &&& forall|j: int|
                    0 <= j < final(set).count() && j != winner_index as int ==> !((
                    #[trigger] final(set).query(j)).progress() is CompletedOk)
            },
            out matches RaceOutcome::AllFailed { errors } ==> {
                &&& errors@.len() == old(set).count()
                &&& forall|i: int|
                    0 <= i < errors@.len() ==> (#[trigger] errors@[i]).index == i
                        && errors@[i].cause@ == old(set).query(i).failure_cause()
                &&& forall|i: int|
                    0 <= i < old(set).count() ==> !(#[trigger] old(set).query(i)).succeeds()
                &&& final(set).race_state() is Failed
            },
    {
        let ghost orig: RaceSet = *set;
        let n = set.query_count();

        // Launch every query: they race from the same starting instant.
        let mut i: usize = 0;
        while i < n
            invariant
                n == set.count(),
                set.wf(),
                set.same_scripts(orig),
                !set.decided(),
                i <= n,
                forall|k: int| 0 <= k < i ==> (#[trigger] set.query(k)).progress() is Pending,
                forall|k: int| i <= k < n ==> (#[trigger] set.query(k)).progress() is NotStarted,
            decreases n - i,
        {
            set.start_query(i);
            i += 1;
        }

        proof {
            assert(set.query(0).progress() is Pending);
        }
        let mut now: u64 = 0;
        loop
            invariant
                n == set.count(),
                set.wf(),
                set.same_scripts(orig),
                !set.decided(),
                forall|k: int|
                    0 <= k < n ==> (#[trigger] set.query(k)).progress() is Pending
                        || set.query(k).progress() is CompletedErr,
                forall|k: int|
                    0 <= k < n && (#[trigger] set.query(k)).progress() is Pending
                        ==> set.query(k).ready_time() >= now,
                exists|k: int| 0 <= k < n && (#[trigger] set.query(k)).progress() is Pending,
            decreases max_ready(orig.queries()) + 1 - now,
        {
            proof {
                lemma_max_ready_bounds(orig.queries());
                let k = choose|k: int|
                    0 <= k < n && (#[trigger] set.query(k)).progress() is Pending;
                assert(orig.queries()[k].ready_time() <= max_ready(orig.queries()));
                assert(now <= max_ready(orig.queries()));
            }

            // One round: poll every still-pending query once, in index
            // order, at the current instant.
            let mut i: usize = 0;
            while i < n
                invariant
                    n == set.count(),
                    set.wf(),
                    set.same_scripts(orig),
                    !set.decided(),
                    i <= n,
                    forall|k: int|
                        0 <= k < n ==> (#[trigger] set.query(k)).progress() is Pending
                            || set.query(k).progress() is CompletedErr,
                    forall|k: int|
                        0 <= k < i && (#[trigger] set.query(k)).progress() is Pending
                            ==> set.query(k).ready_time() > now,
                    forall|k: int|
                        i <= k < n && (#[trigger] set.query(k)).progress() is Pending
                            ==> set.query(k).ready_time() >= now,
                decreases n - i,
            {
                if !set.query_terminal(i) {
                    let ghost before_poll: RaceSet = *set;
                    let step = set.poll_query(i, now);
                    if let PollStep::ReadyOk(value) = step {
                        proof {
                            assert forall|k: int|
                                0 <= k < set.count() implies (#[trigger] set.query(k)).wf()
                                    && set.query(k).same_script(orig.query(k)) by {
                                if k != i as int {
                                    assert(set.query(k) == before_poll.query(k));
                                }
                            }
                            assert(set.wf());
                            assert(set.same_scripts(orig));
                            // The first success decides the race: every other
                            // candidate either completes strictly later or, at
                            // this same instant, carries a higher index.
                            assert(before_poll.query(i as int).ready_time() == now);
                            assert forall|j: int|
                                0 <= j < orig.queries().len()
                                    && (#[trigger] orig.queries()[j]).succeeds()
                                implies orig.queries()[i as int].ready_time()
                                    < orig.queries()[j].ready_time()
                                    || (orig.queries()[i as int].ready_time()
                                    == orig.queries()[j].ready_time() && i as int <= j) by {
                                if j != i as int {
                                    assert(set.query(j) == before_poll.query(j));
                                    assert(set.query(j).same_script(orig.query(j)));
                                    assert(set.query(j).succeeds());
                                    assert(set.query(j).wf());
                                    assert(set.query(j).progress() is Pending);
                                    assert(orig.queries()[j].ready_time() == set.query(
                                        j,
                                    ).ready_time());
                                }
                            }
                            assert(orig.queries()[i as int].succeeds());
                            assert(winning_index(orig.queries(), i as int));
                            assert(some_success(orig.queries()));
                        }
                        let ghost before_record: RaceSet = *set;
                        set.record_completion(i, QueryOutcome::Success(value));
                        proof {
                            assert forall|k: int|
                                0 <= k < set.count() implies (#[trigger] set.query(k)).wf()
                                    && set.query(k).same_script(orig.query(k)) by {
                                assert(set.query(k) == before_record.query(k));
                            }
                            assert(set.wf());
                            assert(set.same_scripts(orig));
                            assert(set.query(i as int).progress() == QueryState::CompletedOk(
                                value,
                            ));
                            // No loser was advanced past the decision: each
                            // is still pending or had already failed.
                            assert forall|j: int|
                                0 <= j < set.count() && j != i as int
                                implies !((#[trigger] set.query(j)).progress()
                                is CompletedOk) by {
                                assert(set.query(j) == before_record.query(j));
                                assert(before_record.query(j) == before_poll.query(j));
                            }
                        }
                        let winner_identity = set.query_identity(i);
                        return RaceOutcome::Resolved { winner_index: i, winner_identity, value };
                    }
                }
                i += 1;
            }

            if set.all_terminal() {
                // Every query failed: aggregate the causes, index-aligned.
                proof {
                    assert forall|k: int|
                        0 <= k < orig.count()
                        implies !(#[trigger] orig.queries()[k]).succeeds() by {
                        assert(set.query(k).progress() is CompletedErr);
                        assert(set.query(k).wf());
                        assert(set.query(k).same_script(orig.query(k)));
                    }
                    assert(!some_success(orig.queries()));
                }
                let ghost before_seal: RaceSet = *set;
                let errors = set.seal_all_failed();
                proof {
                    assert forall|k: int|
                        0 <= k < set.count() implies (#[trigger] set.query(k)).wf()
                            && set.query(k).same_script(orig.query(k)) by {
                        assert(set.query(k) == before_seal.query(k));
                    }
                    assert(set.wf());
                    assert(set.same_scripts(orig));
                }
                return RaceOutcome::AllFailed { errors };
            }

            proof {
                assert(exists|k: int|
                    0 <= k < n && !(#[trigger] set.query(k)).terminal());
                let k = choose|k: int| 0 <= k < n && !(#[trigger] set.query(k)).terminal();
                assert(set.query(k).progress() is Pending);
                assert(set.query(k).ready_time() > now);
            }
            now = now + 1;
        }
    }
}

} // verus!
