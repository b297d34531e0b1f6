//! A single unit of asynchronous work: one outbound call to one candidate
//! source.
//!
//! A query carries an opaque identity (a source label), a script saying when
//! it completes under the driver's clock and with which terminal outcome,
//! and its current progress state.  Polling is idempotent while the query is
//! pending, and the query moves to a terminal state exactly once.

use vstd::prelude::*;

verus! {

/// The terminal outcome that a query's underlying operation produces:
/// either a success value or the cause of its failure.
pub enum QueryOutcome {
    Success(u64),
    Failure(String),
}

/// Progress state of one query: not yet started, in flight, or terminal
/// with the value or cause it ended with.
pub enum QueryState {
    NotStarted,
    Pending,
    CompletedOk(u64),
    CompletedErr(String),
}

/// What one poll reports to the driver: still pending, or ready with the
/// query's terminal outcome.
pub enum PollStep {
    Pending,
    ReadyOk(u64),
    ReadyErr(String),
}

/// One asynchronous query: an identity naming its source, the script that
/// decides when and how it completes, and its progress state.
pub struct AsyncQuery {
    identity: String,
    ready_at: u64,
    outcome: QueryOutcome,
    state: QueryState,
}

impl AsyncQuery {
    /// The source label this query carries.
    pub closed spec fn id(self) -> Seq<char> {
        self.identity@
    }

    /// The instant (on the driver's clock) at which the query completes.
    pub closed spec fn ready_time(self) -> u64 {
        self.ready_at
    }

    /// Whether the query's terminal outcome is a success.
    pub closed spec fn succeeds(self) -> bool {
        self.outcome is Success
    }

    /// The value the query yields when it succeeds.
    pub closed spec fn success_value(self) -> u64 {
        self.outcome->Success_0
    }

    /// The cause the query reports when it fails.
    pub closed spec fn failure_cause(self) -> Seq<char> {
        self.outcome->Failure_0@
    }

    /// The query's current progress state.
    pub closed spec fn progress(self) -> QueryState {
        self.state
    }

    /// A terminal query has completed, successfully or not.
    pub open spec fn terminal(self) -> bool {
        self.progress() is CompletedOk || self.progress() is CompletedErr
    }

    /// A terminal state always agrees with the query's scripted outcome.
    pub open spec fn wf(self) -> bool {
        &&& (self.progress() matches QueryState::CompletedOk(v) ==> self.succeeds()
            && v == self.success_value())
        &&& (self.progress() matches QueryState::CompletedErr(c) ==> !self.succeeds()
            && c@ == self.failure_cause())
    }

    /// Two queries share a script when they name the same source and are
    /// scheduled to complete at the same instant with the same outcome.
    pub open spec fn same_script(self, other: AsyncQuery) -> bool {
        &&& self.id() == other.id()
        &&& self.ready_time() == other.ready_time()
        &&& self.succeeds() == other.succeeds()
        &&& self.succeeds() ==> self.success_value() == other.success_value()
        &&& !self.succeeds() ==> self.failure_cause() == other.failure_cause()
    }

    /// Builds a query that, once started, completes at `ready_at` with the
    /// given outcome.
    pub fn new(identity: String, ready_at: u64, outcome: QueryOutcome) -> (q: AsyncQuery)
        ensures
            q.id() == identity@,
            q.ready_time() == ready_at,
            q.succeeds() == (outcome is Success),
            (outcome matches QueryOutcome::Success(v) ==> q.success_value() == v),
            (outcome matches QueryOutcome::Failure(c) ==> q.failure_cause() == c@),
            q.progress() is NotStarted,
            q.wf(),
    {
        AsyncQuery { identity, ready_at, outcome, state: QueryState::NotStarted }
    }

    /// Launches the query: it is now in flight and may be polled.
    pub fn start(&mut self)
        requires
            old(self).progress() is NotStarted,
        ensures
            final(self).same_script(*old(self)),
            final(self).progress() is Pending,
            final(self).wf(),
    {
        self.state = QueryState::Pending;
    }

    /// Advances the query at instant `now`.  While `now` is before the
    /// scripted completion time the query stays pending; at or after it,
    /// the query reaches its terminal state and reports it, exactly once.
    pub fn poll(&mut self, now: u64) -> (step: PollStep)
        requires
            old(self).progress() is Pending,
        ensures
            final(self).same_script(*old(self)),
            final(self).wf(),
            now < old(self).ready_time() ==> step is Pending
                && final(self).progress() is Pending,
            now >= old(self).ready_time() && old(self).succeeds() ==> step
                == PollStep::ReadyOk(old(self).success_value())
                && final(self).progress() == QueryState::CompletedOk(old(self).success_value()),
            now >= old(self).ready_time() && !old(self).succeeds() ==> (step
                matches PollStep::ReadyErr(c) && c@ == old(self).failure_cause())
                && (final(self).progress() matches QueryState::CompletedErr(c2)
                && c2@ == old(self).failure_cause()),
    {
        if now < self.ready_at {
            PollStep::Pending
        } else {
            match &self.outcome {
                QueryOutcome::Success(v) => {
                    let value: u64 = *v;
                    self.state = QueryState::CompletedOk(value);
                    PollStep::ReadyOk(value)
                },
                QueryOutcome::Failure(c) => {
                    let recorded: String = c.clone();
                    let reported: String = recorded.clone();
                    self.state = QueryState::CompletedErr(recorded);
                    PollStep::ReadyErr(reported)
                },
            }
        }
    }

    /// Whether the query has reached a terminal state.
    pub fn is_terminal(&self) -> (b: bool)
        ensures
            b == self.terminal(),
    {
        match &self.state {
            QueryState::CompletedOk(_) => true,
            QueryState::CompletedErr(_) => true,
            QueryState::NotStarted => false,
            QueryState::Pending => false,
        }
    }

    /// Hands out a copy of the cause a failed query ended with.
    pub fn error_cause(&self) -> (cause: String)
        requires
            self.wf(),
            self.progress() is CompletedErr,
        ensures
            cause@ == self.failure_cause(),
    {
        match &self.state {
            QueryState::CompletedErr(c) => c.clone(),
            _ => {
                proof {
                    assert(false);
                }
                String::new()
            },
        }
    }

    /// Hands out a copy of the source label.
    pub fn identity_label(&self) -> (label: String)
        ensures
            label@ == self.id(),
    {
        self.identity.clone()
    }
}

} // verus!
