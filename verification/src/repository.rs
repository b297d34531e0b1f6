//! A candidate source of region data: the host and port of one remote
//! server.
//!
//! A repository is a source descriptor; it does not perform the transport
//! itself.  Wrapping it in a query pairs the source's identity with the
//! scripted behaviour of one outbound call, so that a race over several
//! repositories reports which source won.

use vstd::prelude::*;

use crate::query::AsyncQuery;
use crate::query::QueryOutcome;

verus! {

/// One candidate region server, named by host and port.
#[derive(Debug, Clone)]
pub struct RegionRepository {
    pub host: String,
    pub port: i32,
}

impl RegionRepository {
    /// Describes the server at `host:port`.
    pub fn new(host: String, port: i32) -> (repo: RegionRepository)
        ensures
            repo.host@ == host@,
            repo.port == port,
    {
        RegionRepository { host, port }
    }

    /// Wraps one call to this source in a query handle: the query carries
    /// the host as its identity and completes as scripted.
    pub fn query(&self, ready_at: u64, outcome: QueryOutcome) -> (q: AsyncQuery)
        ensures
            q.id() == self.host@,
            q.ready_time() == ready_at,
            q.succeeds() == (outcome is Success),
            (outcome matches QueryOutcome::Success(v) ==> q.success_value() == v),
            (outcome matches QueryOutcome::Failure(c) ==> q.failure_cause() == c@),
            q.progress() is NotStarted,
            q.wf(),
    {
        AsyncQuery::new(self.host.clone(), ready_at, outcome)
    }
}

} // verus!
