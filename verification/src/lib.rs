//! A first-success race over a set of asynchronous queries.
//!
//! A caller builds a list of [`query::AsyncQuery`] handles, wraps them in a
//! [`race_set::RaceSet`], and hands the set to a [`driver::RaceDriver`].  The
//! driver advances every query concurrently (a cooperative round-robin over
//! simulated time) and resolves to the first query that completes
//! successfully; if every query fails, it reports one error per query, in
//! the original order.

pub mod driver;
pub mod query;
pub mod race_set;
pub mod repository;

pub use driver::RaceDriver;
pub use query::AsyncQuery;
pub use query::PollStep;
pub use query::QueryOutcome;
pub use query::QueryState;
pub use race_set::RaceError;
pub use race_set::RaceOutcome;
pub use race_set::RaceSet;
pub use race_set::RaceState;
pub use race_set::SourceError;
pub use repository::RegionRepository;
