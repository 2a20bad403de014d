//! A periodically refreshed, concurrently readable contributor cache.
//!
//! The library aggregates raw per-repository contributor records into a
//! ranked list ([`aggregate`]), tracks the cache's lifecycle through an
//! explicit staleness state machine ([`contributors::ContributorsState`],
//! driven by [`scheduler`]), holds the current state in a whole-value
//! snapshot store ([`store::ContributorsStore`]), and translates a state
//! into HTTP freshness semantics ([`policy::decide`]).
//!
//! All I/O (fetching repositories and contributors from the source API,
//! timers, serving HTTP) lives outside this crate; the library works on
//! plain values and every function here carries a verified contract.

pub mod aggregate;
pub mod api_error;
pub mod catchers;
pub mod headers;
pub mod contributors;
pub mod policy;
pub mod scheduler;
pub mod store;
