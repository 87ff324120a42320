//! The capability-resolution engine.
//!
//! A *goal* (a subject type plus a required capability) is decided by
//! assembling every possible proof candidate and then merging the candidate
//! list into a single outcome.  The engine is a depth-first, synchronous
//! recursive evaluator; a per-query recursion budget bounds all nested work.

pub mod assembly;
pub mod candidate;
pub mod db;
pub mod laws;
pub mod response;
pub mod subst;
pub mod terms;
