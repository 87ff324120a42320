//! Candidates: possible ways to prove one goal.

use vstd::prelude::*;

use crate::solve::response::Response;

verus! {

/// The provenance of a candidate: how the goal would be proven.
#[derive(Clone, Copy, Debug, PartialEq, Eq, Structural)]
pub enum CandidateSource {
    /// An explicit implementation declaration, by id.
    Impl(u64),
    /// A rule built into the engine.
    BuiltinImpl,
    /// The n-th assumption of the caller's environment.  The index is a
    /// positional reference within one environment snapshot, not a stable
    /// key.
    ParamEnv(usize),
    /// The n-th declared bound of the subject alias's associated item.
    AliasBound(usize),
}

/// One possible way to prove a goal: its provenance and the response that
/// using it would produce.  Candidates are created and consumed within one
/// assembly call and never stored across queries.
#[derive(Clone, Copy, Debug, PartialEq, Eq, Structural)]
pub struct Candidate {
    /// How the goal would be proven.
    pub source: CandidateSource,
    /// The response produced by this proof.
    pub result: Response,
}

impl CandidateSource {
    /// Whether this source is a caller-provided bound (an environment
    /// assumption or an alias bound): the sources the merge engine may
    /// prioritize outside of coherence checking.
    pub open spec fn spec_is_env_based(self) -> bool {
        match self {
            CandidateSource::ParamEnv(_) => true,
            CandidateSource::AliasBound(_) => true,
            _ => false,
        }
    }

    /// Whether this source is a caller-provided bound.
    pub fn is_env_based(&self) -> (r: bool)
        ensures
            r == self.spec_is_env_based(),
    {
        match self {
            CandidateSource::ParamEnv(_) => true,
            CandidateSource::AliasBound(_) => true,
            _ => false,
        }
    }
}

} // verus!
