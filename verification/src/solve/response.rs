//! Query outcomes: certainty values and canonical responses.
//!
//! A successful evaluation produces a [`Response`] carrying a [`Certainty`]:
//! either `Yes` (the goal provably holds) or `Maybe` with a cause (the goal
//! is not yet decidable, because of genuine ambiguity or because the
//! recursion budget ran out).  A definitive failure is the unit error
//! [`NoSolution`]; it is never surfaced to callers as an error, only used to
//! silently drop a candidate.

use vstd::prelude::*;

verus! {

/// Why a goal could not (yet) be decided.
#[derive(Clone, Copy, Debug, PartialEq, Eq, Structural)]
pub enum MaybeCause {
    /// Several independent proofs disagree, or the subject type is still an
    /// unconstrained variable.
    Ambiguity,
    /// The recursion budget was exhausted before a proof could complete.
    Overflow,
}

/// How certain the engine is that a goal holds.
#[derive(Clone, Copy, Debug, PartialEq, Eq, Structural)]
pub enum Certainty {
    /// The goal provably holds.
    Yes,
    /// The goal is not yet decidable; retrying after further inference
    /// progress may succeed.
    Maybe(MaybeCause),
}

/// A definitive "this candidate cannot prove the goal" outcome.
#[derive(Clone, Copy, Debug, PartialEq, Eq, Structural)]
pub struct NoSolution;

/// The canonical outcome of evaluating one goal.
///
/// The merge engine treats responses as atomic, comparable values.
#[derive(Clone, Copy, Debug, PartialEq, Eq, Structural)]
pub struct Response {
    /// The certainty this response carries.
    pub certainty: Certainty,
}

/// The result of evaluating a goal: a response, or definitive failure.
pub type QueryResult = Result<Response, NoSolution>;

/// Combines the causes of two `Maybe` certainties: equal causes are kept,
/// diverging causes degrade to plain ambiguity.
pub open spec fn spec_unify_causes(a: MaybeCause, b: MaybeCause) -> MaybeCause {
    if a == b {
        a
    } else {
        MaybeCause::Ambiguity
    }
}

/// Combines the certainties of two sub-proofs that must both hold.
pub open spec fn spec_unify_certainty(a: Certainty, b: Certainty) -> Certainty {
    match (a, b) {
        (Certainty::Yes, Certainty::Yes) => Certainty::Yes,
        (Certainty::Yes, Certainty::Maybe(m)) => Certainty::Maybe(m),
        (Certainty::Maybe(m), Certainty::Yes) => Certainty::Maybe(m),
        (Certainty::Maybe(m), Certainty::Maybe(n)) => Certainty::Maybe(spec_unify_causes(m, n)),
    }
}

impl Certainty {
    /// The certainty of a conjunction of two sub-proofs.
    pub fn unify_with(self, other: Certainty) -> (r: Certainty)
        ensures
            r == spec_unify_certainty(self, other),
    {
        match (self, other) {
            (Certainty::Yes, Certainty::Yes) => Certainty::Yes,
            (Certainty::Yes, Certainty::Maybe(m)) => Certainty::Maybe(m),
            (Certainty::Maybe(m), Certainty::Yes) => Certainty::Maybe(m),
            (Certainty::Maybe(m), Certainty::Maybe(n)) => {
                if m == n {
                    Certainty::Maybe(m)
                } else {
                    Certainty::Maybe(MaybeCause::Ambiguity)
                }
            },
        }
    }
}

/// Certainty unification is commutative: the order in which two sub-proofs
/// are combined does not change the combined certainty.
pub proof fn lemma_unify_certainty_commutes(a: Certainty, b: Certainty)
    ensures
        spec_unify_certainty(a, b) == spec_unify_certainty(b, a),
{
}

/// Certainty unification is associative.
pub proof fn lemma_unify_certainty_assoc(a: Certainty, b: Certainty, c: Certainty)
    ensures
        spec_unify_certainty(spec_unify_certainty(a, b), c) == spec_unify_certainty(
            a,
            spec_unify_certainty(b, c),
        ),
{
}

} // verus!
