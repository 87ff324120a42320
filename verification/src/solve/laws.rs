//! Engine-wide laws: determinism, merge symmetry, the coherence soundness
//! gate, the environment-priority heuristic, and budget-bounded behaviour.
//!
//! Each law is stated over the mathematical model that the executable
//! engine is proved equal to ([`spec_assemble`], [`spec_merge_candidates`],
//! [`spec_evaluate_goal`]), so it transfers directly to the executable
//! entry points through their contracts.

use vstd::prelude::*;

use crate::solve::assembly::EvalCtxt;
use crate::solve::assembly::SolverMode;
use crate::solve::assembly::spec_assemble;
use crate::solve::assembly::spec_alias_bound_subst;
use crate::solve::assembly::spec_alias_pass_from;
use crate::solve::assembly::spec_clause_matches;
use crate::solve::assembly::spec_env_candidates;
use crate::solve::assembly::spec_env_pass_from;
use crate::solve::assembly::spec_evaluate_goal;
use crate::solve::assembly::spec_flounder;
use crate::solve::assembly::spec_has_overflow;
use crate::solve::assembly::spec_merge_candidates;
use crate::solve::assembly::spec_norm_pass;
use crate::solve::assembly::spec_response;
use crate::solve::assembly::spec_responses_of;
use crate::solve::assembly::spec_try_merge;
use crate::solve::assembly::spec_validate;
use crate::solve::candidate::Candidate;
use crate::solve::candidate::CandidateSource;
use crate::solve::db::Db;
use crate::solve::response::Certainty;
use crate::solve::response::NoSolution;
use crate::solve::response::MaybeCause;
use crate::solve::response::Response;
use crate::solve::subst::spec_subst_clause;
use crate::solve::terms::AliasKind;
use crate::solve::terms::AliasTy;
use crate::solve::terms::Clause;
use crate::solve::terms::Goal;
use crate::solve::terms::ParamEnv;
use crate::solve::terms::Predicate;

verus! {

/// Whether every candidate of the list carries the same response.
pub open spec fn spec_results_agree(cs: Seq<Candidate>) -> bool {
    forall|i: int, j: int|
        0 <= i < cs.len() && 0 <= j < cs.len() ==> (#[trigger] cs[i]).result == (
        #[trigger] cs[j]).result
}

/// Whether every caller-provided-bound candidate of the list carries the
/// same response.
pub open spec fn spec_env_results_agree(cs: Seq<Candidate>) -> bool {
    forall|i: int, j: int|
        0 <= i < cs.len() && 0 <= j < cs.len() && (#[trigger] cs[i]).source.spec_is_env_based()
            && (#[trigger] cs[j]).source.spec_is_env_based() ==> cs[i].result == cs[j].result
}

/// Whether some candidate of the list is caller-provided.
pub open spec fn spec_has_env(cs: Seq<Candidate>) -> bool {
    exists|i: int| 0 <= i < cs.len() && (#[trigger] cs[i]).source.spec_is_env_based()
}

/// The complete unify-merge of a candidate list succeeds exactly when the
/// list is non-empty and all its responses agree, and then returns the
/// common response.
proof fn lemma_try_merge_char(cs: Seq<Candidate>)
    ensures
        spec_try_merge(spec_responses_of(cs)) == (if cs.len() > 0 && spec_results_agree(cs) {
            Some(cs[0].result)
        } else {
            None::<Response>
        }),
{
    let rs = spec_responses_of(cs);
    assert(rs.len() == cs.len());
    if cs.len() > 0 {
        if spec_results_agree(cs) {
            assert forall|i: int| 0 <= i < rs.len() implies #[trigger] rs[i] == rs[0] by {
                assert(cs[i].result == cs[0].result);
            }
        } else {
            let (i, j): (int, int) = choose|i: int, j: int|
                0 <= i < cs.len() && 0 <= j < cs.len() && (#[trigger] cs[i]).result != (
                #[trigger] cs[j]).result;
            assert(rs[i] == cs[i].result && rs[j] == cs[j].result);
            assert(!(rs[i] == rs[0] && rs[j] == rs[0]));
        }
    }
}

/// Membership-level description of the caller-provided-bound filter.
proof fn lemma_env_filter_char(cs: Seq<Candidate>)
    ensures
        (spec_env_candidates(cs).len() > 0) == spec_has_env(cs),
        spec_env_candidates(cs).len() > 0 ==> cs.contains(spec_env_candidates(cs)[0])
            && spec_env_candidates(cs)[0].source.spec_is_env_based(),
        forall|c: Candidate|
            cs.contains(c) && c.source.spec_is_env_based() ==> #[trigger] spec_env_candidates(
                cs,
            ).contains(c),
        forall|c: Candidate|
            #[trigger] spec_env_candidates(cs).contains(c) ==> cs.contains(c)
                && c.source.spec_is_env_based(),
{
    broadcast use vstd::seq_lib::group_filter_ensures;
    broadcast use Seq::lemma_filter_contains_rev;

    let p = |c: Candidate| c.source.spec_is_env_based();
    let f = spec_env_candidates(cs);
    assert forall|c: Candidate| cs.contains(c) && c.source.spec_is_env_based() implies #[trigger] f
        .contains(c) by {
        let i = choose|i: int| 0 <= i < cs.len() && cs[i] == c;
        cs.lemma_filter_contains(p, i);
    }
    assert forall|c: Candidate| #[trigger] f.contains(c) implies cs.contains(c)
        && c.source.spec_is_env_based() by {
        let i = choose|i: int| 0 <= i < f.len() && f[i] == c;
        cs.lemma_filter_pred(p, i);
    }
    if f.len() > 0 {
        assert(f.contains(f[0]));
        assert(spec_has_env(cs)) by {
            let i = choose|i: int| 0 <= i < cs.len() && cs[i] == f[0];
            assert(cs[i].source.spec_is_env_based());
        }
    }
    if spec_has_env(cs) {
        let i = choose|i: int| 0 <= i < cs.len() && (#[trigger] cs[i]).source.spec_is_env_based();
        assert(f.contains(cs[i]));
    }
}

/// A permutation preserves membership.
proof fn lemma_perm_contains(a: Seq<Candidate>, b: Seq<Candidate>)
    requires
        a.to_multiset() == b.to_multiset(),
    ensures
        a.len() == b.len(),
        forall|c: Candidate| a.contains(c) == b.contains(c),
{
    broadcast use vstd::seq_lib::group_to_multiset_ensures;

    assert(a.to_multiset().len() == b.to_multiset().len());
    assert(a.len() == a.to_multiset().len());
    assert(b.len() == b.to_multiset().len());
    assert forall|c: Candidate| a.contains(c) == b.contains(c) by {
        assert(a.contains(c) <==> a.to_multiset().count(c) > 0);
        assert(b.contains(c) <==> b.to_multiset().count(c) > 0);
    }
}

/// **Merge symmetry.** The merge engine is invariant under permutation of
/// its candidate list: two lists with the same candidates in any order
/// merge to the same outcome, in either mode.
pub proof fn lemma_merge_symmetric(mode: SolverMode, a: Seq<Candidate>, b: Seq<Candidate>)
    requires
        a.to_multiset() == b.to_multiset(),
    ensures
        spec_merge_candidates(mode, a) == spec_merge_candidates(mode, b),
{
    lemma_perm_contains(a, b);
    lemma_try_merge_char(a);
    lemma_try_merge_char(b);
    lemma_env_filter_char(a);
    lemma_env_filter_char(b);

    // Agreement of all results transfers through membership.
    assert(spec_results_agree(a) == spec_results_agree(b)) by {
        if spec_results_agree(a) {
            lemma_agree_perm(a, b);
        }
        if spec_results_agree(b) {
            lemma_agree_perm(b, a);
        }
    }
    // Overflow presence transfers through membership.
    assert(spec_has_overflow(spec_responses_of(a)) == spec_has_overflow(spec_responses_of(b)))
        by {
        if spec_has_overflow(spec_responses_of(a)) {
            lemma_overflow_perm(a, b);
        }
        if spec_has_overflow(spec_responses_of(b)) {
            lemma_overflow_perm(b, a);
        }
    }
    if a.len() > 0 && spec_results_agree(a) {
        // Both complete merges succeed with the same common response.
        assert(a.contains(a[0]) && b.contains(b[0]));
        let i = choose|i: int| 0 <= i < b.len() && b[i] == a[0];
        assert(a[0].result == b[0].result);
    } else {
        match mode {
            SolverMode::Coherence => {},
            SolverMode::Normal => {
                // Environment agreement and presence transfer through
                // membership, so the reduced merges coincide.
                assert(spec_env_results_agree(a) == spec_env_results_agree(b)) by {
                    if spec_env_results_agree(a) {
                        lemma_env_agree_perm(a, b);
                    }
                    if spec_env_results_agree(b) {
                        lemma_env_agree_perm(b, a);
                    }
                }
                assert(spec_has_env(a) == spec_has_env(b)) by {
                    if spec_has_env(a) {
                        lemma_has_env_perm(a, b);
                    }
                    if spec_has_env(b) {
                        lemma_has_env_perm(b, a);
                    }
                }
                lemma_try_merge_char(spec_env_candidates(a));
                lemma_try_merge_char(spec_env_candidates(b));
                lemma_env_filter_agree(a);
                lemma_env_filter_agree(b);
                let fa = spec_env_candidates(a);
                let fb = spec_env_candidates(b);
                if fa.len() > 0 && spec_results_agree(fa) {
                    // The two representatives are both caller-provided
                    // members of `a`, whose results agree.
                    assert(a.contains(fa[0]) && fa[0].source.spec_is_env_based());
                    assert(b.contains(fb[0]) && fb[0].source.spec_is_env_based());
                    assert(a.contains(fb[0]));
                    let i = choose|i: int| 0 <= i < a.len() && a[i] == fa[0];
                    let j = choose|j: int| 0 <= j < a.len() && a[j] == fb[0];
                    assert(spec_env_results_agree(a));
                    assert(a[i].result == a[j].result);
                }
            },
        }
    }
}

/// Result agreement transfers along membership preservation.
proof fn lemma_agree_perm(a: Seq<Candidate>, b: Seq<Candidate>)
    requires
        forall|c: Candidate| a.contains(c) == b.contains(c),
        spec_results_agree(a),
    ensures
        spec_results_agree(b),
{
    assert forall|i: int, j: int| 0 <= i < b.len() && 0 <= j < b.len() implies (
    #[trigger] b[i]).result == (#[trigger] b[j]).result by {
        assert(b.contains(b[i]) && b.contains(b[j]));
        let k = choose|k: int| 0 <= k < a.len() && a[k] == b[i];
        let l = choose|l: int| 0 <= l < a.len() && a[l] == b[j];
        assert(a[k].result == a[l].result);
    }
}

/// Environment-result agreement transfers along membership preservation.
proof fn lemma_env_agree_perm(a: Seq<Candidate>, b: Seq<Candidate>)
    requires
        forall|c: Candidate| a.contains(c) == b.contains(c),
        spec_env_results_agree(a),
    ensures
        spec_env_results_agree(b),
{
    assert forall|i: int, j: int|
        0 <= i < b.len() && 0 <= j < b.len() && (#[trigger] b[i]).source.spec_is_env_based() && (
        #[trigger] b[j]).source.spec_is_env_based() implies b[i].result == b[j].result by {
        assert(b.contains(b[i]) && b.contains(b[j]));
        let k = choose|k: int| 0 <= k < a.len() && a[k] == b[i];
        let l = choose|l: int| 0 <= l < a.len() && a[l] == b[j];
        assert(a[k].result == a[l].result);
    }
}

/// Environment presence transfers along membership preservation.
proof fn lemma_has_env_perm(a: Seq<Candidate>, b: Seq<Candidate>)
    requires
        forall|c: Candidate| a.contains(c) == b.contains(c),
        spec_has_env(a),
    ensures
        spec_has_env(b),
{
    let i = choose|i: int| 0 <= i < a.len() && (#[trigger] a[i]).source.spec_is_env_based();
    assert(b.contains(a[i]));
    let j = choose|j: int| 0 <= j < b.len() && b[j] == a[i];
    assert(b[j].source.spec_is_env_based());
}

/// Overflow presence transfers along membership preservation.
proof fn lemma_overflow_perm(a: Seq<Candidate>, b: Seq<Candidate>)
    requires
        forall|c: Candidate| a.contains(c) == b.contains(c),
        spec_has_overflow(spec_responses_of(a)),
    ensures
        spec_has_overflow(spec_responses_of(b)),
{
    let ra = spec_responses_of(a);
    let rb = spec_responses_of(b);
    let i = choose|i: int|
        0 <= i < ra.len() && (#[trigger] ra[i]).certainty == Certainty::Maybe(MaybeCause::Overflow);
    assert(ra[i] == a[i].result);
    assert(b.contains(a[i]));
    let j = choose|j: int| 0 <= j < b.len() && b[j] == a[i];
    assert(rb[j].certainty == Certainty::Maybe(MaybeCause::Overflow));
}

/// The filtered list agrees exactly when the caller-provided candidates of
/// the original agree, and environment presence matches its length.
proof fn lemma_env_filter_agree(cs: Seq<Candidate>)
    ensures
        spec_results_agree(spec_env_candidates(cs)) == spec_env_results_agree(cs),
{
    lemma_env_filter_char(cs);
    let f = spec_env_candidates(cs);
    if spec_results_agree(f) {
        assert forall|i: int, j: int|
            0 <= i < cs.len() && 0 <= j < cs.len() && (#[trigger] cs[i]).source.spec_is_env_based()
                && (#[trigger] cs[j]).source.spec_is_env_based() implies cs[i].result
            == cs[j].result by {
            assert(cs.contains(cs[i]) && cs.contains(cs[j]));
            assert(f.contains(cs[i]) && f.contains(cs[j]));
            let k = choose|k: int| 0 <= k < f.len() && f[k] == cs[i];
            let l = choose|l: int| 0 <= l < f.len() && f[l] == cs[j];
            assert(f[k].result == f[l].result);
        }
    }
    if spec_env_results_agree(cs) {
        assert forall|i: int, j: int| 0 <= i < f.len() && 0 <= j < f.len() implies (
        #[trigger] f[i]).result == (#[trigger] f[j]).result by {
            assert(f.contains(f[i]) && f.contains(f[j]));
            assert(cs.contains(f[i]) && f[i].source.spec_is_env_based());
            assert(cs.contains(f[j]) && f[j].source.spec_is_env_based());
            let k = choose|k: int| 0 <= k < cs.len() && cs[k] == f[i];
            let l = choose|l: int| 0 <= l < cs.len() && cs[l] == f[j];
            assert(cs[k].result == cs[l].result);
        }
    }
}

/// **Determinism.** The assembled candidate list is a function of the
/// declaration database, checking mode, remaining budget and goal alone:
/// two evaluation contexts with the same mode and budget assemble
/// identical lists for the same goal against an unchanged database.
/// Together with the contract of
/// [`EvalCtxt::assemble_and_evaluate_candidates`], repeated executable
/// calls return identical candidate lists.
pub proof fn lemma_assembly_deterministic(db: Db, ecx1: EvalCtxt, ecx2: EvalCtxt, goal: Goal)
    requires
        ecx1.mode == ecx2.mode,
        ecx1.spec_budget() == ecx2.spec_budget(),
    ensures
        spec_assemble(db, ecx1.mode, ecx1.spec_budget(), goal.param_env, goal.predicate)
            == spec_assemble(db, ecx2.mode, ecx2.spec_budget(), goal.param_env, goal.predicate),
{
}

/// **Soundness gate.** In `Coherence` mode, a candidate list holding two
/// candidates with incompatible responses never merges to a guessed
/// unification: the outcome is the flounder outcome, whose certainty is
/// `Maybe` — never a definite `Yes` response chosen from the candidates.
pub proof fn lemma_coherence_soundness_gate(cs: Seq<Candidate>, i: int, j: int)
    requires
        0 <= i < cs.len(),
        0 <= j < cs.len(),
        cs[i].result != cs[j].result,
    ensures
        spec_merge_candidates(SolverMode::Coherence, cs) == spec_flounder(spec_responses_of(cs)),
        spec_merge_candidates(SolverMode::Coherence, cs)->Ok_0.certainty is Maybe,
{
    lemma_try_merge_char(cs);
    assert(!spec_results_agree(cs));
}

/// **Priority heuristic.** In `Normal` mode, when the complete merge of
/// all candidates fails but every caller-provided candidate (assumption or
/// alias bound) carries the same response — and at least one exists — the
/// merge returns that response: environment bounds are trusted over
/// conflicting declaration or builtin proofs.
pub proof fn lemma_env_priority(cs: Seq<Candidate>, k: int, r: Response)
    requires
        0 <= k < cs.len(),
        cs[k].source.spec_is_env_based(),
        cs[k].result == r,
        spec_env_results_agree(cs),
        !spec_results_agree(cs),
    ensures
        spec_merge_candidates(SolverMode::Normal, cs) == Ok::<Response, NoSolution>(r),
{
    lemma_try_merge_char(cs);
    lemma_env_filter_char(cs);
    lemma_env_filter_agree(cs);
    let f = spec_env_candidates(cs);
    assert(spec_has_env(cs));
    assert(f.len() > 0);
    lemma_try_merge_char(f);
    assert(cs.contains(f[0]) && f[0].source.spec_is_env_based());
    let l = choose|l: int| 0 <= l < cs.len() && cs[l] == f[0];
    assert(cs[l].result == cs[k].result);
}

/// **Assumption positions, soundness.** Every candidate the
/// assumption-context pass emits cites an in-range clause position whose
/// clause decides the goal, and carries the definite response: positional
/// sources are never fabricated.
pub proof fn lemma_env_pass_sound(env: ParamEnv, pred: Predicate, i: int, j: int)
    requires
        0 <= i <= env.clauses@.len(),
        0 <= j < spec_env_pass_from(env, pred, i).len(),
    ensures
        ({
            let c = spec_env_pass_from(env, pred, i)[j];
            match c.source {
                CandidateSource::ParamEnv(k) => {
                    &&& i <= k < env.clauses@.len()
                    &&& spec_clause_matches(env.clauses@[k as int], pred)
                    &&& c.result == spec_response(Certainty::Yes)
                },
                _ => false,
            }
        }),
    decreases env.clauses@.len() - i,
{
    let all = spec_env_pass_from(env, pred, i);
    let rest = spec_env_pass_from(env, pred, i + 1);
    broadcast use vstd::std_specs::vec::axiom_spec_len;

    assert(vstd::std_specs::vec::spec_vec_len(&env.clauses) == env.clauses@.len());
    if spec_clause_matches(env.clauses@[i], pred) {
        let head = Candidate {
            source: CandidateSource::ParamEnv(i as usize),
            result: spec_response(Certainty::Yes),
        };
        assert(all == seq![head] + rest);
        if j > 0 {
            lemma_env_pass_sound(env, pred, i + 1, j - 1);
            assert(all[j] == rest[j - 1]);
        } else {
            assert(all[0] == head);
        }
    } else {
        assert(all == rest);
        lemma_env_pass_sound(env, pred, i + 1, j);
    }
}

/// **Assumption positions, completeness.** Every in-scope clause that
/// decides the goal contributes its candidate, tagged with its own
/// position: no matching assumption is skipped.
pub proof fn lemma_env_pass_complete(env: ParamEnv, pred: Predicate, i: int, k: int)
    requires
        0 <= i <= k < env.clauses@.len(),
        spec_clause_matches(env.clauses@[k], pred),
    ensures
        spec_env_pass_from(env, pred, i).contains(
            Candidate {
                source: CandidateSource::ParamEnv(k as usize),
                result: spec_response(Certainty::Yes),
            },
        ),
    decreases env.clauses@.len() - i,
{
    let all = spec_env_pass_from(env, pred, i);
    let rest = spec_env_pass_from(env, pred, i + 1);
    let target = Candidate {
        source: CandidateSource::ParamEnv(k as usize),
        result: spec_response(Certainty::Yes),
    };
    broadcast use vstd::std_specs::vec::axiom_spec_len;

    assert(vstd::std_specs::vec::spec_vec_len(&env.clauses) == env.clauses@.len());
    if k == i {
        assert(all[0] == target);
    } else {
        lemma_env_pass_complete(env, pred, i + 1, k);
        let j = choose|j: int| 0 <= j < rest.len() && rest[j] == target;
        if spec_clause_matches(env.clauses@[i], pred) {
            assert(all[j + 1] == target);
        } else {
            assert(all[j] == target);
        }
    }
}

/// **Alias-bound positions, soundness.** Every candidate the alias-bound
/// pass emits cites an in-range declared-bound position whose
/// instantiated bound decides the goal, and carries exactly the response
/// the validation sub-protocol admitted.
pub proof fn lemma_alias_pass_sound(
    db: Db,
    mode: SolverMode,
    budget: nat,
    env: ParamEnv,
    pred: Predicate,
    kind: AliasKind,
    alias: AliasTy,
    bounds: Seq<Clause>,
    i: int,
    j: int,
)
    requires
        bounds.len() <= usize::MAX,
        0 <= i <= bounds.len(),
        0 <= j < spec_alias_pass_from(db, mode, budget, env, pred, kind, alias, bounds, i).len(),
    ensures
        ({
            let c = spec_alias_pass_from(db, mode, budget, env, pred, kind, alias, bounds, i)[j];
            match c.source {
                CandidateSource::AliasBound(k) => {
                    &&& i <= k < bounds.len()
                    &&& spec_clause_matches(
                        spec_subst_clause(spec_alias_bound_subst(kind, alias), bounds[k as int]),
                        pred,
                    )
                    &&& spec_validate(db, mode, budget, env, pred) == Ok::<Response, NoSolution>(
                        c.result,
                    )
                },
                _ => false,
            }
        }),
    decreases bounds.len() - i,
{
    let all = spec_alias_pass_from(db, mode, budget, env, pred, kind, alias, bounds, i);
    let rest = spec_alias_pass_from(db, mode, budget, env, pred, kind, alias, bounds, i + 1);
    let inst = spec_subst_clause(spec_alias_bound_subst(kind, alias), bounds[i]);
    if spec_clause_matches(inst, pred) && spec_validate(db, mode, budget, env, pred) is Ok {
        let resp = spec_validate(db, mode, budget, env, pred)->Ok_0;
        let head = Candidate { source: CandidateSource::AliasBound(i as usize), result: resp };
        assert(all == seq![head] + rest);
        if j > 0 {
            lemma_alias_pass_sound(db, mode, budget, env, pred, kind, alias, bounds, i + 1, j - 1);
            assert(all[j] == rest[j - 1]);
        } else {
            assert(all[0] == head);
        }
    } else {
        assert(all == rest);
        lemma_alias_pass_sound(db, mode, budget, env, pred, kind, alias, bounds, i + 1, j);
    }
}

/// **Budget-bounded termination.** All recursion in the engine is depth-
/// bounded (every function carries a termination measure that the
/// verifier checks); a goal evaluated with the budget exhausted is
/// answered `Maybe(Overflow)` instead of recursing, and the normalization
/// pass for an alias subject contributes exactly the overflow candidate at
/// that point — including for self-referential alias bounds, which can
/// therefore never loop.
pub proof fn lemma_budget_exhaustion(db: Db, mode: SolverMode, env: ParamEnv, pred: Predicate)
    requires
        pred.spec_self_ty() is Alias,
    ensures
        spec_evaluate_goal(db, mode, 0, env, pred) == Ok::<Response, NoSolution>(
            spec_response(Certainty::Maybe(MaybeCause::Overflow)),
        ),
        spec_norm_pass(db, mode, 0, env, pred) == seq![
            Candidate {
                source: CandidateSource::BuiltinImpl,
                result: spec_response(Certainty::Maybe(MaybeCause::Overflow)),
            },
        ],
{
}

} // verus!
