//! Candidate assembly and the response merge engine.
//!
//! [`EvalCtxt::assemble_and_evaluate_candidates`] runs the enumeration
//! passes in a fixed order, appending to one flat candidate list, and
//! [`EvalCtxt::merge_candidates`] reduces a candidate list to one outcome.
//! Every function here is a total function of the declaration database, the
//! evaluation context and the goal; the contracts state exactly that, which
//! is what makes re-evaluation deterministic.
//!
//! Recursion discipline: every re-entrant evaluation happens at a strictly
//! larger depth, and a goal reaching the configured limit is answered with
//! certainty `Maybe(Overflow)` instead of recursing.  The alias-bound
//! validation sub-protocol recurses at the *same* depth but on a strictly
//! smaller subject, so all recursion is well founded.
//!
//! Speculative evaluation (the "probe" of the depth-first search) needs no
//! explicit snapshot and rollback here: matching and substitution are pure
//! functions, so a failed attempt leaves no bindings behind by
//! construction, and committing a successful normalization is just using
//! its result.
//!
//! Built-in rules decide capability-holds goals; projection-equals goals
//! are decided by declarations, assumptions and alias bounds.

use vstd::prelude::*;

use crate::solve::candidate::Candidate;
use crate::solve::candidate::CandidateSource;
use crate::solve::db::Db;
use crate::solve::db::ImplDecl;
use crate::solve::db::shape_could_match;
use crate::solve::db::spec_find_adt;
use crate::solve::db::spec_find_item_bounds;
use crate::solve::db::spec_find_trait;
use crate::solve::db::spec_shape_could_match;
use crate::solve::response::Certainty;
use crate::solve::response::MaybeCause;
use crate::solve::response::NoSolution;
use crate::solve::response::QueryResult;
use crate::solve::response::Response;
use crate::solve::response::spec_unify_certainty;
use crate::solve::subst::Subst;
use crate::solve::subst::match_trait_ref;
use crate::solve::subst::spec_match_trait_ref;
use crate::solve::subst::spec_match_ty;
use crate::solve::subst::spec_subst_clause;
use crate::solve::subst::spec_subst_dyn_bound;
use crate::solve::subst::spec_subst_ty;
use crate::solve::subst::subst_clause;
use crate::solve::subst::subst_dyn_bound;
use crate::solve::subst::subst_ty;
use crate::solve::terms::AliasKind;
use crate::solve::terms::AliasTy;
use crate::solve::terms::Clause;
use crate::solve::terms::DynBound;
use crate::solve::terms::DynBoundList;
use crate::solve::terms::Goal;
use crate::solve::terms::ParamEnv;
use crate::solve::terms::Predicate;
use crate::solve::terms::ProjPred;
use crate::solve::terms::TraitRef;
use crate::solve::terms::Ty;
use crate::solve::terms::TyList;
use crate::solve::terms::Reveal;
use crate::solve::terms::alias_eq;
use crate::solve::terms::alias_size;
use crate::solve::terms::dyn_bound_eq;
use crate::solve::terms::ty_list_eq;
use crate::solve::terms::clause_eq;
use crate::solve::terms::pred_size;
use crate::solve::terms::proj_pred_eq;
use crate::solve::terms::trait_ref_eq;
use crate::solve::terms::trait_ref_size;
use crate::solve::terms::ty_eq;
use crate::solve::terms::ty_list_size;
use crate::solve::terms::ty_size;

verus! {

/// The checking mode of one query.
#[derive(Clone, Copy, Debug, PartialEq, Eq, Structural)]
pub enum SolverMode {
    /// Ordinary checking: incomplete-but-useful merge heuristics allowed.
    Normal,
    /// Global-uniqueness (overlap) checking: only sound, complete merge
    /// policies may be applied.
    Coherence,
}

/// The per-query evaluation context: checking mode, recursion budget and
/// current depth.  A context is created per top-level query and never shared
/// across queries; re-entrant evaluation uses a copy at a larger depth, so
/// the depth is restored on every exit path by construction.
#[derive(Clone, Copy, Debug)]
pub struct EvalCtxt {
    /// The checking mode.
    pub mode: SolverMode,
    /// The recursion budget.
    pub limit: usize,
    /// The current recursion depth; at most `limit`.
    pub depth: usize,
}

// ---------------------------------------------------------------------------
// Assumption matching
// ---------------------------------------------------------------------------

/// Whether an assumption clause decides the given predicate: the clause must
/// be a capability-style clause structurally identical to the predicate.
pub open spec fn spec_clause_matches(c: Clause, pred: Predicate) -> bool {
    match (c, pred) {
        (Clause::Trait(r), Predicate::Trait(g)) => r == g,
        (Clause::Projection(p), Predicate::Projection(g)) => p == g,
        _ => false,
    }
}

/// Whether an assumption clause decides the given predicate.
pub fn clause_matches(c: &Clause, pred: &Predicate) -> (r: bool)
    ensures
        r == spec_clause_matches(*c, *pred),
{
    match (c, pred) {
        (Clause::Trait(r0), Predicate::Trait(g)) => trait_ref_eq(r0, g),
        (Clause::Projection(p), Predicate::Projection(g)) => proj_pred_eq(p, g),
        _ => false,
    }
}

// ---------------------------------------------------------------------------
// Small term utilities
// ---------------------------------------------------------------------------

/// A substitution binding hole `k + i` to the `i`-th list element.  Hole
/// positions saturate at the largest id; argument lists never approach that
/// length.
pub open spec fn spec_index_subst(l: TyList, k: u64) -> Subst
    decreases l,
{
    match l {
        TyList::Nil => Subst::Nil,
        TyList::Cons(head, tail) => Subst::Cons(
            k,
            head,
            Box::new(
                spec_index_subst(*tail, if k < u64::MAX { (k + 1) as u64 } else { k }),
            ),
        ),
    }
}

/// A substitution binding hole `k + i` to the `i`-th list element.
pub fn index_subst(l: &TyList, k: u64) -> (r: Subst)
    ensures
        r == spec_index_subst(*l, k),
    decreases l,
{
    match l {
        TyList::Nil => Subst::Nil,
        TyList::Cons(head, tail) => {
            let next: u64 = if k < u64::MAX {
                k + 1
            } else {
                k
            };
            Subst::Cons(k, Box::new((**head).clone()), Box::new(index_subst(tail, next)))
        },
    }
}

/// The instantiation of one existential bound at a subject type.
pub open spec fn spec_inst_bound(self_ty: Ty, b: DynBound) -> Clause {
    match b {
        DynBound::Trait(id, args) => Clause::Trait(
            TraitRef { trait_id: id, self_ty: Box::new(self_ty), args },
        ),
        DynBound::Projection(id, args, alias_id, term) => Clause::Projection(
            ProjPred {
                alias: AliasTy {
                    alias_id,
                    owner_trait: id,
                    self_ty: Box::new(self_ty),
                    args,
                },
                term,
            },
        ),
    }
}

/// The instantiation of one existential bound at a subject type.
pub fn inst_bound(self_ty: &Ty, b: &DynBound) -> (r: Clause)
    ensures
        r == spec_inst_bound(*self_ty, *b),
{
    match b {
        DynBound::Trait(id, args) => Clause::Trait(
            TraitRef {
                trait_id: *id,
                self_ty: Box::new(self_ty.clone()),
                args: args.clone(),
            },
        ),
        DynBound::Projection(id, args, alias_id, term) => Clause::Projection(
            ProjPred {
                alias: AliasTy {
                    alias_id: *alias_id,
                    owner_trait: *id,
                    self_ty: Box::new(self_ty.clone()),
                    args: args.clone(),
                },
                term: Box::new((**term).clone()),
            },
        ),
    }
}

/// Capability-style clauses turned into nested goal predicates; clauses that
/// are not capability-style contribute nothing.
pub open spec fn spec_clause_goals(cs: Seq<Clause>) -> Seq<Predicate>
    decreases cs.len(),
{
    if cs.len() == 0 {
        Seq::empty()
    } else {
        let rest = spec_clause_goals(cs.drop_first());
        match cs[0] {
            Clause::Trait(r) => seq![Predicate::Trait(r)] + rest,
            Clause::Projection(p) => seq![Predicate::Projection(p)] + rest,
            Clause::Region => rest,
        }
    }
}

fn clause_goals_from(cs: &Vec<Clause>, i: usize) -> (r: Vec<Predicate>)
    requires
        i <= cs@.len(),
    ensures
        r@ == spec_clause_goals(cs@.skip(i as int)),
    decreases cs@.len() - i,
{
    if i == cs.len() {
        proof {
            assert(cs@.skip(i as int) =~= Seq::<Clause>::empty());
        }
        Vec::new()
    } else {
        proof {
            assert(cs@.skip(i as int).drop_first() =~= cs@.skip(i + 1 as int));
            assert(cs@.skip(i as int)[0] == cs@[i as int]);
        }
        let mut rest = clause_goals_from(cs, i + 1);
        match &cs[i] {
            Clause::Trait(r0) => {
                let mut out: Vec<Predicate> = Vec::new();
                out.push(Predicate::Trait(r0.clone()));
                out.append(&mut rest);
                proof {
                    assert(out@ =~= seq![Predicate::Trait(cs@[i as int]->Trait_0)]
                        + spec_clause_goals(cs@.skip(i + 1 as int)));
                }
                out
            },
            Clause::Projection(p) => {
                let mut out: Vec<Predicate> = Vec::new();
                out.push(Predicate::Projection(p.clone()));
                out.append(&mut rest);
                proof {
                    assert(out@ =~= seq![Predicate::Projection(cs@[i as int]->Projection_0)]
                        + spec_clause_goals(cs@.skip(i + 1 as int)));
                }
                out
            },
            Clause::Region => rest,
        }
    }
}

/// Capability-style clauses turned into nested goal predicates.
pub fn clause_goals(cs: &Vec<Clause>) -> (r: Vec<Predicate>)
    ensures
        r@ == spec_clause_goals(cs@),
{
    proof {
        assert(cs@.skip(0) =~= cs@);
    }
    clause_goals_from(cs, 0)
}

/// The value pattern a declaration gives the associated item, if any.
pub open spec fn spec_find_assoc(vs: Seq<(u64, Ty)>, alias_id: u64) -> Option<Ty>
    decreases vs.len(),
{
    if vs.len() == 0 {
        None
    } else if vs[0].0 == alias_id {
        Some(vs[0].1)
    } else {
        spec_find_assoc(vs.drop_first(), alias_id)
    }
}

fn find_assoc_from<'a>(vs: &'a Vec<(u64, Ty)>, alias_id: u64, i: usize) -> (r: Option<&'a Ty>)
    requires
        i <= vs@.len(),
    ensures
        match r {
            Some(t) => spec_find_assoc(vs@.skip(i as int), alias_id) == Some(*t),
            None => spec_find_assoc(vs@.skip(i as int), alias_id) is None,
        },
    decreases vs@.len() - i,
{
    if i == vs.len() {
        proof {
            assert(vs@.skip(i as int) =~= Seq::<(u64, Ty)>::empty());
        }
        None
    } else {
        proof {
            assert(vs@.skip(i as int).drop_first() =~= vs@.skip(i + 1 as int));
            assert(vs@.skip(i as int)[0] == vs@[i as int]);
        }
        if vs[i].0 == alias_id {
            Some(&vs[i].1)
        } else {
            find_assoc_from(vs, alias_id, i + 1)
        }
    }
}

/// The value pattern a declaration gives the associated item, if any.
pub fn find_assoc<'a>(vs: &'a Vec<(u64, Ty)>, alias_id: u64) -> (r: Option<&'a Ty>)
    ensures
        match r {
            Some(t) => spec_find_assoc(vs@, alias_id) == Some(*t),
            None => spec_find_assoc(vs@, alias_id) is None,
        },
{
    proof {
        assert(vs@.skip(0) =~= vs@);
    }
    find_assoc_from(vs, alias_id, 0)
}

/// A substitution applied to every clause of a list.
pub open spec fn spec_subst_clauses(s: Subst, cs: Seq<Clause>) -> Seq<Clause>
    decreases cs.len(),
{
    if cs.len() == 0 {
        Seq::empty()
    } else {
        seq![spec_subst_clause(s, cs[0])] + spec_subst_clauses(s, cs.drop_first())
    }
}

fn subst_clauses_from(s: &Subst, cs: &Vec<Clause>, i: usize) -> (r: Vec<Clause>)
    requires
        i <= cs@.len(),
    ensures
        r@ == spec_subst_clauses(*s, cs@.skip(i as int)),
    decreases cs@.len() - i,
{
    if i == cs.len() {
        proof {
            assert(cs@.skip(i as int) =~= Seq::<Clause>::empty());
        }
        Vec::new()
    } else {
        proof {
            assert(cs@.skip(i as int).drop_first() =~= cs@.skip(i + 1 as int));
            assert(cs@.skip(i as int)[0] == cs@[i as int]);
        }
        let mut rest = subst_clauses_from(s, cs, i + 1);
        let mut out: Vec<Clause> = Vec::new();
        out.push(subst_clause(s, &cs[i]));
        out.append(&mut rest);
        proof {
            assert(out@ =~= seq![spec_subst_clause(*s, cs@[i as int])] + spec_subst_clauses(
                *s,
                cs@.skip(i + 1 as int),
            ));
        }
        out
    }
}

/// A substitution applied to every clause of a list.
pub fn subst_clauses(s: &Subst, cs: &Vec<Clause>) -> (r: Vec<Clause>)
    ensures
        r@ == spec_subst_clauses(*s, cs@),
{
    proof {
        assert(cs@.skip(0) =~= cs@);
    }
    subst_clauses_from(s, cs, 0)
}

/// A substitution applied to every type of a list.
pub open spec fn spec_subst_tys(s: Subst, ts: Seq<Ty>) -> Seq<Ty>
    decreases ts.len(),
{
    if ts.len() == 0 {
        Seq::empty()
    } else {
        seq![spec_subst_ty(s, ts[0])] + spec_subst_tys(s, ts.drop_first())
    }
}

fn subst_tys_from(s: &Subst, ts: &Vec<Ty>, i: usize) -> (r: Vec<Ty>)
    requires
        i <= ts@.len(),
    ensures
        r@ == spec_subst_tys(*s, ts@.skip(i as int)),
    decreases ts@.len() - i,
{
    if i == ts.len() {
        proof {
            assert(ts@.skip(i as int) =~= Seq::<Ty>::empty());
        }
        Vec::new()
    } else {
        proof {
            assert(ts@.skip(i as int).drop_first() =~= ts@.skip(i + 1 as int));
            assert(ts@.skip(i as int)[0] == ts@[i as int]);
        }
        let mut rest = subst_tys_from(s, ts, i + 1);
        let mut out: Vec<Ty> = Vec::new();
        out.push(subst_ty(s, &ts[i]));
        out.append(&mut rest);
        proof {
            assert(out@ =~= seq![spec_subst_ty(*s, ts@[i as int])] + spec_subst_tys(
                *s,
                ts@.skip(i + 1 as int),
            ));
        }
        out
    }
}

/// A substitution applied to every existential bound of a list.
pub open spec fn spec_subst_bounds(s: Subst, bs: Seq<DynBound>) -> Seq<DynBound>
    decreases bs.len(),
{
    if bs.len() == 0 {
        Seq::empty()
    } else {
        seq![spec_subst_dyn_bound(s, bs[0])] + spec_subst_bounds(s, bs.drop_first())
    }
}

fn subst_bounds_from(s: &Subst, bs: &Vec<DynBound>, i: usize) -> (r: Vec<DynBound>)
    requires
        i <= bs@.len(),
    ensures
        r@ == spec_subst_bounds(*s, bs@.skip(i as int)),
    decreases bs@.len() - i,
{
    if i == bs.len() {
        proof {
            assert(bs@.skip(i as int) =~= Seq::<DynBound>::empty());
        }
        Vec::new()
    } else {
        proof {
            assert(bs@.skip(i as int).drop_first() =~= bs@.skip(i + 1 as int));
            assert(bs@.skip(i as int)[0] == bs@[i as int]);
        }
        let mut rest = subst_bounds_from(s, bs, i + 1);
        let mut out: Vec<DynBound> = Vec::new();
        out.push(subst_dyn_bound(s, &bs[i]));
        out.append(&mut rest);
        proof {
            assert(out@ =~= seq![spec_subst_dyn_bound(*s, bs@[i as int])] + spec_subst_bounds(
                *s,
                bs@.skip(i + 1 as int),
            ));
        }
        out
    }
}

/// Whether a clause occurs in a list, decided executably.
pub fn clauses_contain(cs: &Vec<Clause>, c: &Clause) -> (r: bool)
    ensures
        r == cs@.contains(*c),
{
    let mut i: usize = 0;
    while i < cs.len()
        invariant
            i <= cs@.len(),
            forall|j: int| 0 <= j < i ==> cs@[j] != *c,
        decreases cs@.len() - i,
    {
        if clause_eq(&cs[i], c) {
            return true;
        }
        i = i + 1;
    }
    false
}

/// The list with later duplicates removed; `seen` entries are treated as
/// already present.
pub open spec fn spec_dedup_clauses(cs: Seq<Clause>, seen: Seq<Clause>) -> Seq<Clause>
    decreases cs.len(),
{
    if cs.len() == 0 {
        Seq::empty()
    } else if seen.contains(cs[0]) {
        spec_dedup_clauses(cs.drop_first(), seen)
    } else {
        seq![cs[0]] + spec_dedup_clauses(cs.drop_first(), seen.push(cs[0]))
    }
}

fn dedup_clauses_from(cs: &Vec<Clause>, i: usize, out: Vec<Clause>) -> (r: Vec<Clause>)
    requires
        i <= cs@.len(),
    ensures
        r@ == out@ + spec_dedup_clauses(cs@.skip(i as int), out@),
    decreases cs@.len() - i,
{
    if i == cs.len() {
        proof {
            assert(cs@.skip(i as int) =~= Seq::<Clause>::empty());
            assert(out@ + spec_dedup_clauses(cs@.skip(i as int), out@) =~= out@);
        }
        out
    } else {
        proof {
            assert(cs@.skip(i as int).drop_first() =~= cs@.skip(i + 1 as int));
            assert(cs@.skip(i as int)[0] == cs@[i as int]);
        }
        if clauses_contain(&out, &cs[i]) {
            dedup_clauses_from(cs, i + 1, out)
        } else {
            let ghost old_out = out@;
            let mut out2 = out;
            out2.push(cs[i].clone());
            let r = dedup_clauses_from(cs, i + 1, out2);
            proof {
                assert(old_out.push(cs@[i as int]) =~= old_out + seq![cs@[i as int]]);
                assert(r@ =~= old_out + (seq![cs@[i as int]] + spec_dedup_clauses(
                    cs@.skip(i + 1 as int),
                    old_out.push(cs@[i as int]),
                )));
            }
            r
        }
    }
}

/// The list with later duplicates removed, keeping first occurrences in
/// order.
pub fn dedup_clauses(cs: &Vec<Clause>) -> (r: Vec<Clause>)
    ensures
        r@ == spec_dedup_clauses(cs@, Seq::empty()),
{
    proof {
        assert(cs@.skip(0) =~= cs@);
    }
    let out: Vec<Clause> = Vec::new();
    let r = dedup_clauses_from(cs, 0, out);
    proof {
        assert(r@ =~= Seq::<Clause>::empty() + spec_dedup_clauses(cs@, Seq::empty()));
        assert(Seq::<Clause>::empty() + spec_dedup_clauses(cs@, Seq::empty())
            =~= spec_dedup_clauses(cs@, Seq::empty()));
    }
    r
}

// ---------------------------------------------------------------------------
// Supertrait elaboration
// ---------------------------------------------------------------------------

/// The direct supertrait bounds of one existential bound, instantiated with
/// the bound's own arguments; projection bounds have no supertraits.
pub open spec fn spec_supers_of(db: Db, b: DynBound) -> Seq<DynBound> {
    match b {
        DynBound::Trait(id, args) => match spec_find_trait(db.traits@, id) {
            Some(td) => spec_subst_bounds(spec_index_subst(args, 1), td.supertraits@),
            None => Seq::empty(),
        },
        DynBound::Projection(_, _, _, _) => Seq::empty(),
    }
}

/// The direct supertrait bounds of one existential bound.
pub fn supers_of(db: &Db, b: &DynBound) -> (r: Vec<DynBound>)
    ensures
        r@ == spec_supers_of(*db, *b),
{
    match b {
        DynBound::Trait(id, args) => match db.find_trait(*id) {
            Some(td) => {
                let s = index_subst(args, 1);
                proof {
                    assert(td.supertraits@.skip(0) =~= td.supertraits@);
                }
                subst_bounds_from(&s, &td.supertraits, 0)
            },
            None => Vec::new(),
        },
        DynBound::Projection(_, _, _, _) => Vec::new(),
    }
}

/// The depth-bounded elaborated closure of a bound list: every bound,
/// followed by the elaboration of its direct supertraits, transitively up to
/// `fuel` levels.  Distinct derivation paths of the same bound yield
/// distinct entries.
pub open spec fn spec_elaborate(db: Db, bs: Seq<DynBound>, fuel: nat) -> Seq<DynBound>
    decreases fuel, bs.len(),
{
    if bs.len() == 0 {
        Seq::empty()
    } else {
        let expansion: Seq<DynBound> = if fuel > 0 {
            spec_elaborate(db, spec_supers_of(db, bs[0]), (fuel - 1) as nat)
        } else {
            Seq::empty()
        };
        seq![bs[0]] + expansion + spec_elaborate(db, bs.drop_first(), fuel)
    }
}

fn elaborate_from(db: &Db, bs: &Vec<DynBound>, i: usize, fuel: usize) -> (r: Vec<DynBound>)
    requires
        i <= bs@.len(),
    ensures
        r@ == spec_elaborate(*db, bs@.skip(i as int), fuel as nat),
    decreases fuel, bs@.len() - i,
{
    if i == bs.len() {
        proof {
            assert(bs@.skip(i as int) =~= Seq::<DynBound>::empty());
        }
        Vec::new()
    } else {
        proof {
            assert(bs@.skip(i as int).drop_first() =~= bs@.skip(i + 1 as int));
            assert(bs@.skip(i as int)[0] == bs@[i as int]);
        }
        let mut out: Vec<DynBound> = Vec::new();
        out.push(bs[i].clone());
        if fuel > 0 {
            let supers = supers_of(db, &bs[i]);
            proof {
                assert(supers@.skip(0) =~= supers@);
            }
            let mut expansion = elaborate_from(db, &supers, 0, fuel - 1);
            out.append(&mut expansion);
        }
        let mut rest = elaborate_from(db, bs, i + 1, fuel);
        out.append(&mut rest);
        proof {
            let expansion: Seq<DynBound> = if fuel > 0 {
                spec_elaborate(*db, spec_supers_of(*db, bs@[i as int]), (fuel - 1) as nat)
            } else {
                Seq::<DynBound>::empty()
            };
            assert(out@ =~= seq![bs@[i as int]] + expansion + spec_elaborate(
                *db,
                bs@.skip(i + 1 as int),
                fuel as nat,
            ));
        }
        out
    }
}

/// The depth-bounded elaborated closure of a bound list.
pub fn elaborate(db: &Db, bs: &Vec<DynBound>, fuel: usize) -> (r: Vec<DynBound>)
    ensures
        r@ == spec_elaborate(*db, bs@, fuel as nat),
{
    proof {
        assert(bs@.skip(0) =~= bs@);
    }
    elaborate_from(db, bs, 0, fuel)
}

// ---------------------------------------------------------------------------
// Structural constituents
// ---------------------------------------------------------------------------

/// The immediate components an auto-marker capability recurses into, or
/// `None` when the subject's shape admits no structural rule.
pub open spec fn spec_constituents_auto(db: Db, t: Ty) -> Option<Seq<Ty>> {
    match t {
        Ty::Bool => Some(Seq::empty()),
        Ty::Int => Some(Seq::empty()),
        Ty::FnPtr => Some(Seq::empty()),
        Ty::Coroutine(_) => Some(Seq::empty()),
        Ty::Tuple(elems) => Some(elems.seq()),
        Ty::Adt(id, args) => match spec_find_adt(db.adts@, id) {
            Some(d) => Some(spec_subst_tys(spec_index_subst(args, 0), d.fields@)),
            None => None,
        },
        Ty::Array(elem) => Some(seq![*elem]),
        Ty::Slice(elem) => Some(seq![*elem]),
        _ => None,
    }
}

/// The components whose size-known-ness decides the subject's, or `None`
/// when the subject is not size-known by a structural rule.
pub open spec fn spec_constituents_sized(db: Db, t: Ty) -> Option<Seq<Ty>> {
    match t {
        Ty::Bool => Some(Seq::empty()),
        Ty::Int => Some(Seq::empty()),
        Ty::FnPtr => Some(Seq::empty()),
        Ty::Coroutine(_) => Some(Seq::empty()),
        Ty::Tuple(elems) => Some(elems.seq()),
        Ty::Adt(id, args) => match spec_find_adt(db.adts@, id) {
            Some(d) => Some(spec_subst_tys(spec_index_subst(args, 0), d.fields@)),
            None => None,
        },
        Ty::Array(elem) => Some(seq![*elem]),
        _ => None,
    }
}

/// The components whose copy/duplicate semantics decide the subject's, or
/// `None` when no structural rule applies.
pub open spec fn spec_constituents_copy(db: Db, t: Ty) -> Option<Seq<Ty>> {
    match t {
        Ty::Bool => Some(Seq::empty()),
        Ty::Int => Some(Seq::empty()),
        Ty::FnPtr => Some(Seq::empty()),
        Ty::Tuple(elems) => Some(elems.seq()),
        Ty::Array(elem) => Some(seq![*elem]),
        _ => None,
    }
}

/// A [`TyList`] copied into a vector.
fn ty_list_to_vec(l: &TyList) -> (r: Vec<Ty>)
    ensures
        r@ == l.seq(),
    decreases l,
{
    match l {
        TyList::Nil => Vec::new(),
        TyList::Cons(head, tail) => {
            let mut out: Vec<Ty> = Vec::new();
            out.push((**head).clone());
            let mut rest = ty_list_to_vec(tail);
            out.append(&mut rest);
            proof {
                assert(out@ =~= seq![*l->Cons_0] + l->Cons_1.seq());
            }
            out
        },
    }
}

/// Which structural rule family a constituent query serves.
#[derive(Clone, Copy, Debug, PartialEq, Eq, Structural)]
pub enum ConstituentRule {
    /// Auto-marker capabilities.
    Auto,
    /// Size-known-ness.
    Sized,
    /// Copy/duplicate semantics.
    CopyClone,
}

/// The constituent list of the chosen rule family.
pub open spec fn spec_constituents(db: Db, rule: ConstituentRule, t: Ty) -> Option<Seq<Ty>> {
    match rule {
        ConstituentRule::Auto => spec_constituents_auto(db, t),
        ConstituentRule::Sized => spec_constituents_sized(db, t),
        ConstituentRule::CopyClone => spec_constituents_copy(db, t),
    }
}

/// The constituent list of the chosen rule family, decided executably.
pub fn constituents(db: &Db, rule: ConstituentRule, t: &Ty) -> (r: Option<Vec<Ty>>)
    ensures
        match r {
            Some(v) => spec_constituents(*db, rule, *t) == Some(v@),
            None => spec_constituents(*db, rule, *t) is None,
        },
{
    match t {
        Ty::Bool => Some(Vec::new()),
        Ty::Int => Some(Vec::new()),
        Ty::FnPtr => Some(Vec::new()),
        Ty::Coroutine(_) => {
            if matches!(rule, ConstituentRule::CopyClone) {
                None
            } else {
                Some(Vec::new())
            }
        },
        Ty::Tuple(elems) => Some(ty_list_to_vec(elems)),
        Ty::Adt(id, args) => {
            if matches!(rule, ConstituentRule::CopyClone) {
                None
            } else {
                match db.find_adt(*id) {
                    Some(d) => {
                        let s = index_subst(args, 0);
                        proof {
                            assert(d.fields@.skip(0) =~= d.fields@);
                        }
                        Some(subst_tys_from(&s, &d.fields, 0))
                    },
                    None => None,
                }
            }
        },
        Ty::Array(elem) => {
            let mut out: Vec<Ty> = Vec::new();
            out.push((**elem).clone());
            proof {
                assert(out@ =~= seq![*t->Array_0]);
            }
            Some(out)
        },
        Ty::Slice(elem) => {
            if matches!(rule, ConstituentRule::Auto) {
                let mut out: Vec<Ty> = Vec::new();
                out.push((**elem).clone());
                proof {
                    assert(out@ =~= seq![*t->Slice_0]);
                }
                Some(out)
            } else {
                None
            }
        },
        _ => None,
    }
}

// ---------------------------------------------------------------------------
// The response merge engine
// ---------------------------------------------------------------------------

/// The responses of a candidate list, in order.
pub open spec fn spec_responses_of(cs: Seq<Candidate>) -> Seq<Response> {
    cs.map_values(|c: Candidate| c.result)
}

/// Whether every response of the list is the same.
pub open spec fn spec_all_same(rs: Seq<Response>) -> bool {
    forall|i: int| 0 <= i < rs.len() ==> #[trigger] rs[i] == rs[0]
}

/// The complete, sound unify-merge: one combined response when every
/// response of a non-empty list is mutually consistent, `None` otherwise.
pub open spec fn spec_try_merge(rs: Seq<Response>) -> Option<Response> {
    if rs.len() > 0 && spec_all_same(rs) {
        Some(rs[0])
    } else {
        None
    }
}

/// Whether some response of the list reports overflow.
pub open spec fn spec_has_overflow(rs: Seq<Response>) -> bool {
    exists|i: int|
        0 <= i < rs.len() && rs[i].certainty == Certainty::Maybe(MaybeCause::Overflow)
}

/// The "flounder" outcome for a list of disagreeing responses: definitive
/// failure when there is nothing to disagree about, otherwise a deferred
/// `Maybe` whose cause is overflow when any response overflowed.
pub open spec fn spec_flounder(rs: Seq<Response>) -> QueryResult {
    if rs.len() == 0 {
        Err(NoSolution)
    } else {
        Ok(
            Response {
                certainty: Certainty::Maybe(
                    if spec_has_overflow(rs) {
                        MaybeCause::Overflow
                    } else {
                        MaybeCause::Ambiguity
                    },
                ),
            },
        )
    }
}

/// The candidates sourced from caller-provided bounds (environment
/// assumptions and alias bounds), in order.
pub open spec fn spec_env_candidates(cs: Seq<Candidate>) -> Seq<Candidate> {
    cs.filter(|c: Candidate| c.source.spec_is_env_based())
}

/// The outcome of merging a candidate list in the given mode: the complete
/// unify-merge if it succeeds; otherwise, outside coherence checking only,
/// the unify-merge of the caller-provided-bound candidates alone; otherwise
/// the flounder outcome.
pub open spec fn spec_merge_candidates(mode: SolverMode, cs: Seq<Candidate>) -> QueryResult {
    let rs = spec_responses_of(cs);
    match spec_try_merge(rs) {
        Some(r) => Ok(r),
        None => match mode {
            SolverMode::Coherence => spec_flounder(rs),
            SolverMode::Normal => match spec_try_merge(spec_responses_of(spec_env_candidates(cs))) {
                Some(r) => Ok(r),
                None => spec_flounder(rs),
            },
        },
    }
}

/// The responses of a candidate list, in order.
pub fn responses_of(cs: &Vec<Candidate>) -> (r: Vec<Response>)
    ensures
        r@ == spec_responses_of(cs@),
{
    let mut out: Vec<Response> = Vec::new();
    let mut i: usize = 0;
    while i < cs.len()
        invariant
            i <= cs@.len(),
            out@.len() == i,
            forall|j: int| 0 <= j < i ==> out@[j] == cs@[j].result,
        decreases cs@.len() - i,
    {
        out.push(cs[i].result);
        i = i + 1;
    }
    proof {
        assert(out@ =~= spec_responses_of(cs@));
    }
    out
}

/// The complete, sound unify-merge of a response list.
pub fn try_merge_responses(rs: &Vec<Response>) -> (r: Option<Response>)
    ensures
        r == spec_try_merge(rs@),
{
    if rs.len() == 0 {
        return None;
    }
    let first = rs[0];
    let mut i: usize = 1;
    while i < rs.len()
        invariant
            1 <= i <= rs@.len(),
            first == rs@[0],
            forall|j: int| 0 <= j < i ==> #[trigger] rs@[j] == rs@[0],
        decreases rs@.len() - i,
    {
        if !(rs[i] == first) {
            assert(!spec_all_same(rs@));
            return None;
        }
        i = i + 1;
    }
    Some(first)
}

/// The "flounder" outcome for a list of disagreeing responses.
pub fn flounder(rs: &Vec<Response>) -> (r: QueryResult)
    ensures
        r == spec_flounder(rs@),
{
    if rs.len() == 0 {
        return Err(NoSolution);
    }
    let mut i: usize = 0;
    while i < rs.len()
        invariant
            i <= rs@.len(),
            forall|j: int|
                0 <= j < i ==> rs@[j].certainty != Certainty::Maybe(MaybeCause::Overflow),
        decreases rs@.len() - i,
    {
        if rs[i].certainty == Certainty::Maybe(MaybeCause::Overflow) {
            assert(spec_has_overflow(rs@));
            return Ok(Response { certainty: Certainty::Maybe(MaybeCause::Overflow) });
        }
        i = i + 1;
    }
    assert(!spec_has_overflow(rs@));
    Ok(Response { certainty: Certainty::Maybe(MaybeCause::Ambiguity) })
}

/// The candidates sourced from caller-provided bounds, in order.
pub fn env_candidates(cs: &Vec<Candidate>) -> (r: Vec<Candidate>)
    ensures
        r@ == spec_env_candidates(cs@),
{
    let mut out: Vec<Candidate> = Vec::new();
    let mut i: usize = 0;
    while i < cs.len()
        invariant
            i <= cs@.len(),
            out@ == cs@.take(i as int).filter(|c: Candidate| c.source.spec_is_env_based()),
        decreases cs@.len() - i,
    {
        let ghost pre = cs@.take(i as int);
        proof {
            reveal(Seq::filter);
            assert(cs@.take(i + 1 as int).drop_last() =~= pre);
            assert(cs@.take(i + 1 as int).last() == cs@[i as int]);
        }
        if cs[i].source.is_env_based() {
            out.push(cs[i]);
        }
        proof {
            reveal(Seq::filter);
            assert(out@ =~= cs@.take(i + 1 as int).filter(
                |c: Candidate| c.source.spec_is_env_based(),
            ));
        }
        i = i + 1;
    }
    proof {
        reveal(Seq::filter);
        assert(cs@.take(cs@.len() as int) =~= cs@);
        assert(cs@.take(0) =~= Seq::<Candidate>::empty());
    }
    out
}

impl EvalCtxt {
    /// Reduces a candidate list to one outcome.
    ///
    /// First the complete, sound unify-merge of every candidate's response
    /// is attempted.  If it fails in `Coherence` mode the engine must not
    /// guess, so the flounder outcome is returned.  In `Normal` mode the
    /// unify-merge is retried over only the candidates sourced from
    /// caller-provided bounds — an intentionally incomplete heuristic that
    /// trusts environment bounds over alternative proofs — before giving
    /// up and floundering.
    pub fn merge_candidates(&self, candidates: &Vec<Candidate>) -> (r: QueryResult)
        ensures
            r == spec_merge_candidates(self.mode, candidates@),
    {
        let responses = responses_of(candidates);
        if let Some(result) = try_merge_responses(&responses) {
            return Ok(result);
        }
        match self.mode {
            SolverMode::Coherence => {},
            SolverMode::Normal => {
                let env = env_candidates(candidates);
                let env_responses = responses_of(&env);
                if let Some(result) = try_merge_responses(&env_responses) {
                    return Ok(result);
                }
            },
        }
        flounder(&responses)
    }
}

// ---------------------------------------------------------------------------
// The engine, as one mathematical model
// ---------------------------------------------------------------------------

/// A canonical response carrying the given certainty and no residual
/// constraints.
pub open spec fn spec_response(c: Certainty) -> Response {
    Response { certainty: c }
}

/// Whether an existential bound occurs in a list.
pub open spec fn spec_bound_in(bs: Seq<DynBound>, b: DynBound) -> bool {
    bs.contains(b)
}

/// A bound list with later duplicates removed; `seen` entries are treated
/// as already present.
pub open spec fn spec_dedup_bounds(bs: Seq<DynBound>, seen: Seq<DynBound>) -> Seq<DynBound>
    decreases bs.len(),
{
    if bs.len() == 0 {
        Seq::empty()
    } else if seen.contains(bs[0]) {
        spec_dedup_bounds(bs.drop_first(), seen)
    } else {
        seq![bs[0]] + spec_dedup_bounds(bs.drop_first(), seen.push(bs[0]))
    }
}

/// Every bound of a list instantiated at the same subject type.
pub open spec fn spec_inst_bounds(self_ty: Ty, bs: Seq<DynBound>) -> Seq<Clause>
    decreases bs.len(),
{
    if bs.len() == 0 {
        Seq::empty()
    } else {
        seq![spec_inst_bound(self_ty, bs[0])] + spec_inst_bounds(self_ty, bs.drop_first())
    }
}

/// Whether an existential bound occurs in a bound list.
pub open spec fn spec_bound_in_list(l: DynBoundList, b: DynBound) -> bool
    decreases l,
{
    match l {
        DynBoundList::Nil => false,
        DynBoundList::Cons(head, tail) => *head == b || spec_bound_in_list(*tail, b),
    }
}

/// Whether every element of `a` occurs in `b`.
pub open spec fn spec_bounds_subset(a: DynBoundList, b: DynBoundList) -> bool
    decreases a,
{
    match a {
        DynBoundList::Nil => true,
        DynBoundList::Cons(head, tail) => spec_bound_in_list(b, *head) && spec_bounds_subset(
            *tail,
            b,
        ),
    }
}

/// The elaboration budget for one trait-object bound list: one more level
/// than there are capability declarations, so a supertrait path longer than
/// that must repeat a capability.
pub open spec fn spec_elab_fuel(db: Db) -> nat {
    if db.traits@.len() < usize::MAX {
        db.traits@.len() + 1
    } else {
        usize::MAX as nat
    }
}

/// The first existential capability bound of a trait-object bound list: its
/// principal.
pub open spec fn spec_principal(l: DynBoundList) -> Option<(u64, TyList)>
    decreases l,
{
    match l {
        DynBoundList::Nil => None,
        DynBoundList::Cons(head, tail) => match *head {
            DynBound::Trait(id, args) => Some((id, args)),
            DynBound::Projection(_, _, _, _) => spec_principal(*tail),
        },
    }
}

/// Whether the subject has a possibly-applicable implementation declaration
/// for the capability: the disqualification test for auto-marker rules.
pub open spec fn spec_has_applicable_impl(impls: Seq<ImplDecl>, tid: u64, self_ty: Ty) -> bool {
    exists|i: int|
        0 <= i < impls.len() && (#[trigger] impls[i]).trait_ref.trait_id == tid
            && spec_shape_could_match(*impls[i].trait_ref.self_ty, self_ty)
}

/// The nested goals requiring the capability of each component type.
pub open spec fn spec_goals_for(tr: TraitRef, tys: Seq<Ty>) -> Seq<Predicate> {
    tys.map_values(
        |t: Ty| Predicate::Trait(
            TraitRef { trait_id: tr.trait_id, self_ty: Box::new(t), args: tr.args },
        ),
    )
}

/// The substitution instantiating declared bounds of an associated item:
/// hole 0 is the alias type itself, hole 1 its subject, hole `2 + i` the
/// owning capability's argument `i`.
pub open spec fn spec_alias_bound_subst(kind: AliasKind, alias: AliasTy) -> Subst {
    Subst::Cons(
        0,
        Box::new(Ty::Alias(kind, alias)),
        Box::new(Subst::Cons(1, alias.self_ty, Box::new(spec_index_subst(alias.args, 2)))),
    )
}

/// The terms a projection-equality clause of the environment offers for the
/// alias.
pub open spec fn spec_env_proj_terms(cs: Seq<Clause>, alias: AliasTy) -> Seq<Ty>
    decreases cs.len(),
{
    if cs.len() == 0 {
        Seq::empty()
    } else {
        let rest = spec_env_proj_terms(cs.drop_first(), alias);
        match cs[0] {
            Clause::Projection(p) => if p.alias == alias {
                seq![*p.term] + rest
            } else {
                rest
            },
            _ => rest,
        }
    }
}

/// The terms implementation declarations offer for the alias: for each
/// declaration of the owning capability whose reference matches the alias's
/// own, the declared associated value, instantiated.
pub open spec fn spec_impl_assoc_terms(impls: Seq<ImplDecl>, alias: AliasTy) -> Seq<Ty>
    decreases impls.len(),
{
    if impls.len() == 0 {
        Seq::empty()
    } else {
        let rest = spec_impl_assoc_terms(impls.drop_first(), alias);
        let imp = impls[0];
        let owner_ref = TraitRef {
            trait_id: alias.owner_trait,
            self_ty: alias.self_ty,
            args: alias.args,
        };
        match spec_match_trait_ref(imp.trait_ref, owner_ref, Subst::Nil) {
            Some(sub) => match spec_find_assoc(imp.assoc_values@, alias.alias_id) {
                Some(vpat) => seq![spec_subst_ty(sub, vpat)] + rest,
                None => rest,
            },
            None => rest,
        }
    }
}

/// The terms the alias's own declared bounds offer for it.
pub open spec fn spec_bound_proj_terms(db: Db, kind: AliasKind, alias: AliasTy) -> Seq<Ty> {
    match spec_find_item_bounds(db.item_bounds@, alias.alias_id) {
        Some(ab) => spec_env_proj_terms(
            spec_subst_clauses(spec_alias_bound_subst(kind, alias), ab.bounds@),
            alias,
        ),
        None => Seq::empty(),
    }
}

/// Every term the engine would try when normalizing the alias, in pass
/// order: environment clauses, implementation declarations, declared
/// bounds.
pub open spec fn spec_norm_terms(db: Db, env: ParamEnv, kind: AliasKind, alias: AliasTy) -> Seq<
    Ty,
> {
    spec_env_proj_terms(env.clauses@, alias) + spec_impl_assoc_terms(db.impls@, alias)
        + spec_bound_proj_terms(db, kind, alias)
}

/// What the self-type normalization attempt concluded.
#[derive(Debug, PartialEq, Eq)]
pub enum NormOutcome {
    /// The alias resolved to this concrete type.
    Normalized(Ty),
    /// Some normalization sub-goal ran out of budget before deciding.
    Overflowed,
    /// No candidate term proved the alias's value.
    Failed,
}

/// One goal evaluated at the given remaining budget: certainty
/// `Maybe(Overflow)` when the budget is exhausted, otherwise the merged
/// outcome of the assembled candidates.
pub open spec fn spec_evaluate_goal(
    db: Db,
    mode: SolverMode,
    budget: nat,
    env: ParamEnv,
    pred: Predicate,
) -> QueryResult
    decreases budget, pred_size(pred), 9int, 0int,
{
    if budget == 0 {
        Ok(spec_response(Certainty::Maybe(MaybeCause::Overflow)))
    } else {
        spec_merge_candidates(mode, spec_assemble(db, mode, budget, env, pred))
    }
}

/// A list of nested goals evaluated left to right from position `i`, each at
/// one budget step down, their certainties unified onto `c`; any definitive
/// failure fails the whole list.
pub open spec fn spec_eval_added_from(
    db: Db,
    mode: SolverMode,
    budget: nat,
    env: ParamEnv,
    goals: Seq<Predicate>,
    i: int,
    c: Certainty,
) -> QueryResult
    decreases budget, 0int, 1int, (if 0 <= i <= goals.len() {
        goals.len() - i
    } else {
        0int
    }),
{
    if i < 0 || i >= goals.len() {
        Ok(spec_response(c))
    } else if budget == 0 {
        Ok(spec_response(spec_unify_certainty(c, Certainty::Maybe(MaybeCause::Overflow))))
    } else {
        match spec_evaluate_goal(db, mode, (budget - 1) as nat, env, goals[i]) {
            Err(e) => Err(e),
            Ok(r) => spec_eval_added_from(
                db,
                mode,
                budget,
                env,
                goals,
                i + 1,
                spec_unify_certainty(c, r.certainty),
            ),
        }
    }
}

/// The assembled candidate list of one goal.
///
/// A subject type that is itself an unresolved variable admits no
/// structural enumeration: the result is exactly one builtin candidate with
/// certainty `Maybe(Ambiguity)`.  Otherwise the passes run in fixed order —
/// self-type normalization, explicit declarations, builtin rules,
/// environment assumptions, alias bounds, trait-object bounds, and the
/// global-uniqueness-unknowable candidate — appending to one flat list.
pub open spec fn spec_assemble(
    db: Db,
    mode: SolverMode,
    budget: nat,
    env: ParamEnv,
    pred: Predicate,
) -> Seq<Candidate>
    decreases budget, pred_size(pred), 8int, 0int,
{
    if pred.spec_self_ty() is Var {
        seq![
            Candidate {
                source: CandidateSource::BuiltinImpl,
                result: spec_response(Certainty::Maybe(MaybeCause::Ambiguity)),
            },
        ]
    } else {
        spec_norm_pass(db, mode, budget, env, pred) + spec_impl_pass_from(
            db,
            mode,
            budget,
            env,
            pred,
            0,
        ) + spec_builtin_pass(db, mode, budget, env, pred) + spec_env_pass_from(env, pred, 0)
            + spec_alias_pass(db, mode, budget, env, pred) + spec_object_pass(db, env, pred)
            + spec_coherence_pass(db, mode, pred)
    }
}

/// The self-type normalization pass: for an alias subject, either the
/// overflow candidate (when the budget is exhausted) or the candidates
/// assembled for the goal rewritten at the normalized subject; nothing when
/// normalization fails.
pub open spec fn spec_norm_pass(
    db: Db,
    mode: SolverMode,
    budget: nat,
    env: ParamEnv,
    pred: Predicate,
) -> Seq<Candidate>
    decreases budget, pred_size(pred), 7int, 0int,
{
    match pred.spec_self_ty() {
        Ty::Alias(kind, alias) => if budget == 0 {
            seq![
                Candidate {
                    source: CandidateSource::BuiltinImpl,
                    result: spec_response(Certainty::Maybe(MaybeCause::Overflow)),
                },
            ]
        } else {
            match spec_normalize_from(
                db,
                mode,
                budget,
                env,
                alias,
                spec_norm_terms(db, env, kind, alias),
                0,
                false,
            ) {
                NormOutcome::Normalized(t) => spec_assemble(
                    db,
                    mode,
                    (budget - 1) as nat,
                    env,
                    pred.spec_with_self_ty(t),
                ),
                NormOutcome::Overflowed => seq![
                    Candidate {
                        source: CandidateSource::BuiltinImpl,
                        result: spec_response(Certainty::Maybe(MaybeCause::Overflow)),
                    },
                ],
                NormOutcome::Failed => Seq::empty(),
            }
        },
        _ => Seq::empty(),
    }
}

/// The first candidate term whose projection goal evaluates to certainty
/// `Yes` one budget step down, if any: the engine's model of introducing a
/// fresh placeholder, proving the alias-resolves-to-placeholder sub-goal,
/// and reading the placeholder back.  A sub-goal that itself ran out of
/// budget is remembered (`saw_overflow`): when no term resolves cleanly,
/// the attempt overflowed rather than failed.
pub open spec fn spec_normalize_from(
    db: Db,
    mode: SolverMode,
    budget: nat,
    env: ParamEnv,
    alias: AliasTy,
    terms: Seq<Ty>,
    i: int,
    saw_overflow: bool,
) -> NormOutcome
    decreases budget, alias_size(alias), 6int, (if 0 <= i <= terms.len() {
        terms.len() - i
    } else {
        0int
    }),
{
    if i < 0 || i >= terms.len() {
        if saw_overflow {
            NormOutcome::Overflowed
        } else {
            NormOutcome::Failed
        }
    } else if budget == 0 {
        NormOutcome::Overflowed
    } else {
        let pp = Predicate::Projection(ProjPred { alias, term: Box::new(terms[i]) });
        let sub = spec_evaluate_goal(db, mode, (budget - 1) as nat, env, pp);
        if sub == Ok::<Response, NoSolution>(spec_response(Certainty::Yes)) {
            NormOutcome::Normalized(terms[i])
        } else {
            spec_normalize_from(
                db,
                mode,
                budget,
                env,
                alias,
                terms,
                i + 1,
                saw_overflow || sub == Ok::<Response, NoSolution>(
                    spec_response(Certainty::Maybe(MaybeCause::Overflow)),
                ),
            )
        }
    }
}

/// The explicit-declaration enumeration pass from position `i`: every
/// declaration of the goal's capability surviving the structural pre-filter
/// and full matching contributes one candidate.
pub open spec fn spec_impl_pass_from(
    db: Db,
    mode: SolverMode,
    budget: nat,
    env: ParamEnv,
    pred: Predicate,
    i: int,
) -> Seq<Candidate>
    decreases budget, pred_size(pred), 7int, (if 0 <= i <= db.impls@.len() {
        db.impls@.len() - i
    } else {
        0int
    }),
{
    if i < 0 || i >= db.impls@.len() {
        Seq::empty()
    } else {
        let rest = spec_impl_pass_from(db, mode, budget, env, pred, i + 1);
        let imp = db.impls@[i];
        if imp.trait_ref.trait_id == pred.spec_trait_id() && spec_shape_could_match(
            *imp.trait_ref.self_ty,
            pred.spec_self_ty(),
        ) {
            match spec_consider_impl(db, mode, budget, env, pred, imp) {
                Ok(resp) => seq![
                    Candidate { source: CandidateSource::Impl(imp.impl_id), result: resp },
                ] + rest,
                Err(_) => rest,
            }
        } else {
            rest
        }
    }
}

/// One declaration considered for the goal: unify the declaration's
/// reference against the goal's, check the declared associated value for a
/// projection goal, then evaluate the declaration's requirements.
pub open spec fn spec_consider_impl(
    db: Db,
    mode: SolverMode,
    budget: nat,
    env: ParamEnv,
    pred: Predicate,
    imp: ImplDecl,
) -> QueryResult
    decreases budget, pred_size(pred), 6int, 0int,
{
    match spec_match_trait_ref(imp.trait_ref, pred.spec_trait_ref(), Subst::Nil) {
        None => Err(NoSolution),
        Some(sub) => {
            let term_ok = match pred {
                Predicate::Trait(_) => true,
                Predicate::Projection(pp) => match spec_find_assoc(
                    imp.assoc_values@,
                    pp.alias.alias_id,
                ) {
                    Some(vpat) => spec_subst_ty(sub, vpat) == *pp.term,
                    None => false,
                },
            };
            if term_ok {
                spec_eval_added_from(
                    db,
                    mode,
                    budget,
                    env,
                    spec_clause_goals(spec_subst_clauses(sub, imp.where_clauses@)),
                    0,
                    Certainty::Yes,
                )
            } else {
                Err(NoSolution)
            }
        },
    }
}

/// The builtin-rule dispatch pass: at most one primary candidate from the
/// closed dispatch table, plus — for the unsizing capability only — one
/// candidate per eligible trait-object upcast path.
pub open spec fn spec_builtin_pass(
    db: Db,
    mode: SolverMode,
    budget: nat,
    env: ParamEnv,
    pred: Predicate,
) -> Seq<Candidate>
    decreases budget, pred_size(pred), 7int, 1int,
{
    let base: Seq<Candidate> = match spec_builtin_primary(db, mode, budget, env, pred) {
        Ok(r) => seq![Candidate { source: CandidateSource::BuiltinImpl, result: r }],
        Err(_) => Seq::empty(),
    };
    let upcasts: Seq<Candidate> = if db.lang.unsize == Some(pred.spec_trait_id()) {
        spec_upcast_responses(db, pred).map_values(
            |r: Response| Candidate { source: CandidateSource::BuiltinImpl, result: r },
        )
    } else {
        Seq::empty()
    };
    base + upcasts
}

/// Whether a response with certainty `Yes` decides the goal outright.
pub open spec fn spec_yes_if(cond: bool) -> QueryResult {
    if cond {
        Ok(spec_response(Certainty::Yes))
    } else {
        Err(NoSolution)
    }
}

/// The closed builtin dispatch table, keyed by the goal's capability
/// against the well-known registry; exactly one arm fires per capability
/// identity.  Builtin rules decide capability-holds goals only.
pub open spec fn spec_builtin_primary(
    db: Db,
    mode: SolverMode,
    budget: nat,
    env: ParamEnv,
    pred: Predicate,
) -> QueryResult
    decreases budget, pred_size(pred), 6int, 1int,
{
    match pred {
        Predicate::Projection(_) => Err(NoSolution),
        Predicate::Trait(tr) => {
            let tid = tr.trait_id;
            let lang = db.lang;
            if spec_trait_flag(db, tid, true) {
                spec_consider_auto(db, mode, budget, env, tr)
            } else if spec_trait_flag(db, tid, false) {
                spec_consider_trait_alias(db, mode, budget, env, tr)
            } else if lang.sized == Some(tid) {
                spec_consider_structural(db, mode, budget, env, tr, ConstituentRule::Sized)
            } else if lang.copy == Some(tid) || lang.clone == Some(tid) {
                spec_consider_structural(db, mode, budget, env, tr, ConstituentRule::CopyClone)
            } else if lang.pointer_like == Some(tid) {
                spec_yes_if(*tr.self_ty is FnPtr)
            } else if lang.fn_ptr == Some(tid) {
                spec_yes_if(*tr.self_ty is FnPtr)
            } else if lang.fn_by_ref == Some(tid) || lang.fn_by_mut_ref == Some(tid)
                || lang.fn_by_value == Some(tid) {
                spec_yes_if(*tr.self_ty is FnPtr)
            } else if lang.tuple == Some(tid) {
                spec_yes_if(*tr.self_ty is Tuple)
            } else if lang.pointee == Some(tid) {
                Ok(spec_response(Certainty::Yes))
            } else if lang.future == Some(tid) {
                spec_yes_if(*tr.self_ty == Ty::Coroutine(true))
            } else if lang.generator == Some(tid) {
                spec_yes_if(*tr.self_ty == Ty::Coroutine(false))
            } else if lang.unsize == Some(tid) {
                spec_consider_unsize(db, mode, budget, env, tr)
            } else if lang.discriminant_kind == Some(tid) {
                Ok(spec_response(Certainty::Yes))
            } else if lang.destruct == Some(tid) {
                Ok(spec_response(Certainty::Yes))
            } else if lang.transmute == Some(tid) {
                match tr.args {
                    TyList::Cons(t, _) => spec_yes_if(*t == *tr.self_ty),
                    TyList::Nil => Err(NoSolution),
                }
            } else {
                Err(NoSolution)
            }
        },
    }
}

/// Whether the capability is declared with the chosen flag: the auto-marker
/// flag when `auto` is set, the capability-alias flag otherwise.
pub open spec fn spec_trait_flag(db: Db, tid: u64, auto: bool) -> bool {
    match spec_find_trait(db.traits@, tid) {
        Some(td) => if auto {
            td.is_auto
        } else {
            td.is_alias
        },
        None => false,
    }
}

/// The auto-marker rule: disqualified outright when any implementation
/// declaration could apply to the same subject, else decided by recursively
/// requiring the capability of the subject's immediate components.
pub open spec fn spec_consider_auto(
    db: Db,
    mode: SolverMode,
    budget: nat,
    env: ParamEnv,
    tr: TraitRef,
) -> QueryResult
    decreases budget, pred_size(Predicate::Trait(tr)), 6int, 0int,
{
    if spec_has_applicable_impl(db.impls@, tr.trait_id, *tr.self_ty) {
        Err(NoSolution)
    } else {
        spec_consider_structural(db, mode, budget, env, tr, ConstituentRule::Auto)
    }
}

/// A structural rule: the capability holds when it holds of every component
/// of the chosen rule family.
pub open spec fn spec_consider_structural(
    db: Db,
    mode: SolverMode,
    budget: nat,
    env: ParamEnv,
    tr: TraitRef,
    rule: ConstituentRule,
) -> QueryResult
    decreases budget, pred_size(Predicate::Trait(tr)), 5int, 0int,
{
    match spec_constituents(db, rule, *tr.self_ty) {
        None => Err(NoSolution),
        Some(tys) => spec_eval_added_from(
            db,
            mode,
            budget,
            env,
            spec_goals_for(tr, tys),
            0,
            Certainty::Yes,
        ),
    }
}

/// The capability-alias rule: the alias holds when its right-hand-side
/// clauses hold, instantiated at the goal's subject and arguments.
pub open spec fn spec_consider_trait_alias(
    db: Db,
    mode: SolverMode,
    budget: nat,
    env: ParamEnv,
    tr: TraitRef,
) -> QueryResult
    decreases budget, pred_size(Predicate::Trait(tr)), 5int, 0int,
{
    match spec_find_trait(db.traits@, tr.trait_id) {
        None => Err(NoSolution),
        Some(td) => {
            let sub = Subst::Cons(0, tr.self_ty, Box::new(spec_index_subst(tr.args, 1)));
            spec_eval_added_from(
                db,
                mode,
                budget,
                env,
                spec_clause_goals(spec_subst_clauses(sub, td.alias_clauses@)),
                0,
                Certainty::Yes,
            )
        },
    }
}

/// The unsizing rule: array to slice of the same element; trait object to a
/// trait object carrying a subset of its bounds; and a concrete type to a
/// trait object whose bounds all hold of it.
pub open spec fn spec_consider_unsize(
    db: Db,
    mode: SolverMode,
    budget: nat,
    env: ParamEnv,
    tr: TraitRef,
) -> QueryResult
    decreases budget, pred_size(Predicate::Trait(tr)), 5int, 0int,
{
    match tr.args {
        TyList::Nil => Err(NoSolution),
        TyList::Cons(target, _) => match (*tr.self_ty, *target) {
            (Ty::Array(e), Ty::Slice(e2)) => spec_yes_if(e == e2),
            (Ty::Dynamic(src), Ty::Dynamic(tgt)) => spec_yes_if(spec_bounds_subset(tgt, src)),
            (s, Ty::Dynamic(tgt)) => spec_eval_added_from(
                db,
                mode,
                budget,
                env,
                spec_clause_goals(spec_inst_bounds(s, tgt.seq())),
                0,
                Certainty::Yes,
            ),
            _ => Err(NoSolution),
        },
    }
}

/// The trait-object upcast responses: one per supertrait path of the
/// source object's principal that instantiates the target object's
/// principal; a principal reachable two structurally distinct ways yields
/// two responses.
pub open spec fn spec_upcast_responses(db: Db, pred: Predicate) -> Seq<Response> {
    match pred {
        Predicate::Projection(_) => Seq::empty(),
        Predicate::Trait(tr) => match tr.args {
            TyList::Nil => Seq::empty(),
            TyList::Cons(target, _) => match (*tr.self_ty, *target) {
                (Ty::Dynamic(src), Ty::Dynamic(tgt)) => match spec_principal(tgt) {
                    Some((ptid, pargs)) => spec_matching_supers(
                        spec_elaborate(
                            db,
                            spec_dedup_bounds(src.seq(), Seq::empty()),
                            spec_elab_fuel(db),
                        ),
                        ptid,
                        pargs,
                    ),
                    None => Seq::empty(),
                },
                _ => Seq::empty(),
            },
        },
    }
}

/// One `Yes` response per elaborated bound equal to the target principal.
pub open spec fn spec_matching_supers(bs: Seq<DynBound>, ptid: u64, pargs: TyList) -> Seq<
    Response,
>
    decreases bs.len(),
{
    if bs.len() == 0 {
        Seq::empty()
    } else {
        let rest = spec_matching_supers(bs.drop_first(), ptid, pargs);
        if bs[0] == DynBound::Trait(ptid, pargs) {
            seq![spec_response(Certainty::Yes)] + rest
        } else {
            rest
        }
    }
}

/// The assumption-context enumeration pass from position `i`: every
/// capability-style clause structurally identical to the goal's predicate
/// contributes one candidate tagged with its position.
pub open spec fn spec_env_pass_from(env: ParamEnv, pred: Predicate, i: int) -> Seq<Candidate>
    decreases (if 0 <= i <= env.clauses@.len() {
        env.clauses@.len() - i
    } else {
        0int
    }),
{
    if i < 0 || i >= env.clauses@.len() {
        Seq::empty()
    } else {
        let rest = spec_env_pass_from(env, pred, i + 1);
        if spec_clause_matches(env.clauses@[i], pred) {
            seq![
                Candidate {
                    source: CandidateSource::ParamEnv(i as usize),
                    result: spec_response(Certainty::Yes),
                },
            ] + rest
        } else {
            rest
        }
    }
}

/// The alias-bound enumeration pass: for a projection or opaque alias
/// subject (inherent associated types and simple aliases carry no
/// meaningful bounds), each declared bound of the referenced associated
/// item, instantiated with the alias's own arguments, is matched against
/// the goal; a matching bound may be used only after the validation
/// sub-protocol admits the alias.
pub open spec fn spec_alias_pass(
    db: Db,
    mode: SolverMode,
    budget: nat,
    env: ParamEnv,
    pred: Predicate,
) -> Seq<Candidate>
    decreases budget, pred_size(pred), 7int, 2int,
{
    match pred.spec_self_ty() {
        Ty::Alias(kind, alias) => if kind == AliasKind::Projection || kind == AliasKind::Opaque {
            match spec_find_item_bounds(db.item_bounds@, alias.alias_id) {
                Some(ab) => spec_alias_pass_from(db, mode, budget, env, pred, kind, alias, ab.bounds@, 0),
                None => Seq::empty(),
            }
        } else {
            Seq::empty()
        },
        _ => Seq::empty(),
    }
}

/// The alias-bound pass from bound position `i`.
pub open spec fn spec_alias_pass_from(
    db: Db,
    mode: SolverMode,
    budget: nat,
    env: ParamEnv,
    pred: Predicate,
    kind: AliasKind,
    alias: AliasTy,
    bounds: Seq<Clause>,
    i: int,
) -> Seq<Candidate>
    decreases budget, pred_size(pred), 6int, (if 0 <= i <= bounds.len() {
        bounds.len() - i
    } else {
        0int
    }),
{
    if i < 0 || i >= bounds.len() {
        Seq::empty()
    } else {
        let rest = spec_alias_pass_from(db, mode, budget, env, pred, kind, alias, bounds, i + 1);
        let inst = spec_subst_clause(spec_alias_bound_subst(kind, alias), bounds[i]);
        if spec_clause_matches(inst, pred) {
            match spec_validate(db, mode, budget, env, pred) {
                Ok(resp) => seq![
                    Candidate { source: CandidateSource::AliasBound(i as usize), result: resp },
                ] + rest,
                Err(_) => rest,
            }
        } else {
            rest
        }
    }
}

/// The alias-bound validation sub-protocol: a projection alias is admitted
/// by proving its owning capability reference from assumption-context
/// candidates, alias-bound candidates and the narrow always-applicable
/// builtin allow-list alone, merged as usual; an opaque alias is trusted
/// outright in user-facing reveal mode and rejected in fully-revealing
/// mode.
pub open spec fn spec_validate(
    db: Db,
    mode: SolverMode,
    budget: nat,
    env: ParamEnv,
    pred: Predicate,
) -> QueryResult
    decreases budget, pred_size(pred), 5int, 0int,
    via spec_validate_decreases
{
    match pred.spec_self_ty() {
        Ty::Alias(AliasKind::Projection, alias) => {
            if *alias.self_ty is Var {
                Ok(spec_response(Certainty::Maybe(MaybeCause::Ambiguity)))
            } else {
                let trait_pred = Predicate::Trait(
                    TraitRef {
                        trait_id: alias.owner_trait,
                        self_ty: alias.self_ty,
                        args: alias.args,
                    },
                );
                let cands = spec_env_pass_from(env, trait_pred, 0) + spec_alias_pass(
                    db,
                    mode,
                    budget,
                    env,
                    trait_pred,
                ) + spec_default_items_pass(db, trait_pred);
                spec_merge_candidates(mode, cands)
            }
        },
        Ty::Alias(AliasKind::Opaque, _) => match env.reveal {
            Reveal::UserFacing => Ok(spec_response(Certainty::Yes)),
            Reveal::All => Err(NoSolution),
        },
        _ => Err(NoSolution),
    }
}

#[via_fn]
proof fn spec_validate_decreases(
    db: Db,
    mode: SolverMode,
    budget: nat,
    env: ParamEnv,
    pred: Predicate,
) {
    if let Ty::Alias(kind, alias) = pred.spec_self_ty() {
        let trait_pred = Predicate::Trait(
            TraitRef { trait_id: alias.owner_trait, self_ty: alias.self_ty, args: alias.args },
        );
        assert(ty_size(Ty::Alias(kind, alias)) == 1 + alias_size(alias));
        assert(alias_size(alias) == 1 + ty_size(*alias.self_ty) + ty_list_size(alias.args));
        match pred {
            Predicate::Trait(r) => {
                assert(pred_size(pred) == 1 + trait_ref_size(r));
                assert(trait_ref_size(r) == 1 + ty_size(*r.self_ty) + ty_list_size(r.args));
            },
            Predicate::Projection(pp) => {
                assert(pred_size(pred) == 2 + alias_size(pp.alias) + ty_size(*pp.term));
                assert(alias_size(pp.alias) == 1 + ty_size(*pp.alias.self_ty) + ty_list_size(
                    pp.alias.args,
                ));
            },
        }
        assert(pred_size(trait_pred) < pred_size(pred));
    }
}

/// The always-applicable builtin candidates admitted during validation:
/// capabilities whose associated-item values are only knowable through
/// alias bounds (pointee metadata, discriminant kind).
pub open spec fn spec_default_items_pass(db: Db, pred: Predicate) -> Seq<Candidate> {
    match pred {
        Predicate::Projection(_) => Seq::empty(),
        Predicate::Trait(tr) => if db.lang.pointee == Some(tr.trait_id)
            || db.lang.discriminant_kind == Some(tr.trait_id) {
            seq![
                Candidate {
                    source: CandidateSource::BuiltinImpl,
                    result: spec_response(Certainty::Yes),
                },
            ]
        } else {
            Seq::empty()
        },
    }
}

/// The trait-object supertrait-bound pass: for a trait-object subject, the
/// elaborated closure of its (deduplicated) bound list, instantiated at the
/// subject, is matched clause by clause; elaborated projection bounds not
/// present verbatim in the object's own bound list are dropped to prevent
/// spurious ambiguity.
pub open spec fn spec_object_pass(db: Db, env: ParamEnv, pred: Predicate) -> Seq<Candidate> {
    match pred.spec_self_ty() {
        Ty::Dynamic(bounds) => {
            let self_ty = pred.spec_self_ty();
            let own_bounds = spec_dedup_bounds(bounds.seq(), Seq::empty());
            let own = spec_inst_bounds(self_ty, own_bounds);
            let elaborated = spec_inst_bounds(
                self_ty,
                spec_elaborate(db, own_bounds, spec_elab_fuel(db)),
            );
            spec_object_pass_from(own, elaborated, pred, 0)
        },
        _ => Seq::empty(),
    }
}

/// The trait-object pass from clause position `i`.
pub open spec fn spec_object_pass_from(
    own: Seq<Clause>,
    cls: Seq<Clause>,
    pred: Predicate,
    i: int,
) -> Seq<Candidate>
    decreases (if 0 <= i <= cls.len() {
        cls.len() - i
    } else {
        0int
    }),
{
    if i < 0 || i >= cls.len() {
        Seq::empty()
    } else {
        let rest = spec_object_pass_from(own, cls, pred, i + 1);
        let c = cls[i];
        let dropped = (c is Projection) && !own.contains(c);
        if !dropped && spec_clause_matches(c, pred) {
            seq![
                Candidate {
                    source: CandidateSource::BuiltinImpl,
                    result: spec_response(Certainty::Yes),
                },
            ] + rest
        } else {
            rest
        }
    }
}

/// The global-uniqueness-unknowable pass: in coherence mode only, one
/// ambiguity candidate when the overlap oracle reports the goal's
/// capability pairing as unknowable from the current compilation unit.
pub open spec fn spec_coherence_pass(db: Db, mode: SolverMode, pred: Predicate) -> Seq<
    Candidate,
> {
    match mode {
        SolverMode::Normal => Seq::empty(),
        SolverMode::Coherence => if db.unknowable@.contains(pred.spec_trait_id()) {
            seq![
                Candidate {
                    source: CandidateSource::BuiltinImpl,
                    result: spec_response(Certainty::Maybe(MaybeCause::Ambiguity)),
                },
            ]
        } else {
            Seq::empty()
        },
    }
}

/// The structural pre-filter admits every pattern that full matching
/// accepts: false negatives are impossible, so pre-filtering declarations
/// by shape never loses a candidate.
pub proof fn lemma_shape_filter_complete(pattern: Ty, target: Ty, s: Subst)
    requires
        spec_match_ty(pattern, target, s) is Some,
    ensures
        spec_shape_could_match(pattern, target),
{
}

// ---------------------------------------------------------------------------
// Executable mirrors of the small model functions
// ---------------------------------------------------------------------------

/// Whether the option holds exactly the given id.
fn opt_is(o: Option<u64>, v: u64) -> (r: bool)
    ensures
        r == (o == Some(v)),
{
    match o {
        Some(x) => x == v,
        None => false,
    }
}

/// A [`DynBoundList`] copied into a vector.
fn dyn_list_to_vec(l: &DynBoundList) -> (r: Vec<DynBound>)
    ensures
        r@ == l.seq(),
    decreases l,
{
    match l {
        DynBoundList::Nil => Vec::new(),
        DynBoundList::Cons(head, tail) => {
            let mut out: Vec<DynBound> = Vec::new();
            out.push((**head).clone());
            let mut rest = dyn_list_to_vec(tail);
            out.append(&mut rest);
            proof {
                assert(out@ =~= seq![*l->Cons_0] + l->Cons_1.seq());
            }
            out
        },
    }
}

/// Whether an existential bound occurs in a vector.
fn bounds_contain(bs: &Vec<DynBound>, b: &DynBound) -> (r: bool)
    ensures
        r == bs@.contains(*b),
{
    let mut i: usize = 0;
    while i < bs.len()
        invariant
            i <= bs@.len(),
            forall|j: int| 0 <= j < i ==> bs@[j] != *b,
        decreases bs@.len() - i,
    {
        if dyn_bound_eq(&bs[i], b) {
            return true;
        }
        i = i + 1;
    }
    false
}

fn dedup_bounds_from(bs: &Vec<DynBound>, i: usize, out: Vec<DynBound>) -> (r: Vec<DynBound>)
    requires
        i <= bs@.len(),
    ensures
        r@ == out@ + spec_dedup_bounds(bs@.skip(i as int), out@),
    decreases bs@.len() - i,
{
    if i == bs.len() {
        proof {
            assert(bs@.skip(i as int) =~= Seq::<DynBound>::empty());
            assert(out@ + spec_dedup_bounds(bs@.skip(i as int), out@) =~= out@);
        }
        out
    } else {
        proof {
            assert(bs@.skip(i as int).drop_first() =~= bs@.skip(i + 1 as int));
            assert(bs@.skip(i as int)[0] == bs@[i as int]);
        }
        if bounds_contain(&out, &bs[i]) {
            dedup_bounds_from(bs, i + 1, out)
        } else {
            let ghost old_out = out@;
            let mut out2 = out;
            out2.push(bs[i].clone());
            let r = dedup_bounds_from(bs, i + 1, out2);
            proof {
                assert(old_out.push(bs@[i as int]) =~= old_out + seq![bs@[i as int]]);
                assert(r@ =~= old_out + (seq![bs@[i as int]] + spec_dedup_bounds(
                    bs@.skip(i + 1 as int),
                    old_out.push(bs@[i as int]),
                )));
            }
            r
        }
    }
}

/// The bound vector with later duplicates removed, keeping first
/// occurrences in order.
fn dedup_bounds(bs: &Vec<DynBound>) -> (r: Vec<DynBound>)
    ensures
        r@ == spec_dedup_bounds(bs@, Seq::empty()),
{
    proof {
        assert(bs@.skip(0) =~= bs@);
    }
    let out: Vec<DynBound> = Vec::new();
    let r = dedup_bounds_from(bs, 0, out);
    proof {
        assert(r@ =~= Seq::<DynBound>::empty() + spec_dedup_bounds(bs@, Seq::empty()));
        assert(Seq::<DynBound>::empty() + spec_dedup_bounds(bs@, Seq::empty())
            =~= spec_dedup_bounds(bs@, Seq::empty()));
    }
    r
}

fn inst_bounds_from(self_ty: &Ty, bs: &Vec<DynBound>, i: usize) -> (r: Vec<Clause>)
    requires
        i <= bs@.len(),
    ensures
        r@ == spec_inst_bounds(*self_ty, bs@.skip(i as int)),
    decreases bs@.len() - i,
{
    if i == bs.len() {
        proof {
            assert(bs@.skip(i as int) =~= Seq::<DynBound>::empty());
        }
        Vec::new()
    } else {
        proof {
            assert(bs@.skip(i as int).drop_first() =~= bs@.skip(i + 1 as int));
            assert(bs@.skip(i as int)[0] == bs@[i as int]);
        }
        let mut rest = inst_bounds_from(self_ty, bs, i + 1);
        let mut out: Vec<Clause> = Vec::new();
        out.push(inst_bound(self_ty, &bs[i]));
        out.append(&mut rest);
        proof {
            assert(out@ =~= seq![spec_inst_bound(*self_ty, bs@[i as int])] + spec_inst_bounds(
                *self_ty,
                bs@.skip(i + 1 as int),
            ));
        }
        out
    }
}

/// Every bound of a vector instantiated at the same subject type.
fn inst_bounds_vec(self_ty: &Ty, bs: &Vec<DynBound>) -> (r: Vec<Clause>)
    ensures
        r@ == spec_inst_bounds(*self_ty, bs@),
{
    proof {
        assert(bs@.skip(0) =~= bs@);
    }
    inst_bounds_from(self_ty, bs, 0)
}

/// Whether an existential bound occurs in a bound list.
fn bound_in_list(l: &DynBoundList, b: &DynBound) -> (r: bool)
    ensures
        r == spec_bound_in_list(*l, *b),
    decreases l,
{
    match l {
        DynBoundList::Nil => false,
        DynBoundList::Cons(head, tail) => dyn_bound_eq(head, b) || bound_in_list(tail, b),
    }
}

/// Whether every element of `a` occurs in `b`.
fn bounds_subset(a: &DynBoundList, b: &DynBoundList) -> (r: bool)
    ensures
        r == spec_bounds_subset(*a, *b),
    decreases a,
{
    match a {
        DynBoundList::Nil => true,
        DynBoundList::Cons(head, tail) => bound_in_list(b, head) && bounds_subset(tail, b),
    }
}

/// The principal of a trait-object bound list.
fn principal(l: &DynBoundList) -> (r: Option<(u64, TyList)>)
    ensures
        r == spec_principal(*l),
    decreases l,
{
    match l {
        DynBoundList::Nil => None,
        DynBoundList::Cons(head, tail) => match &**head {
            DynBound::Trait(id, args) => Some((*id, args.clone())),
            DynBound::Projection(_, _, _, _) => principal(tail),
        },
    }
}

fn matching_supers_from(bs: &Vec<DynBound>, ptid: u64, pargs: &TyList, i: usize) -> (r: Vec<
    Response,
>)
    requires
        i <= bs@.len(),
    ensures
        r@ == spec_matching_supers(bs@.skip(i as int), ptid, *pargs),
    decreases bs@.len() - i,
{
    if i == bs.len() {
        proof {
            assert(bs@.skip(i as int) =~= Seq::<DynBound>::empty());
        }
        Vec::new()
    } else {
        proof {
            assert(bs@.skip(i as int).drop_first() =~= bs@.skip(i + 1 as int));
            assert(bs@.skip(i as int)[0] == bs@[i as int]);
        }
        let mut rest = matching_supers_from(bs, ptid, pargs, i + 1);
        let hit = match &bs[i] {
            DynBound::Trait(id, args) => *id == ptid && ty_list_eq(args, pargs),
            DynBound::Projection(_, _, _, _) => false,
        };
        if hit {
            let mut out: Vec<Response> = Vec::new();
            out.push(Response { certainty: Certainty::Yes });
            out.append(&mut rest);
            proof {
                assert(out@ =~= seq![spec_response(Certainty::Yes)] + spec_matching_supers(
                    bs@.skip(i + 1 as int),
                    ptid,
                    *pargs,
                ));
            }
            out
        } else {
            rest
        }
    }
}

/// Whether the subject has a possibly-applicable implementation declaration
/// for the capability.
fn has_applicable_impl(impls: &Vec<ImplDecl>, tid: u64, self_ty: &Ty) -> (r: bool)
    ensures
        r == spec_has_applicable_impl(impls@, tid, *self_ty),
{
    let mut i: usize = 0;
    while i < impls.len()
        invariant
            i <= impls@.len(),
            forall|j: int|
                0 <= j < i ==> !((#[trigger] impls@[j]).trait_ref.trait_id == tid
                    && spec_shape_could_match(*impls@[j].trait_ref.self_ty, *self_ty)),
        decreases impls@.len() - i,
    {
        if impls[i].trait_ref.trait_id == tid && shape_could_match(
            &impls[i].trait_ref.self_ty,
            self_ty,
        ) {
            return true;
        }
        i = i + 1;
    }
    false
}

/// The nested goals requiring the capability of each component type.
fn goals_for(tr: &TraitRef, tys: &Vec<Ty>) -> (r: Vec<Predicate>)
    ensures
        r@ == spec_goals_for(*tr, tys@),
{
    let mut out: Vec<Predicate> = Vec::new();
    let mut i: usize = 0;
    while i < tys.len()
        invariant
            i <= tys@.len(),
            out@.len() == i,
            forall|j: int|
                0 <= j < i ==> out@[j] == Predicate::Trait(
                    TraitRef {
                        trait_id: tr.trait_id,
                        self_ty: Box::new(tys@[j]),
                        args: tr.args,
                    },
                ),
        decreases tys@.len() - i,
    {
        out.push(
            Predicate::Trait(
                TraitRef {
                    trait_id: tr.trait_id,
                    self_ty: Box::new(tys[i].clone()),
                    args: tr.args.clone(),
                },
            ),
        );
        i = i + 1;
    }
    proof {
        assert(out@ =~= spec_goals_for(*tr, tys@));
    }
    out
}

fn env_proj_terms_from(cs: &Vec<Clause>, alias: &AliasTy, i: usize) -> (r: Vec<Ty>)
    requires
        i <= cs@.len(),
    ensures
        r@ == spec_env_proj_terms(cs@.skip(i as int), *alias),
    decreases cs@.len() - i,
{
    if i == cs.len() {
        proof {
            assert(cs@.skip(i as int) =~= Seq::<Clause>::empty());
        }
        Vec::new()
    } else {
        proof {
            assert(cs@.skip(i as int).drop_first() =~= cs@.skip(i + 1 as int));
            assert(cs@.skip(i as int)[0] == cs@[i as int]);
        }
        let mut rest = env_proj_terms_from(cs, alias, i + 1);
        match &cs[i] {
            Clause::Projection(p) => {
                if alias_eq(&p.alias, alias) {
                    let mut out: Vec<Ty> = Vec::new();
                    out.push((*p.term).clone());
                    out.append(&mut rest);
                    proof {
                        assert(out@ =~= seq![*cs@[i as int]->Projection_0.term]
                            + spec_env_proj_terms(cs@.skip(i + 1 as int), *alias));
                    }
                    out
                } else {
                    rest
                }
            },
            _ => rest,
        }
    }
}

fn impl_assoc_terms_from(impls: &Vec<ImplDecl>, alias: &AliasTy, i: usize) -> (r: Vec<Ty>)
    requires
        i <= impls@.len(),
    ensures
        r@ == spec_impl_assoc_terms(impls@.skip(i as int), *alias),
    decreases impls@.len() - i,
{
    if i == impls.len() {
        proof {
            assert(impls@.skip(i as int) =~= Seq::<ImplDecl>::empty());
        }
        Vec::new()
    } else {
        proof {
            assert(impls@.skip(i as int).drop_first() =~= impls@.skip(i + 1 as int));
            assert(impls@.skip(i as int)[0] == impls@[i as int]);
        }
        let mut rest = impl_assoc_terms_from(impls, alias, i + 1);
        let owner_ref = TraitRef {
            trait_id: alias.owner_trait,
            self_ty: Box::new((*alias.self_ty).clone()),
            args: alias.args.clone(),
        };
        match match_trait_ref(&impls[i].trait_ref, &owner_ref, Subst::Nil) {
            Some(sub) => match find_assoc(&impls[i].assoc_values, alias.alias_id) {
                Some(vpat) => {
                    let mut out: Vec<Ty> = Vec::new();
                    out.push(subst_ty(&sub, vpat));
                    out.append(&mut rest);
                    proof {
                        let spec_sub = spec_match_trait_ref(
                            impls@[i as int].trait_ref,
                            TraitRef {
                                trait_id: alias.owner_trait,
                                self_ty: alias.self_ty,
                                args: alias.args,
                            },
                            Subst::Nil,
                        )->Some_0;
                        assert(out@ =~= seq![
                            spec_subst_ty(
                                spec_sub,
                                spec_find_assoc(
                                    impls@[i as int].assoc_values@,
                                    alias.alias_id,
                                )->Some_0,
                            ),
                        ] + spec_impl_assoc_terms(impls@.skip(i + 1 as int), *alias));
                    }
                    out
                },
                None => rest,
            },
            None => rest,
        }
    }
}

/// The substitution instantiating declared bounds of an associated item.
fn alias_bound_subst(kind: AliasKind, alias: &AliasTy) -> (r: Subst)
    ensures
        r == spec_alias_bound_subst(kind, *alias),
{
    Subst::Cons(
        0,
        Box::new(Ty::Alias(kind, alias.clone())),
        Box::new(
            Subst::Cons(
                1,
                Box::new((*alias.self_ty).clone()),
                Box::new(index_subst(&alias.args, 2)),
            ),
        ),
    )
}

/// Every term the engine would try when normalizing the alias.
fn norm_terms(db: &Db, env: &ParamEnv, kind: AliasKind, alias: &AliasTy) -> (r: Vec<Ty>)
    ensures
        r@ == spec_norm_terms(*db, *env, kind, *alias),
{
    proof {
        assert(env.clauses@.skip(0) =~= env.clauses@);
        assert(db.impls@.skip(0) =~= db.impls@);
    }
    let mut out = env_proj_terms_from(&env.clauses, alias, 0);
    let mut impl_terms = impl_assoc_terms_from(&db.impls, alias, 0);
    out.append(&mut impl_terms);
    let mut bound_terms: Vec<Ty> = match db.find_item_bounds(alias.alias_id) {
        Some(ab) => {
            let sub = alias_bound_subst(kind, alias);
            let inst = subst_clauses(&sub, &ab.bounds);
            proof {
                assert(inst@.skip(0) =~= inst@);
            }
            env_proj_terms_from(&inst, alias, 0)
        },
        None => Vec::new(),
    };
    out.append(&mut bound_terms);
    proof {
        assert(out@ =~= spec_norm_terms(*db, *env, kind, *alias));
    }
    out
}

// ---------------------------------------------------------------------------
// The engine, executably
// ---------------------------------------------------------------------------

/// Whether a response with certainty `Yes` decides the goal outright.
fn yes_if(cond: bool) -> (r: QueryResult)
    ensures
        r == spec_yes_if(cond),
{
    if cond {
        Ok(Response { certainty: Certainty::Yes })
    } else {
        Err(NoSolution)
    }
}

/// Whether the capability is declared with the chosen flag.
fn trait_flag(db: &Db, tid: u64, auto: bool) -> (r: bool)
    ensures
        r == spec_trait_flag(*db, tid, auto),
{
    match db.find_trait(tid) {
        Some(td) => if auto {
            td.is_auto
        } else {
            td.is_alias
        },
        None => false,
    }
}

/// The elaboration budget for one trait-object bound list.
fn elab_fuel(db: &Db) -> (r: usize)
    ensures
        r as nat == spec_elab_fuel(*db),
{
    if db.traits.len() < usize::MAX {
        db.traits.len() + 1
    } else {
        usize::MAX
    }
}

/// The trait-object upcast responses.
fn consider_builtin_dyn_upcast_candidates(db: &Db, pred: &Predicate) -> (r: Vec<Response>)
    ensures
        r@ == spec_upcast_responses(*db, *pred),
{
    match pred {
        Predicate::Projection(_) => Vec::new(),
        Predicate::Trait(tr) => match &tr.args {
            TyList::Nil => Vec::new(),
            TyList::Cons(target, _) => match (&*tr.self_ty, &**target) {
                (Ty::Dynamic(src), Ty::Dynamic(tgt)) => match principal(tgt) {
                    Some((ptid, pargs)) => {
                        let src_vec = dyn_list_to_vec(src);
                        let deduped = dedup_bounds(&src_vec);
                        let fuel = elab_fuel(db);
                        let elab = elaborate(db, &deduped, fuel);
                        proof {
                            assert(elab@.skip(0) =~= elab@);
                        }
                        matching_supers_from(&elab, ptid, &pargs, 0)
                    },
                    None => Vec::new(),
                },
                _ => Vec::new(),
            },
        },
    }
}

/// The always-applicable builtin candidates admitted during validation.
fn assemble_alias_bound_candidates_for_builtin_impl_default_items(db: &Db, pred: &Predicate) -> (r: Vec<Candidate>)
    ensures
        r@ == spec_default_items_pass(*db, *pred),
{
    let mut out: Vec<Candidate> = Vec::new();
    match pred {
        Predicate::Projection(_) => {},
        Predicate::Trait(tr) => {
            if opt_is(db.lang.pointee, tr.trait_id) || opt_is(db.lang.discriminant_kind, tr.trait_id) {
                out.push(
                    Candidate {
                        source: CandidateSource::BuiltinImpl,
                        result: Response { certainty: Certainty::Yes },
                    },
                );
            }
        },
    }
    proof {
        assert(out@ =~= spec_default_items_pass(*db, *pred));
    }
    out
}

/// The global-uniqueness-unknowable pass.
fn assemble_coherence_unknowable_candidates(db: &Db, mode: SolverMode, pred: &Predicate) -> (r: Vec<Candidate>)
    ensures
        r@ == spec_coherence_pass(*db, mode, *pred),
{
    let mut out: Vec<Candidate> = Vec::new();
    match mode {
        SolverMode::Normal => {},
        SolverMode::Coherence => {
            if db.is_unknowable(pred.trait_id()) {
                out.push(
                    Candidate {
                        source: CandidateSource::BuiltinImpl,
                        result: Response { certainty: Certainty::Maybe(MaybeCause::Ambiguity) },
                    },
                );
            }
        },
    }
    proof {
        assert(out@ =~= spec_coherence_pass(*db, mode, *pred));
    }
    out
}

fn assemble_object_bound_candidates_from(own: &Vec<Clause>, cls: &Vec<Clause>, pred: &Predicate, i: usize) -> (r: Vec<
    Candidate,
>)
    requires
        i <= cls@.len(),
    ensures
        r@ == spec_object_pass_from(own@, cls@, *pred, i as int),
    decreases cls@.len() - i,
{
    if i == cls.len() {
        Vec::new()
    } else {
        let mut rest = assemble_object_bound_candidates_from(own, cls, pred, i + 1);
        let c = &cls[i];
        let dropped = matches!(c, Clause::Projection(_)) && !clauses_contain(own, c);
        if !dropped && clause_matches(c, pred) {
            let mut out: Vec<Candidate> = Vec::new();
            out.push(
                Candidate {
                    source: CandidateSource::BuiltinImpl,
                    result: Response { certainty: Certainty::Yes },
                },
            );
            out.append(&mut rest);
            proof {
                assert(out@ =~= seq![
                    Candidate {
                        source: CandidateSource::BuiltinImpl,
                        result: spec_response(Certainty::Yes),
                    },
                ] + spec_object_pass_from(own@, cls@, *pred, i + 1 as int));
            }
            out
        } else {
            rest
        }
    }
}

/// The trait-object supertrait-bound enumeration pass.
fn assemble_object_bound_candidates(db: &Db, env: &ParamEnv, pred: &Predicate) -> (r: Vec<Candidate>)
    ensures
        r@ == spec_object_pass(*db, *env, *pred),
{
    if let Ty::Dynamic(bounds) = pred.self_ty() {
        let bvec = dyn_list_to_vec(bounds);
        let own_bounds = dedup_bounds(&bvec);
        let self_ty = pred.self_ty();
        let own = inst_bounds_vec(self_ty, &own_bounds);
        let fuel = elab_fuel(db);
        let elab = elaborate(db, &own_bounds, fuel);
        let cls = inst_bounds_vec(self_ty, &elab);
        assemble_object_bound_candidates_from(&own, &cls, pred, 0)
    } else {
        Vec::new()
    }
}

/// The assumption-context enumeration pass from position `i`.
fn assemble_param_env_candidates_from(env: &ParamEnv, pred: &Predicate, i: usize) -> (r: Vec<Candidate>)
    requires
        i <= env.clauses@.len(),
    ensures
        r@ == spec_env_pass_from(*env, *pred, i as int),
    decreases env.clauses@.len() - i,
{
    if i == env.clauses.len() {
        Vec::new()
    } else {
        let mut rest = assemble_param_env_candidates_from(env, pred, i + 1);
        if clause_matches(&env.clauses[i], pred) {
            let mut out: Vec<Candidate> = Vec::new();
            out.push(
                Candidate {
                    source: CandidateSource::ParamEnv(i),
                    result: Response { certainty: Certainty::Yes },
                },
            );
            out.append(&mut rest);
            proof {
                assert(out@ =~= seq![
                    Candidate {
                        source: CandidateSource::ParamEnv(i as usize),
                        result: spec_response(Certainty::Yes),
                    },
                ] + spec_env_pass_from(*env, *pred, i + 1 as int));
            }
            out
        } else {
            rest
        }
    }
}

/// The goal's subject replaced by the owning capability reference of its
/// alias subject is strictly smaller, which bounds the validation
/// sub-protocol.
proof fn lemma_trait_pred_smaller(pred: Predicate, kind: AliasKind, alias: AliasTy)
    requires
        pred.spec_self_ty() == Ty::Alias(kind, alias),
    ensures
        pred_size(
            Predicate::Trait(
                TraitRef {
                    trait_id: alias.owner_trait,
                    self_ty: alias.self_ty,
                    args: alias.args,
                },
            ),
        ) < pred_size(pred),
{
    let trait_pred = Predicate::Trait(
        TraitRef { trait_id: alias.owner_trait, self_ty: alias.self_ty, args: alias.args },
    );
    assert(ty_size(Ty::Alias(kind, alias)) == 1 + alias_size(alias));
    assert(alias_size(alias) == 1 + ty_size(*alias.self_ty) + ty_list_size(alias.args));
    match pred {
        Predicate::Trait(r) => {
            assert(pred_size(pred) == 1 + trait_ref_size(r));
            assert(trait_ref_size(r) == 1 + ty_size(*r.self_ty) + ty_list_size(r.args));
        },
        Predicate::Projection(pp) => {
            assert(pred_size(pred) == 2 + alias_size(pp.alias) + ty_size(*pp.term));
            assert(alias_size(pp.alias) == 1 + ty_size(*pp.alias.self_ty) + ty_list_size(
                pp.alias.args,
            ));
        },
    }
    assert(pred_size(trait_pred) < pred_size(pred));
}

/// One goal evaluated at the given remaining budget.
fn evaluate_goal_inner(
    db: &Db,
    mode: SolverMode,
    budget: usize,
    env: &ParamEnv,
    pred: &Predicate,
) -> (r: QueryResult)
    ensures
        r == spec_evaluate_goal(*db, mode, budget as nat, *env, *pred),
    decreases budget, pred_size(*pred), 9int, 0int,
{
    if budget == 0 {
        Ok(Response { certainty: Certainty::Maybe(MaybeCause::Overflow) })
    } else {
        let cands = assemble_inner(db, mode, budget, env, pred);
        merge_candidate_list(mode, &cands)
    }
}

/// A list of nested goals evaluated left to right from position `i`.
fn evaluate_added_goals_from(
    db: &Db,
    mode: SolverMode,
    budget: usize,
    env: &ParamEnv,
    goals: &Vec<Predicate>,
    i: usize,
    c: Certainty,
) -> (r: QueryResult)
    requires
        i <= goals@.len(),
    ensures
        r == spec_eval_added_from(*db, mode, budget as nat, *env, goals@, i as int, c),
    decreases budget, 0int, 1int, goals@.len() - i,
{
    if i == goals.len() {
        Ok(Response { certainty: c })
    } else if budget == 0 {
        Ok(Response { certainty: c.unify_with(Certainty::Maybe(MaybeCause::Overflow)) })
    } else {
        match evaluate_goal_inner(db, mode, budget - 1, env, &goals[i]) {
            Err(e) => Err(e),
            Ok(r0) => evaluate_added_goals_from(db, mode, budget, env, goals, i + 1, c.unify_with(r0.certainty)),
        }
    }
}

/// The assembled candidate list of one goal.
fn assemble_inner(
    db: &Db,
    mode: SolverMode,
    budget: usize,
    env: &ParamEnv,
    pred: &Predicate,
) -> (r: Vec<Candidate>)
    ensures
        r@ == spec_assemble(*db, mode, budget as nat, *env, *pred),
    decreases budget, pred_size(*pred), 8int, 0int,
{
    if matches!(pred.self_ty(), Ty::Var(_)) {
        let mut out: Vec<Candidate> = Vec::new();
        out.push(
            Candidate {
                source: CandidateSource::BuiltinImpl,
                result: Response { certainty: Certainty::Maybe(MaybeCause::Ambiguity) },
            },
        );
        proof {
            assert(out@ =~= spec_assemble(*db, mode, budget as nat, *env, *pred));
        }
        out
    } else {
        let mut out = assemble_candidates_after_normalizing_self_ty(db, mode, budget, env, pred);
        let mut v2 = assemble_impl_candidates_from(db, mode, budget, env, pred, 0);
        out.append(&mut v2);
        let mut v3 = assemble_builtin_impl_candidates(db, mode, budget, env, pred);
        out.append(&mut v3);
        let mut v4 = assemble_param_env_candidates_from(env, pred, 0);
        out.append(&mut v4);
        let mut v5 = assemble_alias_bound_candidates(db, mode, budget, env, pred);
        out.append(&mut v5);
        let mut v6 = assemble_object_bound_candidates(db, env, pred);
        out.append(&mut v6);
        let mut v7 = assemble_coherence_unknowable_candidates(db, mode, pred);
        out.append(&mut v7);
        proof {
            assert(out@ =~= spec_assemble(*db, mode, budget as nat, *env, *pred));
        }
        out
    }
}

/// The self-type normalization pass.
fn assemble_candidates_after_normalizing_self_ty(
    db: &Db,
    mode: SolverMode,
    budget: usize,
    env: &ParamEnv,
    pred: &Predicate,
) -> (r: Vec<Candidate>)
    ensures
        r@ == spec_norm_pass(*db, mode, budget as nat, *env, *pred),
    decreases budget, pred_size(*pred), 7int, 0int,
{
    if let Ty::Alias(kind, alias) = pred.self_ty() {
        if budget == 0 {
            let mut out: Vec<Candidate> = Vec::new();
            out.push(
                Candidate {
                    source: CandidateSource::BuiltinImpl,
                    result: Response { certainty: Certainty::Maybe(MaybeCause::Overflow) },
                },
            );
            proof {
                assert(out@ =~= spec_norm_pass(*db, mode, budget as nat, *env, *pred));
            }
            out
        } else {
            let terms = norm_terms(db, env, *kind, alias);
            match normalize_from(db, mode, budget, env, alias, &terms, 0, false) {
                NormOutcome::Normalized(t) => {
                    let rewritten = pred.with_self_ty(t);
                    assemble_inner(db, mode, budget - 1, env, &rewritten)
                },
                NormOutcome::Overflowed => {
                    let mut out: Vec<Candidate> = Vec::new();
                    out.push(
                        Candidate {
                            source: CandidateSource::BuiltinImpl,
                            result: Response {
                                certainty: Certainty::Maybe(MaybeCause::Overflow),
                            },
                        },
                    );
                    proof {
                        assert(out@ =~= spec_norm_pass(*db, mode, budget as nat, *env, *pred));
                    }
                    out
                },
                NormOutcome::Failed => Vec::new(),
            }
        }
    } else {
        Vec::new()
    }
}

/// The first candidate term whose projection goal evaluates to `Yes`.
fn normalize_from(
    db: &Db,
    mode: SolverMode,
    budget: usize,
    env: &ParamEnv,
    alias: &AliasTy,
    terms: &Vec<Ty>,
    i: usize,
    saw_overflow: bool,
) -> (r: NormOutcome)
    requires
        i <= terms@.len(),
    ensures
        r == spec_normalize_from(
            *db,
            mode,
            budget as nat,
            *env,
            *alias,
            terms@,
            i as int,
            saw_overflow,
        ),
    decreases budget, alias_size(*alias), 6int, terms@.len() - i,
{
    if i == terms.len() {
        if saw_overflow {
            NormOutcome::Overflowed
        } else {
            NormOutcome::Failed
        }
    } else if budget == 0 {
        NormOutcome::Overflowed
    } else {
        let pp = Predicate::Projection(
            ProjPred { alias: alias.clone(), term: Box::new(terms[i].clone()) },
        );
        let qr = evaluate_goal_inner(db, mode, budget - 1, env, &pp);
        let is_yes = match qr {
            Ok(r0) => matches!(r0.certainty, Certainty::Yes),
            Err(_) => false,
        };
        let is_overflow = match qr {
            Ok(r0) => matches!(r0.certainty, Certainty::Maybe(MaybeCause::Overflow)),
            Err(_) => false,
        };
        if is_yes {
            NormOutcome::Normalized(terms[i].clone())
        } else {
            normalize_from(db, mode, budget, env, alias, terms, i + 1, saw_overflow || is_overflow)
        }
    }
}

/// The explicit-declaration enumeration pass from position `i`.
fn assemble_impl_candidates_from(
    db: &Db,
    mode: SolverMode,
    budget: usize,
    env: &ParamEnv,
    pred: &Predicate,
    i: usize,
) -> (r: Vec<Candidate>)
    requires
        i <= db.impls@.len(),
    ensures
        r@ == spec_impl_pass_from(*db, mode, budget as nat, *env, *pred, i as int),
    decreases budget, pred_size(*pred), 7int, db.impls@.len() - i,
{
    if i == db.impls.len() {
        Vec::new()
    } else {
        let mut rest = assemble_impl_candidates_from(db, mode, budget, env, pred, i + 1);
        let tid = pred.trait_id();
        if db.impls[i].trait_ref.trait_id == tid && shape_could_match(
            &db.impls[i].trait_ref.self_ty,
            pred.self_ty(),
        ) {
            match consider_impl_candidate(db, mode, budget, env, pred, i) {
                Ok(resp) => {
                    let mut out: Vec<Candidate> = Vec::new();
                    out.push(
                        Candidate {
                            source: CandidateSource::Impl(db.impls[i].impl_id),
                            result: resp,
                        },
                    );
                    out.append(&mut rest);
                    proof {
                        assert(out@ =~= seq![
                            Candidate {
                                source: CandidateSource::Impl(db.impls@[i as int].impl_id),
                                result: resp,
                            },
                        ] + spec_impl_pass_from(*db, mode, budget as nat, *env, *pred, i + 1 as int));
                    }
                    out
                },
                Err(_) => rest,
            }
        } else {
            rest
        }
    }
}

/// One declaration considered for the goal.
fn consider_impl_candidate(
    db: &Db,
    mode: SolverMode,
    budget: usize,
    env: &ParamEnv,
    pred: &Predicate,
    i: usize,
) -> (r: QueryResult)
    requires
        i < db.impls@.len(),
    ensures
        r == spec_consider_impl(*db, mode, budget as nat, *env, *pred, db.impls@[i as int]),
    decreases budget, pred_size(*pred), 6int, 0int,
{
    let goal_ref = pred.trait_ref();
    match match_trait_ref(&db.impls[i].trait_ref, &goal_ref, Subst::Nil) {
        None => Err(NoSolution),
        Some(sub) => {
            let term_ok = match pred {
                Predicate::Trait(_) => true,
                Predicate::Projection(pp) => match find_assoc(
                    &db.impls[i].assoc_values,
                    pp.alias.alias_id,
                ) {
                    Some(vpat) => {
                        let val = subst_ty(&sub, vpat);
                        ty_eq(&val, &pp.term)
                    },
                    None => false,
                },
            };
            if term_ok {
                let instd = subst_clauses(&sub, &db.impls[i].where_clauses);
                let goals = clause_goals(&instd);
                evaluate_added_goals_from(db, mode, budget, env, &goals, 0, Certainty::Yes)
            } else {
                Err(NoSolution)
            }
        },
    }
}

/// The builtin-rule dispatch pass.
fn assemble_builtin_impl_candidates(
    db: &Db,
    mode: SolverMode,
    budget: usize,
    env: &ParamEnv,
    pred: &Predicate,
) -> (r: Vec<Candidate>)
    ensures
        r@ == spec_builtin_pass(*db, mode, budget as nat, *env, *pred),
    decreases budget, pred_size(*pred), 7int, 1int,
{
    let mut out: Vec<Candidate> = Vec::new();
    match builtin_primary(db, mode, budget, env, pred) {
        Ok(resp) => {
            out.push(Candidate { source: CandidateSource::BuiltinImpl, result: resp });
        },
        Err(_) => {},
    }
    let ghost base = out@;
    if opt_is(db.lang.unsize, pred.trait_id()) {
        let resps = consider_builtin_dyn_upcast_candidates(db, pred);
        let mut j: usize = 0;
        while j < resps.len()
            invariant
                j <= resps@.len(),
                out@.len() == base.len() + j,
                out@.take(base.len() as int) =~= base,
                forall|k: int|
                    0 <= k < j ==> out@[base.len() + k] == (Candidate {
                        source: CandidateSource::BuiltinImpl,
                        result: resps@[k],
                    }),
            decreases resps@.len() - j,
        {
            out.push(Candidate { source: CandidateSource::BuiltinImpl, result: resps[j] });
            j = j + 1;
        }
        proof {
            assert(out@ =~= base + spec_upcast_responses(*db, *pred).map_values(
                |r0: Response| Candidate { source: CandidateSource::BuiltinImpl, result: r0 },
            ));
        }
    }
    proof {
        assert(out@ =~= spec_builtin_pass(*db, mode, budget as nat, *env, *pred));
    }
    out
}

/// The closed builtin dispatch table.
fn builtin_primary(
    db: &Db,
    mode: SolverMode,
    budget: usize,
    env: &ParamEnv,
    pred: &Predicate,
) -> (r: QueryResult)
    ensures
        r == spec_builtin_primary(*db, mode, budget as nat, *env, *pred),
    decreases budget, pred_size(*pred), 6int, 1int,
{
    match pred {
        Predicate::Projection(_) => Err(NoSolution),
        Predicate::Trait(tr) => {
            let tid = tr.trait_id;
            if trait_flag(db, tid, true) {
                consider_auto_trait_candidate(db, mode, budget, env, tr)
            } else if trait_flag(db, tid, false) {
                consider_trait_alias_candidate(db, mode, budget, env, tr)
            } else if opt_is(db.lang.sized, tid) {
                consider_structural(db, mode, budget, env, tr, ConstituentRule::Sized)
            } else if opt_is(db.lang.copy, tid) || opt_is(db.lang.clone, tid) {
                consider_structural(db, mode, budget, env, tr, ConstituentRule::CopyClone)
            } else if opt_is(db.lang.pointer_like, tid) {
                yes_if(matches!(&*tr.self_ty, Ty::FnPtr))
            } else if opt_is(db.lang.fn_ptr, tid) {
                yes_if(matches!(&*tr.self_ty, Ty::FnPtr))
            } else if opt_is(db.lang.fn_by_ref, tid) || opt_is(db.lang.fn_by_mut_ref, tid)
                || opt_is(db.lang.fn_by_value, tid) {
                yes_if(matches!(&*tr.self_ty, Ty::FnPtr))
            } else if opt_is(db.lang.tuple, tid) {
                yes_if(matches!(&*tr.self_ty, Ty::Tuple(_)))
            } else if opt_is(db.lang.pointee, tid) {
                Ok(Response { certainty: Certainty::Yes })
            } else if opt_is(db.lang.future, tid) {
                yes_if(matches!(&*tr.self_ty, Ty::Coroutine(true)))
            } else if opt_is(db.lang.generator, tid) {
                yes_if(matches!(&*tr.self_ty, Ty::Coroutine(false)))
            } else if opt_is(db.lang.unsize, tid) {
                consider_builtin_unsize_candidate(db, mode, budget, env, tr)
            } else if opt_is(db.lang.discriminant_kind, tid) {
                Ok(Response { certainty: Certainty::Yes })
            } else if opt_is(db.lang.destruct, tid) {
                Ok(Response { certainty: Certainty::Yes })
            } else if opt_is(db.lang.transmute, tid) {
                match &tr.args {
                    TyList::Cons(t, _) => yes_if(ty_eq(t, &tr.self_ty)),
                    TyList::Nil => Err(NoSolution),
                }
            } else {
                Err(NoSolution)
            }
        },
    }
}

/// The auto-marker rule.
fn consider_auto_trait_candidate(
    db: &Db,
    mode: SolverMode,
    budget: usize,
    env: &ParamEnv,
    tr: &TraitRef,
) -> (r: QueryResult)
    ensures
        r == spec_consider_auto(*db, mode, budget as nat, *env, *tr),
    decreases budget, pred_size(Predicate::Trait(*tr)), 6int, 0int,
{
    if has_applicable_impl(&db.impls, tr.trait_id, &tr.self_ty) {
        Err(NoSolution)
    } else {
        consider_structural(db, mode, budget, env, tr, ConstituentRule::Auto)
    }
}

/// A structural rule over the chosen constituent family.
fn consider_structural(
    db: &Db,
    mode: SolverMode,
    budget: usize,
    env: &ParamEnv,
    tr: &TraitRef,
    rule: ConstituentRule,
) -> (r: QueryResult)
    ensures
        r == spec_consider_structural(*db, mode, budget as nat, *env, *tr, rule),
    decreases budget, pred_size(Predicate::Trait(*tr)), 5int, 0int,
{
    match constituents(db, rule, &tr.self_ty) {
        None => Err(NoSolution),
        Some(tys) => {
            let goals = goals_for(tr, &tys);
            evaluate_added_goals_from(db, mode, budget, env, &goals, 0, Certainty::Yes)
        },
    }
}

/// The capability-alias rule.
fn consider_trait_alias_candidate(
    db: &Db,
    mode: SolverMode,
    budget: usize,
    env: &ParamEnv,
    tr: &TraitRef,
) -> (r: QueryResult)
    ensures
        r == spec_consider_trait_alias(*db, mode, budget as nat, *env, *tr),
    decreases budget, pred_size(Predicate::Trait(*tr)), 5int, 0int,
{
    match db.find_trait(tr.trait_id) {
        None => Err(NoSolution),
        Some(td) => {
            let sub = Subst::Cons(
                0,
                Box::new((*tr.self_ty).clone()),
                Box::new(index_subst(&tr.args, 1)),
            );
            let instd = subst_clauses(&sub, &td.alias_clauses);
            let goals = clause_goals(&instd);
            evaluate_added_goals_from(db, mode, budget, env, &goals, 0, Certainty::Yes)
        },
    }
}

/// The unsizing rule.
fn consider_builtin_unsize_candidate(
    db: &Db,
    mode: SolverMode,
    budget: usize,
    env: &ParamEnv,
    tr: &TraitRef,
) -> (r: QueryResult)
    ensures
        r == spec_consider_unsize(*db, mode, budget as nat, *env, *tr),
    decreases budget, pred_size(Predicate::Trait(*tr)), 5int, 0int,
{
    match &tr.args {
        TyList::Nil => Err(NoSolution),
        TyList::Cons(target, _) => match (&*tr.self_ty, &**target) {
            (Ty::Array(e), Ty::Slice(e2)) => yes_if(ty_eq(&**e, &**e2)),
            (Ty::Dynamic(src), Ty::Dynamic(tgt)) => yes_if(bounds_subset(tgt, src)),
            (s, Ty::Dynamic(tgt)) => {
                let tgt_vec = dyn_list_to_vec(tgt);
                let cls = inst_bounds_vec(s, &tgt_vec);
                let goals = clause_goals(&cls);
                evaluate_added_goals_from(db, mode, budget, env, &goals, 0, Certainty::Yes)
            },
            _ => Err(NoSolution),
        },
    }
}

/// The alias-bound enumeration pass.
fn assemble_alias_bound_candidates(
    db: &Db,
    mode: SolverMode,
    budget: usize,
    env: &ParamEnv,
    pred: &Predicate,
) -> (r: Vec<Candidate>)
    ensures
        r@ == spec_alias_pass(*db, mode, budget as nat, *env, *pred),
    decreases budget, pred_size(*pred), 7int, 2int,
{
    if let Ty::Alias(kind, alias) = pred.self_ty() {
        if matches!(kind, AliasKind::Projection) || matches!(kind, AliasKind::Opaque) {
            match db.find_item_bounds(alias.alias_id) {
                Some(ab) => assemble_alias_bound_candidates_from(db, mode, budget, env, pred, *kind, alias, &ab.bounds, 0),
                None => Vec::new(),
            }
        } else {
            Vec::new()
        }
    } else {
        Vec::new()
    }
}

/// The alias-bound pass from bound position `i`.
fn assemble_alias_bound_candidates_from(
    db: &Db,
    mode: SolverMode,
    budget: usize,
    env: &ParamEnv,
    pred: &Predicate,
    kind: AliasKind,
    alias: &AliasTy,
    bounds: &Vec<Clause>,
    i: usize,
) -> (r: Vec<Candidate>)
    requires
        i <= bounds@.len(),
    ensures
        r@ == spec_alias_pass_from(
            *db,
            mode,
            budget as nat,
            *env,
            *pred,
            kind,
            *alias,
            bounds@,
            i as int,
        ),
    decreases budget, pred_size(*pred), 6int, bounds@.len() - i,
{
    if i == bounds.len() {
        Vec::new()
    } else {
        let mut rest = assemble_alias_bound_candidates_from(db, mode, budget, env, pred, kind, alias, bounds, i + 1);
        let sub = alias_bound_subst(kind, alias);
        let inst = subst_clause(&sub, &bounds[i]);
        if clause_matches(&inst, pred) {
            match validate_inner(db, mode, budget, env, pred) {
                Ok(resp) => {
                    let mut out: Vec<Candidate> = Vec::new();
                    out.push(
                        Candidate { source: CandidateSource::AliasBound(i), result: resp },
                    );
                    out.append(&mut rest);
                    proof {
                        assert(out@ =~= seq![
                            Candidate {
                                source: CandidateSource::AliasBound(i as usize),
                                result: resp,
                            },
                        ] + spec_alias_pass_from(
                            *db,
                            mode,
                            budget as nat,
                            *env,
                            *pred,
                            kind,
                            *alias,
                            bounds@,
                            i + 1 as int,
                        ));
                    }
                    out
                },
                Err(_) => rest,
            }
        } else {
            rest
        }
    }
}

/// The alias-bound validation sub-protocol.
fn validate_inner(
    db: &Db,
    mode: SolverMode,
    budget: usize,
    env: &ParamEnv,
    pred: &Predicate,
) -> (r: QueryResult)
    ensures
        r == spec_validate(*db, mode, budget as nat, *env, *pred),
    decreases budget, pred_size(*pred), 5int, 0int,
{
    match pred.self_ty() {
        Ty::Alias(AliasKind::Projection, alias) => {
            if matches!(&*alias.self_ty, Ty::Var(_)) {
                Ok(Response { certainty: Certainty::Maybe(MaybeCause::Ambiguity) })
            } else {
                let trait_pred = Predicate::Trait(
                    TraitRef {
                        trait_id: alias.owner_trait,
                        self_ty: Box::new((*alias.self_ty).clone()),
                        args: alias.args.clone(),
                    },
                );
                proof {
                    lemma_trait_pred_smaller(*pred, AliasKind::Projection, *alias);
                }
                let mut cands = assemble_param_env_candidates_from(env, &trait_pred, 0);
                let mut v2 = assemble_alias_bound_candidates(db, mode, budget, env, &trait_pred);
                cands.append(&mut v2);
                let mut v3 = assemble_alias_bound_candidates_for_builtin_impl_default_items(db, &trait_pred);
                cands.append(&mut v3);
                proof {
                    assert(cands@ =~= spec_env_pass_from(*env, trait_pred, 0) + spec_alias_pass(
                        *db,
                        mode,
                        budget as nat,
                        *env,
                        trait_pred,
                    ) + spec_default_items_pass(*db, trait_pred));
                }
                merge_candidate_list(mode, &cands)
            }
        },
        Ty::Alias(AliasKind::Opaque, _) => match env.reveal {
            Reveal::UserFacing => Ok(Response { certainty: Certainty::Yes }),
            Reveal::All => Err(NoSolution),
        },
        _ => Err(NoSolution),
    }
}

/// Reduces a candidate list to one outcome in the given mode; the
/// underlying function of [`EvalCtxt::merge_candidates`].
pub fn merge_candidate_list(mode: SolverMode, candidates: &Vec<Candidate>) -> (r: QueryResult)
    ensures
        r == spec_merge_candidates(mode, candidates@),
{
    let responses = responses_of(candidates);
    if let Some(result) = try_merge_responses(&responses) {
        return Ok(result);
    }
    match mode {
        SolverMode::Coherence => {},
        SolverMode::Normal => {
            let env = env_candidates(candidates);
            let env_responses = responses_of(&env);
            if let Some(result) = try_merge_responses(&env_responses) {
                return Ok(result);
            }
        },
    }
    flounder(&responses)
}

impl EvalCtxt {
    /// The remaining recursion budget.
    pub open spec fn spec_budget(self) -> nat {
        (self.limit - self.depth) as nat
    }

    /// Assembles every candidate for the goal: the engine's single entry
    /// point for enumeration.  The result is exactly the mathematical
    /// candidate list [`spec_assemble`] of the database, mode, remaining
    /// budget and goal — in particular, repeated calls with an unchanged
    /// database return identical lists.
    pub fn assemble_and_evaluate_candidates(&self, db: &Db, goal: &Goal) -> (r: Vec<Candidate>)
        requires
            self.depth <= self.limit,
        ensures
            r@ == spec_assemble(*db, self.mode, self.spec_budget(), goal.param_env, goal.predicate),
    {
        assemble_inner(db, self.mode, self.limit - self.depth, &goal.param_env, &goal.predicate)
    }

    /// Evaluates one goal to a single outcome: assembly followed by merge,
    /// with certainty `Maybe(Overflow)` once the budget is exhausted.
    pub fn evaluate_goal(&self, db: &Db, goal: &Goal) -> (r: QueryResult)
        requires
            self.depth <= self.limit,
        ensures
            r == spec_evaluate_goal(
                *db,
                self.mode,
                self.spec_budget(),
                goal.param_env,
                goal.predicate,
            ),
    {
        evaluate_goal_inner(db, self.mode, self.limit - self.depth, &goal.param_env, &goal.predicate)
    }

    /// Checks that an alias bound originating from the goal's subject may
    /// be used: a projection alias must prove its owning capability
    /// reference from assumption and alias-bound candidates (plus the
    /// narrow always-applicable builtin allow-list); an opaque alias is
    /// trusted in user-facing reveal mode only.  Goals whose subject is not
    /// a projection or opaque alias are rejected.
    pub fn validate_alias_bound_self_from_param_env(&self, db: &Db, goal: &Goal) -> (r:
        QueryResult)
        requires
            self.depth <= self.limit,
        ensures
            r == spec_validate(
                *db,
                self.mode,
                self.spec_budget(),
                goal.param_env,
                goal.predicate,
            ),
    {
        validate_inner(db, self.mode, self.limit - self.depth, &goal.param_env, &goal.predicate)
    }
}

} // verus!
