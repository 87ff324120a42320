//! Substitution of generic parameters, and one-sided structural matching.
//!
//! Declarations in the database are *patterns*: terms whose [`Ty::Param`]
//! nodes are holes.  Matching a pattern against a goal's (fully resolved)
//! term produces a [`Subst`] binding each hole consistently; applying a
//! substitution instantiates a pattern.  Matching never binds anything on
//! the target side, which is what makes it one-sided: a conservative model
//! of the surrounding compiler's unification, sufficient because goals
//! reaching the engine are already variable-resolved.

use vstd::prelude::*;

use crate::solve::terms::AliasTy;
use crate::solve::terms::Clause;
use crate::solve::terms::DynBound;
use crate::solve::terms::DynBoundList;
use crate::solve::terms::ProjPred;
use crate::solve::terms::TraitRef;
use crate::solve::terms::Ty;
use crate::solve::terms::TyList;
use crate::solve::terms::dyn_bound_list_eq;
use crate::solve::terms::ty_eq;

verus! {

/// A finite map from parameter holes to types, as a cons-list; earlier
/// entries shadow later ones.
#[derive(Debug, PartialEq, Eq)]
pub enum Subst {
    /// The empty substitution.
    Nil,
    /// One binding followed by the rest of the substitution.
    Cons(u64, Box<Ty>, Box<Subst>),
}

/// The binding of hole `p`, if any.
pub open spec fn spec_subst_lookup(s: Subst, p: u64) -> Option<Ty>
    decreases s,
{
    match s {
        Subst::Nil => None,
        Subst::Cons(q, t, rest) => if q == p {
            Some(*t)
        } else {
            spec_subst_lookup(*rest, p)
        },
    }
}

/// The binding of hole `p`, if any.
pub fn subst_lookup(s: &Subst, p: u64) -> (r: Option<Ty>)
    ensures
        r == spec_subst_lookup(*s, p),
    decreases s,
{
    match s {
        Subst::Nil => None,
        Subst::Cons(q, t, rest) => if *q == p {
            Some((**t).clone())
        } else {
            subst_lookup(rest, p)
        },
    }
}

/// Applies a substitution to a type; unbound holes stay rigid.
pub open spec fn spec_subst_ty(s: Subst, t: Ty) -> Ty
    decreases t,
{
    match t {
        Ty::Param(p) => match spec_subst_lookup(s, p) {
            Some(u) => u,
            None => Ty::Param(p),
        },
        Ty::Adt(id, args) => Ty::Adt(id, spec_subst_ty_list(s, args)),
        Ty::Tuple(elems) => Ty::Tuple(spec_subst_ty_list(s, elems)),
        Ty::Array(elem) => Ty::Array(Box::new(spec_subst_ty(s, *elem))),
        Ty::Slice(elem) => Ty::Slice(Box::new(spec_subst_ty(s, *elem))),
        Ty::Alias(kind, alias) => Ty::Alias(kind, spec_subst_alias(s, alias)),
        Ty::Dynamic(bounds) => Ty::Dynamic(spec_subst_dyn_bound_list(s, bounds)),
        _ => t,
    }
}

/// Applies a substitution to every element of a type list.
pub open spec fn spec_subst_ty_list(s: Subst, l: TyList) -> TyList
    decreases l,
{
    match l {
        TyList::Nil => TyList::Nil,
        TyList::Cons(head, tail) => TyList::Cons(
            Box::new(spec_subst_ty(s, *head)),
            Box::new(spec_subst_ty_list(s, *tail)),
        ),
    }
}

/// Applies a substitution to an alias reference.
pub open spec fn spec_subst_alias(s: Subst, a: AliasTy) -> AliasTy
    decreases a,
{
    AliasTy {
        alias_id: a.alias_id,
        owner_trait: a.owner_trait,
        self_ty: Box::new(spec_subst_ty(s, *a.self_ty)),
        args: spec_subst_ty_list(s, a.args),
    }
}

/// Applies a substitution to an existential bound.
pub open spec fn spec_subst_dyn_bound(s: Subst, b: DynBound) -> DynBound
    decreases b,
{
    match b {
        DynBound::Trait(id, args) => DynBound::Trait(id, spec_subst_ty_list(s, args)),
        DynBound::Projection(id, args, alias_id, term) => DynBound::Projection(
            id,
            spec_subst_ty_list(s, args),
            alias_id,
            Box::new(spec_subst_ty(s, *term)),
        ),
    }
}

/// Applies a substitution to every element of an existential bound list.
pub open spec fn spec_subst_dyn_bound_list(s: Subst, l: DynBoundList) -> DynBoundList
    decreases l,
{
    match l {
        DynBoundList::Nil => DynBoundList::Nil,
        DynBoundList::Cons(head, tail) => DynBoundList::Cons(
            Box::new(spec_subst_dyn_bound(s, *head)),
            Box::new(spec_subst_dyn_bound_list(s, *tail)),
        ),
    }
}

/// Applies a substitution to a capability reference.
pub open spec fn spec_subst_trait_ref(s: Subst, r: TraitRef) -> TraitRef {
    TraitRef {
        trait_id: r.trait_id,
        self_ty: Box::new(spec_subst_ty(s, *r.self_ty)),
        args: spec_subst_ty_list(s, r.args),
    }
}

/// Applies a substitution to a projection predicate.
pub open spec fn spec_subst_proj_pred(s: Subst, p: ProjPred) -> ProjPred {
    ProjPred { alias: spec_subst_alias(s, p.alias), term: Box::new(spec_subst_ty(s, *p.term)) }
}

/// Applies a substitution to a clause.
pub open spec fn spec_subst_clause(s: Subst, c: Clause) -> Clause {
    match c {
        Clause::Trait(r) => Clause::Trait(spec_subst_trait_ref(s, r)),
        Clause::Projection(p) => Clause::Projection(spec_subst_proj_pred(s, p)),
        Clause::Region => Clause::Region,
    }
}

/// Applies a substitution to a type; unbound holes stay rigid.
pub fn subst_ty(s: &Subst, t: &Ty) -> (r: Ty)
    ensures
        r == spec_subst_ty(*s, *t),
    decreases t,
{
    match t {
        Ty::Param(p) => match subst_lookup(s, *p) {
            Some(u) => u,
            None => Ty::Param(*p),
        },
        Ty::Adt(id, args) => Ty::Adt(*id, subst_ty_list(s, args)),
        Ty::Tuple(elems) => Ty::Tuple(subst_ty_list(s, elems)),
        Ty::Array(elem) => Ty::Array(Box::new(subst_ty(s, elem))),
        Ty::Slice(elem) => Ty::Slice(Box::new(subst_ty(s, elem))),
        Ty::Alias(kind, alias) => Ty::Alias(*kind, subst_alias(s, alias)),
        Ty::Dynamic(bounds) => Ty::Dynamic(subst_dyn_bound_list(s, bounds)),
        Ty::Bool => Ty::Bool,
        Ty::Int => Ty::Int,
        Ty::Var(v) => Ty::Var(*v),
        Ty::FnPtr => Ty::FnPtr,
        Ty::Coroutine(a) => Ty::Coroutine(*a),
    }
}

/// Applies a substitution to every element of a type list.
pub fn subst_ty_list(s: &Subst, l: &TyList) -> (r: TyList)
    ensures
        r == spec_subst_ty_list(*s, *l),
    decreases l,
{
    match l {
        TyList::Nil => TyList::Nil,
        TyList::Cons(head, tail) => TyList::Cons(
            Box::new(subst_ty(s, head)),
            Box::new(subst_ty_list(s, tail)),
        ),
    }
}

/// Applies a substitution to an alias reference.
pub fn subst_alias(s: &Subst, a: &AliasTy) -> (r: AliasTy)
    ensures
        r == spec_subst_alias(*s, *a),
    decreases a,
{
    AliasTy {
        alias_id: a.alias_id,
        owner_trait: a.owner_trait,
        self_ty: Box::new(subst_ty(s, &a.self_ty)),
        args: subst_ty_list(s, &a.args),
    }
}

/// Applies a substitution to an existential bound.
pub fn subst_dyn_bound(s: &Subst, b: &DynBound) -> (r: DynBound)
    ensures
        r == spec_subst_dyn_bound(*s, *b),
    decreases b,
{
    match b {
        DynBound::Trait(id, args) => DynBound::Trait(*id, subst_ty_list(s, args)),
        DynBound::Projection(id, args, alias_id, term) => DynBound::Projection(
            *id,
            subst_ty_list(s, args),
            *alias_id,
            Box::new(subst_ty(s, term)),
        ),
    }
}

/// Applies a substitution to every element of an existential bound list.
pub fn subst_dyn_bound_list(s: &Subst, l: &DynBoundList) -> (r: DynBoundList)
    ensures
        r == spec_subst_dyn_bound_list(*s, *l),
    decreases l,
{
    match l {
        DynBoundList::Nil => DynBoundList::Nil,
        DynBoundList::Cons(head, tail) => DynBoundList::Cons(
            Box::new(subst_dyn_bound(s, head)),
            Box::new(subst_dyn_bound_list(s, tail)),
        ),
    }
}

/// Applies a substitution to a capability reference.
pub fn subst_trait_ref(s: &Subst, r0: &TraitRef) -> (r: TraitRef)
    ensures
        r == spec_subst_trait_ref(*s, *r0),
{
    TraitRef {
        trait_id: r0.trait_id,
        self_ty: Box::new(subst_ty(s, &r0.self_ty)),
        args: subst_ty_list(s, &r0.args),
    }
}

/// Applies a substitution to a projection predicate.
pub fn subst_proj_pred(s: &Subst, p: &ProjPred) -> (r: ProjPred)
    ensures
        r == spec_subst_proj_pred(*s, *p),
{
    ProjPred { alias: subst_alias(s, &p.alias), term: Box::new(subst_ty(s, &p.term)) }
}

/// Applies a substitution to a clause.
pub fn subst_clause(s: &Subst, c: &Clause) -> (r: Clause)
    ensures
        r == spec_subst_clause(*s, *c),
{
    match c {
        Clause::Trait(r0) => Clause::Trait(subst_trait_ref(s, r0)),
        Clause::Projection(p) => Clause::Projection(subst_proj_pred(s, p)),
        Clause::Region => Clause::Region,
    }
}

/// Matches a pattern type against a target, extending `s` with consistent
/// bindings for every hole; `None` when the shapes disagree or a hole would
/// need two different values.  Existential bound lists in a pattern must
/// match the target exactly.
pub open spec fn spec_match_ty(pattern: Ty, target: Ty, s: Subst) -> Option<Subst>
    decreases pattern,
{
    match pattern {
        Ty::Param(p) => match spec_subst_lookup(s, p) {
            Some(t) => if t == target {
                Some(s)
            } else {
                None
            },
            None => Some(Subst::Cons(p, Box::new(target), Box::new(s))),
        },
        Ty::Bool => if target == Ty::Bool {
            Some(s)
        } else {
            None
        },
        Ty::Int => if target == Ty::Int {
            Some(s)
        } else {
            None
        },
        Ty::Var(v) => if target == Ty::Var(v) {
            Some(s)
        } else {
            None
        },
        Ty::FnPtr => if target == Ty::FnPtr {
            Some(s)
        } else {
            None
        },
        Ty::Coroutine(a) => if target == Ty::Coroutine(a) {
            Some(s)
        } else {
            None
        },
        Ty::Adt(id, args) => match target {
            Ty::Adt(id2, args2) => if id == id2 {
                spec_match_ty_list(args, args2, s)
            } else {
                None
            },
            _ => None,
        },
        Ty::Tuple(elems) => match target {
            Ty::Tuple(elems2) => spec_match_ty_list(elems, elems2, s),
            _ => None,
        },
        Ty::Array(elem) => match target {
            Ty::Array(elem2) => spec_match_ty(*elem, *elem2, s),
            _ => None,
        },
        Ty::Slice(elem) => match target {
            Ty::Slice(elem2) => spec_match_ty(*elem, *elem2, s),
            _ => None,
        },
        Ty::Alias(kind, alias) => match target {
            Ty::Alias(kind2, alias2) => if kind == kind2 && alias.alias_id == alias2.alias_id
                && alias.owner_trait == alias2.owner_trait {
                match spec_match_ty(*alias.self_ty, *alias2.self_ty, s) {
                    Some(s1) => spec_match_ty_list(alias.args, alias2.args, s1),
                    None => None,
                }
            } else {
                None
            },
            _ => None,
        },
        Ty::Dynamic(bounds) => if target == Ty::Dynamic(bounds) {
            Some(s)
        } else {
            None
        },
    }
}

/// Matches two type lists element-wise, left to right.
pub open spec fn spec_match_ty_list(patterns: TyList, targets: TyList, s: Subst) -> Option<Subst>
    decreases patterns,
{
    match (patterns, targets) {
        (TyList::Nil, TyList::Nil) => Some(s),
        (TyList::Cons(p, ps), TyList::Cons(t, ts)) => match spec_match_ty(*p, *t, s) {
            Some(s1) => spec_match_ty_list(*ps, *ts, s1),
            None => None,
        },
        _ => None,
    }
}

/// Matches a pattern capability reference against a target: the capability
/// ids must agree and subject plus arguments must match structurally.
pub open spec fn spec_match_trait_ref(pattern: TraitRef, target: TraitRef, s: Subst) -> Option<
    Subst,
> {
    if pattern.trait_id == target.trait_id {
        match spec_match_ty(*pattern.self_ty, *target.self_ty, s) {
            Some(s1) => spec_match_ty_list(pattern.args, target.args, s1),
            None => None,
        }
    } else {
        None
    }
}

/// Matches a pattern type against a target.
pub fn match_ty(pattern: &Ty, target: &Ty, s: Subst) -> (r: Option<Subst>)
    ensures
        r == spec_match_ty(*pattern, *target, s),
    decreases pattern,
{
    match pattern {
        Ty::Param(p) => match subst_lookup(&s, *p) {
            Some(t) => if ty_eq(&t, target) {
                Some(s)
            } else {
                None
            },
            None => Some(Subst::Cons(*p, Box::new(target.clone()), Box::new(s))),
        },
        Ty::Bool => if matches!(target, Ty::Bool) {
            Some(s)
        } else {
            None
        },
        Ty::Int => if matches!(target, Ty::Int) {
            Some(s)
        } else {
            None
        },
        Ty::Var(v) => match target {
            Ty::Var(w) => if v == w {
                Some(s)
            } else {
                None
            },
            _ => None,
        },
        Ty::FnPtr => if matches!(target, Ty::FnPtr) {
            Some(s)
        } else {
            None
        },
        Ty::Coroutine(a) => match target {
            Ty::Coroutine(b) => if a == b {
                Some(s)
            } else {
                None
            },
            _ => None,
        },
        Ty::Adt(id, args) => match target {
            Ty::Adt(id2, args2) => if id == id2 {
                match_ty_list(args, args2, s)
            } else {
                None
            },
            _ => None,
        },
        Ty::Tuple(elems) => match target {
            Ty::Tuple(elems2) => match_ty_list(elems, elems2, s),
            _ => None,
        },
        Ty::Array(elem) => match target {
            Ty::Array(elem2) => match_ty(elem, elem2, s),
            _ => None,
        },
        Ty::Slice(elem) => match target {
            Ty::Slice(elem2) => match_ty(elem, elem2, s),
            _ => None,
        },
        Ty::Alias(kind, alias) => match target {
            Ty::Alias(kind2, alias2) => if kind == kind2 && alias.alias_id == alias2.alias_id
                && alias.owner_trait == alias2.owner_trait {
                match match_ty(&alias.self_ty, &alias2.self_ty, s) {
                    Some(s1) => match_ty_list(&alias.args, &alias2.args, s1),
                    None => None,
                }
            } else {
                None
            },
            _ => None,
        },
        Ty::Dynamic(bounds) => match target {
            Ty::Dynamic(bounds2) => if dyn_bound_list_eq(bounds, bounds2) {
                Some(s)
            } else {
                None
            },
            _ => None,
        },
    }
}

/// Matches two type lists element-wise, left to right.
pub fn match_ty_list(patterns: &TyList, targets: &TyList, s: Subst) -> (r: Option<Subst>)
    ensures
        r == spec_match_ty_list(*patterns, *targets, s),
    decreases patterns,
{
    match (patterns, targets) {
        (TyList::Nil, TyList::Nil) => Some(s),
        (TyList::Cons(p, ps), TyList::Cons(t, ts)) => match match_ty(p, t, s) {
            Some(s1) => match_ty_list(ps, ts, s1),
            None => None,
        },
        _ => None,
    }
}

/// Matches a pattern capability reference against a target.
pub fn match_trait_ref(pattern: &TraitRef, target: &TraitRef, s: Subst) -> (r: Option<Subst>)
    ensures
        r == spec_match_trait_ref(*pattern, *target, s),
{
    if pattern.trait_id == target.trait_id {
        match match_ty(&pattern.self_ty, &target.self_ty, s) {
            Some(s1) => match_ty_list(&pattern.args, &target.args, s1),
            None => None,
        }
    } else {
        None
    }
}

} // verus!
