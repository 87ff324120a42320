//! The term model: subject types, capability references, clauses and goals.
//!
//! Terms are plain recursive datatypes.  Argument lists are cons-lists
//! ([`TyList`], [`DynBoundList`]) rather than vectors so that mathematical
//! equality on terms is ordinary structural equality, which the matching and
//! merging contracts rely on.  Identifiers (capabilities, declarations,
//! nominal types, associated items) are plain `u64` keys into the
//! declaration database.
//!
//! A goal is fully variable-resolved when it reaches the engine; the only
//! inference-variable form the engine itself handles is a subject type that
//! is *itself* an unresolved variable ([`Ty::Var`]).

use vstd::prelude::*;

verus! {

/// Which flavour of alias a [`Ty::Alias`] subject is.
#[derive(Clone, Copy, Debug, PartialEq, Eq, Structural)]
pub enum AliasKind {
    /// An associated-item projection, e.g. "the Output type of capability C
    /// applied to T".
    Projection,
    /// An opaque (existential) type whose concrete value is hidden.
    Opaque,
    /// An inherent associated type; carries no meaningful declared bounds.
    Inherent,
    /// A simple (weak) type alias; carries no meaningful declared bounds.
    Weak,
}

/// A cons-list of types.
#[derive(Debug, PartialEq, Eq)]
pub enum TyList {
    /// The empty list.
    Nil,
    /// A head element followed by the rest of the list.
    Cons(Box<Ty>, Box<TyList>),
}

/// A projection or opaque alias reference: an associated item applied to the
/// arguments of its owning capability reference.
#[derive(Debug, PartialEq, Eq)]
pub struct AliasTy {
    /// The associated item being projected.
    pub alias_id: u64,
    /// The capability that declares the associated item.
    pub owner_trait: u64,
    /// The subject type of the owning capability reference.
    pub self_ty: Box<Ty>,
    /// The remaining arguments of the owning capability reference.
    pub args: TyList,
}

/// One existential bound of a trait-object type; the subject position is
/// erased and re-attached when the bound is instantiated.
#[derive(Debug, PartialEq, Eq)]
pub enum DynBound {
    /// An existential capability bound: capability id plus its non-subject
    /// arguments.
    Trait(u64, TyList),
    /// An existential projection-equality bound: owning capability id, its
    /// non-subject arguments, the associated item, and the equated term.
    Projection(u64, TyList, u64, Box<Ty>),
}

/// A cons-list of existential bounds.
#[derive(Debug, PartialEq, Eq)]
pub enum DynBoundList {
    /// The empty list.
    Nil,
    /// A head element followed by the rest of the list.
    Cons(Box<DynBound>, Box<DynBoundList>),
}

/// A canonical subject type.
#[derive(Debug, PartialEq, Eq)]
pub enum Ty {
    /// The boolean primitive.
    Bool,
    /// An integer primitive.
    Int,
    /// An unresolved inference variable.
    Var(u64),
    /// A rigid generic parameter.
    Param(u64),
    /// A nominal type constructor applied to arguments.
    Adt(u64, TyList),
    /// A tuple of component types.
    Tuple(TyList),
    /// A function pointer.
    FnPtr,
    /// A desugared coroutine; `true` when it comes from a future-like
    /// desugaring, `false` for a generator-like one.
    Coroutine(bool),
    /// An array; unsizes to the slice of the same element.
    Array(Box<Ty>),
    /// A slice.
    Slice(Box<Ty>),
    /// An alias form whose value depends on resolving an associated item.
    Alias(AliasKind, AliasTy),
    /// A trait-object type carrying an existential bound list.
    Dynamic(DynBoundList),
}

/// A capability reference: a capability id applied to a subject type and
/// further arguments.
#[derive(Debug, PartialEq, Eq)]
pub struct TraitRef {
    /// The capability being referenced.
    pub trait_id: u64,
    /// The subject type.
    pub self_ty: Box<Ty>,
    /// The non-subject arguments.
    pub args: TyList,
}

/// A projection-equality predicate: the alias must resolve to `term`.
#[derive(Debug, PartialEq, Eq)]
pub struct ProjPred {
    /// The alias being projected.
    pub alias: AliasTy,
    /// The expected value of the alias.
    pub term: Box<Ty>,
}

/// The two goal shapes the engine decides.
#[derive(Debug, PartialEq, Eq)]
pub enum Predicate {
    /// Capability-holds: the subject type satisfies the capability.
    Trait(TraitRef),
    /// Projection-equals: the alias resolves to the given term.
    Projection(ProjPred),
}

/// An assumption clause from a caller's environment or an item-bound list.
#[derive(Debug, PartialEq, Eq)]
pub enum Clause {
    /// A capability-style clause; eligible for assumption matching.
    Trait(TraitRef),
    /// A projection-equality clause; eligible for assumption matching.
    Projection(ProjPred),
    /// A non-capability clause (e.g. a lifetime bound); skipped by every
    /// enumeration pass.
    Region,
}

/// How opaque aliases are treated by the current assumption context.
#[derive(Clone, Copy, Debug, PartialEq, Eq, Structural)]
pub enum Reveal {
    /// User-facing mode: declared bounds of an opaque alias are trusted.
    UserFacing,
    /// Fully-revealing mode: an opaque alias must be resolved to its hidden
    /// concrete type elsewhere.
    All,
}

/// The caller's assumption context: in-scope clauses, by position, plus the
/// reveal mode.
#[derive(Debug)]
pub struct ParamEnv {
    /// The in-scope clauses; positions are meaningful only within this
    /// snapshot.
    pub clauses: Vec<Clause>,
    /// The reveal mode.
    pub reveal: Reveal,
}

/// A goal: an assumption context plus a predicate to decide.
#[derive(Debug)]
pub struct Goal {
    /// The assumption context.
    pub param_env: ParamEnv,
    /// The predicate to decide.
    pub predicate: Predicate,
}

impl TyList {
    /// The list as a mathematical sequence.
    pub open spec fn seq(self) -> Seq<Ty>
        decreases self,
    {
        match self {
            TyList::Nil => Seq::empty(),
            TyList::Cons(head, tail) => seq![*head] + tail.seq(),
        }
    }
}

impl DynBoundList {
    /// The list as a mathematical sequence.
    pub open spec fn seq(self) -> Seq<DynBound>
        decreases self,
    {
        match self {
            DynBoundList::Nil => Seq::empty(),
            DynBoundList::Cons(head, tail) => seq![*head] + tail.seq(),
        }
    }
}

/// Structural equality of types, decided executably.
pub fn ty_eq(a: &Ty, b: &Ty) -> (r: bool)
    ensures
        r <==> a == b,
    decreases a,
{
    match (a, b) {
        (Ty::Bool, Ty::Bool) => true,
        (Ty::Int, Ty::Int) => true,
        (Ty::Var(x), Ty::Var(y)) => x == y,
        (Ty::Param(x), Ty::Param(y)) => x == y,
        (Ty::Adt(i, xs), Ty::Adt(j, ys)) => i == j && ty_list_eq(xs, ys),
        (Ty::Tuple(xs), Ty::Tuple(ys)) => ty_list_eq(xs, ys),
        (Ty::FnPtr, Ty::FnPtr) => true,
        (Ty::Coroutine(x), Ty::Coroutine(y)) => x == y,
        (Ty::Array(x), Ty::Array(y)) => ty_eq(&**x, &**y),
        (Ty::Slice(x), Ty::Slice(y)) => ty_eq(&**x, &**y),
        (Ty::Alias(k1, a1), Ty::Alias(k2, a2)) => k1 == k2 && alias_eq(a1, a2),
        (Ty::Dynamic(xs), Ty::Dynamic(ys)) => dyn_bound_list_eq(xs, ys),
        _ => false,
    }
}

/// Structural equality of type lists, decided executably.
pub fn ty_list_eq(a: &TyList, b: &TyList) -> (r: bool)
    ensures
        r <==> a == b,
    decreases a,
{
    match (a, b) {
        (TyList::Nil, TyList::Nil) => true,
        (TyList::Cons(x, xs), TyList::Cons(y, ys)) => ty_eq(x, y) && ty_list_eq(xs, ys),
        _ => false,
    }
}

/// Structural equality of alias references, decided executably.
pub fn alias_eq(a: &AliasTy, b: &AliasTy) -> (r: bool)
    ensures
        r <==> a == b,
    decreases a,
{
    a.alias_id == b.alias_id && a.owner_trait == b.owner_trait && ty_eq(&*a.self_ty, &*b.self_ty)
        && ty_list_eq(&a.args, &b.args)
}

/// Structural equality of existential bounds, decided executably.
pub fn dyn_bound_eq(a: &DynBound, b: &DynBound) -> (r: bool)
    ensures
        r <==> a == b,
    decreases a,
{
    match (a, b) {
        (DynBound::Trait(i, xs), DynBound::Trait(j, ys)) => i == j && ty_list_eq(xs, ys),
        (DynBound::Projection(i, xs, p, t), DynBound::Projection(j, ys, q, u)) => i == j && p == q
            && ty_list_eq(xs, ys) && ty_eq(&**t, &**u),
        _ => false,
    }
}

/// Structural equality of existential bound lists, decided executably.
pub fn dyn_bound_list_eq(a: &DynBoundList, b: &DynBoundList) -> (r: bool)
    ensures
        r <==> a == b,
    decreases a,
{
    match (a, b) {
        (DynBoundList::Nil, DynBoundList::Nil) => true,
        (DynBoundList::Cons(x, xs), DynBoundList::Cons(y, ys)) => dyn_bound_eq(x, y)
            && dyn_bound_list_eq(xs, ys),
        _ => false,
    }
}

/// Structural equality of capability references, decided executably.
pub fn trait_ref_eq(a: &TraitRef, b: &TraitRef) -> (r: bool)
    ensures
        r <==> a == b,
{
    a.trait_id == b.trait_id && ty_eq(&*a.self_ty, &*b.self_ty) && ty_list_eq(&a.args, &b.args)
}

/// Structural equality of projection predicates, decided executably.
pub fn proj_pred_eq(a: &ProjPred, b: &ProjPred) -> (r: bool)
    ensures
        r <==> a == b,
{
    alias_eq(&a.alias, &b.alias) && ty_eq(&*a.term, &*b.term)
}

/// Structural equality of predicates, decided executably.
pub fn pred_eq(a: &Predicate, b: &Predicate) -> (r: bool)
    ensures
        r <==> a == b,
{
    match (a, b) {
        (Predicate::Trait(x), Predicate::Trait(y)) => trait_ref_eq(x, y),
        (Predicate::Projection(x), Predicate::Projection(y)) => proj_pred_eq(x, y),
        _ => false,
    }
}

/// Structural equality of clauses, decided executably.
pub fn clause_eq(a: &Clause, b: &Clause) -> (r: bool)
    ensures
        r <==> a == b,
{
    match (a, b) {
        (Clause::Trait(x), Clause::Trait(y)) => trait_ref_eq(x, y),
        (Clause::Projection(x), Clause::Projection(y)) => proj_pred_eq(x, y),
        (Clause::Region, Clause::Region) => true,
        _ => false,
    }
}

/// The number of nodes in a type; every type has positive size, and every
/// syntactic component is strictly smaller than its parent.
pub open spec fn ty_size(t: Ty) -> nat
    decreases t,
{
    match t {
        Ty::Bool => 1,
        Ty::Int => 1,
        Ty::Var(_) => 1,
        Ty::Param(_) => 1,
        Ty::Adt(_, args) => 1 + ty_list_size(args),
        Ty::Tuple(elems) => 1 + ty_list_size(elems),
        Ty::FnPtr => 1,
        Ty::Coroutine(_) => 1,
        Ty::Array(elem) => 1 + ty_size(*elem),
        Ty::Slice(elem) => 1 + ty_size(*elem),
        Ty::Alias(_, alias) => 1 + alias_size(alias),
        Ty::Dynamic(bounds) => 1 + dyn_bound_list_size(bounds),
    }
}

/// The total size of a type list.
pub open spec fn ty_list_size(l: TyList) -> nat
    decreases l,
{
    match l {
        TyList::Nil => 0,
        TyList::Cons(head, tail) => ty_size(*head) + ty_list_size(*tail),
    }
}

/// The size of an alias reference's components.
pub open spec fn alias_size(a: AliasTy) -> nat
    decreases a,
{
    1 + ty_size(*a.self_ty) + ty_list_size(a.args)
}

/// The size of one existential bound.
pub open spec fn dyn_bound_size(b: DynBound) -> nat
    decreases b,
{
    match b {
        DynBound::Trait(_, args) => 1 + ty_list_size(args),
        DynBound::Projection(_, args, _, term) => 1 + ty_list_size(args) + ty_size(*term),
    }
}

/// The total size of an existential bound list.
pub open spec fn dyn_bound_list_size(l: DynBoundList) -> nat
    decreases l,
{
    match l {
        DynBoundList::Nil => 0,
        DynBoundList::Cons(head, tail) => dyn_bound_size(*head) + dyn_bound_list_size(*tail),
    }
}

/// The size of a capability reference's components.
pub open spec fn trait_ref_size(r: TraitRef) -> nat {
    1 + ty_size(*r.self_ty) + ty_list_size(r.args)
}

/// The size of a predicate; used as the termination measure of the
/// alias-bound validation sub-protocol, which replaces a goal about an alias
/// subject by a goal about that alias's own, strictly smaller, subject.
pub open spec fn pred_size(p: Predicate) -> nat {
    match p {
        Predicate::Trait(r) => 1 + trait_ref_size(r),
        Predicate::Projection(pp) => 2 + alias_size(pp.alias) + ty_size(*pp.term),
    }
}

impl Predicate {
    /// The subject type of the predicate.
    pub open spec fn spec_self_ty(self) -> Ty {
        match self {
            Predicate::Trait(r) => *r.self_ty,
            Predicate::Projection(pp) => *pp.alias.self_ty,
        }
    }

    /// The capability the predicate is about: its own capability for a
    /// capability-holds goal, the owning capability for a projection goal.
    pub open spec fn spec_trait_id(self) -> u64 {
        match self {
            Predicate::Trait(r) => r.trait_id,
            Predicate::Projection(pp) => pp.alias.owner_trait,
        }
    }

    /// The capability reference of the predicate (the owning capability
    /// reference for a projection goal).
    pub open spec fn spec_trait_ref(self) -> TraitRef {
        match self {
            Predicate::Trait(r) => r,
            Predicate::Projection(pp) => TraitRef {
                trait_id: pp.alias.owner_trait,
                self_ty: pp.alias.self_ty,
                args: pp.alias.args,
            },
        }
    }

    /// The same predicate with the subject type replaced.
    pub open spec fn spec_with_self_ty(self, self_ty: Ty) -> Predicate {
        match self {
            Predicate::Trait(r) => Predicate::Trait(
                TraitRef { trait_id: r.trait_id, self_ty: Box::new(self_ty), args: r.args },
            ),
            Predicate::Projection(pp) => Predicate::Projection(
                ProjPred {
                    alias: AliasTy {
                        alias_id: pp.alias.alias_id,
                        owner_trait: pp.alias.owner_trait,
                        self_ty: Box::new(self_ty),
                        args: pp.alias.args,
                    },
                    term: pp.term,
                },
            ),
        }
    }

    /// The subject type of the predicate.
    pub fn self_ty(&self) -> (r: &Ty)
        ensures
            *r == self.spec_self_ty(),
    {
        match self {
            Predicate::Trait(r) => &*r.self_ty,
            Predicate::Projection(pp) => &*pp.alias.self_ty,
        }
    }

    /// The capability the predicate is about.
    pub fn trait_id(&self) -> (r: u64)
        ensures
            r == self.spec_trait_id(),
    {
        match self {
            Predicate::Trait(r) => r.trait_id,
            Predicate::Projection(pp) => pp.alias.owner_trait,
        }
    }

    /// The capability reference of the predicate.
    pub fn trait_ref(&self) -> (r: TraitRef)
        ensures
            r == self.spec_trait_ref(),
    {
        match self {
            Predicate::Trait(r) => r.clone(),
            Predicate::Projection(pp) => TraitRef {
                trait_id: pp.alias.owner_trait,
                self_ty: Box::new((*pp.alias.self_ty).clone()),
                args: pp.alias.args.clone(),
            },
        }
    }

    /// The same predicate with the subject type replaced.
    #[verifier::rlimit(20)]
    pub fn with_self_ty(&self, self_ty: Ty) -> (r: Predicate)
        ensures
            r == self.spec_with_self_ty(self_ty),
    {
        match self {
            Predicate::Trait(r) => Predicate::Trait(
                TraitRef {
                    trait_id: r.trait_id,
                    self_ty: Box::new(self_ty),
                    args: r.args.clone(),
                },
            ),
            Predicate::Projection(pp) => Predicate::Projection(
                ProjPred {
                    alias: AliasTy {
                        alias_id: pp.alias.alias_id,
                        owner_trait: pp.alias.owner_trait,
                        self_ty: Box::new(self_ty),
                        args: pp.alias.args.clone(),
                    },
                    term: Box::new((*pp.term).clone()),
                },
            ),
        }
    }
}

impl Clone for TyList {
    /// An exact structural copy.
    fn clone(&self) -> (r: Self)
        ensures
            r == *self,
        decreases self,
    {
        match self {
            TyList::Nil => TyList::Nil,
            TyList::Cons(head, tail) => TyList::Cons(Box::new((**head).clone()), Box::new((**tail).clone())),
        }
    }
}

impl Clone for Ty {
    /// An exact structural copy.
    fn clone(&self) -> (r: Self)
        ensures
            r == *self,
        decreases self,
    {
        match self {
            Ty::Bool => Ty::Bool,
            Ty::Int => Ty::Int,
            Ty::Var(v) => Ty::Var(*v),
            Ty::Param(p) => Ty::Param(*p),
            Ty::Adt(id, args) => Ty::Adt(*id, args.clone()),
            Ty::Tuple(elems) => Ty::Tuple(elems.clone()),
            Ty::FnPtr => Ty::FnPtr,
            Ty::Coroutine(a) => Ty::Coroutine(*a),
            Ty::Array(elem) => Ty::Array(Box::new((**elem).clone())),
            Ty::Slice(elem) => Ty::Slice(Box::new((**elem).clone())),
            Ty::Alias(kind, alias) => Ty::Alias(*kind, alias.clone()),
            Ty::Dynamic(bounds) => Ty::Dynamic(bounds.clone()),
        }
    }
}

impl Clone for AliasTy {
    /// An exact structural copy.
    fn clone(&self) -> (r: Self)
        ensures
            r == *self,
        decreases self,
    {
        AliasTy {
            alias_id: self.alias_id,
            owner_trait: self.owner_trait,
            self_ty: Box::new((*self.self_ty).clone()),
            args: self.args.clone(),
        }
    }
}

impl Clone for DynBound {
    /// An exact structural copy.
    fn clone(&self) -> (r: Self)
        ensures
            r == *self,
        decreases self,
    {
        match self {
            DynBound::Trait(id, args) => DynBound::Trait(*id, args.clone()),
            DynBound::Projection(id, args, alias_id, term) => DynBound::Projection(
                *id,
                args.clone(),
                *alias_id,
                Box::new((**term).clone()),
            ),
        }
    }
}

impl Clone for DynBoundList {
    /// An exact structural copy.
    fn clone(&self) -> (r: Self)
        ensures
            r == *self,
        decreases self,
    {
        match self {
            DynBoundList::Nil => DynBoundList::Nil,
            DynBoundList::Cons(head, tail) => DynBoundList::Cons(
                Box::new((**head).clone()),
                Box::new((**tail).clone()),
            ),
        }
    }
}

impl Clone for TraitRef {
    /// An exact structural copy.
    fn clone(&self) -> (r: Self)
        ensures
            r == *self,
    {
        TraitRef {
            trait_id: self.trait_id,
            self_ty: Box::new((*self.self_ty).clone()),
            args: self.args.clone(),
        }
    }
}

impl Clone for ProjPred {
    /// An exact structural copy.
    fn clone(&self) -> (r: Self)
        ensures
            r == *self,
    {
        ProjPred { alias: self.alias.clone(), term: Box::new((*self.term).clone()) }
    }
}

impl Clone for Predicate {
    /// An exact structural copy.
    fn clone(&self) -> (r: Self)
        ensures
            r == *self,
    {
        match self {
            Predicate::Trait(r) => Predicate::Trait(r.clone()),
            Predicate::Projection(pp) => Predicate::Projection(pp.clone()),
        }
    }
}

impl Clone for Clause {
    /// An exact structural copy.
    fn clone(&self) -> (r: Self)
        ensures
            r == *self,
    {
        match self {
            Clause::Trait(r) => Clause::Trait(r.clone()),
            Clause::Projection(pp) => Clause::Projection(pp.clone()),
            Clause::Region => Clause::Region,
        }
    }
}

} // verus!
