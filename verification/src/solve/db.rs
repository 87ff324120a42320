//! The declaration database: the engine's read-only view of the program.
//!
//! The database supplies implementation declarations, capability metadata
//! (auto-marker flags, capability-alias right-hand sides, supertraits),
//! nominal field lists, per-associated-item declared bounds, the registry of
//! well-known capabilities, and the overlap oracle's verdicts.  Declarations
//! are patterns: their [`crate::solve::terms::Ty::Param`] nodes are holes
//! bound by matching (see [`crate::solve::subst`]).

use vstd::prelude::*;

use crate::solve::terms::Clause;
use crate::solve::terms::DynBound;
use crate::solve::terms::Ty;
use crate::solve::terms::TraitRef;

verus! {

/// An implementation declaration.
#[derive(Debug)]
pub struct ImplDecl {
    /// The declaration's id.
    pub impl_id: u64,
    /// The implemented capability reference, as a pattern over the
    /// declaration's generic parameters.
    pub trait_ref: TraitRef,
    /// The declaration's requirements, as clause patterns.
    pub where_clauses: Vec<Clause>,
    /// The declaration's associated-item values: pairs of associated-item id
    /// and value pattern.
    pub assoc_values: Vec<(u64, Ty)>,
}

/// Metadata of one capability.
#[derive(Debug)]
pub struct TraitDecl {
    /// The capability's id.
    pub trait_id: u64,
    /// Whether the capability is a structural auto-marker, decided by
    /// recursively requiring itself of a type's immediate components.
    pub is_auto: bool,
    /// Whether the capability is an alias for a set of other clauses.
    pub is_alias: bool,
    /// For an alias capability: the right-hand-side clause patterns, over
    /// `Param(0)` for the subject and `Param(1 + i)` for argument `i`.
    pub alias_clauses: Vec<Clause>,
    /// The capability's direct supertrait bounds, as existential bound
    /// patterns over `Param(1 + i)` for argument `i` (the subject position
    /// is erased, as in a trait-object bound list).
    pub supertraits: Vec<DynBound>,
}

/// Field types of one nominal type constructor.
#[derive(Debug)]
pub struct AdtDecl {
    /// The constructor's id.
    pub adt_id: u64,
    /// Its immediate component types, as patterns over `Param(i)` for
    /// argument `i`.
    pub fields: Vec<Ty>,
}

/// The declared bounds of one associated item.
#[derive(Debug)]
pub struct AssocBounds {
    /// The associated item's id.
    pub alias_id: u64,
    /// Its declared bounds, as clause patterns over `Param(0)` for the alias
    /// itself and `Param(1 + i)` for the owning capability's argument `i`.
    pub bounds: Vec<Clause>,
}

/// The registry of well-known capabilities.  The set is closed: each field
/// names the capability id playing that role, if the program declares one.
#[derive(Clone, Copy, Debug, Default)]
pub struct LangItems {
    /// Size-known-ness.
    pub sized: Option<u64>,
    /// Duplicate semantics by copying.
    pub copy: Option<u64>,
    /// Duplicate semantics by explicit cloning.
    pub clone: Option<u64>,
    /// Pointer-sized representation.
    pub pointer_like: Option<u64>,
    /// Function-pointer-ness.
    pub fn_ptr: Option<u64>,
    /// Callable by reference.
    pub fn_by_ref: Option<u64>,
    /// Callable by mutable reference.
    pub fn_by_mut_ref: Option<u64>,
    /// Callable by value.
    pub fn_by_value: Option<u64>,
    /// Tuple-ness.
    pub tuple: Option<u64>,
    /// Pointee metadata; holds of every type.
    pub pointee: Option<u64>,
    /// Future-like desugared coroutines.
    pub future: Option<u64>,
    /// Generator-like desugared coroutines.
    pub generator: Option<u64>,
    /// Unsizing conversions and trait-object upcasting.
    pub unsize: Option<u64>,
    /// Discriminant kind; holds of every type.
    pub discriminant_kind: Option<u64>,
    /// Destructibility.
    pub destruct: Option<u64>,
    /// Transmutability.
    pub transmute: Option<u64>,
}

/// The declaration database.
#[derive(Debug)]
pub struct Db {
    /// Every implementation declaration.
    pub impls: Vec<ImplDecl>,
    /// Capability metadata.
    pub traits: Vec<TraitDecl>,
    /// Nominal field lists.
    pub adts: Vec<AdtDecl>,
    /// Declared bounds per associated item.
    pub item_bounds: Vec<AssocBounds>,
    /// Capability ids whose global uniqueness the overlap oracle reports as
    /// unknowable from the current compilation unit.
    pub unknowable: Vec<u64>,
    /// The well-known capability registry.
    pub lang: LangItems,
}

/// The first capability declaration with the given id, if any.
pub open spec fn spec_find_trait(s: Seq<TraitDecl>, id: u64) -> Option<TraitDecl>
    decreases s.len(),
{
    if s.len() == 0 {
        None
    } else if s[0].trait_id == id {
        Some(s[0])
    } else {
        spec_find_trait(s.drop_first(), id)
    }
}

/// The first nominal declaration with the given id, if any.
pub open spec fn spec_find_adt(s: Seq<AdtDecl>, id: u64) -> Option<AdtDecl>
    decreases s.len(),
{
    if s.len() == 0 {
        None
    } else if s[0].adt_id == id {
        Some(s[0])
    } else {
        spec_find_adt(s.drop_first(), id)
    }
}

/// The first bound list declared for the given associated item, if any.
pub open spec fn spec_find_item_bounds(s: Seq<AssocBounds>, id: u64) -> Option<AssocBounds>
    decreases s.len(),
{
    if s.len() == 0 {
        None
    } else if s[0].alias_id == id {
        Some(s[0])
    } else {
        spec_find_item_bounds(s.drop_first(), id)
    }
}

fn find_trait_from<'a>(v: &'a Vec<TraitDecl>, id: u64, i: usize) -> (r: Option<&'a TraitDecl>)
    requires
        i <= v@.len(),
    ensures
        match r {
            Some(t) => spec_find_trait(v@.skip(i as int), id) == Some(*t),
            None => spec_find_trait(v@.skip(i as int), id) is None,
        },
    decreases v@.len() - i,
{
    if i == v.len() {
        proof {
            assert(v@.skip(i as int) =~= Seq::<TraitDecl>::empty());
        }
        None
    } else {
        proof {
            assert(v@.skip(i as int).drop_first() =~= v@.skip(i + 1 as int));
            assert(v@.skip(i as int)[0] == v@[i as int]);
        }
        if v[i].trait_id == id {
            Some(&v[i])
        } else {
            find_trait_from(v, id, i + 1)
        }
    }
}

fn find_adt_from<'a>(v: &'a Vec<AdtDecl>, id: u64, i: usize) -> (r: Option<&'a AdtDecl>)
    requires
        i <= v@.len(),
    ensures
        match r {
            Some(t) => spec_find_adt(v@.skip(i as int), id) == Some(*t),
            None => spec_find_adt(v@.skip(i as int), id) is None,
        },
    decreases v@.len() - i,
{
    if i == v.len() {
        proof {
            assert(v@.skip(i as int) =~= Seq::<AdtDecl>::empty());
        }
        None
    } else {
        proof {
            assert(v@.skip(i as int).drop_first() =~= v@.skip(i + 1 as int));
            assert(v@.skip(i as int)[0] == v@[i as int]);
        }
        if v[i].adt_id == id {
            Some(&v[i])
        } else {
            find_adt_from(v, id, i + 1)
        }
    }
}

fn find_item_bounds_from<'a>(v: &'a Vec<AssocBounds>, id: u64, i: usize) -> (r: Option<
    &'a AssocBounds,
>)
    requires
        i <= v@.len(),
    ensures
        match r {
            Some(t) => spec_find_item_bounds(v@.skip(i as int), id) == Some(*t),
            None => spec_find_item_bounds(v@.skip(i as int), id) is None,
        },
    decreases v@.len() - i,
{
    if i == v.len() {
        proof {
            assert(v@.skip(i as int) =~= Seq::<AssocBounds>::empty());
        }
        None
    } else {
        proof {
            assert(v@.skip(i as int).drop_first() =~= v@.skip(i + 1 as int));
            assert(v@.skip(i as int)[0] == v@[i as int]);
        }
        if v[i].alias_id == id {
            Some(&v[i])
        } else {
            find_item_bounds_from(v, id, i + 1)
        }
    }
}

impl Db {
    /// The capability declaration with the given id, if any.
    pub fn find_trait(&self, id: u64) -> (r: Option<&TraitDecl>)
        ensures
            match r {
                Some(t) => spec_find_trait(self.traits@, id) == Some(*t),
                None => spec_find_trait(self.traits@, id) is None,
            },
    {
        proof {
            assert(self.traits@.skip(0) =~= self.traits@);
        }
        find_trait_from(&self.traits, id, 0)
    }

    /// The nominal declaration with the given id, if any.
    pub fn find_adt(&self, id: u64) -> (r: Option<&AdtDecl>)
        ensures
            match r {
                Some(t) => spec_find_adt(self.adts@, id) == Some(*t),
                None => spec_find_adt(self.adts@, id) is None,
            },
    {
        proof {
            assert(self.adts@.skip(0) =~= self.adts@);
        }
        find_adt_from(&self.adts, id, 0)
    }

    /// The declared bounds of the given associated item, if any.
    pub fn find_item_bounds(&self, id: u64) -> (r: Option<&AssocBounds>)
        ensures
            match r {
                Some(t) => spec_find_item_bounds(self.item_bounds@, id) == Some(*t),
                None => spec_find_item_bounds(self.item_bounds@, id) is None,
            },
    {
        proof {
            assert(self.item_bounds@.skip(0) =~= self.item_bounds@);
        }
        find_item_bounds_from(&self.item_bounds, id, 0)
    }

    /// Whether the overlap oracle reports the pairing of this capability as
    /// unknowable from the current compilation unit.
    pub fn is_unknowable(&self, id: u64) -> (r: bool)
        ensures
            r == self.unknowable@.contains(id),
    {
        let mut i: usize = 0;
        while i < self.unknowable.len()
            invariant
                i <= self.unknowable@.len(),
                forall|j: int| 0 <= j < i ==> self.unknowable@[j] != id,
            decreases self.unknowable@.len() - i,
        {
            if self.unknowable[i] == id {
                return true;
            }
            i = i + 1;
        }
        false
    }
}

/// The conservative structural pre-filter used when enumerating
/// implementation declarations: `true` whenever the pattern's outer
/// constructor could possibly match the target's.  False positives are
/// allowed; false negatives are not (see
/// [`lemma_shape_filter_complete`][crate::solve::assembly::lemma_shape_filter_complete]).
pub open spec fn spec_shape_could_match(pattern: Ty, target: Ty) -> bool {
    match pattern {
        Ty::Param(_) => true,
        Ty::Bool => target is Bool,
        Ty::Int => target is Int,
        Ty::Var(_) => target is Var,
        Ty::Adt(_, _) => target is Adt,
        Ty::Tuple(_) => target is Tuple,
        Ty::FnPtr => target is FnPtr,
        Ty::Coroutine(_) => target is Coroutine,
        Ty::Array(_) => target is Array,
        Ty::Slice(_) => target is Slice,
        Ty::Alias(_, _) => target is Alias,
        Ty::Dynamic(_) => target is Dynamic,
    }
}

/// The conservative structural pre-filter, decided executably.
pub fn shape_could_match(pattern: &Ty, target: &Ty) -> (r: bool)
    ensures
        r == spec_shape_could_match(*pattern, *target),
{
    match pattern {
        Ty::Param(_) => true,
        Ty::Bool => matches!(target, Ty::Bool),
        Ty::Int => matches!(target, Ty::Int),
        Ty::Var(_) => matches!(target, Ty::Var(_)),
        Ty::Adt(_, _) => matches!(target, Ty::Adt(_, _)),
        Ty::Tuple(_) => matches!(target, Ty::Tuple(_)),
        Ty::FnPtr => matches!(target, Ty::FnPtr),
        Ty::Coroutine(_) => matches!(target, Ty::Coroutine(_)),
        Ty::Array(_) => matches!(target, Ty::Array(_)),
        Ty::Slice(_) => matches!(target, Ty::Slice(_)),
        Ty::Alias(_, _) => matches!(target, Ty::Alias(_, _)),
        Ty::Dynamic(_) => matches!(target, Ty::Dynamic(_)),
    }
}

} // verus!
