//! Scenario tests for the capability-resolution engine.

use capsolve::solve::assembly::EvalCtxt;
use capsolve::solve::assembly::SolverMode;
use capsolve::solve::assembly::merge_candidate_list;
use capsolve::solve::candidate::Candidate;
use capsolve::solve::candidate::CandidateSource;
use capsolve::solve::db::AdtDecl;
use capsolve::solve::db::AssocBounds;
use capsolve::solve::db::Db;
use capsolve::solve::db::ImplDecl;
use capsolve::solve::db::LangItems;
use capsolve::solve::db::TraitDecl;
use capsolve::solve::response::Certainty;
use capsolve::solve::response::MaybeCause;
use capsolve::solve::response::Response;
use capsolve::solve::terms::AliasKind;
use capsolve::solve::terms::AliasTy;
use capsolve::solve::terms::Clause;
use capsolve::solve::terms::DynBound;
use capsolve::solve::terms::DynBoundList;
use capsolve::solve::terms::Goal;
use capsolve::solve::terms::ParamEnv;
use capsolve::solve::terms::Predicate;
use capsolve::solve::terms::ProjPred;
use capsolve::solve::terms::Reveal;
use capsolve::solve::terms::TraitRef;
use capsolve::solve::terms::Ty;
use capsolve::solve::terms::TyList;

fn nil() -> TyList {
    TyList::Nil
}

fn list1(t: Ty) -> TyList {
    TyList::Cons(Box::new(t), Box::new(TyList::Nil))
}

fn list2(a: Ty, b: Ty) -> TyList {
    TyList::Cons(Box::new(a), Box::new(list1(b)))
}

fn empty_db() -> Db {
    Db {
        impls: Vec::new(),
        traits: Vec::new(),
        adts: Vec::new(),
        item_bounds: Vec::new(),
        unknowable: Vec::new(),
        lang: LangItems::default(),
    }
}

fn empty_env() -> ParamEnv {
    ParamEnv { clauses: Vec::new(), reveal: Reveal::UserFacing }
}

fn trait_goal(trait_id: u64, self_ty: Ty, args: TyList) -> Goal {
    Goal {
        param_env: empty_env(),
        predicate: Predicate::Trait(TraitRef { trait_id, self_ty: Box::new(self_ty), args }),
    }
}

fn ecx(mode: SolverMode) -> EvalCtxt {
    EvalCtxt { mode, limit: 8, depth: 0 }
}

fn yes() -> Response {
    Response { certainty: Certainty::Yes }
}

fn ambiguous() -> Response {
    Response { certainty: Certainty::Maybe(MaybeCause::Ambiguity) }
}

fn overflow() -> Response {
    Response { certainty: Certainty::Maybe(MaybeCause::Overflow) }
}

#[test]
fn variable_subject_yields_single_ambiguous_builtin() {
    let db = empty_db();
    let goal = trait_goal(1, Ty::Var(0), nil());
    let cands = ecx(SolverMode::Normal).assemble_and_evaluate_candidates(&db, &goal);
    assert_eq!(cands.len(), 1);
    assert_eq!(cands[0].source, CandidateSource::BuiltinImpl);
    assert_eq!(cands[0].result, ambiguous());
}

#[test]
fn tuple_subject_satisfies_tuple_capability() {
    let mut db = empty_db();
    db.lang.tuple = Some(10);
    let goal = trait_goal(10, Ty::Tuple(list2(Ty::Int, Ty::Int)), nil());
    let cands = ecx(SolverMode::Normal).assemble_and_evaluate_candidates(&db, &goal);
    assert_eq!(cands.len(), 1);
    assert_eq!(cands[0].source, CandidateSource::BuiltinImpl);
    assert_eq!(cands[0].result, yes());
}

#[test]
fn non_tuple_subject_fails_tuple_capability() {
    let mut db = empty_db();
    db.lang.tuple = Some(10);
    let goal = trait_goal(10, Ty::Int, nil());
    let cands = ecx(SolverMode::Normal).assemble_and_evaluate_candidates(&db, &goal);
    assert!(cands.is_empty());
}

#[test]
fn alias_with_no_declared_bounds_contributes_no_alias_candidates() {
    let db = empty_db();
    let alias = AliasTy {
        alias_id: 5,
        owner_trait: 2,
        self_ty: Box::new(Ty::Param(0)),
        args: nil(),
    };
    let goal = trait_goal(3, Ty::Alias(AliasKind::Projection, alias), nil());
    let cands = ecx(SolverMode::Normal).assemble_and_evaluate_candidates(&db, &goal);
    assert!(cands
        .iter()
        .all(|c| !matches!(c.source, CandidateSource::AliasBound(_))));
    assert!(cands.is_empty());
}

#[test]
fn dyn_upcast_yields_one_candidate_per_supertrait_path() {
    let mut db = empty_db();
    db.lang.unsize = Some(50);
    db.traits.push(TraitDecl {
        trait_id: 100,
        is_auto: false,
        is_alias: false,
        alias_clauses: Vec::new(),
        supertraits: Vec::new(),
    });
    db.traits.push(TraitDecl {
        trait_id: 101,
        is_auto: false,
        is_alias: false,
        alias_clauses: Vec::new(),
        supertraits: Vec::new(),
    });
    let source = Ty::Dynamic(DynBoundList::Cons(
        Box::new(DynBound::Trait(100, nil())),
        Box::new(DynBoundList::Cons(
            Box::new(DynBound::Trait(101, nil())),
            Box::new(DynBoundList::Nil),
        )),
    ));
    let target = Ty::Dynamic(DynBoundList::Cons(
        Box::new(DynBound::Trait(100, nil())),
        Box::new(DynBoundList::Nil),
    ));
    let goal = trait_goal(50, source, list1(target));
    let cands = ecx(SolverMode::Normal).assemble_and_evaluate_candidates(&db, &goal);
    // One candidate from the dyn-to-dyn shrink rule, one per upcast path.
    assert_eq!(cands.len(), 2);
    assert!(cands.iter().all(|c| c.result == yes()));
}

#[test]
fn dyn_upcast_reachable_two_ways_yields_two_path_candidates() {
    let mut db = empty_db();
    db.lang.unsize = Some(50);
    // Capability 101 has 100 as a supertrait, so 100 is reachable both
    // directly and through 101.
    db.traits.push(TraitDecl {
        trait_id: 100,
        is_auto: false,
        is_alias: false,
        alias_clauses: Vec::new(),
        supertraits: Vec::new(),
    });
    db.traits.push(TraitDecl {
        trait_id: 101,
        is_auto: false,
        is_alias: false,
        alias_clauses: Vec::new(),
        supertraits: vec![DynBound::Trait(100, TyList::Nil)],
    });
    let source = Ty::Dynamic(DynBoundList::Cons(
        Box::new(DynBound::Trait(100, nil())),
        Box::new(DynBoundList::Cons(
            Box::new(DynBound::Trait(101, nil())),
            Box::new(DynBoundList::Nil),
        )),
    ));
    let target = Ty::Dynamic(DynBoundList::Cons(
        Box::new(DynBound::Trait(100, nil())),
        Box::new(DynBoundList::Nil),
    ));
    let goal = trait_goal(50, source, list1(target));
    let cands = ecx(SolverMode::Normal).assemble_and_evaluate_candidates(&db, &goal);
    // One shrink candidate plus two structurally distinct upcast paths.
    assert_eq!(cands.len(), 3);
    assert!(cands.iter().all(|c| c.result == yes()));
}

#[test]
fn self_referential_alias_terminates_with_overflow() {
    // `T::Assoc` whose declared value is `T::Assoc` itself: normalization
    // makes progress forever, so the depth budget answers `Overflow`.
    let mut db = empty_db();
    let alias_of = |self_ty: Ty| AliasTy {
        alias_id: 7,
        owner_trait: 2,
        self_ty: Box::new(self_ty),
        args: TyList::Nil,
    };
    db.impls.push(ImplDecl {
        impl_id: 1,
        trait_ref: TraitRef {
            trait_id: 2,
            self_ty: Box::new(Ty::Param(0)),
            args: TyList::Nil,
        },
        where_clauses: Vec::new(),
        assoc_values: vec![(
            7,
            Ty::Alias(AliasKind::Projection, alias_of(Ty::Param(0))),
        )],
    });
    let subject = Ty::Alias(AliasKind::Projection, alias_of(Ty::Param(3)));
    let goal = trait_goal(9, subject, nil());
    let result = ecx(SolverMode::Normal).evaluate_goal(&db, &goal);
    assert_eq!(result, Ok(overflow()));
}

#[test]
fn repeated_assembly_is_deterministic() {
    let mut db = empty_db();
    db.lang.tuple = Some(10);
    db.lang.sized = Some(11);
    let goal = trait_goal(10, Ty::Tuple(list2(Ty::Bool, Ty::Int)), nil());
    let e = ecx(SolverMode::Normal);
    let first = e.assemble_and_evaluate_candidates(&db, &goal);
    let second = e.assemble_and_evaluate_candidates(&db, &goal);
    assert_eq!(first, second);
}

#[test]
fn coherence_mode_never_merges_conflicting_candidates() {
    let cands = vec![
        Candidate { source: CandidateSource::Impl(1), result: yes() },
        Candidate { source: CandidateSource::Impl(2), result: ambiguous() },
    ];
    let merged = merge_candidate_list(SolverMode::Coherence, &cands);
    // The conflict is never resolved by guessing: the outcome is a
    // deferred `Maybe`, not either candidate's definite answer.
    assert_eq!(merged, Ok(ambiguous()));
}

#[test]
fn normal_mode_prioritizes_environment_candidates() {
    let cands = vec![
        Candidate { source: CandidateSource::ParamEnv(0), result: yes() },
        Candidate { source: CandidateSource::Impl(1), result: ambiguous() },
    ];
    let merged = merge_candidate_list(SolverMode::Normal, &cands);
    assert_eq!(merged, Ok(yes()));
}

#[test]
fn merge_is_invariant_under_permutation() {
    let a = Candidate { source: CandidateSource::ParamEnv(0), result: yes() };
    let b = Candidate { source: CandidateSource::Impl(1), result: ambiguous() };
    let c = Candidate { source: CandidateSource::BuiltinImpl, result: overflow() };
    for mode in [SolverMode::Normal, SolverMode::Coherence] {
        let forward = merge_candidate_list(mode, &vec![a, b, c]);
        let backward = merge_candidate_list(mode, &vec![c, b, a]);
        let rotated = merge_candidate_list(mode, &vec![b, c, a]);
        assert_eq!(forward, backward);
        assert_eq!(forward, rotated);
    }
}

#[test]
fn merging_no_candidates_is_definitive_failure() {
    let merged = merge_candidate_list(SolverMode::Normal, &Vec::new());
    assert!(merged.is_err());
}

#[test]
fn environment_assumptions_are_tagged_by_position() {
    let mut env = empty_env();
    env.clauses.push(Clause::Region);
    env.clauses.push(Clause::Trait(TraitRef {
        trait_id: 4,
        self_ty: Box::new(Ty::Param(0)),
        args: TyList::Nil,
    }));
    let goal = Goal {
        param_env: env,
        predicate: Predicate::Trait(TraitRef {
            trait_id: 4,
            self_ty: Box::new(Ty::Param(0)),
            args: TyList::Nil,
        }),
    };
    let db = empty_db();
    let cands = ecx(SolverMode::Normal).assemble_and_evaluate_candidates(&db, &goal);
    assert_eq!(cands.len(), 1);
    assert_eq!(cands[0].source, CandidateSource::ParamEnv(1));
    assert_eq!(cands[0].result, yes());
}

#[test]
fn auto_marker_recurses_into_components_and_is_disqualified_by_impls() {
    let mut db = empty_db();
    db.traits.push(TraitDecl {
        trait_id: 20,
        is_auto: true,
        is_alias: false,
        alias_clauses: Vec::new(),
        supertraits: Vec::new(),
    });
    let goal = trait_goal(20, Ty::Tuple(list2(Ty::Int, Ty::Bool)), nil());
    let cands = ecx(SolverMode::Normal).assemble_and_evaluate_candidates(&db, &goal);
    assert_eq!(cands.len(), 1);
    assert_eq!(cands[0].result, yes());

    // A possibly-applicable declaration disqualifies the auto rule.
    db.impls.push(ImplDecl {
        impl_id: 9,
        trait_ref: TraitRef {
            trait_id: 20,
            self_ty: Box::new(Ty::Param(0)),
            args: TyList::Nil,
        },
        where_clauses: Vec::new(),
        assoc_values: Vec::new(),
    });
    let cands2 = ecx(SolverMode::Normal).assemble_and_evaluate_candidates(&db, &goal);
    // The impl itself now matches (one declaration candidate), but no
    // builtin auto candidate is assembled alongside it.
    assert!(cands2
        .iter()
        .all(|c| !matches!(c.source, CandidateSource::BuiltinImpl)));
}

#[test]
fn impl_candidates_match_structurally_and_evaluate_requirements() {
    let mut db = empty_db();
    db.adts.push(AdtDecl { adt_id: 30, fields: vec![Ty::Param(0)] });
    db.impls.push(ImplDecl {
        impl_id: 40,
        trait_ref: TraitRef {
            trait_id: 6,
            self_ty: Box::new(Ty::Adt(30, list1(Ty::Param(0)))),
            args: TyList::Nil,
        },
        where_clauses: Vec::new(),
        assoc_values: Vec::new(),
    });
    let goal = trait_goal(6, Ty::Adt(30, list1(Ty::Int)), nil());
    let cands = ecx(SolverMode::Normal).assemble_and_evaluate_candidates(&db, &goal);
    assert_eq!(cands.len(), 1);
    assert_eq!(cands[0].source, CandidateSource::Impl(40));
    assert_eq!(cands[0].result, yes());
    // A shape that cannot match is excluded silently.
    let other = trait_goal(6, Ty::Int, nil());
    assert!(ecx(SolverMode::Normal)
        .assemble_and_evaluate_candidates(&db, &other)
        .is_empty());
}

#[test]
fn coherence_unknowable_pairing_adds_ambiguity_candidate() {
    let mut db = empty_db();
    db.unknowable.push(9);
    let goal = trait_goal(9, Ty::Int, nil());
    let normal = ecx(SolverMode::Normal).assemble_and_evaluate_candidates(&db, &goal);
    assert!(normal.is_empty());
    let coherent = ecx(SolverMode::Coherence).assemble_and_evaluate_candidates(&db, &goal);
    assert_eq!(coherent.len(), 1);
    assert_eq!(coherent[0].source, CandidateSource::BuiltinImpl);
    assert_eq!(coherent[0].result, ambiguous());
}

#[test]
fn alias_bound_candidate_validated_from_environment() {
    // Subject `<P0 as 2>::7` with declared bound `Self: 3`; validating the
    // alias requires proving `P0: 2`, which the environment supplies.
    let mut db = empty_db();
    let alias = AliasTy {
        alias_id: 7,
        owner_trait: 2,
        self_ty: Box::new(Ty::Param(0)),
        args: TyList::Nil,
    };
    let subject = Ty::Alias(AliasKind::Projection, alias);
    db.item_bounds.push(AssocBounds {
        alias_id: 7,
        bounds: vec![Clause::Trait(TraitRef {
            trait_id: 3,
            self_ty: Box::new(Ty::Param(0)),
            args: TyList::Nil,
        })],
    });
    let mut env = empty_env();
    env.clauses.push(Clause::Trait(TraitRef {
        trait_id: 2,
        self_ty: Box::new(Ty::Param(0)),
        args: TyList::Nil,
    }));
    let goal = Goal {
        param_env: env,
        predicate: Predicate::Trait(TraitRef {
            trait_id: 3,
            self_ty: Box::new(subject),
            args: TyList::Nil,
        }),
    };
    let cands = ecx(SolverMode::Normal).assemble_and_evaluate_candidates(&db, &goal);
    assert!(cands
        .iter()
        .any(|c| matches!(c.source, CandidateSource::AliasBound(0)) && c.result == yes()));
}

#[test]
fn opaque_alias_bound_trusted_only_when_user_facing() {
    let mut db = empty_db();
    db.item_bounds.push(AssocBounds {
        alias_id: 8,
        bounds: vec![Clause::Trait(TraitRef {
            trait_id: 3,
            self_ty: Box::new(Ty::Param(0)),
            args: TyList::Nil,
        })],
    });
    for (reveal, expect) in [(Reveal::UserFacing, true), (Reveal::All, false)] {
        let goal = Goal {
            param_env: ParamEnv { clauses: Vec::new(), reveal },
            predicate: Predicate::Trait(TraitRef {
                trait_id: 3,
                self_ty: Box::new(Ty::Alias(AliasKind::Opaque, AliasTy {
                    alias_id: 8,
                    owner_trait: 2,
                    self_ty: Box::new(Ty::Param(0)),
                    args: TyList::Nil,
                })),
                args: TyList::Nil,
            }),
        };
        let cands = ecx(SolverMode::Normal).assemble_and_evaluate_candidates(&db, &goal);
        let found = cands
            .iter()
            .any(|c| matches!(c.source, CandidateSource::AliasBound(_)));
        assert_eq!(found, expect);
    }
}

#[test]
fn projection_goal_decided_by_declared_associated_value() {
    let mut db = empty_db();
    db.impls.push(ImplDecl {
        impl_id: 60,
        trait_ref: TraitRef {
            trait_id: 2,
            self_ty: Box::new(Ty::Param(0)),
            args: TyList::Nil,
        },
        where_clauses: Vec::new(),
        assoc_values: vec![(7, Ty::Bool)],
    });
    let alias = AliasTy {
        alias_id: 7,
        owner_trait: 2,
        self_ty: Box::new(Ty::Int),
        args: TyList::Nil,
    };
    let good = Goal {
        param_env: empty_env(),
        predicate: Predicate::Projection(ProjPred {
            alias: AliasTy {
                alias_id: 7,
                owner_trait: 2,
                self_ty: Box::new(Ty::Int),
                args: TyList::Nil,
            },
            term: Box::new(Ty::Bool),
        }),
    };
    let result = ecx(SolverMode::Normal).evaluate_goal(&db, &good);
    assert_eq!(result, Ok(yes()));
    let bad = Goal {
        param_env: empty_env(),
        predicate: Predicate::Projection(ProjPred {
            alias,
            term: Box::new(Ty::Int),
        }),
    };
    let result2 = ecx(SolverMode::Normal).evaluate_goal(&db, &bad);
    assert!(result2.is_err());
}

#[test]
fn normalization_rewrites_alias_subject_before_dispatch() {
    // `<Int as 2>::7` normalizes to a tuple, so the tuple capability
    // holds of the alias subject through the normalization pass.
    let mut db = empty_db();
    db.lang.tuple = Some(10);
    db.impls.push(ImplDecl {
        impl_id: 61,
        trait_ref: TraitRef {
            trait_id: 2,
            self_ty: Box::new(Ty::Param(0)),
            args: TyList::Nil,
        },
        where_clauses: Vec::new(),
        assoc_values: vec![(7, Ty::Tuple(list2(Ty::Int, Ty::Int)))],
    });
    let subject = Ty::Alias(AliasKind::Projection, AliasTy {
        alias_id: 7,
        owner_trait: 2,
        self_ty: Box::new(Ty::Int),
        args: TyList::Nil,
    });
    let goal = trait_goal(10, subject, nil());
    let result = ecx(SolverMode::Normal).evaluate_goal(&db, &goal);
    assert_eq!(result, Ok(yes()));
}

#[test]
fn unsize_array_to_slice_of_same_element() {
    let mut db = empty_db();
    db.lang.unsize = Some(50);
    let ok = trait_goal(50, Ty::Array(Box::new(Ty::Int)), list1(Ty::Slice(Box::new(Ty::Int))));
    let cands = ecx(SolverMode::Normal).assemble_and_evaluate_candidates(&db, &ok);
    assert_eq!(cands.len(), 1);
    assert_eq!(cands[0].result, yes());
    let bad = trait_goal(50, Ty::Array(Box::new(Ty::Int)), list1(Ty::Slice(Box::new(Ty::Bool))));
    assert!(ecx(SolverMode::Normal)
        .assemble_and_evaluate_candidates(&db, &bad)
        .is_empty());
}

#[test]
fn builtin_dispatch_decides_the_well_known_capabilities() {
    let mut db = empty_db();
    db.lang.sized = Some(11);
    db.lang.copy = Some(12);
    db.lang.pointer_like = Some(13);
    db.lang.fn_ptr = Some(14);
    db.lang.fn_by_ref = Some(15);
    db.lang.pointee = Some(16);
    db.lang.future = Some(17);
    db.lang.generator = Some(18);
    db.lang.discriminant_kind = Some(19);
    db.lang.destruct = Some(21);
    db.lang.transmute = Some(22);
    let e = ecx(SolverMode::Normal);

    // Size-known-ness recurses into components; a slice is not size-known.
    let sized_ok = e.evaluate_goal(&db, &trait_goal(11, Ty::Tuple(list2(Ty::Int, Ty::Bool)), nil()));
    assert_eq!(sized_ok, Ok(yes()));
    let sized_bad = e.evaluate_goal(&db, &trait_goal(11, Ty::Slice(Box::new(Ty::Int)), nil()));
    assert!(sized_bad.is_err());

    // Copy semantics hold of arrays of copyable elements.
    assert_eq!(
        e.evaluate_goal(&db, &trait_goal(12, Ty::Array(Box::new(Ty::Int)), nil())),
        Ok(yes())
    );

    // The pointer-shaped rules all require a function pointer.
    for cap in [13, 14, 15] {
        assert_eq!(e.evaluate_goal(&db, &trait_goal(cap, Ty::FnPtr, nil())), Ok(yes()));
        assert!(e.evaluate_goal(&db, &trait_goal(cap, Ty::Int, nil())).is_err());
    }

    // Pointee metadata, discriminant kind and destructibility always hold.
    for cap in [16, 19, 21] {
        assert_eq!(e.evaluate_goal(&db, &trait_goal(cap, Ty::Bool, nil())), Ok(yes()));
    }

    // The two coroutine rules tell the desugarings apart.
    assert_eq!(e.evaluate_goal(&db, &trait_goal(17, Ty::Coroutine(true), nil())), Ok(yes()));
    assert!(e.evaluate_goal(&db, &trait_goal(17, Ty::Coroutine(false), nil())).is_err());
    assert_eq!(e.evaluate_goal(&db, &trait_goal(18, Ty::Coroutine(false), nil())), Ok(yes()));
    assert!(e.evaluate_goal(&db, &trait_goal(18, Ty::Coroutine(true), nil())).is_err());

    // Transmutability between equal types only, in this model.
    assert_eq!(e.evaluate_goal(&db, &trait_goal(22, Ty::Int, list1(Ty::Int))), Ok(yes()));
    assert!(e.evaluate_goal(&db, &trait_goal(22, Ty::Int, list1(Ty::Bool))).is_err());
}

#[test]
fn capability_alias_requires_its_right_hand_side() {
    let mut db = empty_db();
    db.lang.tuple = Some(10);
    db.traits.push(TraitDecl {
        trait_id: 25,
        is_auto: false,
        is_alias: true,
        alias_clauses: vec![Clause::Trait(TraitRef {
            trait_id: 10,
            self_ty: Box::new(Ty::Param(0)),
            args: TyList::Nil,
        })],
        supertraits: Vec::new(),
    });
    let e = ecx(SolverMode::Normal);
    assert_eq!(
        e.evaluate_goal(&db, &trait_goal(25, Ty::Tuple(list1(Ty::Int)), nil())),
        Ok(yes())
    );
    assert!(e.evaluate_goal(&db, &trait_goal(25, Ty::Int, nil())).is_err());
}

#[test]
fn impl_requirements_are_evaluated_as_nested_goals() {
    let mut db = empty_db();
    db.lang.tuple = Some(10);
    db.impls.push(ImplDecl {
        impl_id: 70,
        trait_ref: TraitRef {
            trait_id: 6,
            self_ty: Box::new(Ty::Param(0)),
            args: TyList::Nil,
        },
        where_clauses: vec![Clause::Trait(TraitRef {
            trait_id: 10,
            self_ty: Box::new(Ty::Param(0)),
            args: TyList::Nil,
        })],
        assoc_values: Vec::new(),
    });
    let e = ecx(SolverMode::Normal);
    assert_eq!(
        e.evaluate_goal(&db, &trait_goal(6, Ty::Tuple(list1(Ty::Bool)), nil())),
        Ok(yes())
    );
    // The requirement fails for a non-tuple subject, so the declaration
    // is silently excluded and the goal has no solution.
    assert!(e.evaluate_goal(&db, &trait_goal(6, Ty::Int, nil())).is_err());
}

#[test]
fn concrete_type_unsizes_to_object_whose_bounds_hold() {
    let mut db = empty_db();
    db.lang.unsize = Some(50);
    db.impls.push(ImplDecl {
        impl_id: 80,
        trait_ref: TraitRef {
            trait_id: 100,
            self_ty: Box::new(Ty::Int),
            args: TyList::Nil,
        },
        where_clauses: Vec::new(),
        assoc_values: Vec::new(),
    });
    let target = Ty::Dynamic(DynBoundList::Cons(
        Box::new(DynBound::Trait(100, nil())),
        Box::new(DynBoundList::Nil),
    ));
    let e = ecx(SolverMode::Normal);
    assert_eq!(e.evaluate_goal(&db, &trait_goal(50, Ty::Int, list1(target.clone()))), Ok(yes()));
    // A subject without the bound's implementation cannot unsize.
    assert!(e.evaluate_goal(&db, &trait_goal(50, Ty::Bool, list1(target))).is_err());
}

#[test]
fn object_bounds_prove_goals_about_the_object_itself() {
    let db = empty_db();
    let object = Ty::Dynamic(DynBoundList::Cons(
        Box::new(DynBound::Trait(100, nil())),
        Box::new(DynBoundList::Nil),
    ));
    let goal = trait_goal(100, object, nil());
    let cands = ecx(SolverMode::Normal).assemble_and_evaluate_candidates(&db, &goal);
    assert_eq!(cands.len(), 1);
    assert_eq!(cands[0].source, CandidateSource::BuiltinImpl);
    assert_eq!(cands[0].result, yes());
}
