//! The compilation orchestrator: segmentation, the normalization passes, the
//! three artifact compilers and the traceability builder, sequenced with
//! fail-fast / all-or-nothing semantics.

use vstd::prelude::*;

use crate::artifacts::{dio_model, zt_model, cost_model, clause_id, dio_id, icae_id, zt_id,
    DIOInvariant, ICAECostConstraint, TraceabilityEntry, ZTAuthority};
use crate::classify::{spec_principal_of, spec_subject_of, spec_unit_of, MeasurementUnit,
    Principal};
use crate::errors::{CompilationError, CompilationStatus, ErrorModel};
use crate::keywords::{action_verb_patterns, action_verbs, contains_any, cost_indicator_patterns,
    cost_indicators, first_contained_index, lemma_first_contained_some, modal_patterns,
    modal_words};
use crate::normalize::{assumptions_of, exclusions_of, has_action_verb, has_assumption,
    has_cost_indicator, has_exclusion, has_modal, is_ambiguous_multi, modal_error_from,
    multi_error_from, norm_error, norm_model, verb_error_from, IntentNormalization};
use crate::result::{compile_model, cost_models_from, dio_models, fail_model, icae_errors_from,
    lemma_icae_no_errors, lemma_zt_all_resolve, pass_model, trace_models, zt_errors_from,
    zt_models, zt_models_from, CompilationResult};
use crate::scan::{clauses_of, emit_clause, lemma_seg_piece, seg_clauses};
use crate::text::{blank, find_pattern, is_blank, lemma_blank_trims_empty,
    lemma_trim_empty_blank, lemma_trim_end_index, lemma_trim_start_index, lower_vec, push_decimal,
    space_char, str_chars, trim_seq, truncate_chars};

verus! {

/// Clones a vector of strings element by element.
fn clone_strings(v: &Vec<String>) -> (r: Vec<String>)
    ensures
        r.deep_view() == v.deep_view(),
{
    let mut r: Vec<String> = Vec::new();
    let mut i: usize = 0;
    while i < v.len()
        invariant
            i <= v@.len(),
            r@.len() == i,
            forall|j: int| 0 <= j < i ==> r@[j] == v@[j],
        decreases v@.len() - i,
    {
        r.push(v[i].clone());
        i += 1;
    }
    proof {
        assert(r.deep_view() =~= v.deep_view());
    }
    r
}

/// The modal term at position `k` of the modal-word table.
fn modal_word_str(k: usize) -> (r: &'static str)
    requires
        k < modal_words().len(),
    ensures
        r@ == modal_words()[k as int],
{
    match k {
        0 => "should",
        1 => "may",
        2 => "where reasonable",
        3 => "as appropriate",
        4 => "could",
        5 => "might",
        _ => "possibly",
    }
}

/// The policy compiler. It holds no state: each compilation is a pure
/// function of its input text, so any number of callers may compile
/// concurrently, and identical inputs always yield identical results.
#[derive(Debug, Clone, Default)]
pub struct PolicyCompiler {}

impl PolicyCompiler {
    /// Creates a compiler.
    pub fn new() -> PolicyCompiler {
        PolicyCompiler {  }
    }

    /// Truncates clause text to `max_len` characters for display, appending
    /// an ellipsis when anything was cut; operates on character boundaries,
    /// never inside a multi-byte character.
    pub fn truncate_clause(clause: &str, max_len: usize) -> (r: String)
        ensures
            r@ == truncate_chars(clause@, max_len as int),
    {
        crate::text::truncate_clause(clause, max_len)
    }

    /// Extracts the cost-attribution subject of a clause: the first token
    /// longer than three characters (after boundary stripping) that is not
    /// a stop word, in its original casing.
    pub fn extract_subject(clause: &str) -> (r: Option<String>)
        ensures
            match r {
                Some(w) => spec_subject_of(clause@) == Some(w@),
                None => spec_subject_of(clause@) is None,
            },
    {
        crate::classify::extract_subject(clause)
    }

    /// Splits policy text into clauses: pieces delimited by `.`, trimmed of
    /// surrounding whitespace, empty pieces discarded, source order kept.
    pub fn parse_clauses(text: &str) -> (r: Vec<String>)
        ensures
            r.deep_view() == clauses_of(text@),
    {
        let cv = str_chars(text);
        let n = cv.len();
        let mut r: Vec<String> = Vec::new();
        let mut st: usize = 0;
        proof {
            assert(cv@.skip(0) =~= cv@);
            assert(r.deep_view() + seg_clauses(cv@.skip(0), Seq::empty()) =~= clauses_of(text@));
        }
        while st < n
            invariant
                cv@ == text@,
                n == cv@.len(),
                st <= n,
                r.deep_view() + seg_clauses(cv@.skip(st as int), Seq::empty()) == clauses_of(
                    text@,
                ),
            decreases n - st,
        {
            // find the end of the piece: the next period or the end
            let mut d = st;
            while d < n && cv[d] != '.'
                invariant
                    cv@ == text@,
                    n == cv@.len(),
                    st <= d <= n,
                    forall|k: int| st <= k < d ==> cv@[k] != '.',
                decreases n - d,
            {
                d += 1;
            }
            let ghost piece = cv@.subrange(st as int, d as int);
            proof {
                lemma_seg_piece(cv@, st as int, d as int);
            }
            // trim the piece: find its first and last non-space characters
            let mut a = st;
            while a < d && space_char(cv[a])
                invariant
                    cv@ == text@,
                    n == cv@.len(),
                    st <= a <= d <= n,
                    forall|k: int| st <= k < a ==> crate::text::is_space_char(cv@[k]),
                decreases d - a,
            {
                a += 1;
            }
            if a == d {
                // the piece is blank and is discarded
                proof {
                    assert(is_blank(piece));
                    lemma_blank_trims_empty(piece);
                    assert(emit_clause(piece) =~= Seq::<Seq<char>>::empty());
                    assert(Seq::<Seq<char>>::empty() + seg_clauses(
                        cv@.skip(
                            if d + 1 <= n as int {
                                d + 1
                            } else {
                                d as int
                            },
                        ),
                        Seq::empty(),
                    ) =~= seg_clauses(
                        cv@.skip(
                            if d + 1 <= n as int {
                                d + 1
                            } else {
                                d as int
                            },
                        ),
                        Seq::empty(),
                    ));
                }
            } else {
                let mut b = d;
                while b > a && space_char(cv[b - 1])
                    invariant
                        cv@ == text@,
                        n == cv@.len(),
                        a < d <= n,
                        a <= b <= d,
                        !crate::text::is_space_char(cv@[a as int]),
                        forall|k: int| b <= k < d ==> crate::text::is_space_char(cv@[k]),
                    decreases b,
                {
                    b -= 1;
                }
                proof {
                    lemma_trim_start_index(piece, a - st);
                    let u = piece.subrange(a - st, piece.len() as int);
                    assert(u =~= cv@.subrange(a as int, d as int));
                    lemma_trim_end_index(u, b - a);
                    assert(u.subrange(0, b - a) =~= cv@.subrange(a as int, b as int));
                    assert(trim_seq(piece) == cv@.subrange(a as int, b as int));
                    assert(emit_clause(piece) =~= seq![cv@.subrange(a as int, b as int)]);
                }
                let piece_str = text.substring_char(a, b);
                let ghost r_before = r.deep_view();
                r.push(String::from_str(piece_str));
                proof {
                    assert(r.deep_view() =~= r_before + seq![cv@.subrange(a as int, b as int)]);
                    assert(r_before + (emit_clause(piece) + seg_clauses(
                        cv@.skip(
                            if d + 1 <= n as int {
                                d + 1
                            } else {
                                d as int
                            },
                        ),
                        Seq::empty(),
                    )) =~= (r_before + emit_clause(piece)) + seg_clauses(
                        cv@.skip(
                            if d + 1 <= n as int {
                                d + 1
                            } else {
                                d as int
                            },
                        ),
                        Seq::empty(),
                    ));
                }
            }
            st = if d < n {
                d + 1
            } else {
                d
            };
        }
        proof {
            assert(cv@.skip(n as int) =~= Seq::<char>::empty());
            assert(trim_seq(Seq::<char>::empty()).len() == 0);
            assert(r.deep_view() + Seq::<Seq<char>>::empty() =~= r.deep_view());
        }
        r
    }

    /// Validates the clause sequence: the modal pass, the action-verb pass
    /// and the multi-action pass run in order, each over every clause, and
    /// the first violation aborts; on success the assumption and exclusion
    /// sub-lists are extracted.
    pub fn normalize_intent(clauses: &Vec<String>) -> (r: Result<
        IntentNormalization,
        CompilationError,
    >)
        ensures
            match r {
                Ok(norm) => norm_error(clauses.deep_view()) is None && norm@ == norm_model(
                    clauses.deep_view(),
                ),
                Err(e) => norm_error(clauses.deep_view()) == Some(e@),
            },
    {
        let ghost cs = clauses.deep_view();
        proof {
            assert(cs.len() == clauses@.len());
        }
        // modal-language pass
        let mpats = modal_patterns();
        let mut i: usize = 0;
        while i < clauses.len()
            invariant
                cs == clauses.deep_view(),
                cs.len() == clauses@.len(),
                i <= cs.len(),
                mpats.deep_view() == modal_words(),
                mpats@.len() == modal_words().len(),
                modal_error_from(cs, 0) == modal_error_from(cs, i as int),
            decreases cs.len() - i,
        {
            let ghost clause = cs[i as int];
            let cv = str_chars(clauses[i].as_str());
            let low = lower_vec(&cv);
            match first_contained_index(&low, &mpats) {
                Some(k) => {
                    proof {
                        lemma_first_contained_some(modal_words(), low@);
                        assert(has_modal(clause));
                    }
                    let word = modal_word_str(k);
                    let e = CompilationError::ModalLanguageDetected {
                        clause_index: i,
                        clause: clauses[i].clone(),
                        modal_word: String::from_str(word),
                    };
                    proof {
                        assert(modal_error_from(cs, i as int) == Some(e@));
                    }
                    return Err(e);
                },
                None => {
                    proof {
                        lemma_first_contained_some(modal_words(), low@);
                        assert(!has_modal(clause));
                        assert(modal_error_from(cs, i as int) == modal_error_from(cs, i + 1));
                    }
                },
            }
            i += 1;
        }
        proof {
            assert(modal_error_from(cs, cs.len() as int) is None);
        }
        // action-verb pass
        let vpats = action_verb_patterns();
        let mut i: usize = 0;
        while i < clauses.len()
            invariant
                cs == clauses.deep_view(),
                cs.len() == clauses@.len(),
                i <= cs.len(),
                vpats.deep_view() == action_verbs(),
                modal_error_from(cs, 0) is None,
                verb_error_from(cs, 0) == verb_error_from(cs, i as int),
            decreases cs.len() - i,
        {
            let ghost clause = cs[i as int];
            let cv = str_chars(clauses[i].as_str());
            let low = lower_vec(&cv);
            if !contains_any(&low, &vpats) {
                let e = CompilationError::MissingActionVerb {
                    clause_index: i,
                    clause: clauses[i].clone(),
                };
                proof {
                    assert(!has_action_verb(clause));
                    assert(verb_error_from(cs, i as int) == Some(e@));
                }
                return Err(e);
            }
            proof {
                assert(has_action_verb(clause));
                assert(verb_error_from(cs, i as int) == verb_error_from(cs, i + 1));
            }
            i += 1;
        }
        proof {
            assert(verb_error_from(cs, cs.len() as int) is None);
        }
        // multi-action pass
        let and_pat = str_chars(" and ");
        let or_pat = str_chars(" or ");
        let then_pat = str_chars("then");
        let before_pat = str_chars("before");
        let after_pat = str_chars("after");
        let mut i: usize = 0;
        while i < clauses.len()
            invariant
                cs == clauses.deep_view(),
                cs.len() == clauses@.len(),
                i <= cs.len(),
                and_pat@ == " and "@,
                or_pat@ == " or "@,
                then_pat@ == "then"@,
                before_pat@ == "before"@,
                after_pat@ == "after"@,
                modal_error_from(cs, 0) is None,
                verb_error_from(cs, 0) is None,
                multi_error_from(cs, 0) == multi_error_from(cs, i as int),
            decreases cs.len() - i,
        {
            let ghost clause = cs[i as int];
            let cv = str_chars(clauses[i].as_str());
            let low = lower_vec(&cv);
            let ambiguous = (find_pattern(&low, &and_pat) || find_pattern(&low, &or_pat))
                && !find_pattern(&low, &then_pat) && !find_pattern(&low, &before_pat)
                && !find_pattern(&low, &after_pat);
            if ambiguous {
                let e = CompilationError::AmbiguousMultiAction {
                    clause_index: i,
                    clause: clauses[i].clone(),
                };
                proof {
                    assert(is_ambiguous_multi(clause));
                    assert(multi_error_from(cs, i as int) == Some(e@));
                }
                return Err(e);
            }
            proof {
                assert(!is_ambiguous_multi(clause));
                assert(multi_error_from(cs, i as int) == multi_error_from(cs, i + 1));
            }
            i += 1;
        }
        proof {
            assert(multi_error_from(cs, cs.len() as int) is None);
        }
        // extract assumption and exclusion sub-lists
        let assumes_pat = str_chars("assumes");
        let assuming_pat = str_chars("assuming");
        let except_pat = str_chars("except");
        let exclude_pat = str_chars("exclude");
        let unless_pat = str_chars("unless");
        let mut assumptions: Vec<String> = Vec::new();
        let mut exclusions: Vec<String> = Vec::new();
        let mut i: usize = 0;
        proof {
            reveal(Seq::filter);
            assert(cs.take(0) =~= Seq::<Seq<char>>::empty());
        }
        while i < clauses.len()
            invariant
                cs == clauses.deep_view(),
                cs.len() == clauses@.len(),
                i <= cs.len(),
                assumes_pat@ == "assumes"@,
                assuming_pat@ == "assuming"@,
                except_pat@ == "except"@,
                exclude_pat@ == "exclude"@,
                unless_pat@ == "unless"@,
                assumptions.deep_view() == assumptions_of(cs.take(i as int)),
                exclusions.deep_view() == exclusions_of(cs.take(i as int)),
            decreases cs.len() - i,
        {
            let ghost clause = cs[i as int];
            let cv = str_chars(clauses[i].as_str());
            let low = lower_vec(&cv);
            proof {
                reveal(Seq::filter);
                assert(cs.take(i + 1).drop_last() =~= cs.take(i as int));
                assert(cs.take(i + 1).last() == clause);
                assert(assumptions_of(cs.take(i + 1)) == if has_assumption(clause) {
                    assumptions_of(cs.take(i as int)).push(clause)
                } else {
                    assumptions_of(cs.take(i as int))
                });
                assert(exclusions_of(cs.take(i + 1)) == if has_exclusion(clause) {
                    exclusions_of(cs.take(i as int)).push(clause)
                } else {
                    exclusions_of(cs.take(i as int))
                });
            }
            let ghost assumptions_before = assumptions.deep_view();
            let ghost exclusions_before = exclusions.deep_view();
            if find_pattern(&low, &assumes_pat) || find_pattern(&low, &assuming_pat) {
                assumptions.push(clauses[i].clone());
                proof {
                    assert(has_assumption(clause));
                    assert(assumptions.deep_view() =~= assumptions_before.push(clause));
                }
            } else {
                proof {
                    assert(!has_assumption(clause));
                }
            }
            if find_pattern(&low, &except_pat) || find_pattern(&low, &exclude_pat) || find_pattern(
                &low,
                &unless_pat,
            ) {
                exclusions.push(clauses[i].clone());
                proof {
                    assert(has_exclusion(clause));
                    assert(exclusions.deep_view() =~= exclusions_before.push(clause));
                }
            } else {
                proof {
                    assert(!has_exclusion(clause));
                }
            }
            i += 1;
        }
        proof {
            assert(cs.take(cs.len() as int) =~= cs);
        }
        let norm = IntentNormalization {
            clauses: clone_strings(clauses),
            assumptions,
            exclusions,
        };
        proof {
            assert(norm@ =~~= norm_model(cs));
        }
        Ok(norm)
    }

    /// Emits one DIO invariant per clause; this stage cannot fail.
    pub fn compile_dio_invariants(clauses: &Vec<String>) -> (r: Vec<DIOInvariant>)
        ensures
            r.deep_view() == dio_models(clauses.deep_view()),
    {
        let ghost cs = clauses.deep_view();
        let mut r: Vec<DIOInvariant> = Vec::new();
        let mut i: usize = 0;
        while i < clauses.len()
            invariant
                cs == clauses.deep_view(),
                cs.len() == clauses@.len(),
                i <= cs.len(),
                r.deep_view().len() == i,
                forall|j: int| 0 <= j < i ==> r.deep_view()[j] == dio_model(j, cs[j]),
            decreases cs.len() - i,
        {
            let ghost r_before = r.deep_view();
            proof {
                assert(cs[i as int] == clauses@[i as int]@);
            }
            r.push(DIOInvariant::new(clauses[i].as_str(), i));
            proof {
                assert(r.deep_view() =~= r_before.push(dio_model(i as int, cs[i as int])));
            }
            i += 1;
        }
        proof {
            assert(r.deep_view() =~= dio_models(cs));
        }
        r
    }

    /// Resolves a principal for every clause: a resolving clause yields one
    /// authority record whatever the other clauses do, a non-resolving one
    /// records a `MissingPrincipal` error; the scan continues over all
    /// clauses and the errors aggregate.
    pub fn compile_zt_authority(clauses: &Vec<String>) -> (r: (Vec<ZTAuthority>, Vec<
        CompilationError,
    >))
        ensures
            r.0.deep_view() == zt_models_from(clauses.deep_view(), 0),
            r.1.deep_view() == zt_errors_from(clauses.deep_view(), 0),
            r.1@.len() == 0 ==> r.0.deep_view() == zt_models(clauses.deep_view()),
    {
        let ghost cs = clauses.deep_view();
        let mut auths: Vec<ZTAuthority> = Vec::new();
        let mut errors: Vec<CompilationError> = Vec::new();
        let mut i: usize = 0;
        while i < clauses.len()
            invariant
                cs == clauses.deep_view(),
                cs.len() == clauses@.len(),
                i <= cs.len(),
                auths.deep_view() + zt_models_from(cs, i as int) == zt_models_from(cs, 0),
                errors.deep_view() + zt_errors_from(cs, i as int) == zt_errors_from(cs, 0),
            decreases cs.len() - i,
        {
            let ghost errors_before = errors.deep_view();
            let ghost auths_before = auths.deep_view();
            proof {
                assert(cs[i as int] == clauses@[i as int]@);
            }
            match Principal::from_clause(clauses[i].as_str()) {
                Some(principal) => {
                    auths.push(ZTAuthority::new(clauses[i].as_str(), i, principal));
                    proof {
                        let m = zt_model(i as int, cs[i as int], principal);
                        assert(zt_errors_from(cs, i as int) == zt_errors_from(cs, i + 1));
                        assert(zt_models_from(cs, i as int) == seq![m] + zt_models_from(cs, i + 1));
                        assert(auths.deep_view() =~= auths_before.push(m));
                        assert(auths.deep_view() + zt_models_from(cs, i + 1) =~= auths_before
                            + zt_models_from(cs, i as int));
                    }
                },
                None => {
                    let e = CompilationError::MissingPrincipal {
                        clause_index: i,
                        clause: clauses[i].clone(),
                    };
                    errors.push(e);
                    proof {
                        assert(errors.deep_view() =~= errors_before.push(
                            ErrorModel::MissingPrincipal { clause_index: i as int, clause: cs[i as int] },
                        ));
                        assert(zt_errors_from(cs, i as int) == seq![
                            ErrorModel::MissingPrincipal {
                                clause_index: i as int,
                                clause: cs[i as int],
                            },
                        ] + zt_errors_from(cs, i + 1));
                        assert(errors.deep_view() + zt_errors_from(cs, i + 1) =~= errors_before
                            + zt_errors_from(cs, i as int));
                        assert(zt_models_from(cs, i as int) == zt_models_from(cs, i + 1));
                    }
                },
            }
            i += 1;
        }
        proof {
            assert(zt_errors_from(cs, cs.len() as int) =~= Seq::<ErrorModel>::empty());
            assert(errors.deep_view() + Seq::<ErrorModel>::empty() =~= errors.deep_view());
            assert(zt_models_from(cs, cs.len() as int) =~= Seq::<crate::artifacts::ZTModel>::empty());
            assert(auths.deep_view() + Seq::<crate::artifacts::ZTModel>::empty()
                =~= auths.deep_view());
            if errors@.len() == 0 {
                lemma_zt_all_resolve(cs, 0);
                assert(zt_models(cs).skip(0) =~= zt_models(cs));
            }
        }
        (auths, errors)
    }

    /// Compiles cost constraints: a clause without a cost indicator is
    /// skipped; a cost clause needs a subject and a unit, and each failure
    /// records an error while the scan continues; the errors aggregate.
    pub fn compile_icae_constraints(clauses: &Vec<String>) -> (r: (Vec<ICAECostConstraint>, Vec<
        CompilationError,
    >))
        ensures
            r.0.deep_view() == cost_models_from(clauses.deep_view(), 0),
            r.1.deep_view() == icae_errors_from(clauses.deep_view(), 0),
    {
        let ghost cs = clauses.deep_view();
        let cpats = cost_indicator_patterns();
        let mut costs: Vec<ICAECostConstraint> = Vec::new();
        let mut errors: Vec<CompilationError> = Vec::new();
        let mut i: usize = 0;
        while i < clauses.len()
            invariant
                cs == clauses.deep_view(),
                cs.len() == clauses@.len(),
                i <= cs.len(),
                cpats.deep_view() == cost_indicators(),
                costs.deep_view() + cost_models_from(cs, i as int) == cost_models_from(cs, 0),
                errors.deep_view() + icae_errors_from(cs, i as int) == icae_errors_from(cs, 0),
            decreases cs.len() - i,
        {
            let ghost clause = cs[i as int];
            let ghost errors_before = errors.deep_view();
            let ghost costs_before = costs.deep_view();
            proof {
                assert(clause == clauses@[i as int]@);
            }
            let cv = str_chars(clauses[i].as_str());
            let low = lower_vec(&cv);
            if !contains_any(&low, &cpats) {
                proof {
                    assert(!has_cost_indicator(clause));
                    assert(icae_errors_from(cs, i as int) == icae_errors_from(cs, i + 1));
                    assert(cost_models_from(cs, i as int) == cost_models_from(cs, i + 1));
                }
            } else {
                proof {
                    assert(has_cost_indicator(clause));
                }
                match crate::classify::extract_subject(clauses[i].as_str()) {
                    None => {
                        let e = CompilationError::MissingCostSubject {
                            clause_index: i,
                            clause: clauses[i].clone(),
                        };
                        errors.push(e);
                        proof {
                            let em = ErrorModel::MissingCostSubject {
                                clause_index: i as int,
                                clause,
                            };
                            assert(errors.deep_view() =~= errors_before.push(em));
                            assert(icae_errors_from(cs, i as int) == seq![em] + icae_errors_from(
                                cs,
                                i + 1,
                            ));
                            assert(errors.deep_view() + icae_errors_from(cs, i + 1)
                                =~= errors_before + icae_errors_from(cs, i as int));
                            assert(cost_models_from(cs, i as int) == cost_models_from(cs, i + 1));
                        }
                    },
                    Some(subject) => {
                        match MeasurementUnit::from_clause(clauses[i].as_str()) {
                            None => {
                                let e = CompilationError::MissingMeasurementUnit {
                                    clause_index: i,
                                    clause: clauses[i].clone(),
                                };
                                errors.push(e);
                                proof {
                                    let em = ErrorModel::MissingMeasurementUnit {
                                        clause_index: i as int,
                                        clause,
                                    };
                                    assert(errors.deep_view() =~= errors_before.push(em));
                                    assert(icae_errors_from(cs, i as int) == seq![em]
                                        + icae_errors_from(cs, i + 1));
                                    assert(errors.deep_view() + icae_errors_from(cs, i + 1)
                                        =~= errors_before + icae_errors_from(cs, i as int));
                                    assert(cost_models_from(cs, i as int) == cost_models_from(
                                        cs,
                                        i + 1,
                                    ));
                                }
                            },
                            Some(unit) => {
                                let ghost subject_view = subject@;
                                costs.push(
                                    ICAECostConstraint::new(clauses[i].as_str(), i, subject, unit),
                                );
                                proof {
                                    assert(icae_errors_from(cs, i as int) == icae_errors_from(
                                        cs,
                                        i + 1,
                                    ));
                                    let cm = cost_model(
                                        i as int,
                                        clause,
                                        spec_subject_of(clause)->Some_0,
                                        spec_unit_of(clause)->Some_0,
                                    );
                                    assert(cost_models_from(cs, i as int) == seq![cm]
                                        + cost_models_from(cs, i + 1));
                                    assert(costs.deep_view() =~= costs_before.push(cm));
                                    assert(costs.deep_view() + cost_models_from(cs, i + 1)
                                        =~= costs_before + cost_models_from(cs, i as int));
                                }
                            },
                        }
                    },
                }
            }
            i += 1;
        }
        proof {
            assert(icae_errors_from(cs, cs.len() as int) =~= Seq::<ErrorModel>::empty());
            assert(errors.deep_view() + Seq::<ErrorModel>::empty() =~= errors.deep_view());
            assert(cost_models_from(cs, cs.len() as int) =~= Seq::<
                crate::artifacts::CostModel,
            >::empty());
            assert(costs.deep_view() + Seq::<crate::artifacts::CostModel>::empty()
                =~= costs.deep_view());
        }
        (costs, errors)
    }

    /// Joins each clause to the identifiers of the artifacts generated for
    /// it; runs only once every compiler stage has succeeded.
    pub fn build_traceability_map(
        clauses: &Vec<String>,
        dio_invariants: &Vec<DIOInvariant>,
        authorities: &Vec<ZTAuthority>,
        cost_constraints: &Vec<ICAECostConstraint>,
    ) -> (r: Vec<TraceabilityEntry>)
        requires
            dio_invariants.deep_view() == dio_models(clauses.deep_view()),
            authorities.deep_view() == zt_models(clauses.deep_view()),
            cost_constraints.deep_view() == cost_models_from(clauses.deep_view(), 0),
            icae_errors_from(clauses.deep_view(), 0).len() == 0,
        ensures
            r.deep_view() == trace_models(clauses.deep_view()),
    {
        let ghost cs = clauses.deep_view();
        proof {
            lemma_icae_no_errors(cs, 0);
            assert(cost_constraints.deep_view().skip(0) =~= cost_models_from(cs, 0));
            assert(dio_invariants.deep_view().len() == dio_invariants@.len());
            assert(dio_models(cs).len() == cs.len());
            assert(authorities.deep_view().len() == authorities@.len());
            assert(zt_models(cs).len() == cs.len());
            assert(cost_constraints.deep_view().len() == cost_constraints@.len());
        }
        let cpats = cost_indicator_patterns();
        let clen = cost_constraints.len();
        let mut entries: Vec<TraceabilityEntry> = Vec::new();
        let mut k: usize = 0;
        let mut i: usize = 0;
        while i < clauses.len()
            invariant
                cs == clauses.deep_view(),
                cs.len() == clauses@.len(),
                i <= cs.len(),
                cpats.deep_view() == cost_indicators(),
                dio_invariants.deep_view() == dio_models(cs),
                authorities.deep_view() == zt_models(cs),
                dio_invariants@.len() == cs.len(),
                authorities@.len() == cs.len(),
                icae_errors_from(cs, 0).len() == 0,
                forall|j: int|
                    0 <= j < cs.len() && has_cost_indicator(#[trigger] cs[j]) ==> (spec_subject_of(
                        cs[j],
                    ) is Some && spec_unit_of(cs[j]) is Some),
                clen == cost_constraints@.len(),
                k <= cost_constraints@.len(),
                cost_constraints.deep_view().len() == cost_constraints@.len(),
                cost_models_from(cs, i as int) == cost_constraints.deep_view().skip(k as int),
                entries.deep_view().len() == i,
                forall|j: int| 0 <= j < i ==> entries.deep_view()[j] == trace_models(cs)[j],
            decreases cs.len() - i,
        {
            let ghost clause = cs[i as int];
            proof {
                assert(clause == clauses@[i as int]@);
            }
            let cv = str_chars(clauses[i].as_str());
            let low = lower_vec(&cv);
            let mut clause_ident = String::from_str("clause_");
            push_decimal(&mut clause_ident, i);
            let mut invariant_ids: Vec<String> = Vec::new();
            invariant_ids.push(dio_invariants[i].id.clone());
            let mut authority_ids: Vec<String> = Vec::new();
            authority_ids.push(authorities[i].id.clone());
            proof {
                assert(dio_invariants.deep_view()[i as int] == dio_invariants@[i as int]@);
                assert(dio_models(cs)[i as int] == dio_model(i as int, clause));
                assert(authorities.deep_view()[i as int] == authorities@[i as int]@);
                assert(zt_models(cs)[i as int] == zt_model(
                    i as int,
                    clause,
                    spec_principal_of(clause)->Some_0,
                ));
                assert(invariant_ids.deep_view() =~= seq![dio_id(i as int)]);
                assert(authority_ids.deep_view() =~= seq![zt_id(i as int)]);
            }
            let mut cost_ids: Vec<String> = Vec::new();
            if contains_any(&low, &cpats) {
                proof {
                    assert(has_cost_indicator(clause));
                    let dv = cost_constraints.deep_view();
                    assert(cost_models_from(cs, i as int) == seq![
                        cost_model(
                            i as int,
                            clause,
                            spec_subject_of(clause)->Some_0,
                            spec_unit_of(clause)->Some_0,
                        ),
                    ] + cost_models_from(cs, i + 1));
                    assert(dv.skip(k as int).len() > 0);
                    assert(dv.skip(k as int)[0] == dv[k as int]);
                    assert(dv[k as int] == cost_model(
                        i as int,
                        clause,
                        spec_subject_of(clause)->Some_0,
                        spec_unit_of(clause)->Some_0,
                    ));
                    assert(dv.skip(k as int).drop_first() =~= dv.skip(k + 1));
                    assert(cost_models_from(cs, i + 1) =~= dv.skip(k + 1));
                    assert(cost_constraints@[k as int]@ == dv[k as int]);
                }
                proof {
                    assert(k < clen);
                }
                cost_ids.push(cost_constraints[k].id.clone());
                k += 1;
                proof {
                    assert(cost_ids.deep_view() =~= seq![icae_id(i as int)]);
                }
            } else {
                proof {
                    assert(!has_cost_indicator(clause));
                    assert(cost_models_from(cs, i as int) == cost_models_from(cs, i + 1));
                    assert(cost_ids.deep_view() =~= Seq::<Seq<char>>::empty());
                }
            }
            let ghost entries_before = entries.deep_view();
            entries.push(
                TraceabilityEntry {
                    clause_id: clause_ident,
                    clause_index: i,
                    clause_text: clauses[i].clone(),
                    invariant_ids,
                    authority_ids,
                    cost_ids,
                },
            );
            proof {
                assert(entries.deep_view().len() == i + 1);
                assert(entries.deep_view()[i as int] =~= trace_models(cs)[i as int]);
            }
            i += 1;
        }
        proof {
            assert(entries.deep_view() =~= trace_models(cs));
        }
        entries
    }

    /// The failed result carrying one error.
    pub fn fail_with_error(error: CompilationError) -> (r: CompilationResult)
        ensures
            r@ == fail_model(seq![error@]),
    {
        let mut errors: Vec<CompilationError> = Vec::new();
        errors.push(error);
        proof {
            assert(errors.deep_view() =~= seq![error@]);
        }
        Self::fail_with_errors(errors)
    }

    /// The failed result carrying `errors`: verdict `Fail`, every artifact
    /// collection and the normalization reset to empty, and the errors also
    /// rendered as messages.
    pub fn fail_with_errors(errors: Vec<CompilationError>) -> (r: CompilationResult)
        ensures
            r@ == fail_model(errors.deep_view()),
    {
        let mut failures: Vec<String> = Vec::new();
        let mut i: usize = 0;
        while i < errors.len()
            invariant
                i <= errors@.len(),
                errors.deep_view().len() == errors@.len(),
                failures.deep_view().len() == i,
                forall|j: int|
                    0 <= j < i ==> failures.deep_view()[j] == crate::errors::err_message(
                        #[trigger] errors.deep_view()[j],
                    ),
            decreases errors@.len() - i,
        {
            proof {
                assert(errors.deep_view()[i as int] == errors@[i as int]@);
            }
            failures.push(errors[i].message());
            i += 1;
        }
        let r = CompilationResult {
            intent_normalization: IntentNormalization {
                clauses: Vec::new(),
                assumptions: Vec::new(),
                exclusions: Vec::new(),
            },
            dio_invariants: Vec::new(),
            zt_authority_graph: Vec::new(),
            icae_constraints: Vec::new(),
            traceability_map: Vec::new(),
            verdict: CompilationStatus::Fail,
            errors,
            failures,
        };
        proof {
            assert(r@ =~~= fail_model(r.errors.deep_view()));
        }
        r
    }

    /// Compiles a policy text into governance artifacts: the full result on
    /// a pass, the aggregated structured errors on a fail. A pure function
    /// of the input: identical inputs yield identical results.
    pub fn compile(&self, policy_input: &str) -> (result: CompilationResult)
        ensures
            result@ == compile_model(policy_input@),
    {
        let cv = str_chars(policy_input);
        if blank(&cv) {
            proof {
                lemma_blank_trims_empty(cv@);
            }
            return Self::fail_with_error(CompilationError::EmptyInput);
        }
        proof {
            if trim_seq(cv@).len() == 0 {
                lemma_trim_empty_blank(cv@);
            }
        }
        let clauses = Self::parse_clauses(policy_input);
        if clauses.len() == 0 {
            proof {
                assert(clauses.deep_view().len() == 0);
            }
            return Self::fail_with_error(CompilationError::NoClauses);
        }
        let norm = match Self::normalize_intent(&clauses) {
            Ok(n) => n,
            Err(e) => {
                return Self::fail_with_error(e);
            },
        };
        let dio_invariants = Self::compile_dio_invariants(&clauses);
        let (zt_authority_graph, auth_errors) = Self::compile_zt_authority(&clauses);
        if auth_errors.len() > 0 {
            return Self::fail_with_errors(auth_errors);
        }
        let (icae_constraints, cost_errors) = Self::compile_icae_constraints(&clauses);
        if cost_errors.len() > 0 {
            return Self::fail_with_errors(cost_errors);
        }
        let traceability_map = Self::build_traceability_map(
            &clauses,
            &dio_invariants,
            &zt_authority_graph,
            &icae_constraints,
        );
        let result = CompilationResult {
            intent_normalization: norm,
            dio_invariants,
            zt_authority_graph,
            icae_constraints,
            traceability_map,
            verdict: CompilationStatus::Pass,
            errors: Vec::new(),
            failures: Vec::new(),
        };
        proof {
            assert(result@ =~~= pass_model(clauses.deep_view()));
        }
        result
    }
}

} // verus!
