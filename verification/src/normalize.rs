//! Intent normalization: the three global validation passes over the clause
//! sequence (modal language, action verbs, multi-action ambiguity) and the
//! extraction of assumption and exclusion sub-lists.

use vstd::prelude::*;

use crate::errors::ErrorModel;
use crate::keywords::{action_verbs, contains_any_word, first_contained, modal_words,
    cost_indicators};
use crate::text::{contains_ci, lower_seq};

verus! {

/// Whether the clause contains a modal term.
pub open spec fn has_modal(clause: Seq<char>) -> bool {
    contains_any_word(modal_words(), lower_seq(clause))
}

/// The first modal term (in table order) the clause contains.
pub open spec fn clause_modal_word(clause: Seq<char>) -> Option<Seq<char>> {
    first_contained(modal_words(), lower_seq(clause))
}

/// Whether the clause contains at least one action verb.
pub open spec fn has_action_verb(clause: Seq<char>) -> bool {
    contains_any_word(action_verbs(), lower_seq(clause))
}

/// Whether the clause mentions cost and so demands an ICAE constraint.
pub open spec fn has_cost_indicator(clause: Seq<char>) -> bool {
    contains_any_word(cost_indicators(), lower_seq(clause))
}

/// Whether the clause names several actions (" and " / " or ") without an
/// ordering marker (then / before / after).
pub open spec fn is_ambiguous_multi(clause: Seq<char>) -> bool {
    (contains_ci(clause, " and "@) || contains_ci(clause, " or "@)) && !contains_ci(
        clause,
        "then"@,
    ) && !contains_ci(clause, "before"@) && !contains_ci(clause, "after"@)
}

/// Whether the clause states an assumption.
pub open spec fn has_assumption(clause: Seq<char>) -> bool {
    contains_ci(clause, "assumes"@) || contains_ci(clause, "assuming"@)
}

/// Whether the clause states an exclusion.
pub open spec fn has_exclusion(clause: Seq<char>) -> bool {
    contains_ci(clause, "except"@) || contains_ci(clause, "exclude"@) || contains_ci(
        clause,
        "unless"@,
    )
}

/// The error of the modal pass, scanning clauses from `i` on: the first
/// clause containing a modal term fails with the first such term.
pub open spec fn modal_error_from(cs: Seq<Seq<char>>, i: int) -> Option<ErrorModel>
    decreases cs.len() - i,
{
    if i < 0 || i >= cs.len() {
        None
    } else if has_modal(cs[i]) {
        Some(
            ErrorModel::ModalLanguageDetected {
                clause_index: i,
                clause: cs[i],
                modal_word: clause_modal_word(cs[i])->Some_0,
            },
        )
    } else {
        modal_error_from(cs, i + 1)
    }
}

/// The error of the action-verb pass, scanning clauses from `i` on: the
/// first clause with no action verb fails.
pub open spec fn verb_error_from(cs: Seq<Seq<char>>, i: int) -> Option<ErrorModel>
    decreases cs.len() - i,
{
    if i < 0 || i >= cs.len() {
        None
    } else if !has_action_verb(cs[i]) {
        Some(ErrorModel::MissingActionVerb { clause_index: i, clause: cs[i] })
    } else {
        verb_error_from(cs, i + 1)
    }
}

/// The error of the multi-action pass, scanning clauses from `i` on: the
/// first ambiguous clause fails.
pub open spec fn multi_error_from(cs: Seq<Seq<char>>, i: int) -> Option<ErrorModel>
    decreases cs.len() - i,
{
    if i < 0 || i >= cs.len() {
        None
    } else if is_ambiguous_multi(cs[i]) {
        Some(ErrorModel::AmbiguousMultiAction { clause_index: i, clause: cs[i] })
    } else {
        multi_error_from(cs, i + 1)
    }
}

/// The outcome of intent normalization: the three passes run in order, each
/// over every clause, and the first failure of the earliest failing pass
/// aborts the whole compilation.
pub open spec fn norm_error(cs: Seq<Seq<char>>) -> Option<ErrorModel> {
    if modal_error_from(cs, 0) is Some {
        modal_error_from(cs, 0)
    } else if verb_error_from(cs, 0) is Some {
        verb_error_from(cs, 0)
    } else if multi_error_from(cs, 0) is Some {
        multi_error_from(cs, 0)
    } else {
        None
    }
}

/// The clauses that state assumptions, in clause order.
pub open spec fn assumptions_of(cs: Seq<Seq<char>>) -> Seq<Seq<char>> {
    cs.filter(|c: Seq<char>| has_assumption(c))
}

/// The clauses that state exclusions, in clause order.
pub open spec fn exclusions_of(cs: Seq<Seq<char>>) -> Seq<Seq<char>> {
    cs.filter(|c: Seq<char>| has_exclusion(c))
}

/// The validated clause list with its assumption and exclusion sub-lists. A
/// clause may appear in both sub-lists, one, or neither; membership does not
/// remove it from the main list.
#[derive(Debug, Clone)]
pub struct IntentNormalization {
    pub clauses: Vec<String>,
    pub assumptions: Vec<String>,
    pub exclusions: Vec<String>,
}

/// The model of an [`IntentNormalization`].
#[verifier::ext_equal]
pub ghost struct NormModel {
    pub clauses: Seq<Seq<char>>,
    pub assumptions: Seq<Seq<char>>,
    pub exclusions: Seq<Seq<char>>,
}

impl View for IntentNormalization {
    type V = NormModel;

    open spec fn view(&self) -> NormModel {
        NormModel {
            clauses: self.clauses.deep_view(),
            assumptions: self.assumptions.deep_view(),
            exclusions: self.exclusions.deep_view(),
        }
    }
}

impl DeepView for IntentNormalization {
    type V = NormModel;

    open spec fn deep_view(&self) -> NormModel {
        self.view()
    }
}

/// The normalization value produced when all three passes succeed.
pub open spec fn norm_model(cs: Seq<Seq<char>>) -> NormModel {
    NormModel { clauses: cs, assumptions: assumptions_of(cs), exclusions: exclusions_of(cs) }
}

/// The empty normalization carried by a failed compilation.
pub open spec fn empty_norm() -> NormModel {
    NormModel {
        clauses: Seq::empty(),
        assumptions: Seq::empty(),
        exclusions: Seq::empty(),
    }
}

} // verus!
