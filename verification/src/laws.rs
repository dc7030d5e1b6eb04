//! Global laws of the compiler, stated over the model that `compile`'s
//! contract fixes and proved once for every input.

use vstd::prelude::*;

use crate::classify::{has_currency_glyph, spec_unit_of, unit_keyword, MeasurementUnit};
use crate::errors::{CompilationStatus, ErrorModel};
use crate::keywords::{lemma_first_contained_some, modal_words};
use crate::normalize::{clause_modal_word, has_modal, modal_error_from, norm_error};
use crate::result::{compile_model, fail_model, ResultModel};
use crate::scan::{clauses_of, emit_clause, seg_clauses};
use crate::text::{contains_ci, contains_seq, is_blank, is_space_char, lemma_blank_trims_empty,
    lemma_trim_empty_blank, lower_seq, trim_seq};

verus! {

/// Compilation is deterministic: it is a pure function of the input text,
/// so two compilations of the same text agree on everything — verdict,
/// artifact identifiers, ordering and error list alike.
pub proof fn lemma_compile_deterministic(input: Seq<char>, a: ResultModel, b: ResultModel)
    requires
        a == compile_model(input),
        b == compile_model(input),
    ensures
        a == b,
{
}

/// A blank text segments into no clauses.
proof fn lemma_blank_seg(s: Seq<char>, cur: Seq<char>)
    requires
        is_blank(s),
        is_blank(cur),
    ensures
        seg_clauses(s, cur).len() == 0,
    decreases s.len(),
{
    if s.len() == 0 {
        lemma_blank_trims_empty(cur);
    } else {
        assert(is_space_char(s[0]));
        assert(s[0] != '.');
        assert(is_blank(s.drop_first())) by {
            assert(forall|i: int| 0 <= i < s.drop_first().len() ==> s.drop_first()[i] == s[i + 1]);
        }
        assert(is_blank(cur.push(s[0]))) by {
            assert(forall|i: int| 0 <= i < cur.len() ==> cur.push(s[0])[i] == cur[i]);
        }
        lemma_blank_seg(s.drop_first(), cur.push(s[0]));
    }
}

/// A text that segments into at least one clause is not blank once trimmed.
proof fn lemma_clauses_need_text(input: Seq<char>)
    requires
        clauses_of(input).len() > 0,
    ensures
        trim_seq(input).len() != 0,
{
    if trim_seq(input).len() == 0 {
        lemma_trim_empty_blank(input);
        lemma_blank_seg(input, Seq::empty());
    }
}

/// The modal scan from `j` finds an error when some later clause holds a
/// modal term.
proof fn lemma_modal_scan_finds(cs: Seq<Seq<char>>, j: int, i: int)
    requires
        0 <= j <= i < cs.len(),
        has_modal(cs[i]),
    ensures
        modal_error_from(cs, j) is Some,
    decreases i - j,
{
    if !has_modal(cs[j]) {
        lemma_modal_scan_finds(cs, j + 1, i);
    }
}

/// What the modal scan reports: the index of a clause of the sequence, that
/// clause's text, and a modal term it contains.
proof fn lemma_modal_error_props(cs: Seq<Seq<char>>, j: int)
    requires
        0 <= j,
        modal_error_from(cs, j) is Some,
    ensures
        ({
            let e = modal_error_from(cs, j)->Some_0;
            &&& e is ModalLanguageDetected
            &&& j <= e->ModalLanguageDetected_clause_index < cs.len()
            &&& e->ModalLanguageDetected_clause == cs[e->ModalLanguageDetected_clause_index]
            &&& modal_words().contains(e->ModalLanguageDetected_modal_word)
            &&& contains_seq(
                lower_seq(e->ModalLanguageDetected_clause),
                e->ModalLanguageDetected_modal_word,
            )
        }),
    decreases cs.len() - j,
{
    if j < cs.len() {
        if has_modal(cs[j]) {
            lemma_first_contained_some(modal_words(), lower_seq(cs[j]));
        } else {
            lemma_modal_error_props(cs, j + 1);
        }
    }
}

/// A clause containing a modal term fails the whole compilation: the
/// verdict is `Fail` and the single error is `ModalLanguageDetected`,
/// naming a clause of the text and a modal term that clause contains.
pub proof fn lemma_modal_clause_fails(input: Seq<char>, i: int)
    requires
        0 <= i < clauses_of(input).len(),
        has_modal(clauses_of(input)[i]),
    ensures
        compile_model(input).verdict == CompilationStatus::Fail,
        compile_model(input).errors.len() == 1,
        ({
            let cs = clauses_of(input);
            let e = compile_model(input).errors[0];
            &&& e is ModalLanguageDetected
            &&& 0 <= e->ModalLanguageDetected_clause_index < cs.len()
            &&& e->ModalLanguageDetected_clause == cs[e->ModalLanguageDetected_clause_index]
            &&& modal_words().contains(e->ModalLanguageDetected_modal_word)
            &&& contains_seq(
                lower_seq(e->ModalLanguageDetected_clause),
                e->ModalLanguageDetected_modal_word,
            )
        }),
{
    let cs = clauses_of(input);
    lemma_clauses_need_text(input);
    lemma_modal_scan_finds(cs, 0, i);
    lemma_modal_error_props(cs, 0);
    assert(norm_error(cs) == modal_error_from(cs, 0));
    assert(compile_model(input) == fail_model(seq![norm_error(cs)->Some_0]));
}

/// A unit keyword embedded in a clause resolves to exactly that unit, as
/// long as the clause carries no currency glyph and no other unit keyword.
pub proof fn lemma_unit_keyword_resolves(clause: Seq<char>, u: MeasurementUnit)
    requires
        !has_currency_glyph(clause),
        contains_ci(clause, unit_keyword(u)),
        forall|v: MeasurementUnit| v != u ==> !contains_ci(clause, #[trigger] unit_keyword(v)),
    ensures
        spec_unit_of(clause) == Some(u),
{
    assert(MeasurementUnit::Usd != u ==> !contains_ci(clause, unit_keyword(MeasurementUnit::Usd)));
    assert(MeasurementUnit::Eur != u ==> !contains_ci(clause, unit_keyword(MeasurementUnit::Eur)));
    assert(MeasurementUnit::Gbp != u ==> !contains_ci(clause, unit_keyword(MeasurementUnit::Gbp)));
    assert(MeasurementUnit::Tokens != u ==> !contains_ci(
        clause,
        unit_keyword(MeasurementUnit::Tokens),
    ));
    assert(MeasurementUnit::Bytes != u ==> !contains_ci(
        clause,
        unit_keyword(MeasurementUnit::Bytes),
    ));
    assert(MeasurementUnit::Requests != u ==> !contains_ci(
        clause,
        unit_keyword(MeasurementUnit::Requests),
    ));
    assert(MeasurementUnit::Hours != u ==> !contains_ci(
        clause,
        unit_keyword(MeasurementUnit::Hours),
    ));
}

/// All-or-nothing: a failing compilation returns no artifact and no
/// normalization data — every collection is empty and at least one
/// structured error is carried; a passing one carries no error.
pub proof fn lemma_verdict_dichotomy(input: Seq<char>)
    ensures
        compile_model(input).verdict == CompilationStatus::Fail ==> ({
            let r = compile_model(input);
            &&& r.intent_normalization.clauses.len() == 0
            &&& r.intent_normalization.assumptions.len() == 0
            &&& r.intent_normalization.exclusions.len() == 0
            &&& r.dio_invariants.len() == 0
            &&& r.zt_authority_graph.len() == 0
            &&& r.icae_constraints.len() == 0
            &&& r.traceability_map.len() == 0
            &&& r.errors.len() > 0
        }),
        compile_model(input).verdict == CompilationStatus::Pass ==> compile_model(
            input,
        ).errors.len() == 0,
{
}

} // verus!
