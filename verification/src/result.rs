//! The aggregate result of one compilation and its full mathematical model:
//! `compile_model` fixes, for every input text, the exact value a
//! compilation returns.

use vstd::prelude::*;

use crate::artifacts::{clause_id, cost_model, dio_id, dio_model, icae_id, zt_id, zt_model,
    CostModel, DIOInvariant, DIOModel, ICAECostConstraint, TraceabilityEntry, TraceModel,
    ZTAuthority, ZTModel};
use crate::classify::{spec_principal_of, spec_subject_of, spec_unit_of};
use crate::errors::{err_message, CompilationError, CompilationStatus, ErrorModel};
use crate::normalize::{empty_norm, has_cost_indicator, norm_error, norm_model,
    IntentNormalization, NormModel};
use crate::scan::clauses_of;
use crate::text::trim_seq;

verus! {

/// The DIO invariants of a passing compilation: one per clause,
/// unconditionally.
pub open spec fn dio_models(cs: Seq<Seq<char>>) -> Seq<DIOModel> {
    Seq::new(cs.len(), |i: int| dio_model(i, cs[i]))
}

/// The authorities of a passing compilation: one per clause, carrying the
/// clause's resolved principal.
pub open spec fn zt_models(cs: Seq<Seq<char>>) -> Seq<ZTModel> {
    Seq::new(cs.len(), |i: int| zt_model(i, cs[i], spec_principal_of(cs[i])->Some_0))
}

/// The authorities the authority stage builds, scanning clauses from `i`
/// on: one per clause whose principal resolves, in clause order, whatever
/// the other clauses do.
pub open spec fn zt_models_from(cs: Seq<Seq<char>>, i: int) -> Seq<ZTModel>
    decreases cs.len() - i,
{
    if i < 0 || i >= cs.len() {
        Seq::empty()
    } else if spec_principal_of(cs[i]) is Some {
        seq![zt_model(i, cs[i], spec_principal_of(cs[i])->Some_0)] + zt_models_from(cs, i + 1)
    } else {
        zt_models_from(cs, i + 1)
    }
}

/// When the authority stage aggregated no error, every clause resolved a
/// principal and the stage's list holds one authority per clause.
pub proof fn lemma_zt_all_resolve(cs: Seq<Seq<char>>, i: int)
    requires
        0 <= i <= cs.len(),
        zt_errors_from(cs, i).len() == 0,
    ensures
        zt_models_from(cs, i) =~= zt_models(cs).skip(i),
    decreases cs.len() - i,
{
    if i >= cs.len() {
        assert(zt_models(cs).skip(i) =~= Seq::<ZTModel>::empty());
    } else {
        lemma_zt_all_resolve(cs, i + 1);
        assert(zt_models(cs)[i] == zt_model(i, cs[i], spec_principal_of(cs[i])->Some_0));
        assert(zt_models(cs).skip(i) =~= seq![zt_models(cs)[i]] + zt_models(cs).skip(i + 1));
    }
}

/// The errors the authority stage aggregates, scanning clauses from `i` on:
/// one per clause with no resolvable principal, in clause order.
pub open spec fn zt_errors_from(cs: Seq<Seq<char>>, i: int) -> Seq<ErrorModel>
    decreases cs.len() - i,
{
    if i < 0 || i >= cs.len() {
        Seq::empty()
    } else if spec_principal_of(cs[i]) is None {
        seq![ErrorModel::MissingPrincipal { clause_index: i, clause: cs[i] }] + zt_errors_from(
            cs,
            i + 1,
        )
    } else {
        zt_errors_from(cs, i + 1)
    }
}

/// The errors the cost stage aggregates, scanning clauses from `i` on: a
/// cost clause without a subject, or with a subject but no unit, records one
/// error; clauses without a cost indicator are skipped.
pub open spec fn icae_errors_from(cs: Seq<Seq<char>>, i: int) -> Seq<ErrorModel>
    decreases cs.len() - i,
{
    if i < 0 || i >= cs.len() {
        Seq::empty()
    } else if !has_cost_indicator(cs[i]) {
        icae_errors_from(cs, i + 1)
    } else if spec_subject_of(cs[i]) is None {
        seq![ErrorModel::MissingCostSubject { clause_index: i, clause: cs[i] }] + icae_errors_from(
            cs,
            i + 1,
        )
    } else if spec_unit_of(cs[i]) is None {
        seq![ErrorModel::MissingMeasurementUnit { clause_index: i, clause: cs[i] }]
            + icae_errors_from(cs, i + 1)
    } else {
        icae_errors_from(cs, i + 1)
    }
}

/// The cost constraints of a passing compilation, scanning clauses from `i`
/// on: one per cost clause whose subject and unit both resolve.
pub open spec fn cost_models_from(cs: Seq<Seq<char>>, i: int) -> Seq<CostModel>
    decreases cs.len() - i,
{
    if i < 0 || i >= cs.len() {
        Seq::empty()
    } else if has_cost_indicator(cs[i]) && spec_subject_of(cs[i]) is Some && spec_unit_of(cs[i])
        is Some {
        seq![
            cost_model(i, cs[i], spec_subject_of(cs[i])->Some_0, spec_unit_of(cs[i])->Some_0),
        ] + cost_models_from(cs, i + 1)
    } else {
        cost_models_from(cs, i + 1)
    }
}

/// When the cost stage aggregated no error, every cost clause resolved a
/// subject and a unit.
pub proof fn lemma_icae_no_errors(cs: Seq<Seq<char>>, i: int)
    requires
        0 <= i,
        icae_errors_from(cs, i).len() == 0,
    ensures
        forall|j: int|
            i <= j < cs.len() && has_cost_indicator(#[trigger] cs[j]) ==> (spec_subject_of(cs[j])
                is Some && spec_unit_of(cs[j]) is Some),
    decreases cs.len() - i,
{
    if 0 <= i < cs.len() {
        lemma_icae_no_errors(cs, i + 1);
    }
}

/// The traceability entries of a passing compilation: entry `i` carries the
/// identifiers of every artifact generated for clause `i`; the cost list is
/// empty, not omitted, when the clause carries no cost constraint.
pub open spec fn trace_models(cs: Seq<Seq<char>>) -> Seq<TraceModel> {
    Seq::new(
        cs.len(),
        |i: int|
            TraceModel {
                clause_id: clause_id(i),
                clause_index: i,
                clause_text: cs[i],
                invariant_ids: seq![dio_id(i)],
                authority_ids: seq![zt_id(i)],
                cost_ids: if has_cost_indicator(cs[i]) {
                    seq![icae_id(i)]
                } else {
                    Seq::empty()
                },
            },
    )
}

/// The aggregate of one compilation: the verdict, the normalization, the
/// three artifact lists and the traceability map in clause order, and the
/// ordered error list (empty on a pass). On a fail every artifact collection
/// and the normalization are empty: artifacts of stages that ran before the
/// failing one are discarded, never partially returned.
#[derive(Debug, Clone)]
pub struct CompilationResult {
    pub intent_normalization: IntentNormalization,
    pub dio_invariants: Vec<DIOInvariant>,
    pub zt_authority_graph: Vec<ZTAuthority>,
    pub icae_constraints: Vec<ICAECostConstraint>,
    pub traceability_map: Vec<TraceabilityEntry>,
    pub verdict: CompilationStatus,
    pub errors: Vec<CompilationError>,
    /// The errors rendered as messages, kept alongside `errors` for callers
    /// that read plain strings.
    pub failures: Vec<String>,
}

/// The model of a [`CompilationResult`].
#[verifier::ext_equal]
pub ghost struct ResultModel {
    pub intent_normalization: NormModel,
    pub dio_invariants: Seq<DIOModel>,
    pub zt_authority_graph: Seq<ZTModel>,
    pub icae_constraints: Seq<CostModel>,
    pub traceability_map: Seq<TraceModel>,
    pub verdict: CompilationStatus,
    pub errors: Seq<ErrorModel>,
    pub failures: Seq<Seq<char>>,
}

impl View for CompilationResult {
    type V = ResultModel;

    open spec fn view(&self) -> ResultModel {
        ResultModel {
            intent_normalization: self.intent_normalization@,
            dio_invariants: self.dio_invariants.deep_view(),
            zt_authority_graph: self.zt_authority_graph.deep_view(),
            icae_constraints: self.icae_constraints.deep_view(),
            traceability_map: self.traceability_map.deep_view(),
            verdict: self.verdict,
            errors: self.errors.deep_view(),
            failures: self.failures.deep_view(),
        }
    }
}

/// The failed result carrying `errs`: verdict `Fail`, every artifact
/// collection and the normalization empty, and the errors rendered into
/// `failures`.
pub open spec fn fail_model(errs: Seq<ErrorModel>) -> ResultModel {
    ResultModel {
        intent_normalization: empty_norm(),
        dio_invariants: Seq::empty(),
        zt_authority_graph: Seq::empty(),
        icae_constraints: Seq::empty(),
        traceability_map: Seq::empty(),
        verdict: CompilationStatus::Fail,
        errors: errs,
        failures: errs.map_values(|e: ErrorModel| err_message(e)),
    }
}

/// The passing result for the validated clauses `cs`.
pub open spec fn pass_model(cs: Seq<Seq<char>>) -> ResultModel {
    ResultModel {
        intent_normalization: norm_model(cs),
        dio_invariants: dio_models(cs),
        zt_authority_graph: zt_models(cs),
        icae_constraints: cost_models_from(cs, 0),
        traceability_map: trace_models(cs),
        verdict: CompilationStatus::Pass,
        errors: Seq::empty(),
        failures: Seq::empty(),
    }
}

/// What compiling `input` returns, for every input: the stages run in
/// order — segmentation, intent normalization, DIO compilation, authority
/// compilation, cost compilation, traceability — and the first failing
/// stage determines the (fail-fast or aggregated) error list.
pub open spec fn compile_model(input: Seq<char>) -> ResultModel {
    if trim_seq(input).len() == 0 {
        fail_model(seq![ErrorModel::EmptyInput])
    } else {
        let cs = clauses_of(input);
        if cs.len() == 0 {
            fail_model(seq![ErrorModel::NoClauses])
        } else if norm_error(cs) is Some {
            fail_model(seq![norm_error(cs)->Some_0])
        } else if zt_errors_from(cs, 0).len() > 0 {
            fail_model(zt_errors_from(cs, 0))
        } else if icae_errors_from(cs, 0).len() > 0 {
            fail_model(icae_errors_from(cs, 0))
        } else {
            pass_model(cs)
        }
    }
}

impl CompilationResult {
    /// Whether compilation succeeded.
    pub fn is_success(&self) -> (r: bool)
        ensures
            r == (self.verdict == CompilationStatus::Pass),
    {
        self.verdict == CompilationStatus::Pass
    }

    /// The errors rendered as human-readable messages, in order.
    pub fn error_messages(&self) -> (r: Vec<String>)
        ensures
            r.deep_view() == self@.errors.map_values(|e: ErrorModel| err_message(e)),
    {
        let mut r: Vec<String> = Vec::new();
        let mut i: usize = 0;
        while i < self.errors.len()
            invariant
                i <= self.errors@.len(),
                self.errors.deep_view().len() == self.errors@.len(),
                r.deep_view().len() == i,
                forall|j: int|
                    0 <= j < i ==> r.deep_view()[j] == err_message(
                        #[trigger] self.errors.deep_view()[j],
                    ),
            decreases self.errors@.len() - i,
        {
            proof {
                assert(self.errors.deep_view()[i as int] == self.errors@[i as int]@);
            }
            r.push(self.errors[i].message());
            i += 1;
        }
        proof {
            assert(r.deep_view() =~= self@.errors.map_values(|e: ErrorModel| err_message(e)));
        }
        r
    }
}

} // verus!
