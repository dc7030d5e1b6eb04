//! The compilation verdict and the structured errors a compilation can
//! surface, with their mathematical model and rendered messages.

use vstd::prelude::*;

use crate::text::{dec_digits, push_decimal};

verus! {

/// The binary verdict of a compilation.
#[derive(Debug, Clone, Copy, PartialEq, Eq, Structural)]
pub enum CompilationStatus {
    Pass,
    Fail,
}

/// The display name of a verdict.
pub open spec fn status_name(s: CompilationStatus) -> Seq<char> {
    match s {
        CompilationStatus::Pass => "PASS"@,
        CompilationStatus::Fail => "FAIL"@,
    }
}

impl CompilationStatus {
    /// The canonical string of this verdict.
    pub fn as_str(&self) -> (r: &'static str)
        ensures
            r@ == status_name(*self),
    {
        match self {
            CompilationStatus::Pass => "PASS",
            CompilationStatus::Fail => "FAIL",
        }
    }
}

/// Structured compilation errors. Structural errors (`EmptyInput`,
/// `NoClauses`) mean there was nothing to validate; the others name the
/// clause that violates a rule.
#[derive(Debug, Clone, PartialEq, Eq)]
pub enum CompilationError {
    EmptyInput,
    NoClauses,
    IntentNormalizationFailed { reason: String },
    ModalLanguageDetected { clause_index: usize, clause: String, modal_word: String },
    MissingActionVerb { clause_index: usize, clause: String },
    AmbiguousMultiAction { clause_index: usize, clause: String },
    MissingPrincipal { clause_index: usize, clause: String },
    MissingMeasurementUnit { clause_index: usize, clause: String },
    MissingCostSubject { clause_index: usize, clause: String },
    InternalError { context: String },
}

/// The mathematical model of a [`CompilationError`]: the same variants over
/// character sequences and unbounded integers.
#[verifier::ext_equal]
pub ghost enum ErrorModel {
    EmptyInput,
    NoClauses,
    IntentNormalizationFailed { reason: Seq<char> },
    ModalLanguageDetected { clause_index: int, clause: Seq<char>, modal_word: Seq<char> },
    MissingActionVerb { clause_index: int, clause: Seq<char> },
    AmbiguousMultiAction { clause_index: int, clause: Seq<char> },
    MissingPrincipal { clause_index: int, clause: Seq<char> },
    MissingMeasurementUnit { clause_index: int, clause: Seq<char> },
    MissingCostSubject { clause_index: int, clause: Seq<char> },
    InternalError { context: Seq<char> },
}

impl View for CompilationError {
    type V = ErrorModel;

    open spec fn view(&self) -> ErrorModel {
        match self {
            CompilationError::EmptyInput => ErrorModel::EmptyInput,
            CompilationError::NoClauses => ErrorModel::NoClauses,
            CompilationError::IntentNormalizationFailed { reason } => (
            ErrorModel::IntentNormalizationFailed { reason: reason@ }),
            CompilationError::ModalLanguageDetected { clause_index, clause, modal_word } => (
            ErrorModel::ModalLanguageDetected {
                clause_index: *clause_index as int,
                clause: clause@,
                modal_word: modal_word@,
            }),
            CompilationError::MissingActionVerb { clause_index, clause } => (
            ErrorModel::MissingActionVerb {
                clause_index: *clause_index as int,
                clause: clause@,
            }),
            CompilationError::AmbiguousMultiAction { clause_index, clause } => (
            ErrorModel::AmbiguousMultiAction {
                clause_index: *clause_index as int,
                clause: clause@,
            }),
            CompilationError::MissingPrincipal { clause_index, clause } => (
            ErrorModel::MissingPrincipal {
                clause_index: *clause_index as int,
                clause: clause@,
            }),
            CompilationError::MissingMeasurementUnit { clause_index, clause } => (
            ErrorModel::MissingMeasurementUnit {
                clause_index: *clause_index as int,
                clause: clause@,
            }),
            CompilationError::MissingCostSubject { clause_index, clause } => (
            ErrorModel::MissingCostSubject {
                clause_index: *clause_index as int,
                clause: clause@,
            }),
            CompilationError::InternalError { context } => (
            ErrorModel::InternalError { context: context@ }),
        }
    }
}

impl DeepView for CompilationError {
    type V = ErrorModel;

    open spec fn deep_view(&self) -> ErrorModel {
        self.view()
    }
}

/// The human-readable message of an error: it names the offending clause
/// index, the clause text and, where one exists, the offending token.
pub open spec fn err_message(e: ErrorModel) -> Seq<char> {
    match e {
        ErrorModel::EmptyInput => "Empty policy input"@,
        ErrorModel::NoClauses => "No valid clauses found"@,
        ErrorModel::IntentNormalizationFailed { reason } => (
        "Intent normalization failed: "@ + reason),
        ErrorModel::ModalLanguageDetected { clause_index, clause, modal_word } => (
        "Clause "@ + dec_digits(clause_index) + " contains modal language '"@ + modal_word
            + "': '"@ + clause + "'"@),
        ErrorModel::MissingActionVerb { clause_index, clause } => (
        "Clause "@ + dec_digits(clause_index) + " missing action verb: '"@ + clause + "'"@),
        ErrorModel::AmbiguousMultiAction { clause_index, clause } => (
        "Clause "@ + dec_digits(clause_index) + " has ambiguous multi-action without ordering: '"@
            + clause + "'"@),
        ErrorModel::MissingPrincipal { clause_index, clause } => (
        "Clause "@ + dec_digits(clause_index) + " missing explicit principal: '"@ + clause + "'"@),
        ErrorModel::MissingMeasurementUnit { clause_index, clause } => (
        "Clause "@ + dec_digits(clause_index) + " mentions cost but no explicit measurement unit: '"@
            + clause + "'"@),
        ErrorModel::MissingCostSubject { clause_index, clause } => (
        "Clause "@ + dec_digits(clause_index) + " mentions cost but no attribution subject: '"@
            + clause + "'"@),
        ErrorModel::InternalError { context } => "Internal error: "@ + context,
    }
}

impl CompilationError {
    /// Renders this error as its human-readable message.
    pub fn message(&self) -> (r: String)
        ensures
            r@ == err_message(self@),
    {
        match self {
            CompilationError::EmptyInput => String::from_str("Empty policy input"),
            CompilationError::NoClauses => String::from_str("No valid clauses found"),
            CompilationError::IntentNormalizationFailed { reason } => {
                let mut s = String::from_str("Intent normalization failed: ");
                s.append(reason.as_str());
                s
            },
            CompilationError::ModalLanguageDetected { clause_index, clause, modal_word } => {
                let mut s = String::from_str("Clause ");
                push_decimal(&mut s, *clause_index);
                s.append(" contains modal language '");
                s.append(modal_word.as_str());
                s.append("': '");
                s.append(clause.as_str());
                s.append("'");
                s
            },
            CompilationError::MissingActionVerb { clause_index, clause } => {
                let mut s = String::from_str("Clause ");
                push_decimal(&mut s, *clause_index);
                s.append(" missing action verb: '");
                s.append(clause.as_str());
                s.append("'");
                s
            },
            CompilationError::AmbiguousMultiAction { clause_index, clause } => {
                let mut s = String::from_str("Clause ");
                push_decimal(&mut s, *clause_index);
                s.append(" has ambiguous multi-action without ordering: '");
                s.append(clause.as_str());
                s.append("'");
                s
            },
            CompilationError::MissingPrincipal { clause_index, clause } => {
                let mut s = String::from_str("Clause ");
                push_decimal(&mut s, *clause_index);
                s.append(" missing explicit principal: '");
                s.append(clause.as_str());
                s.append("'");
                s
            },
            CompilationError::MissingMeasurementUnit { clause_index, clause } => {
                let mut s = String::from_str("Clause ");
                push_decimal(&mut s, *clause_index);
                s.append(" mentions cost but no explicit measurement unit: '");
                s.append(clause.as_str());
                s.append("'");
                s
            },
            CompilationError::MissingCostSubject { clause_index, clause } => {
                let mut s = String::from_str("Clause ");
                push_decimal(&mut s, *clause_index);
                s.append(" mentions cost but no attribution subject: '");
                s.append(clause.as_str());
                s.append("'");
                s
            },
            CompilationError::InternalError { context } => {
                let mut s = String::from_str("Internal error: ");
                s.append(context.as_str());
                s
            },
        }
    }
}

} // verus!
