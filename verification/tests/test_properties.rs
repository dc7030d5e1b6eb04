use poc::{CompilationError, CompilationStatus, MeasurementUnit, PolicyCompiler, Principal};

// Exact rendered messages, including the clause index and the offending
// token.

#[test]
fn test_modal_error_message_exact() {
    let compiler = PolicyCompiler::new();
    let result = compiler.compile("Logging must happen by SYSTEM. Actions may be logged by SYSTEM.");
    assert_eq!(result.verdict, CompilationStatus::Fail);
    let messages = result.error_messages();
    assert_eq!(messages.len(), 1);
    assert_eq!(
        messages[0],
        "Clause 1 contains modal language 'may': 'Actions may be logged by SYSTEM'"
    );
}

#[test]
fn test_missing_principal_message_exact() {
    let compiler = PolicyCompiler::new();
    let result = compiler.compile("All actions must be logged.");
    let messages = result.error_messages();
    assert_eq!(messages.len(), 1);
    assert_eq!(
        messages[0],
        "Clause 0 missing explicit principal: 'All actions must be logged'"
    );
}

#[test]
fn test_structural_error_messages_exact() {
    let compiler = PolicyCompiler::new();
    assert_eq!(compiler.compile("").error_messages()[0], "Empty policy input");
    assert_eq!(compiler.compile(". . .").error_messages()[0], "No valid clauses found");
}

#[test]
fn test_normalization_and_internal_error_messages() {
    // These two variants are carried for integrators; no policy text
    // produces them through compile.
    let err = CompilationError::IntentNormalizationFailed { reason: "no clauses".to_string() };
    assert_eq!(err.message(), "Intent normalization failed: no clauses");
    let err = CompilationError::InternalError { context: "stage order".to_string() };
    assert_eq!(err.message(), "Internal error: stage order");
}

#[test]
fn test_failures_mirror_error_messages() {
    let compiler = PolicyCompiler::new();
    let result = compiler.compile("All actions must be logged.");
    assert_eq!(result.failures, result.error_messages());
}

// Error aggregation: the authority and cost stages report every violation
// of the stage at once, in clause order.

#[test]
fn test_authority_errors_aggregate() {
    let compiler = PolicyCompiler::new();
    let result = compiler.compile("Actions must be logged. Access must be denied. Files must be audited by SYSTEM.");
    assert_eq!(result.verdict, CompilationStatus::Fail);
    assert_eq!(result.errors.len(), 2);
    assert!(matches!(
        &result.errors[0],
        CompilationError::MissingPrincipal { clause_index: 0, .. }
    ));
    assert!(matches!(
        &result.errors[1],
        CompilationError::MissingPrincipal { clause_index: 1, .. }
    ));
}

#[test]
fn test_cost_errors_aggregate() {
    let compiler = PolicyCompiler::new();
    let result = compiler.compile(
        "Cost must be for the by SYSTEM. Spend of operations must be limited by USER.",
    );
    assert_eq!(result.verdict, CompilationStatus::Fail);
    assert_eq!(result.errors.len(), 2);
    assert!(matches!(
        &result.errors[0],
        CompilationError::MissingCostSubject { clause_index: 0, .. }
    ));
    assert!(matches!(
        &result.errors[1],
        CompilationError::MissingMeasurementUnit { clause_index: 1, .. }
    ));
}

// All-or-nothing: a failing compilation discards everything the earlier
// stages produced.

#[test]
fn test_failure_discards_partial_artifacts() {
    let compiler = PolicyCompiler::new();
    // The first clause is fine; the second has no principal, which fails
    // the authority stage after DIO compilation already ran.
    let result = compiler.compile("All actions must be logged by SYSTEM. Access must be denied.");
    assert_eq!(result.verdict, CompilationStatus::Fail);
    assert!(result.dio_invariants.is_empty());
    assert!(result.zt_authority_graph.is_empty());
    assert!(result.icae_constraints.is_empty());
    assert!(result.traceability_map.is_empty());
    assert!(result.intent_normalization.clauses.is_empty());
    assert!(result.intent_normalization.assumptions.is_empty());
    assert!(result.intent_normalization.exclusions.is_empty());
}

// Modal detection reports the first offending clause and term.

#[test]
fn test_first_modal_clause_reported() {
    let compiler = PolicyCompiler::new();
    let result = compiler.compile("Actions could be logged by SYSTEM. Files might be audited by USER.");
    assert_eq!(result.errors.len(), 1);
    assert!(matches!(
        &result.errors[0],
        CompilationError::ModalLanguageDetected { clause_index: 0, modal_word, .. }
            if modal_word == "could"
    ));
}

// Unit resolution priority and case-insensitivity.

#[test]
fn test_unit_priority_order() {
    // Both "usd" and "eur" appear; "usd" stands first in the priority order.
    assert_eq!(
        MeasurementUnit::from_clause("pay in EUR or USD"),
        Some(MeasurementUnit::Usd)
    );
}

#[test]
fn test_unit_match_is_case_insensitive() {
    assert_eq!(MeasurementUnit::from_clause("limit to 5 Tokens"), Some(MeasurementUnit::Tokens));
    assert_eq!(MeasurementUnit::from_clause("limit to 5 usd"), Some(MeasurementUnit::Usd));
}

// Principal resolution details: case-insensitivity, boundary stripping,
// first occurrence wins.

#[test]
fn test_principal_case_and_punctuation() {
    assert_eq!(Principal::from_clause("logged by system."), Some(Principal::System));
    assert_eq!(Principal::from_clause("handled by (user)"), Some(Principal::User));
    assert_eq!(Principal::from_clause("by USER then SYSTEM"), Some(Principal::User));
}

#[test]
fn test_principal_names() {
    assert_eq!(Principal::System.as_str(), "SYSTEM");
    assert_eq!(Principal::User.as_str(), "USER");
    assert_eq!(Principal::Service.as_str(), "SERVICE");
    assert_eq!(MeasurementUnit::Usd.as_str(), "USD");
    assert_eq!(MeasurementUnit::Tokens.as_str(), "tokens");
}

// Clause segmentation details.

#[test]
fn test_parse_clauses_trims_and_drops_empty() {
    let clauses = PolicyCompiler::parse_clauses("  First must log .. Second must audit .  ");
    assert_eq!(clauses.len(), 2);
    assert_eq!(clauses[0], "First must log");
    assert_eq!(clauses[1], "Second must audit");
}

// Subject extraction details.

#[test]
fn test_extract_subject_skips_stop_words() {
    assert_eq!(
        PolicyCompiler::extract_subject("Cost of logging cannot exceed limits"),
        Some("logging".to_string())
    );
    assert_eq!(PolicyCompiler::extract_subject("cost must be by user"), None);
}

// Truncation on character boundaries: multi-byte characters are never
// split.

#[test]
fn test_truncation_on_character_boundaries() {
    let wide = "é".repeat(60);
    let truncated = PolicyCompiler::truncate_clause(&wide, 50);
    assert_eq!(truncated.chars().count(), 53);
    assert!(truncated.ends_with("..."));
    let policy = format!("All {} must be logged by SYSTEM.", wide);
    let compiler = PolicyCompiler::new();
    let result = compiler.compile(&policy);
    assert_eq!(result.verdict, CompilationStatus::Pass);
    assert!(result.dio_invariants[0].description.ends_with("..."));
}

// The DIO description carries the exact prefix and truncated clause text.

#[test]
fn test_dio_description_exact() {
    let compiler = PolicyCompiler::new();
    let result = compiler.compile("Log by SYSTEM.");
    assert_eq!(result.dio_invariants[0].description, "Enforce policy clause: Log by SYSTEM");
    assert_eq!(result.dio_invariants[0].failure_signal, "VIOLATION_DIO_0");
}

// The authority record carries the synthesized rule strings.

#[test]
fn test_authority_rule_strings_exact() {
    let compiler = PolicyCompiler::new();
    let result = compiler.compile("Log by SYSTEM.");
    let auth = &result.zt_authority_graph[0];
    assert_eq!(auth.scope, "scope_0");
    assert_eq!(auth.delegation_rules.len(), 1);
    assert_eq!(
        auth.delegation_rules[0],
        "Delegation requires explicit SYSTEM approval for: Log by SYSTEM"
    );
    assert_eq!(auth.revocation_triggers.len(), 1);
    assert_eq!(
        auth.revocation_triggers[0],
        "Revoke on policy change affecting: Log by SYSTEM"
    );
}

// The cost constraint carries subject, unit, no ceiling, and the
// externality note.

#[test]
fn test_cost_constraint_fields_exact() {
    let compiler = PolicyCompiler::new();
    let result = compiler.compile("Cost of logging must stay under 10 USD by SERVICE.");
    assert_eq!(result.verdict, CompilationStatus::Pass);
    let cost = &result.icae_constraints[0];
    assert_eq!(cost.id, "icae_0");
    assert_eq!(cost.subject, "logging");
    assert_eq!(cost.measurement_unit, MeasurementUnit::Usd);
    assert!(cost.ceiling.is_none());
    assert_eq!(cost.externalities.len(), 1);
    assert!(cost.externalities[0].starts_with("External cost from: "));
}

// Traceability cost ids are present exactly for cost clauses.

#[test]
fn test_traceability_cost_ids() {
    let compiler = PolicyCompiler::new();
    let result = compiler.compile(
        "All actions must be logged by SYSTEM. Cost of logging must stay under 10 USD by SERVICE.",
    );
    assert_eq!(result.verdict, CompilationStatus::Pass);
    assert!(result.traceability_map[0].cost_ids.is_empty());
    assert_eq!(result.traceability_map[1].cost_ids, vec!["icae_1".to_string()]);
}

// The aggregate-then-fail stages still emit their per-clause artifacts when
// other clauses err: one authority per resolving clause, one constraint per
// fully resolved cost clause, in clause order.

#[test]
fn test_authority_stage_emits_for_resolving_clauses() {
    let clauses = vec![
        "Log by SYSTEM".to_string(),
        "Log actions".to_string(),
        "Audit by USER".to_string(),
    ];
    let (authorities, errors) = PolicyCompiler::compile_zt_authority(&clauses);
    assert_eq!(errors.len(), 1);
    assert!(matches!(
        &errors[0],
        CompilationError::MissingPrincipal { clause_index: 1, .. }
    ));
    assert_eq!(authorities.len(), 2);
    assert_eq!(authorities[0].id, "zt_auth_0");
    assert_eq!(authorities[0].principal, Principal::System);
    assert_eq!(authorities[1].id, "zt_auth_2");
    assert_eq!(authorities[1].clause_index, 2);
    assert_eq!(authorities[1].principal, Principal::User);
}

#[test]
fn test_cost_stage_emits_despite_other_errors() {
    let clauses = vec![
        "Cost of logging must stay under 10 USD".to_string(),
        "Cost must be for the".to_string(),
        "Spend of operations must be limited".to_string(),
        "Usage must be 9 bytes for parsing".to_string(),
    ];
    let (constraints, errors) = PolicyCompiler::compile_icae_constraints(&clauses);
    assert_eq!(errors.len(), 2);
    assert!(matches!(
        &errors[0],
        CompilationError::MissingCostSubject { clause_index: 1, .. }
    ));
    assert!(matches!(
        &errors[1],
        CompilationError::MissingMeasurementUnit { clause_index: 2, .. }
    ));
    assert_eq!(constraints.len(), 2);
    assert_eq!(constraints[0].id, "icae_0");
    assert_eq!(constraints[0].subject, "logging");
    assert_eq!(constraints[1].id, "icae_3");
    assert_eq!(constraints[1].clause_index, 3);
    assert_eq!(constraints[1].measurement_unit, MeasurementUnit::Bytes);
}
