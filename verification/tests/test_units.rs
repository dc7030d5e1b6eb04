use poc::{CompilationError, MeasurementUnit, PolicyCompiler, Principal};

#[test]
fn test_principal_from_clause() {
    assert_eq!(Principal::from_clause("by SYSTEM"), Some(Principal::System));
    assert_eq!(Principal::from_clause("by USER"), Some(Principal::User));
    assert_eq!(Principal::from_clause("by SERVICE"), Some(Principal::Service));
    assert_eq!(Principal::from_clause("by nobody"), None);
    // Word boundary test
    assert_eq!(Principal::from_clause("SYSTEMWIDE"), None);
}

#[test]
fn test_measurement_unit_from_clause() {
    assert_eq!(MeasurementUnit::from_clause("1000 USD"), Some(MeasurementUnit::Usd));
    assert_eq!(MeasurementUnit::from_clause("1000 tokens"), Some(MeasurementUnit::Tokens));
    assert_eq!(MeasurementUnit::from_clause("$1000"), None); // Symbol rejected
    assert_eq!(MeasurementUnit::from_clause("1000 widgets"), None);
}

#[test]
fn test_compilation_error_display() {
    let err = CompilationError::EmptyInput;
    assert_eq!(err.message(), "Empty policy input");

    let err = CompilationError::ModalLanguageDetected {
        clause_index: 0,
        clause: "should log".to_string(),
        modal_word: "should".to_string(),
    };
    assert!(err.message().contains("modal language"));
}

#[test]
fn test_truncate_clause_short() {
    let result = PolicyCompiler::truncate_clause("short", 10);
    assert_eq!(result, "short");
}

#[test]
fn test_truncate_clause_exact() {
    let result = PolicyCompiler::truncate_clause("exactly10!", 10);
    assert_eq!(result, "exactly10!");
}

#[test]
fn test_truncate_clause_long() {
    let result = PolicyCompiler::truncate_clause("this is a very long clause", 10);
    assert_eq!(result, "this is a ...");
}
