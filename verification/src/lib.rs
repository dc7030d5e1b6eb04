//! Policy-to-outcome compiler: turns short natural-language policy statements
//! into structured, traceable governance artifacts, accepting only
//! unambiguous, well-formed statements.

pub mod artifacts;
pub mod classify;
pub mod compiler;
pub mod errors;
pub mod keywords;
pub mod laws;
pub mod normalize;
pub mod result;
pub mod scan;
pub mod text;

pub use artifacts::{DIOInvariant, ICAECostConstraint, TraceabilityEntry, ZTAuthority};
pub use classify::{MeasurementUnit, Principal};
pub use compiler::PolicyCompiler;
pub use errors::{CompilationError, CompilationStatus};
pub use normalize::IntentNormalization;
pub use result::CompilationResult;

