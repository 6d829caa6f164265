use vstd::prelude::*;

pub mod text;
pub mod ids;
pub mod command;
pub mod redaction;
pub mod execution_detail;
pub mod render_diagnostic;
pub mod status;
pub mod execution_report;
pub mod readiness;
pub mod backoff;
pub mod parse;
pub mod operasjon;
pub mod validation;
pub mod decomposition;
pub mod execution;
pub mod archive_steps;
pub mod ingest;
pub mod registration;
pub mod operation_steps;

verus! {
} // verus!
