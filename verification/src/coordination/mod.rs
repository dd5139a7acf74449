//! Decisions of the application core around one conversion.

pub mod coordinator;
pub mod direction;
pub mod diagnostics;
pub mod laws;
pub mod operation_laws;
