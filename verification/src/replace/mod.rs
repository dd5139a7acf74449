//! Replacement of the active selection.

pub mod line_endings;
pub mod result;
pub mod line_ending_laws;
pub mod policy;
