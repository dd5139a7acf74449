//! Application configuration and its store.

pub mod model;
pub mod store;
pub mod laws;
pub mod startup;

use vstd::prelude::*;

use crate::text::same_text;

verus! {

/// The label of the settings window.
pub const WINDOW_LABEL: &'static str = "settings";

/// Whether closing a window hides it instead: true for the settings window,
/// which lives as long as the application.
pub fn hides_instead_of_closing(label: &str) -> (r: bool)
    ensures
        r == (label@ == WINDOW_LABEL@),
{
    same_text(label, WINDOW_LABEL)
}

} // verus!
