//! Fixing text typed in the wrong keyboard layout: the two-set Korean layout
//! and QWERTY, converted both ways, together with the decisions that the
//! background utility makes around one conversion.

pub mod converter;
pub mod text;
pub mod replace;
pub mod coordination;
pub mod target;
pub mod input_language;
pub mod selection;
pub mod input;
pub mod hook;
pub mod clipboard;
pub mod settings;
pub mod tray;
pub mod utf16;
