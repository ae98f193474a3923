//! Resolves the active keyboard layout of a desktop session and turns
//! hardware scancodes into the key names that layout defines.
//!
//! This crate holds the decisions: which display protocol to negotiate with,
//! the ordered keymap handshake with a compositor, and the two-tier rule that
//! turns a key's rendering into the string shown to a user.
pub mod errors;
pub mod handshake;
pub mod session;
pub mod text;
pub mod translate;
pub mod windows_names;
pub mod x11;
