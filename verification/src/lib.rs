//! An interactive picker for remote-access targets.
//!
//! The library holds everything the picker decides: the selection model
//! ([`select`]), the meaning of keys ([`keys`]), the description of the
//! screen ([`ui`], [`theme`], [`layout`]), the session as a state machine
//! ([`session`]), the rules around the editor ([`edit`]), the settings and
//! the configuration snapshot ([`settings`]), and how failures read
//! ([`error`]). Files, processes and the terminal are left to the caller,
//! which performs what the state machines ask for and hands back what
//! happened.
pub mod config;
pub mod edit;
pub mod error;
pub mod keys;
pub mod layout;
pub mod sample;
pub mod script;
pub mod select;
pub mod session;
pub mod settings;
pub mod text;
pub mod theme;
pub mod ui;
pub mod utils;
