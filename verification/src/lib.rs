//! Core of an interactive launcher: it turns keystrokes and text input into
//! requests for an external search daemon, and turns the daemon's responses
//! into a navigable, mode-dependent list of result entries.
//!
//! The crate owns input interpretation (mode resolution), selection
//! bookkeeping, the request/response protocol bookkeeping, the execution flow
//! on confirm, and the in-memory view of the history store. Rendering,
//! process spawning and the daemon connection live outside and drive this
//! library through [`controller::Onagre::update`], performing the
//! [`protocol::Effect`]s it hands back.

pub mod cache;
pub mod command;
pub mod controller;
pub mod mode;
pub mod protocol;
pub mod selection;
pub mod strutil;
