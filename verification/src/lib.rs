//! The commands of a voice-channel moderation daemon.
//!
//! A command is a function from what the daemon remembers, and the call, to what it remembers
//! afterwards and a script: the steps still to take outside of its memory, with what happens when
//! one of them fails. What chance and the clock contribute is drawn by the command and handed to
//! a function that is exact about it; `warn` draws and `warn_at` is handed, for one.

pub mod actions;
pub mod clock;
pub mod commands;
pub mod issue;
pub mod laws;
pub mod levels;
pub mod messages;
pub mod names;
pub mod records;
pub mod script;
pub mod store;
pub mod text;
