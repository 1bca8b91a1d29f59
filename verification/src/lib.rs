//! Sunny: the decision logic of a Discord music bot, with its specifications
//! and proofs.
//!
//! The library holds what the bot computes: which URLs it accepts and how it
//! reads them, how it pages through a YouTube playlist, how it reorders the
//! play queue, and what it answers when a command is refused. The program
//! around it (the Discord client, the voice driver, the HTTP calls) hands the
//! library plain values and acts on what comes back.

pub mod text;
pub mod youtube;
pub mod spotify;
pub mod json;
pub mod effects;
pub mod errors;
pub mod commands;
pub mod helper_functions;
pub mod hooks;
pub mod play_helper;
