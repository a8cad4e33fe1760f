//! Core of a slash-command chat bot with per-guild voice playback.
//!
//! The verified core covers the two places where wrong sequencing or
//! concurrent access produces user-visible bugs:
//!
//! * the interaction-response protocol ([`responder`]): every inbound command
//!   gets exactly one terminal reply, and a deferred acknowledgment is always
//!   followed by an edit, never a second create;
//! * the per-guild voice-session manager ([`session`]): at most one session
//!   per guild, join-or-get-existing semantics, and explicit failure for
//!   control commands on guilds without a session.
//!
//! Transport (gateway, HTTP, audio) is an external collaborator: the verified
//! functions decide, and return the send/join actions for the caller to
//! perform.

pub mod error;
pub mod interaction;
pub mod message;
pub mod music;
pub mod ping;
pub mod responder;
pub mod session;
