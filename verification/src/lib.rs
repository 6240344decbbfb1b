//! Verified core of a chat-moderation bot's destructive-action workflow:
//! a two-phase, human-confirmed bulk message purge, a rate-limit-aware
//! batch deleter, and a debounced deletion queue for a monitored channel.
//!
//! Platform I/O (fetching history, deleting messages, posting replies) is
//! performed by the surrounding application; this crate holds the decisions:
//! which messages qualify, when to stop fetching, when to back off, when a
//! purge may run at all.

pub mod ids;
pub mod strutil;
pub mod timefmt;
pub mod challenge;
pub mod gather;
pub mod deleter;
pub mod debounce;
pub mod coordinator;
pub mod dice;
