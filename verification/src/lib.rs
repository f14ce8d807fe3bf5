//! Voice-message cooldown for a chat moderation bot.
//!
//! The crate keeps, for every user who has ever sent a voice message, the time
//! of the last message that advanced their cooldown and whether they have been
//! restricted. Each inbound message is turned into a decision and a list of
//! requests for the chat transport to carry out; nothing here performs I/O.
//!
//! - [`stat`]: the record of one user and the rule that advances it.
//! - [`store`]: all records, and `evaluate`, the one operation that changes them.
//! - [`handler`]: from an inbound message to the requests that answer it.
//! - [`config`]: what must be present before the bot starts.
//! - [`laws`]: what holds of every store, proved.

pub mod config;
pub mod handler;
pub mod laws;
pub mod stat;
pub mod store;

pub use crate::config::{BotConfig, ConfigError};
pub use crate::handler::{handle, reaction, Action, InboundMessage, MessageKind};
pub use crate::stat::{Decision, Timestamp, UserId, UserStat, ALLOWED_VOICE_MESSAGE_DELAY};
pub use crate::store::RateLimitStore;
