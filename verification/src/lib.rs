//! Message routing for a chat bot.
//!
//! A bot owns an ordered registry of listeners. Every inbound line is first
//! checked for an addressing prefix (a mention of the bot or its name), the
//! prefix is removed, and the remaining text is resolved to at most one
//! listener, or to the aggregate help text.
//!
//! Nothing in this crate performs I/O: the functions here decide, and the
//! caller that owns the connection carries the decision out.

pub mod listener;
pub mod pattern;
pub mod slackhandler;
pub mod text;
pub mod yobot;

pub use self::listener::{Message, MessageListener};
pub use self::pattern::{Pattern, PatternError};
pub use self::yobot::{Dispatch, Yobot};
