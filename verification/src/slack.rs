//! What is exchanged with the chat platform, and what the bot makes of it.

pub mod app_mentions;
pub mod events;
pub mod message;
pub mod slash;

pub use crate::slack::app_mentions::{AppMention, Command, Posts, Response};
pub use crate::slack::events::{SlackUser, UserResponse};
pub use crate::slack::message::{FileKind, Message};
