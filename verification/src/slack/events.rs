//! Events of the chat platform.

use vstd::prelude::*;

verus! {

/// The challenge that the chat platform sends when it first queries the
/// event endpoint.
#[derive(Debug)]
pub struct Challenge {
    pub token: String,
    pub challenge: String,
    pub event_type: EventType,
}

/// The challenge in its older form, with the type as text.
#[derive(Debug)]
pub struct AuthChallenge {
    pub token: String,
    pub challenge: String,
    pub r_type: String,
}

/// Who an event was authorised for.
#[derive(Debug, Clone, Copy, PartialEq, Eq, Structural)]
pub struct Authorization {
    pub is_bot: bool,
}

/// The kind of a request to the event endpoint.
#[derive(Debug, Clone, Copy, PartialEq, Eq, Structural)]
pub enum EventType {
    EventCallback,
    UrlVerification,
}

/// Where a direct message was written.
#[derive(Debug, Clone, Copy, PartialEq, Eq, Structural)]
pub enum ChannelType {
    AppHome,
    Im,
}

/// A file that came with a message.
#[derive(Debug)]
pub struct File {
    pub id: String,
    pub name: String,
    pub filetype: String,
    pub url_private: String,
    pub url_private_download: String,
}

/// An event: the bot was mentioned in a channel, or got a direct message.
#[derive(Debug)]
pub enum Event {
    AppMention { user: String, text: String, ts: String, channel: String, event_ts: String },
    Message {
        user: String,
        text: String,
        channel_type: ChannelType,
        subtype: Option<String>,
        files: Option<Vec<File>>,
    },
}

/// Whether the event was caused by a bot: the first authorisation tells.
/// Such events are ignored, or the bot would answer itself for ever.
pub fn from_bot(authorizations: &Vec<Authorization>) -> (bot: bool)
    requires
        authorizations@.len() > 0,
    ensures
        bot == authorizations@[0].is_bot,
{
    authorizations[0].is_bot
}

/// A user of the chat platform.
#[derive(Debug)]
pub struct SlackUser {
    pub id: String,
    pub real_name: String,
}

/// The chat platform's answer to a question about a user.
#[derive(Debug)]
pub struct UserResponse {
    pub ok: bool,
    pub user: SlackUser,
}

} // verus!
