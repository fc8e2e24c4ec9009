//! Slash commands of the chat platform.

use vstd::prelude::*;

verus! {

/// A slash command as the chat platform sends it.
#[derive(Debug)]
pub struct SlashRequest {
    pub token: String,
    pub team_id: String,
    pub team_domain: String,
    pub channel_id: String,
    pub channel_name: String,
    pub user_id: String,
    pub user_name: String,
    pub command: String,
    pub text: String,
    pub api_app_id: String,
    pub response_url: String,
    pub trigger_id: String,
    pub is_enterprise_install: bool,
    pub enterprise_id: Option<String>,
    pub enterprise_name: Option<String>,
}

/// Who gets to see the answer to a slash command.
#[derive(Debug, Clone, Copy, PartialEq, Eq, Structural)]
pub enum ResponseType {
    Ephemeral,
    InChannel,
}

/// The answer to a slash command.
#[derive(Debug, PartialEq, Eq)]
pub struct SlashResponse {
    pub text: String,
    pub response_type: Option<ResponseType>,
}

impl SlashResponse {
    pub fn new(text: String, response_type: Option<ResponseType>) -> (response: SlashResponse)
        ensures
            response == (SlashResponse { text, response_type }),
    {
        SlashResponse { text, response_type }
    }
}

} // verus!
