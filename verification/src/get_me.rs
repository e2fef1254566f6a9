//! Data carried by one response of the remote `getMe` identity check,
//! made once at startup before polling begins.

use vstd::prelude::*;

verus! {

/// Root document of one `getMe` response.
pub struct Response {
    /// Success flag reported by the remote server.
    pub ok: bool,
    /// Error code, present when the remote server reports a failure.
    pub error_code: Option<i16>,
    /// Human-readable description of a reported failure.
    pub description: Option<String>,
    /// The bot account's identity, present on success.
    pub result: Option<BotProfile>,
}

/// Identity and capability metadata of the bot account.
pub struct BotProfile {
    pub id: i64,
    pub is_bot: bool,
    pub first_name: String,
    pub username: String,
    pub can_join_groups: bool,
    pub can_read_all_group_messages: bool,
    pub supports_inline_queries: bool,
}

} // verus!
