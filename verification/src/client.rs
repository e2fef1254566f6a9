//! The remote-API client: the access credential, the long-poll wait value,
//! and the exact request URLs built from them.
//!
//! Issuing the requests is network I/O and lives in the surrounding
//! application; the URL each request uses is computed and verified here,
//! character for character.

use vstd::prelude::*;
use vstd::string::StringExecFns;

use crate::numeral::{dec_str, i64_to_dec, int_dec_str, u64_to_dec};

verus! {

/// The remote bot API client: everything a request needs besides the
/// transport itself.
pub struct Client {
    /// Access token identifying the bot account.
    access_token: String,
    /// Long polling wait value, in seconds, sent with each fetch request:
    /// how long the remote server may hold the connection open before
    /// answering with an empty batch.
    long_polling_timeout: u16,
}

impl Client {
    /// The access token this client was created with.
    pub closed spec fn spec_access_token(&self) -> Seq<char> {
        self.access_token@
    }

    /// The long-poll wait value this client was created with.
    pub closed spec fn spec_timeout(&self) -> u16 {
        self.long_polling_timeout
    }

    /// Base URL of the remote bot API; the access token follows directly.
    pub open spec fn api_base() -> Seq<char> {
        "https://api.telegram.org/bot"@
    }

    /// The URL of one fetch request: base, token, the `getUpdates` method,
    /// the long-poll wait value, and the cursor when one is present.
    pub open spec fn spec_get_updates_url(&self, offset: Option<int>) -> Seq<char> {
        Self::api_base() + self.spec_access_token() + "/getUpdates?timeout="@ + dec_str(
            self.spec_timeout() as nat,
        ) + match offset {
            None => Seq::<char>::empty(),
            Some(o) => "&offset="@ + int_dec_str(o),
        }
    }

    /// The URL of the identity-check request: base, token, the `getMe`
    /// method.
    pub open spec fn spec_get_me_url(&self) -> Seq<char> {
        Self::api_base() + self.spec_access_token() + "/getMe"@
    }

    /// Create a new instance of the remote bot API client.
    pub fn new(access_token: String, long_polling_timeout: u16) -> (c: Client)
        ensures
            c.spec_access_token() == access_token@,
            c.spec_timeout() == long_polling_timeout,
    {
        Client { access_token, long_polling_timeout }
    }

    /// Builds the URL for one fetch request. An absent cursor is omitted
    /// from the query entirely; a present one is sent as the `offset`
    /// parameter.
    pub fn get_updates_url(&self, offset: Option<i64>) -> (url: String)
        ensures
            url@ == self.spec_get_updates_url(
                match offset {
                    None => None,
                    Some(o) => Some(o as int),
                },
            ),
    {
        let mut url = Self::api_base_str().to_owned();
        url.append(self.access_token.as_str());
        url.append("/getUpdates?timeout=");
        let timeout_digits = u64_to_dec(self.long_polling_timeout as u64);
        url.append(timeout_digits.as_str());
        match offset {
            None => (),
            Some(offset_val) => {
                url.append("&offset=");
                let offset_digits = i64_to_dec(offset_val);
                url.append(offset_digits.as_str());
            },
        }
        url
    }

    /// Builds the URL for the identity-check request.
    pub fn get_me_url(&self) -> (url: String)
        ensures
            url@ == self.spec_get_me_url(),
    {
        let mut url = Self::api_base_str().to_owned();
        url.append(self.access_token.as_str());
        url.append("/getMe");
        url
    }

    /// The base URL as a string slice.
    fn api_base_str() -> (r: &'static str)
        ensures
            r@ == Self::api_base(),
    {
        "https://api.telegram.org/bot"
    }
}

} // verus!
