//! The settings of a bot: where the API lives and the token that opens it.

use crate::api::{reads, Endpoint};
use crate::error::Error;
use vstd::prelude::*;
use vstd::string::*;

verus! {

/// The settings of a bot.
pub struct Config {
    /// The token that opens the API.
    pub telegram_token: String,
    /// The base URL of the API.
    pub telegram_endpoint: String,
    /// The long-poll timeout, in seconds.
    pub timeout: u64,
}

impl Config {
    /// The URL under which the bot calls a method named `dummy`, as text:
    /// the base URL, `/bot`, the token, `/dummy`.
    pub open spec fn endpoint_text(&self) -> Seq<char> {
        self.telegram_endpoint@ + "/bot"@ + self.telegram_token@ + "/dummy"@
    }

    /// The settings with the given token, base URL and timeout.
    pub fn new(telegram_token: String, telegram_endpoint: String, timeout: u64) -> (config: Config)
        ensures
            config == (Config { telegram_token, telegram_endpoint, timeout }),
    {
        Config { telegram_token, telegram_endpoint, timeout }
    }

    /// Writes out the URL under which the bot calls a method named `dummy`.
    pub fn get_endpoint_text(&self) -> (text: String)
        ensures
            text@ == self.endpoint_text(),
    {
        let mut text = self.telegram_endpoint.clone();
        text.append("/bot");
        text.append(self.telegram_token.as_str());
        text.append("/dummy");
        text
    }

    /// The URL under which the bot calls the API. Where the base URL and the
    /// token make a plain text that is no valid URL, they are refused with
    /// `Error::InvalidTokenFormat`; where they make a text that is not plain,
    /// with `Error::InvalidPath`.
    pub fn get_telegram_bot_endpoint(&self) -> (url: Result<Endpoint, Error>)
        ensures
            reads(self.endpoint_text(), url),
    {
        Endpoint::parse(self.get_endpoint_text().as_str())
    }
}

} // verus!
