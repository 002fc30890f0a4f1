//! The bot: the named operations of the API that it uses.

use crate::api::listener::{Listener, ListenerState};
use crate::api::types::{ToParam, Update, UrlParams};
use crate::api::{prepares, reads, Api, Request};
use crate::config::Config;
use crate::error::Error;
use vstd::prelude::*;

verus! {

/// The parameters of a call of `sendMessage`: the chat and the text always,
/// the two options where they are given, in this order.
pub open spec fn message_params(
    chat_id: i64,
    text: Seq<char>,
    disable_web_page_preview: Option<bool>,
    reply_to_message_id: Option<i64>,
) -> Seq<(Seq<char>, Seq<char>)> {
    let required = seq![("chat_id"@, chat_id.param_text()), ("text"@, text)];
    let previewed = match disable_web_page_preview {
        Some(disable) => required.push(("disable_web_page_preview"@, disable.param_text())),
        None => required,
    };
    match reply_to_message_id {
        Some(id) => previewed.push(("reply_to_message_id"@, id.param_text())),
        None => previewed,
    }
}

/// Whether the echo bot answers an update: it carries a message, and the
/// message a text that is not empty.
pub open spec fn echoed(update: Update) -> bool {
    &&& update.message matches Some(message)
    &&& message.text matches Some(text)
    &&& text@.len() > 0
}

/// A bot at the Telegram API.
pub struct TelegramBotApi {
    pub api: Api,
}

impl Clone for TelegramBotApi {
    fn clone(&self) -> (copy: TelegramBotApi)
        ensures
            copy.api.url@ == self.api.url@,
    {
        TelegramBotApi { api: self.api.clone() }
    }
}

impl TelegramBotApi {
    /// The bot that the settings describe. Where they give a plain text that
    /// is no valid URL, they are refused with `Error::InvalidTokenFormat`;
    /// where they give a text that is not plain, with `Error::InvalidPath`.
    pub fn new(conf: &Config) -> (bot: Result<TelegramBotApi, Error>)
        ensures
            match bot {
                Ok(bot) => reads(conf.endpoint_text(), Ok(bot.api.url)),
                Err(error) => reads(conf.endpoint_text(), Err(error)),
            },
    {
        match conf.get_telegram_bot_endpoint() {
            Ok(url) => Ok(TelegramBotApi { api: Api::new(url) }),
            Err(error) => Err(error),
        }
    }

    /// Prepares the call of `getMe`, which has no parameters.
    pub fn get_me(&self) -> (prepared: Result<Request, Error>)
        ensures
            prepares(&self.api.url, "getMe", Seq::empty(), prepared),
    {
        self.api.send_request("getMe", UrlParams::new())
    }

    /// Prepares the call of `sendMessage`.
    pub fn send_message(
        &self,
        chat_id: i64,
        text: String,
        disable_web_page_preview: Option<bool>,
        reply_to_message_id: Option<i64>,
    ) -> (prepared: Result<Request, Error>)
        ensures
            prepares(
                &self.api.url,
                "sendMessage",
                message_params(chat_id, text@, disable_web_page_preview, reply_to_message_id),
                prepared,
            ),
    {
        let mut params = UrlParams::new();
        params.add_value("chat_id", chat_id);
        params.add_value("text", text);
        params.add_opt_value("disable_web_page_preview", disable_web_page_preview);
        params.add_opt_value("reply_to_message_id", reply_to_message_id);
        assert(params@ =~= message_params(
            chat_id,
            text@,
            disable_web_page_preview,
            reply_to_message_id,
        ));
        self.api.send_request("sendMessage", params)
    }

    /// A listener for the updates of this bot, with nothing acknowledged yet.
    pub fn listener(&self, timeout_value: Option<i64>) -> (listener: Listener)
        ensures
            listener@ == ListenerState::initial(0, timeout_value),
            listener.url()@ == self.api.url@,
    {
        Listener::new(self.api.url.clone(), 0, timeout_value)
    }

    /// The answer of the echo bot to an update: the text of its message sent
    /// back to the chat it came from, as a reply to that message. An update
    /// without a message, or with a message without text, gets no answer.
    pub fn echo(&self, update: Update) -> (answer: Option<Result<Request, Error>>)
        ensures
            match answer {
                Some(prepared) => {
                    &&& echoed(update)
                    &&& prepares(
                        &self.api.url,
                        "sendMessage",
                        message_params(
                            update.message->Some_0.chat.id,
                            update.message->Some_0.text->Some_0@,
                            None,
                            Some(update.message->Some_0.message_id),
                        ),
                        prepared,
                    )
                },
                None => !echoed(update),
            },
    {
        let message = match update.message {
            Some(message) => message,
            None => {
                return None;
            },
        };
        let text = match message.text {
            Some(text) => text,
            None => {
                return None;
            },
        };
        if text.as_str().is_empty() {
            return None;
        }
        Some(self.send_message(message.chat.id, text, None, Some(message.message_id)))
    }
}

} // verus!
