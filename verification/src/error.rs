//! Errors reported by the bot clients.

use vstd::prelude::*;
use vstd::string::*;
use crate::text::{nat_decimal, push_decimal};

verus! {

/// What went wrong while talking to a bot API or decoding what it sent.
#[derive(Debug, Clone)]
pub enum RelayError {
    /// The Telegram Bot API answered `ok: false`; holds its description
    /// (`unknown` when it gave none).
    TelegramApi(String),
    /// The Telegram Bot API answered `ok: true` without a `result`.
    TelegramMissingResult,
    /// The Discord API answered with an HTTP error status; holds the status
    /// code and the response text.
    DiscordApi(u16, String),
    /// A hex string had an odd number of bytes.
    HexOddLength,
    /// A hex string held a pair of bytes that is not a hexadecimal number.
    HexInvalid,
}

/// The text of an error, as the clients report it.
pub open spec fn spec_error_message(e: RelayError) -> Seq<char> {
    match e {
        RelayError::TelegramApi(d) => "telegram API error: "@ + d@,
        RelayError::TelegramMissingResult => "telegram API: missing result"@,
        RelayError::DiscordApi(status, text) => "discord API "@ + nat_decimal(status as nat)
            + ": "@ + text@,
        RelayError::HexOddLength => "hex: odd length"@,
        RelayError::HexInvalid => "hex: invalid"@,
    }
}

impl RelayError {
    /// The text of the error.
    pub fn to_string(&self) -> (msg: String)
        ensures
            msg@ == spec_error_message(*self),
    {
        match self {
            RelayError::TelegramApi(d) => {
                let mut msg = "telegram API error: ".to_owned();
                msg.append(d.as_str());
                msg
            },
            RelayError::TelegramMissingResult => "telegram API: missing result".to_owned(),
            RelayError::DiscordApi(status, text) => {
                let mut msg = "discord API ".to_owned();
                push_decimal(&mut msg, *status as u64);
                msg.append(": ");
                msg.append(text.as_str());
                assert(msg@ =~= spec_error_message(*self));
                msg
            },
            RelayError::HexOddLength => "hex: odd length".to_owned(),
            RelayError::HexInvalid => "hex: invalid".to_owned(),
        }
    }
}

} // verus!
