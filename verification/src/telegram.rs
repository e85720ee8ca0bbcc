//! Telegram Bot API client: the part of it that computes.
//!
//! The [Bot API](https://core.telegram.org/bots/api) subset a relay needs:
//! the method URLs, the multipart form of `sendPhoto`, the unwrapping of
//! the response envelope, and the webhook [`Update`] types. Only the fields
//! a relay needs are modeled.

use vstd::prelude::*;
use vstd::string::*;
use vstd::seq_lib::lemma_concat_associative;
use crate::error::RelayError;
use crate::multipart::{file_part, text_part, MultipartBuilder};
use crate::text::{int_decimal, int_to_string, opt_str_view, opt_string_view};

verus! {

/// A Telegram Bot API client, scoped to a single bot token.
#[derive(Clone, Debug)]
pub struct TelegramBot {
    token: String,
}

/// The URL of a Bot API method: `https://api.telegram.org/bot<token>/<method>`.
pub open spec fn spec_method_url(token: Seq<char>, method: Seq<char>) -> Seq<char> {
    "https://api.telegram.org/bot"@ + token + "/"@ + method
}

impl TelegramBot {
    /// The bot token.
    pub closed spec fn spec_token(&self) -> Seq<char> {
        self.token@
    }

    pub fn new(token: String) -> (bot: Self)
        ensures
            bot.spec_token() == token@,
    {
        TelegramBot { token }
    }

    /// The URL of the Bot API method `method` for this bot.
    pub fn method_url(&self, method: &str) -> (url: String)
        ensures
            url@ == spec_method_url(self.spec_token(), method@),
    {
        let mut url = "https://api.telegram.org/bot".to_owned();
        url.append(self.token.as_str());
        url.append("/");
        url.append(method);
        url
    }

    /// The multipart form that `sendPhoto` posts: `chat_id`, then the
    /// optional `caption`, `parse_mode`, `disable_notification` and
    /// `reply_to_message_id` fields, then the `photo` file part.
    pub fn send_photo_form(mp: &mut MultipartBuilder, params: &SendPhoto)
        ensures
            final(mp).spec_boundary() == old(mp).spec_boundary(),
            final(mp).spec_body() == old(mp).spec_body() + photo_form(
                old(mp).spec_boundary(),
                *params,
            ),
    {
        let ghost b = mp.spec_boundary();
        let ghost start = mp.spec_body();
        mp.add_text("chat_id", params.chat_id.as_str());
        let caption: Option<&str> = match &params.caption {
            Some(c) => Some(c.as_str()),
            None => None,
        };
        add_optional_text(mp, "caption", caption);
        let mode: Option<&str> = match params.parse_mode {
            Some(pm) => Some(parse_mode_wire(pm)),
            None => None,
        };
        add_optional_text(mp, "parse_mode", mode);
        let notify: Option<&str> = match params.disable_notification {
            Some(d) => Some(if d { "true" } else { "false" }),
            None => None,
        };
        add_optional_text(mp, "disable_notification", notify);
        let reply_id: Option<String> = match params.reply_to_message_id {
            Some(id) => Some(int_to_string(id)),
            None => None,
        };
        let reply: Option<&str> = match &reply_id {
            Some(r) => Some(r.as_str()),
            None => None,
        };
        add_optional_text(mp, "reply_to_message_id", reply);
        let filename: &str = if params.photo_filename.as_str().is_empty() {
            "photo.png"
        } else {
            params.photo_filename.as_str()
        };
        let content_type: &str = if params.photo_content_type.as_str().is_empty() {
            "image/png"
        } else {
            params.photo_content_type.as_str()
        };
        mp.add_file("photo", filename, content_type, params.photo.as_slice());
        proof {
            let p1 = text_part(b, "chat_id"@, params.chat_id@);
            let p2 = optional_text_part(b, "caption"@, opt_string_view(params.caption));
            let p3 = optional_text_part(
                b,
                "parse_mode"@,
                match params.parse_mode {
                    Some(pm) => Some(spec_parse_mode_wire(pm)),
                    None => None,
                },
            );
            let p4 = optional_text_part(
                b,
                "disable_notification"@,
                match params.disable_notification {
                    Some(d) => Some(
                        if d {
                            "true"@
                        } else {
                            "false"@
                        },
                    ),
                    None => None,
                },
            );
            let p5 = optional_text_part(
                b,
                "reply_to_message_id"@,
                match params.reply_to_message_id {
                    Some(id) => Some(int_decimal(id as int)),
                    None => None,
                },
            );
            let p6 = file_part(
                b,
                "photo"@,
                photo_filename(*params),
                photo_content_type(*params),
                params.photo@,
            );
            assert(photo_form(b, *params) == p1 + p2 + p3 + p4 + p5 + p6);
            lemma_concat_associative(start, p1, p2);
            lemma_concat_associative(start, p1 + p2, p3);
            lemma_concat_associative(start, p1 + p2 + p3, p4);
            lemma_concat_associative(start, p1 + p2 + p3 + p4, p5);
            lemma_concat_associative(start, p1 + p2 + p3 + p4 + p5, p6);
        }
    }
}

/// Appends a text part when `value` is present.
fn add_optional_text(mp: &mut MultipartBuilder, name: &str, value: Option<&str>)
    ensures
        final(mp).spec_boundary() == old(mp).spec_boundary(),
        final(mp).spec_body() == old(mp).spec_body() + optional_text_part(
            old(mp).spec_boundary(),
            name@,
            opt_str_view(value),
        ),
{
    match value {
        Some(v) => mp.add_text(name, v),
        None => {
            assert(mp.spec_body() =~= old(mp).spec_body() + optional_text_part(
                old(mp).spec_boundary(),
                name@,
                opt_str_view(value),
            ));
        },
    }
}

/// The text Telegram expects for a parse mode.
pub open spec fn spec_parse_mode_wire(mode: ParseMode) -> Seq<char> {
    match mode {
        ParseMode::Html => "HTML"@,
        ParseMode::MarkdownV2 => "MarkdownV2"@,
    }
}

/// The text Telegram expects for a parse mode.
pub fn parse_mode_wire(mode: ParseMode) -> (wire: &'static str)
    ensures
        wire@ == spec_parse_mode_wire(mode),
{
    match mode {
        ParseMode::Html => "HTML",
        ParseMode::MarkdownV2 => "MarkdownV2",
    }
}

/// A text part when the field is present, nothing otherwise.
pub open spec fn optional_text_part(
    boundary: Seq<char>,
    name: Seq<char>,
    value: Option<Seq<char>>,
) -> Seq<u8> {
    match value {
        Some(v) => text_part(boundary, name, v),
        None => Seq::empty(),
    }
}

/// The filename of the photo part: the given one, `photo.png` when empty.
pub open spec fn photo_filename(p: SendPhoto) -> Seq<char> {
    if p.photo_filename@.len() == 0 {
        "photo.png"@
    } else {
        p.photo_filename@
    }
}

/// The content type of the photo part: the given one, `image/png` when empty.
pub open spec fn photo_content_type(p: SendPhoto) -> Seq<char> {
    if p.photo_content_type@.len() == 0 {
        "image/png"@
    } else {
        p.photo_content_type@
    }
}

/// The bytes of the `sendPhoto` form (without the closing delimiter).
pub open spec fn photo_form(boundary: Seq<char>, p: SendPhoto) -> Seq<u8> {
    text_part(boundary, "chat_id"@, p.chat_id@) + optional_text_part(
        boundary,
        "caption"@,
        opt_string_view(p.caption),
    ) + optional_text_part(
        boundary,
        "parse_mode"@,
        match p.parse_mode {
            Some(pm) => Some(spec_parse_mode_wire(pm)),
            None => None,
        },
    ) + optional_text_part(
        boundary,
        "disable_notification"@,
        match p.disable_notification {
            Some(d) => Some(
                if d {
                    "true"@
                } else {
                    "false"@
                },
            ),
            None => None,
        },
    ) + optional_text_part(
        boundary,
        "reply_to_message_id"@,
        match p.reply_to_message_id {
            Some(id) => Some(int_decimal(id as int)),
            None => None,
        },
    ) + file_part(boundary, "photo"@, photo_filename(p), photo_content_type(p), p.photo@)
}

/// `seg` occurs in `whole` as a contiguous run of bytes.
pub open spec fn contains_segment(whole: Seq<u8>, seg: Seq<u8>) -> bool {
    exists|k: int|
        0 <= k && k + seg.len() <= whole.len() && #[trigger] whole.subrange(k, k + seg.len())
            == seg
}

proof fn lemma_six_segments(
    p1: Seq<u8>,
    p2: Seq<u8>,
    p3: Seq<u8>,
    p4: Seq<u8>,
    p5: Seq<u8>,
    p6: Seq<u8>,
)
    ensures
        contains_segment(p1 + p2 + p3 + p4 + p5 + p6, p1),
        contains_segment(p1 + p2 + p3 + p4 + p5 + p6, p2),
        contains_segment(p1 + p2 + p3 + p4 + p5 + p6, p3),
        contains_segment(p1 + p2 + p3 + p4 + p5 + p6, p4),
        contains_segment(p1 + p2 + p3 + p4 + p5 + p6, p5),
        contains_segment(p1 + p2 + p3 + p4 + p5 + p6, p6),
{
    let whole = p1 + p2 + p3 + p4 + p5 + p6;
    let segs = seq![p1, p2, p3, p4, p5, p6];
    assert forall|i: int| 0 <= i < 6 implies contains_segment(whole, #[trigger] segs[i]) by {
        let k: int = if i == 0 {
            0
        } else if i == 1 {
            p1.len() as int
        } else if i == 2 {
            (p1 + p2).len() as int
        } else if i == 3 {
            (p1 + p2 + p3).len() as int
        } else if i == 4 {
            (p1 + p2 + p3 + p4).len() as int
        } else {
            (p1 + p2 + p3 + p4 + p5).len() as int
        };
        assert(whole.subrange(k, k + segs[i].len()) =~= segs[i]);
    }
    assert(segs[0] == p1);
    assert(segs[1] == p2);
    assert(segs[2] == p3);
    assert(segs[3] == p4);
    assert(segs[4] == p5);
    assert(segs[5] == p6);
}

/// Whatever else the `sendPhoto` form holds, it holds a `chat_id` part
/// with the chat id, a photo part with the photo bytes under the chosen
/// filename and content type, and, for each optional field that is set, a
/// part carrying it: the caption as given, the parse mode's wire name
/// (`HTML` for `Html`, `MarkdownV2` for `MarkdownV2`), `true` or `false`
/// for `disable_notification`, and the decimal reply id.
pub proof fn lemma_photo_form_carries_fields(boundary: Seq<char>, p: SendPhoto)
    ensures
        contains_segment(photo_form(boundary, p), text_part(boundary, "chat_id"@, p.chat_id@)),
        p.caption matches Some(c) ==> contains_segment(
            photo_form(boundary, p),
            text_part(boundary, "caption"@, c@),
        ),
        p.parse_mode == Some(ParseMode::Html) ==> contains_segment(
            photo_form(boundary, p),
            text_part(boundary, "parse_mode"@, "HTML"@),
        ),
        p.parse_mode == Some(ParseMode::MarkdownV2) ==> contains_segment(
            photo_form(boundary, p),
            text_part(boundary, "parse_mode"@, "MarkdownV2"@),
        ),
        p.disable_notification == Some(true) ==> contains_segment(
            photo_form(boundary, p),
            text_part(boundary, "disable_notification"@, "true"@),
        ),
        p.disable_notification == Some(false) ==> contains_segment(
            photo_form(boundary, p),
            text_part(boundary, "disable_notification"@, "false"@),
        ),
        p.reply_to_message_id matches Some(id) ==> contains_segment(
            photo_form(boundary, p),
            text_part(boundary, "reply_to_message_id"@, int_decimal(id as int)),
        ),
        contains_segment(
            photo_form(boundary, p),
            file_part(
                boundary,
                "photo"@,
                if p.photo_filename@.len() == 0 {
                    "photo.png"@
                } else {
                    p.photo_filename@
                },
                if p.photo_content_type@.len() == 0 {
                    "image/png"@
                } else {
                    p.photo_content_type@
                },
                p.photo@,
            ),
        ),
{
    let b = boundary;
    let p1 = text_part(b, "chat_id"@, p.chat_id@);
    let p2 = optional_text_part(b, "caption"@, opt_string_view(p.caption));
    let p3 = optional_text_part(
        b,
        "parse_mode"@,
        match p.parse_mode {
            Some(pm) => Some(spec_parse_mode_wire(pm)),
            None => None,
        },
    );
    let p4 = optional_text_part(
        b,
        "disable_notification"@,
        match p.disable_notification {
            Some(d) => Some(
                if d {
                    "true"@
                } else {
                    "false"@
                },
            ),
            None => None,
        },
    );
    let p5 = optional_text_part(
        b,
        "reply_to_message_id"@,
        match p.reply_to_message_id {
            Some(id) => Some(int_decimal(id as int)),
            None => None,
        },
    );
    let p6 = file_part(b, "photo"@, photo_filename(p), photo_content_type(p), p.photo@);
    assert(photo_form(b, p) == p1 + p2 + p3 + p4 + p5 + p6);
    lemma_six_segments(p1, p2, p3, p4, p5, p6);
}

/// Parameters for `sendMessage`. Fill `chat_id` and `text` at minimum.
#[derive(Clone, Debug)]
pub struct SendMessage {
    pub chat_id: String,
    pub text: String,
    pub parse_mode: Option<ParseMode>,
    /// Sent as `disable_web_page_preview`.
    pub disable_preview: Option<bool>,
    pub reply_to_message_id: Option<i64>,
}

impl Default for SendMessage {
    fn default() -> (m: Self)
        ensures
            m.chat_id@ == Seq::<char>::empty(),
            m.text@ == Seq::<char>::empty(),
            m.parse_mode is None,
            m.disable_preview is None,
            m.reply_to_message_id is None,
    {
        SendMessage {
            chat_id: String::new(),
            text: String::new(),
            parse_mode: None,
            disable_preview: None,
            reply_to_message_id: None,
        }
    }
}

/// How Telegram should format a message's text.
#[derive(Clone, Copy, Debug, PartialEq, Eq, Structural)]
pub enum ParseMode {
    Html,
    MarkdownV2,
}

/// Parameters for `sendPhoto`. `photo` is the raw image bytes; everything
/// else is optional. `photo_filename` and `photo_content_type` populate the
/// multipart file part (defaults: `photo.png`, `image/png`).
#[derive(Clone, Debug)]
pub struct SendPhoto {
    pub chat_id: String,
    pub photo: Vec<u8>,
    pub photo_filename: String,
    pub photo_content_type: String,
    pub caption: Option<String>,
    pub parse_mode: Option<ParseMode>,
    pub disable_notification: Option<bool>,
    pub reply_to_message_id: Option<i64>,
}

impl Default for SendPhoto {
    fn default() -> (p: Self)
        ensures
            p.chat_id@ == Seq::<char>::empty(),
            p.photo@ == Seq::<u8>::empty(),
            p.photo_filename@ == Seq::<char>::empty(),
            p.photo_content_type@ == Seq::<char>::empty(),
            p.caption is None,
            p.parse_mode is None,
            p.disable_notification is None,
            p.reply_to_message_id is None,
    {
        SendPhoto {
            chat_id: String::new(),
            photo: Vec::new(),
            photo_filename: String::new(),
            photo_content_type: String::new(),
            caption: None,
            parse_mode: None,
            disable_notification: None,
            reply_to_message_id: None,
        }
    }
}

/// Envelope around every Bot API response; [`extract_ok`] unwraps `result`.
#[derive(Clone, Debug)]
pub struct ApiEnvelope<T> {
    pub ok: bool,
    pub description: Option<String>,
    pub result: Option<T>,
}

/// Unwrap a Bot API response: its `result` when `ok`, the API's error
/// description otherwise.
pub fn extract_ok<T>(env: ApiEnvelope<T>) -> (res: Result<T, RelayError>)
    ensures
        !env.ok ==> (res matches Err(RelayError::TelegramApi(d)) && d@ == match env.description {
            Some(text) => text@,
            None => "unknown"@,
        }),
        env.ok && env.result is None ==> res matches Err(RelayError::TelegramMissingResult),
        env.ok && env.result is Some ==> res == Ok::<T, RelayError>(env.result->0),
{
    if !env.ok {
        let description = match env.description {
            Some(d) => d,
            None => "unknown".to_owned(),
        };
        return Err(RelayError::TelegramApi(description));
    }
    match env.result {
        Some(v) => Ok(v),
        None => Err(RelayError::TelegramMissingResult),
    }
}

// ----- Update / Message types -----

/// A single incoming update (webhook body).
#[derive(Debug)]
pub struct Update {
    pub update_id: i64,
    pub message: Option<Message>,
    pub edited_message: Option<Message>,
}

impl Update {
    /// Return the primary message, whether new or edited.
    pub fn any_message(&self) -> (m: Option<&Message>)
        ensures
            self.message is Some ==> m == Some(&self.message->0),
            self.message is None && self.edited_message is Some ==> m == Some(
                &self.edited_message->0,
            ),
            self.message is None && self.edited_message is None ==> m is None,
    {
        match &self.message {
            Some(msg) => Some(msg),
            None => self.edited_message.as_ref(),
        }
    }
}

/// A Telegram message. `reply_to_message` is what replies are keyed on.
#[derive(Debug)]
pub struct Message {
    pub message_id: i64,
    pub chat: Chat,
    pub text: Option<String>,
    pub reply_to_message: Option<Box<Message>>,
    pub from: Option<User>,
}

#[derive(Clone, Debug)]
pub struct Chat {
    pub id: i64,
    /// Sent as `type`.
    pub chat_type: String,
    pub title: Option<String>,
    pub username: Option<String>,
}

#[derive(Clone, Debug)]
pub struct User {
    pub id: i64,
    pub username: Option<String>,
    pub first_name: Option<String>,
}

} // verus!
