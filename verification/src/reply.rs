//! Reply-routing context.
//!
//! When a Worker forwards content to a chat, it typically needs to remember
//! *who/where* it came from so a reply in the chat can be sent back. This
//! module defines a small struct for that; the consumer is responsible for
//! its own storage (KV, D1, etc).

use vstd::prelude::*;
use vstd::string::*;
use crate::text::{int_decimal, lemma_int_decimal_injective, lemma_int_decimal_no_colon, push_char, push_int};

verus! {

/// Context stored per forwarded message. The consumer decides the key
/// (e.g. `tg:<chat_id>:<message_id>` for Telegram) and TTL.
#[derive(Clone, Debug)]
pub struct ReplyContext {
    /// Address the original content was received on (e.g. the alias
    /// `shop.swizzles@kedi.dev`).
    pub alias: String,
    /// The original external sender to route a reply back to.
    pub original_sender: String,
    /// Subject line (or short label), useful when a reply is composed in
    /// a chat modal and you want to echo the original context.
    pub subject: String,
}

/// The key under which a Telegram context is stored:
/// `tg:<chat_id>:<message_id>`.
pub open spec fn spec_telegram_key(chat_id: Seq<char>, message_id: int) -> Seq<char> {
    "tg:"@ + chat_id + seq![':'] + int_decimal(message_id)
}

/// The key under which a Discord context is stored:
/// `dc:<channel_id>:<message_id>`.
pub open spec fn spec_discord_key(channel_id: Seq<char>, message_id: Seq<char>) -> Seq<char> {
    "dc:"@ + channel_id + seq![':'] + message_id
}

impl ReplyContext {
    /// Suggested KV key for Telegram contexts: `tg:<chat_id>:<message_id>`.
    pub fn telegram_key(chat_id: &str, message_id: i64) -> (key: String)
        ensures
            key@ == spec_telegram_key(chat_id@, message_id as int),
    {
        let mut key = "tg:".to_owned();
        key.append(chat_id);
        push_char(&mut key, ':');
        push_int(&mut key, message_id);
        assert(key@ =~= spec_telegram_key(chat_id@, message_id as int));
        key
    }

    /// Suggested KV key for Discord contexts: `dc:<channel_id>:<message_id>`.
    pub fn discord_key(channel_id: &str, message_id: &str) -> (key: String)
        ensures
            key@ == spec_discord_key(channel_id@, message_id@),
    {
        let mut key = "dc:".to_owned();
        key.append(channel_id);
        push_char(&mut key, ':');
        key.append(message_id);
        assert(key@ =~= spec_discord_key(channel_id@, message_id@));
        key
    }
}

/// A Telegram key names one context only: distinct (chat, message) pairs
/// get distinct keys, because the message id, rendered in decimal, holds no
/// `:` and so the last `:` of a key separates the two.
pub proof fn lemma_telegram_key_injective(chat1: Seq<char>, msg1: int, chat2: Seq<char>, msg2: int)
    ensures
        spec_telegram_key(chat1, msg1) == spec_telegram_key(chat2, msg2) ==> chat1 == chat2
            && msg1 == msg2,
{
    let k1 = spec_telegram_key(chat1, msg1);
    let k2 = spec_telegram_key(chat2, msg2);
    if k1 == k2 {
        let d1 = int_decimal(msg1);
        let d2 = int_decimal(msg2);
        let p1 = "tg:"@ + chat1 + seq![':'];
        let p2 = "tg:"@ + chat2 + seq![':'];
        lemma_int_decimal_no_colon(msg1);
        lemma_int_decimal_no_colon(msg2);
        assert(k1 == p1 + d1);
        assert(k2 == p2 + d2);
        if d1.len() < d2.len() {
            let pos = k1.len() - d1.len() - 1;
            assert(k1[pos] == p1[p1.len() - 1]);
            assert(k2[pos] == d2[pos - p2.len()]);
            assert(false);
        } else if d2.len() < d1.len() {
            let pos = k2.len() - d2.len() - 1;
            assert(k2[pos] == p2[p2.len() - 1]);
            assert(k1[pos] == d1[pos - p1.len()]);
            assert(false);
        }
        assert(d1 =~= k1.subrange(p1.len() as int, k1.len() as int));
        assert(d2 =~= k2.subrange(p2.len() as int, k2.len() as int));
        lemma_int_decimal_injective(msg1, msg2);
        assert(chat1 =~= k1.subrange("tg:"@.len() as int, p1.len() - 1));
        assert(chat2 =~= k2.subrange("tg:"@.len() as int, p2.len() - 1));
    }
}

/// Telegram and Discord keys live in separate namespaces: no Telegram key
/// is ever a Discord key.
pub proof fn lemma_key_namespaces_disjoint(
    chat_id: Seq<char>,
    tg_message_id: int,
    channel_id: Seq<char>,
    dc_message_id: Seq<char>,
)
    ensures
        spec_telegram_key(chat_id, tg_message_id) != spec_discord_key(channel_id, dc_message_id),
{
    reveal_strlit("tg:");
    reveal_strlit("dc:");
    assert(spec_telegram_key(chat_id, tg_message_id)[0] == 't');
    assert(spec_discord_key(channel_id, dc_message_id)[0] == 'd');
}

/// Discord keys name one context each as long as channel ids hold no `:`
/// (Discord's channel ids are numeric): the first `:` after the prefix
/// then separates channel and message.
pub proof fn lemma_discord_key_injective(
    channel1: Seq<char>,
    msg1: Seq<char>,
    channel2: Seq<char>,
    msg2: Seq<char>,
)
    requires
        !channel1.contains(':'),
        !channel2.contains(':'),
    ensures
        spec_discord_key(channel1, msg1) == spec_discord_key(channel2, msg2) ==> channel1
            == channel2 && msg1 == msg2,
{
    let k1 = spec_discord_key(channel1, msg1);
    let k2 = spec_discord_key(channel2, msg2);
    if k1 == k2 {
        let pre = "dc:"@;
        let n: int = pre.len() as int;
        let l1: int = channel1.len() as int;
        let l2: int = channel2.len() as int;
        if channel1.len() < channel2.len() {
            let pos = n + l1;
            assert(k1[pos] == ':');
            assert(k2[pos] == channel2[l1]);
            assert(channel2.contains(':'));
        } else if channel2.len() < channel1.len() {
            let pos = n + l2;
            assert(k2[pos] == ':');
            assert(k1[pos] == channel1[l2]);
            assert(channel1.contains(':'));
        }
        assert(channel1 =~= k1.subrange(n, n + l1));
        assert(channel2 =~= k2.subrange(n, n + l2));
        assert(msg1 =~= k1.subrange(n + l1 + 1, k1.len() as int));
        assert(msg2 =~= k2.subrange(n + l2 + 1, k2.len() as int));
    }
}

} // verus!
