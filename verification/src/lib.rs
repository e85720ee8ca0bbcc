//! # botrelay
//!
//! Reusable primitives for Cloudflare Workers that forward content to
//! Telegram/Discord bots and route replies back.
//!
//! The verified part of the crate holds what the bots compute: the
//! `multipart/form-data` encoder, the request URLs and forms, the decoding
//! of hex-encoded keys, the handling of API envelopes and status codes, and
//! the helpers over incoming webhook payloads. Network access, JSON
//! (de)serialisation and WebCrypto live in the companion crate under `app/`.

pub mod text;
pub mod error;
pub mod telegram;
pub mod discord;
pub mod reply;
pub mod multipart;

pub use reply::ReplyContext;
