# botrelay

Primitives for Cloudflare Workers that forward content to a Telegram chat or
a Discord channel through a bot, and route replies back to where the content
came from.

## Layout

- `src/` is the verified library. Every function there carries a contract
  that Verus proves.
  - `reply.rs`: the reply context and its storage keys.
  - `multipart.rs`: the `multipart/form-data` encoder, including how header
    parameters are sanitized.
  - `telegram.rs`: Bot API method URLs, the `sendPhoto` form, the response
    envelope, and the webhook update types.
  - `discord.rs`: API URLs, the `Authorization` header, the validation of a
    response's status, hex decoding of the Ed25519 key and signature,
    components, interaction responses, and the helpers over incoming
    interactions.
  - `text.rs` and `error.rs`: integer rendering, string building, and the
    errors the clients report.
- `app/` is the Worker side, which runs the network calls, WebCrypto and
  `serde`. It holds the serializable forms of the library's types.
- `tests/` exercises the library on concrete values.
