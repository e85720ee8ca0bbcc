//! Discord Bot API and Interactions client: the part of it that computes.
//!
//! - the request URLs of `createMessage`, interaction callbacks and
//!   follow-ups, and the `Authorization` header;
//! - the validation of an API response's status;
//! - the decoding of the hex-encoded Ed25519 public key and signature, and
//!   the signed message, ahead of the WebCrypto verification;
//! - message components, interaction responses, and the helpers over an
//!   incoming [`Interaction`].
//!
//! Only the fields a relay needs are modeled.

use vstd::prelude::*;
use vstd::string::*;
use vstd::utf8::{encode_utf8, is_ascii_chars, is_ascii_chars_encode_utf8, is_char_boundary};
use crate::error::RelayError;
use crate::text::{hex_char, opt_str_view, opt_string_view, str_eq};

verus! {

// ----- Hex decoding -----

/// The value of an ASCII hexadecimal digit (either case).
pub open spec fn hex_digit_value(c: u8) -> Option<u8> {
    if 48 <= c <= 57 {
        Some((c - 48) as u8)
    } else if 97 <= c <= 102 {
        Some((c - 87) as u8)
    } else if 65 <= c <= 70 {
        Some((c - 55) as u8)
    } else {
        None
    }
}

/// The byte that a two-character chunk stands for, as
/// `u8::from_str_radix(chunk, 16)` reads it: two hexadecimal digits, or a
/// `+` sign followed by one.
pub open spec fn hex_pair_value(a: u8, c: u8) -> Option<u8> {
    if a == 43 {
        hex_digit_value(c)
    } else {
        match (hex_digit_value(a), hex_digit_value(c)) {
            (Some(hi), Some(lo)) => Some((16 * hi + lo) as u8),
            _ => None,
        }
    }
}

/// The bytes of the chunks of `b` from byte `i` on, or `None` at the first
/// chunk that is not a hexadecimal number.
pub open spec fn hex_pairs_from(b: Seq<u8>, i: int) -> Option<Seq<u8>>
    decreases b.len() - i,
{
    if i < 0 || i + 2 > b.len() {
        Some(Seq::empty())
    } else {
        match hex_pair_value(b[i], b[i + 1]) {
            Some(v) => match hex_pairs_from(b, i + 2) {
                Some(rest) => Some(seq![v] + rest),
                None => None,
            },
            None => None,
        }
    }
}

/// Whether each chunk that decoding reads from byte `i` on (up to and
/// including the first invalid one) starts and ends on a character
/// boundary, so that slicing it out of the string is defined.
pub open spec fn hex_pairs_sliceable_from(b: Seq<u8>, i: int) -> bool
    decreases b.len() - i,
{
    if i < 0 || i + 2 > b.len() {
        true
    } else if hex_pair_value(b[i], b[i + 1]) is Some {
        hex_pairs_sliceable_from(b, i + 2)
    } else {
        is_char_boundary(b, i) && is_char_boundary(b, i + 2)
    }
}

/// The inputs on which hex decoding is defined: those of odd byte length
/// (rejected at once), and those whose chunks can be sliced out.
pub open spec fn hex_decodable(hex: Seq<char>) -> bool {
    let b = encode_utf8(hex);
    b.len() % 2 == 1 || hex_pairs_sliceable_from(b, 0)
}

/// What decoding a hex string gives: an error for an odd number of bytes,
/// an error at the first chunk that is not a hexadecimal number, the
/// decoded bytes otherwise.
pub open spec fn spec_hex_decode(hex: Seq<char>) -> Result<Seq<u8>, RelayError> {
    let b = encode_utf8(hex);
    if b.len() % 2 == 1 {
        Err(RelayError::HexOddLength)
    } else {
        match hex_pairs_from(b, 0) {
            Some(v) => Ok(v),
            None => Err(RelayError::HexInvalid),
        }
    }
}

/// The bytes of a decoding result.
pub open spec fn bytes_result_view(r: Result<Vec<u8>, RelayError>) -> Result<Seq<u8>, RelayError> {
    match r {
        Ok(v) => Ok(v@),
        Err(e) => Err(e),
    }
}

fn hex_digit(c: u8) -> (v: Option<u8>)
    ensures
        v == hex_digit_value(c),
{
    if 48 <= c && c <= 57 {
        Some(c - 48)
    } else if 97 <= c && c <= 102 {
        Some(c - 87)
    } else if 65 <= c && c <= 70 {
        Some(c - 55)
    } else {
        None
    }
}

fn hex_pair(a: u8, c: u8) -> (v: Option<u8>)
    ensures
        v == hex_pair_value(a, c),
{
    if a == 43 {
        hex_digit(c)
    } else {
        match (hex_digit(a), hex_digit(c)) {
            (Some(hi), Some(lo)) => Some(16 * hi + lo),
            _ => None,
        }
    }
}

/// Whether [`hex_decode`] is defined on `hex`; where it is not, slicing
/// the string into two-byte chunks would cut a character apart.
pub fn hex_pairs_on_char_boundaries(hex: &str) -> (ok: bool)
    ensures
        ok == hex_decodable(hex@),
{
    let b = hex.as_bytes();
    let n = b.len();
    if n % 2 == 1 {
        return true;
    }
    let mut i: usize = 0;
    while i < n
        invariant
            b@ == encode_utf8(hex@),
            n == b@.len(),
            n % 2 == 0,
            i % 2 == 0,
            i <= n,
            hex_pairs_sliceable_from(b@, 0) == hex_pairs_sliceable_from(b@, i as int),
        decreases n - i,
    {
        if hex_pair(b[i], b[i + 1]).is_none() {
            return hex.is_char_boundary(i) && hex.is_char_boundary(i + 2);
        }
        i = i + 2;
    }
    true
}

/// Decode a hex string (either case) into bytes, two characters per byte.
pub fn hex_decode(hex: &str) -> (res: Result<Vec<u8>, RelayError>)
    requires
        hex_decodable(hex@),
    ensures
        bytes_result_view(res) == spec_hex_decode(hex@),
{
    let b = hex.as_bytes();
    let n = b.len();
    if n % 2 != 0 {
        return Err(RelayError::HexOddLength);
    }
    let mut out: Vec<u8> = Vec::new();
    let mut i: usize = 0;
    while i < n
        invariant
            b@ == encode_utf8(hex@),
            n == b@.len(),
            n % 2 == 0,
            i % 2 == 0,
            i <= n,
            hex_pairs_from(b@, 0) == match hex_pairs_from(b@, i as int) {
                Some(rest) => Some(out@ + rest),
                None => None,
            },
        decreases n - i,
    {
        match hex_pair(b[i], b[i + 1]) {
            Some(v) => {
                proof {
                    let rest = hex_pairs_from(b@, i + 2);
                    if let Some(r) = rest {
                        assert(out@.push(v) + r =~= out@ + (seq![v] + r));
                    }
                }
                out.push(v);
                i = i + 2;
            },
            None => {
                return Err(RelayError::HexInvalid);
            },
        }
    }
    assert(out@ + Seq::<u8>::empty() =~= out@);
    Ok(out)
}

/// The uppercase ASCII character of a hexadecimal digit.
pub open spec fn hex_char_upper(d: nat) -> char {
    if d < 10 {
        ((d + 48) as u32) as char
    } else if d < 16 {
        ((d + 55) as u32) as char
    } else {
        '?'
    }
}

/// A hexadecimal digit in the chosen case.
pub open spec fn hex_char_in_case(d: nat, upper: bool) -> char {
    if upper {
        hex_char_upper(d)
    } else {
        hex_char(d)
    }
}

/// The hexadecimal rendering of bytes, two digits per byte (high nibble
/// first), in the chosen case.
pub open spec fn hex_rendering(bytes: Seq<u8>, upper: bool) -> Seq<char>
    decreases bytes.len(),
{
    if bytes.len() == 0 {
        Seq::empty()
    } else {
        seq![
            hex_char_in_case((bytes[0] / 16) as nat, upper),
            hex_char_in_case((bytes[0] % 16) as nat, upper),
        ] + hex_rendering(bytes.drop_first(), upper)
    }
}

/// The lowercase hexadecimal rendering of bytes, two digits per byte.
pub open spec fn lower_hex(bytes: Seq<u8>) -> Seq<char> {
    hex_rendering(bytes, false)
}

/// The uppercase hexadecimal rendering of bytes, two digits per byte.
pub open spec fn upper_hex(bytes: Seq<u8>) -> Seq<char> {
    hex_rendering(bytes, true)
}

proof fn lemma_hex_rendering_chars(bytes: Seq<u8>, upper: bool)
    ensures
        hex_rendering(bytes, upper).len() == 2 * bytes.len(),
        forall|k: int|
            0 <= k < bytes.len() ==> hex_rendering(bytes, upper)[2 * k] == hex_char_in_case(
                (bytes[k] / 16) as nat,
                upper,
            ) && hex_rendering(bytes, upper)[2 * k + 1] == hex_char_in_case(
                (bytes[k] % 16) as nat,
                upper,
            ),
    decreases bytes.len(),
{
    if bytes.len() > 0 {
        let rest = bytes.drop_first();
        lemma_hex_rendering_chars(rest, upper);
        assert forall|k: int| 0 <= k < bytes.len() implies hex_rendering(bytes, upper)[2 * k]
            == hex_char_in_case((bytes[k] / 16) as nat, upper) && hex_rendering(bytes, upper)[2
            * k + 1] == hex_char_in_case((bytes[k] % 16) as nat, upper) by {
            if k > 0 {
                assert(bytes[k] == rest[k - 1]);
                assert(hex_rendering(bytes, upper)[2 * k] == hex_rendering(rest, upper)[2 * (k
                    - 1)]);
                assert(hex_rendering(bytes, upper)[2 * k + 1] == hex_rendering(rest, upper)[2 * (
                k - 1) + 1]);
            }
        }
    }
}

/// Each digit character, in either case, is read back as its digit.
proof fn lemma_hex_char_digit(d: nat, upper: bool)
    requires
        d < 16,
    ensures
        hex_digit_value(hex_char_in_case(d, upper) as u8) == Some(d as u8),
        (hex_char_in_case(d, upper) as u32) < 128,
        hex_char_in_case(d, upper) as u8 != 43,
{
}

proof fn lemma_hex_rendering_pairs(b: Seq<u8>, bytes: Seq<u8>, upper: bool, k: int)
    requires
        b.len() == 2 * bytes.len(),
        0 <= k <= bytes.len(),
        forall|j: int|
            0 <= j < bytes.len() ==> b[2 * j] == hex_char_in_case((bytes[j] / 16) as nat, upper)
                as u8 && b[2 * j + 1] == hex_char_in_case((bytes[j] % 16) as nat, upper) as u8,
    ensures
        hex_pairs_from(b, 2 * k) == Some(bytes.skip(k)),
        hex_pairs_sliceable_from(b, 2 * k),
    decreases bytes.len() - k,
{
    if k < bytes.len() {
        lemma_hex_rendering_pairs(b, bytes, upper, k + 1);
        let v = bytes[k];
        lemma_hex_char_digit((v / 16) as nat, upper);
        lemma_hex_char_digit((v % 16) as nat, upper);
        assert(hex_pair_value(b[2 * k], b[2 * k + 1]) == Some(v));
        assert(seq![v] + bytes.skip(k + 1) =~= bytes.skip(k));
    } else {
        assert(bytes.skip(k) =~= Seq::<u8>::empty());
    }
}

proof fn lemma_hex_decode_rendering(bytes: Seq<u8>, upper: bool)
    ensures
        hex_decodable(hex_rendering(bytes, upper)),
        spec_hex_decode(hex_rendering(bytes, upper)) == Ok::<Seq<u8>, RelayError>(bytes),
{
    let chars = hex_rendering(bytes, upper);
    lemma_hex_rendering_chars(bytes, upper);
    assert forall|i: int| 0 <= i < chars.len() implies '\0' <= #[trigger] chars[i] <= '\u{7f}' by {
        let k = i / 2;
        if i % 2 == 0 {
            assert(i == 2 * k);
            lemma_hex_char_digit((bytes[k] / 16) as nat, upper);
        } else {
            assert(i == 2 * k + 1);
            lemma_hex_char_digit((bytes[k] % 16) as nat, upper);
        }
    }
    assert(is_ascii_chars(chars));
    is_ascii_chars_encode_utf8(chars);
    let b = encode_utf8(chars);
    assert forall|j: int| 0 <= j < bytes.len() implies b[2 * j] == hex_char_in_case(
        (bytes[j] / 16) as nat,
        upper,
    ) as u8 && b[2 * j + 1] == hex_char_in_case((bytes[j] % 16) as nat, upper) as u8 by {
        assert(chars[2 * j] as u8 == b[2 * j]);
        assert(chars[2 * j + 1] as u8 == b[2 * j + 1]);
    }
    lemma_hex_rendering_pairs(b, bytes, upper, 0);
    assert(bytes.skip(0) =~= bytes);
    assert(b.len() % 2 == 0);
}

/// Hex decoding undoes lowercase hex encoding: it is defined on every
/// encoding and gives back the encoded bytes.
pub proof fn lemma_hex_decode_lower_hex(bytes: Seq<u8>)
    ensures
        hex_decodable(lower_hex(bytes)),
        spec_hex_decode(lower_hex(bytes)) == Ok::<Seq<u8>, RelayError>(bytes),
{
    lemma_hex_decode_rendering(bytes, false);
}

/// Hex decoding accepts uppercase digits too: it undoes uppercase hex
/// encoding, so `A`..`F` read as 10..15.
pub proof fn lemma_hex_decode_upper_hex(bytes: Seq<u8>)
    ensures
        hex_decodable(upper_hex(bytes)),
        spec_hex_decode(upper_hex(bytes)) == Ok::<Seq<u8>, RelayError>(bytes),
{
    lemma_hex_decode_rendering(bytes, true);
}

// ----- The bot -----

/// A Discord bot client scoped to one application / bot token.
#[derive(Clone, Debug)]
pub struct DiscordBot {
    token: String,
    application_id: String,
    public_key_hex: String,
}

/// The URL that creates a message in a channel.
pub open spec fn spec_create_message_url(channel_id: Seq<char>) -> Seq<char> {
    "https://discord.com/api/v10/channels/"@ + channel_id + "/messages"@
}

/// The URL that answers an interaction.
pub open spec fn spec_interaction_callback_url(interaction_id: Seq<char>, token: Seq<char>) -> Seq<
    char,
> {
    "https://discord.com/api/v10/interactions/"@ + interaction_id + "/"@ + token + "/callback"@
}

/// The URL that posts a follow-up message to an interaction.
pub open spec fn spec_followup_url(application_id: Seq<char>, token: Seq<char>) -> Seq<char> {
    "https://discord.com/api/v10/webhooks/"@ + application_id + "/"@ + token
}

/// What an interaction signature is checked over: the decoded public key
/// and signature, and the signed message (the timestamp followed by the
/// body).
pub struct Ed25519Check {
    pub public_key: Vec<u8>,
    pub signature: Vec<u8>,
    pub message: String,
}

impl DiscordBot {
    /// The bot token.
    pub closed spec fn spec_token(&self) -> Seq<char> {
        self.token@
    }

    /// The application id.
    pub closed spec fn spec_application_id(&self) -> Seq<char> {
        self.application_id@
    }

    /// The hex-encoded Ed25519 public key of the application.
    pub closed spec fn spec_public_key_hex(&self) -> Seq<char> {
        self.public_key_hex@
    }

    pub fn new(token: String, application_id: String, public_key_hex: String) -> (bot: Self)
        ensures
            bot.spec_token() == token@,
            bot.spec_application_id() == application_id@,
            bot.spec_public_key_hex() == public_key_hex@,
    {
        DiscordBot { token, application_id, public_key_hex }
    }

    pub fn application_id(&self) -> (id: &str)
        ensures
            id@ == self.spec_application_id(),
    {
        self.application_id.as_str()
    }

    /// The hex-encoded Ed25519 public key the bot verifies interactions with.
    pub fn public_key_hex(&self) -> (key: &str)
        ensures
            key@ == self.spec_public_key_hex(),
    {
        self.public_key_hex.as_str()
    }

    /// The value of the `Authorization` header of API calls: `Bot <token>`.
    pub fn authorization(&self) -> (auth: String)
        ensures
            auth@ == "Bot "@ + self.spec_token(),
    {
        let mut auth = "Bot ".to_owned();
        auth.append(self.token.as_str());
        auth
    }

    /// The URL that `create_message` posts to.
    pub fn create_message_url(&self, channel_id: &str) -> (url: String)
        ensures
            url@ == spec_create_message_url(channel_id@),
    {
        let mut url = "https://discord.com/api/v10/channels/".to_owned();
        url.append(channel_id);
        url.append("/messages");
        url
    }

    /// The URL that `respond_interaction` posts to.
    pub fn interaction_callback_url(&self, interaction_id: &str, token: &str) -> (url: String)
        ensures
            url@ == spec_interaction_callback_url(interaction_id@, token@),
    {
        let mut url = "https://discord.com/api/v10/interactions/".to_owned();
        url.append(interaction_id);
        url.append("/");
        url.append(token);
        url.append("/callback");
        url
    }

    /// The URL that `followup_interaction` posts to.
    pub fn followup_url(&self, token: &str) -> (url: String)
        ensures
            url@ == spec_followup_url(self.spec_application_id(), token@),
    {
        let mut url = "https://discord.com/api/v10/webhooks/".to_owned();
        url.append(self.application_id.as_str());
        url.append("/");
        url.append(token);
        url
    }

    /// Accept the text of an API response with a status below 400; report
    /// the status and the text otherwise.
    pub fn check_response(status: u16, text: String) -> (res: Result<String, RelayError>)
        ensures
            status >= 400 ==> (res matches Err(RelayError::DiscordApi(s, t)) && s == status && t@
                == text@),
            status < 400 ==> (res matches Ok(t) && t@ == text@),
    {
        if status >= 400 {
            Err(RelayError::DiscordApi(status, text))
        } else {
            Ok(text)
        }
    }

    /// Decode what an interaction's Ed25519 signature is verified with:
    /// the bot's public key, the signature, and the signed message
    /// `<timestamp><body>`. Verify before trusting the body.
    pub fn verification_input(&self, signature_hex: &str, timestamp: &str, body: &str) -> (res:
        Result<Ed25519Check, RelayError>)
        requires
            hex_decodable(self.spec_public_key_hex()),
            spec_hex_decode(self.spec_public_key_hex()) is Ok ==> hex_decodable(signature_hex@),
        ensures
            match (spec_hex_decode(self.spec_public_key_hex()), spec_hex_decode(signature_hex@)) {
                (Err(e), _) => res == Err::<Ed25519Check, RelayError>(e),
                (Ok(_), Err(e)) => res == Err::<Ed25519Check, RelayError>(e),
                (Ok(key), Ok(sig)) => res matches Ok(c) && c.public_key@ == key && c.signature@
                    == sig && c.message@ == timestamp@ + body@,
            },
    {
        let public_key = match hex_decode(self.public_key_hex.as_str()) {
            Ok(k) => k,
            Err(e) => {
                return Err(e);
            },
        };
        let signature = match hex_decode(signature_hex) {
            Ok(s) => s,
            Err(e) => {
                return Err(e);
            },
        };
        let mut message = timestamp.to_owned();
        message.append(body);
        Ok(Ed25519Check { public_key, signature, message })
    }
}

// ----- Request bodies -----

/// Parameters of `createMessage` and of interaction follow-ups.
#[derive(Clone, Debug)]
pub struct CreateMessage {
    pub content: String,
    /// Left out of the JSON body when empty.
    pub components: Vec<ActionRow>,
    pub flags: Option<u64>,
}

impl Default for CreateMessage {
    fn default() -> (m: Self)
        ensures
            m.content@ == Seq::<char>::empty(),
            m.components@ == Seq::<ActionRow>::empty(),
            m.flags is None,
    {
        CreateMessage { content: String::new(), components: Vec::new(), flags: None }
    }
}

/// A row of interactive components. Discord requires buttons/selects be
/// inside an action row (`type: 1`).
#[derive(Clone, Debug)]
pub struct ActionRow {
    component_type: u8,
    components: Vec<Component>,
}

impl ActionRow {
    /// The component type of the row (1 for an action row).
    pub closed spec fn spec_component_type(&self) -> u8 {
        self.component_type
    }

    /// The components of the row.
    pub closed spec fn spec_components(&self) -> Seq<Component> {
        self.components@
    }

    pub fn new(components: Vec<Component>) -> (row: Self)
        ensures
            row.spec_component_type() == 1,
            row.spec_components() == components@,
    {
        ActionRow { component_type: 1, components }
    }

    /// Sent as `type`.
    pub fn component_type(&self) -> (t: u8)
        ensures
            t == self.spec_component_type(),
    {
        self.component_type
    }

    pub fn components(&self) -> (c: &Vec<Component>)
        ensures
            c@ == self.spec_components(),
    {
        &self.components
    }
}

/// Discord message component. Use the constructors rather than setting
/// fields directly: Discord's `type` numbers are non-obvious (2 = Button,
/// 4 = Text Input).
#[derive(Clone, Debug)]
pub struct Component {
    /// Sent as `type`.
    pub component_type: u8,
    pub custom_id: String,
    pub style: Option<u8>,
    pub label: Option<String>,
    pub value: Option<String>,
    pub required: Option<bool>,
}

impl Component {
    /// A primary (blue) button.
    pub fn primary_button(custom_id: String, label: String) -> (c: Self)
        ensures
            c.component_type == 2,
            c.custom_id@ == custom_id@,
            c.style == Some(1u8),
            c.label matches Some(l) && l@ == label@,
            c.value is None,
            c.required is None,
    {
        Component {
            component_type: 2,
            custom_id,
            style: Some(1),
            label: Some(label),
            value: None,
            required: None,
        }
    }

    /// A paragraph-style text input for use inside a modal.
    pub fn paragraph_input(custom_id: String, label: String) -> (c: Self)
        ensures
            c.component_type == 4,
            c.custom_id@ == custom_id@,
            c.style == Some(2u8),
            c.label matches Some(l) && l@ == label@,
            c.value is None,
            c.required == Some(true),
    {
        Component {
            component_type: 4,
            custom_id,
            style: Some(2),
            label: Some(label),
            value: None,
            required: Some(true),
        }
    }
}

/// The body of a `POST /interactions/{id}/{token}/callback`.
#[derive(Clone, Debug)]
#[allow(inconsistent_fields)]
pub enum InteractionResponse {
    /// `type: 1`: reply to a ping.
    Pong { kind: u8 },
    /// `type: 9`: show a modal dialog.
    Modal { kind: u8, data: ModalData },
    /// `type: 4`: respond with a message (visible to everyone by default;
    /// set `flags = 64` for ephemeral).
    Message { kind: u8, data: MessageData },
    /// `type: 6`: acknowledge a component click without sending anything.
    DeferredUpdate { kind: u8 },
}

impl InteractionResponse {
    pub fn pong() -> (r: Self)
        ensures
            r matches InteractionResponse::Pong { kind } && kind == 1,
    {
        InteractionResponse::Pong { kind: 1 }
    }

    pub fn modal(custom_id: String, title: String, components: Vec<ActionRow>) -> (r: Self)
        ensures
            r matches InteractionResponse::Modal { kind, data } && kind == 9 && data.custom_id@
                == custom_id@ && data.title@ == title@ && data.components@ == components@,
    {
        InteractionResponse::Modal { kind: 9, data: ModalData { custom_id, title, components } }
    }

    pub fn ephemeral_message(content: String) -> (r: Self)
        ensures
            r matches InteractionResponse::Message { kind, data } && kind == 4 && data.content@
                == content@ && data.flags == Some(64u64),
    {
        InteractionResponse::Message { kind: 4, data: MessageData { content, flags: Some(64) } }
    }

    pub fn deferred_update() -> (r: Self)
        ensures
            r matches InteractionResponse::DeferredUpdate { kind } && kind == 6,
    {
        InteractionResponse::DeferredUpdate { kind: 6 }
    }
}

#[derive(Clone, Debug)]
pub struct ModalData {
    pub custom_id: String,
    pub title: String,
    pub components: Vec<ActionRow>,
}

#[derive(Clone, Debug)]
pub struct MessageData {
    pub content: String,
    pub flags: Option<u64>,
}

// ----- Incoming interaction types -----

#[derive(Clone, Debug)]
pub struct Interaction {
    pub id: String,
    pub token: String,
    /// Sent as `type`.
    pub kind: u8,
    pub data: Option<InteractionData>,
    pub message: Option<Message>,
    pub channel_id: Option<String>,
}

/// The first component of `comps`, from index `j` on, whose custom id is `id`.
pub open spec fn find_in_row(comps: Seq<IncomingComponent>, id: Seq<char>, j: int) -> Option<
    IncomingComponent,
>
    decreases comps.len() - j,
{
    if j < 0 || j >= comps.len() {
        None
    } else if comps[j].custom_id@ == id {
        Some(comps[j])
    } else {
        find_in_row(comps, id, j + 1)
    }
}

/// The first component, row by row from row `i` on, whose custom id is `id`.
pub open spec fn find_in_rows(rows: Seq<IncomingActionRow>, id: Seq<char>, i: int) -> Option<
    IncomingComponent,
>
    decreases rows.len() - i,
{
    if i < 0 || i >= rows.len() {
        None
    } else {
        match find_in_row(rows[i].components@, id, 0) {
            Some(c) => Some(c),
            None => find_in_rows(rows, id, i + 1),
        }
    }
}

/// The text a modal submit carries in the input `id`: the value of the
/// first submitted component with that custom id.
pub open spec fn spec_modal_text(i: Interaction, id: Seq<char>) -> Option<Seq<char>> {
    match i.data {
        Some(d) => match d.components {
            Some(rows) => match find_in_rows(rows@, id, 0) {
                Some(c) => match c.value {
                    Some(v) => Some(v@),
                    None => None,
                },
                None => None,
            },
            None => None,
        },
        None => None,
    }
}

proof fn lemma_find_in_row_sound(comps: Seq<IncomingComponent>, id: Seq<char>, j: int)
    requires
        0 <= j,
    ensures
        find_in_row(comps, id, j) matches Some(c) ==> exists|k: int|
            j <= k < comps.len() && comps[k] == c && c.custom_id@ == id,
        find_in_row(comps, id, j) is None ==> forall|k: int|
            j <= k < comps.len() ==> (#[trigger] comps[k]).custom_id@ != id,
    decreases comps.len() - j,
{
    if j < comps.len() {
        lemma_find_in_row_sound(comps, id, j + 1);
    }
}

proof fn lemma_find_in_rows_sound(rows: Seq<IncomingActionRow>, id: Seq<char>, i: int)
    requires
        0 <= i,
    ensures
        find_in_rows(rows, id, i) matches Some(c) ==> exists|r: int, k: int|
            i <= r < rows.len() && 0 <= k < rows[r].components@.len() && rows[r].components@[k]
                == c && c.custom_id@ == id,
        find_in_rows(rows, id, i) is None ==> forall|r: int, k: int|
            i <= r < rows.len() && 0 <= k < rows[r].components@.len() ==> (
            #[trigger] rows[r].components@[k]).custom_id@ != id,
    decreases rows.len() - i,
{
    if i < rows.len() {
        lemma_find_in_row_sound(rows[i].components@, id, 0);
        lemma_find_in_rows_sound(rows, id, i + 1);
        if let Some(c) = find_in_row(rows[i].components@, id, 0) {
            let k = choose|k: int|
                0 <= k < rows[i].components@.len() && rows[i].components@[k] == c
                    && c.custom_id@ == id;
            assert(i <= i < rows.len() && 0 <= k < rows[i].components@.len()
                && rows[i].components@[k] == c && c.custom_id@ == id);
        }
    }
}

proof fn lemma_find_in_row_first(comps: Seq<IncomingComponent>, id: Seq<char>, j: int, k: int)
    requires
        0 <= j <= k < comps.len(),
        comps[k].custom_id@ == id,
        forall|m: int| j <= m < k ==> (#[trigger] comps[m]).custom_id@ != id,
    ensures
        find_in_row(comps, id, j) == Some(comps[k]),
    decreases k - j,
{
    if j < k {
        lemma_find_in_row_first(comps, id, j + 1, k);
    }
}

proof fn lemma_find_in_row_none(comps: Seq<IncomingComponent>, id: Seq<char>, j: int)
    requires
        0 <= j,
        forall|m: int| j <= m < comps.len() ==> (#[trigger] comps[m]).custom_id@ != id,
    ensures
        find_in_row(comps, id, j) is None,
    decreases comps.len() - j,
{
    if j < comps.len() {
        lemma_find_in_row_none(comps, id, j + 1);
    }
}

proof fn lemma_find_in_rows_first(
    rows: Seq<IncomingActionRow>,
    id: Seq<char>,
    i: int,
    r: int,
    k: int,
)
    requires
        0 <= i <= r < rows.len(),
        0 <= k < rows[r].components@.len(),
        rows[r].components@[k].custom_id@ == id,
        forall|r2: int, k2: int|
            i <= r2 < rows.len() && 0 <= k2 < rows[r2].components@.len() && (r2 < r || (r2 == r
                && k2 < k)) ==> (#[trigger] rows[r2].components@[k2]).custom_id@ != id,
    ensures
        find_in_rows(rows, id, i) == Some(rows[r].components@[k]),
    decreases r - i,
{
    if i < r {
        let comps = rows[i].components@;
        assert forall|m: int| 0 <= m < comps.len() implies (#[trigger] comps[m]).custom_id@
            != id by {
            assert(rows[i].components@[m] == comps[m]);
        }
        lemma_find_in_row_none(comps, id, 0);
        lemma_find_in_rows_first(rows, id, i + 1, r, k);
    } else {
        let comps = rows[r].components@;
        assert forall|m: int| 0 <= m < k implies (#[trigger] comps[m]).custom_id@ != id by {
            assert(rows[r].components@[m] == comps[m]);
        }
        lemma_find_in_row_first(comps, id, 0, k);
    }
}

/// The rows of components an interaction carries (none when it has no
/// data or no components).
pub open spec fn submitted_rows(i: Interaction) -> Seq<IncomingActionRow> {
    match i.data {
        Some(d) => match d.components {
            Some(rows) => rows@,
            None => Seq::empty(),
        },
        None => Seq::empty(),
    }
}

/// The text a modal submit yields for an input is the value that a
/// submitted component with that custom id carries; where no submitted
/// component has that custom id, there is none.
pub proof fn lemma_modal_text_sound(i: Interaction, id: Seq<char>)
    ensures
        spec_modal_text(i, id) matches Some(text) ==> exists|r: int, k: int|
            0 <= r < submitted_rows(i).len() && 0 <= k < submitted_rows(i)[r].components@.len()
                && (#[trigger] submitted_rows(i)[r].components@[k]).custom_id@ == id
                && opt_string_view(submitted_rows(i)[r].components@[k].value) == Some(text),
        (forall|r: int, k: int|
            0 <= r < submitted_rows(i).len() && 0 <= k < submitted_rows(i)[r].components@.len()
                ==> (#[trigger] submitted_rows(i)[r].components@[k]).custom_id@ != id)
            ==> spec_modal_text(i, id) is None,
{
    if let Some(d) = i.data {
        if let Some(rows) = d.components {
            lemma_find_in_rows_sound(rows@, id, 0);
            if let Some(c) = find_in_rows(rows@, id, 0) {
                let (r, k) = choose|r: int, k: int|
                    0 <= r < rows@.len() && 0 <= k < rows@[r].components@.len()
                        && rows@[r].components@[k] == c && c.custom_id@ == id;
                assert(submitted_rows(i)[r].components@[k].custom_id@ == id);
            }
        }
    }
}

/// The lookup is complete: when some submitted component has the requested
/// custom id, the text is the value (present or not) of the first such
/// component, row by row and left to right, whichever row it is in.
pub proof fn lemma_modal_text_first_match(i: Interaction, id: Seq<char>, r: int, k: int)
    requires
        0 <= r < submitted_rows(i).len(),
        0 <= k < submitted_rows(i)[r].components@.len(),
        submitted_rows(i)[r].components@[k].custom_id@ == id,
        forall|r2: int, k2: int|
            0 <= r2 < submitted_rows(i).len() && 0 <= k2 < submitted_rows(i)[r2].components@.len()
                && (r2 < r || (r2 == r && k2 < k)) ==> (#[trigger] submitted_rows(
                i,
            )[r2].components@[k2]).custom_id@ != id,
    ensures
        spec_modal_text(i, id) == opt_string_view(submitted_rows(i)[r].components@[k].value),
{
    if let Some(d) = i.data {
        if let Some(rows) = d.components {
            assert(submitted_rows(i) == rows@);
            lemma_find_in_rows_first(rows@, id, 0, r, k);
        }
    }
}

impl Interaction {
    pub fn is_ping(&self) -> (b: bool)
        ensures
            b == (self.kind == 1),
    {
        self.kind == 1
    }

    pub fn is_component_click(&self) -> (b: bool)
        ensures
            b == (self.kind == 3),
    {
        self.kind == 3
    }

    pub fn is_modal_submit(&self) -> (b: bool)
        ensures
            b == (self.kind == 5),
    {
        self.kind == 5
    }

    /// For modal submits: extract the text the user entered into the given
    /// input `custom_id`.
    pub fn modal_text(&self, input_custom_id: &str) -> (text: Option<&str>)
        ensures
            opt_str_view(text) == spec_modal_text(*self, input_custom_id@),
    {
        let data = match &self.data {
            Some(d) => d,
            None => {
                return None;
            },
        };
        let rows = match &data.components {
            Some(r) => r,
            None => {
                return None;
            },
        };
        let ghost id = input_custom_id@;
        let ghost answer = match find_in_rows(rows@, id, 0) {
            Some(c) => match c.value {
                Some(v) => Some(v@),
                None => None,
            },
            None => None,
        };
        assert(spec_modal_text(*self, id) == answer);
        let mut i: usize = 0;
        while i < rows.len()
            invariant
                id == input_custom_id@,
                spec_modal_text(*self, id) == answer,
                answer == match find_in_rows(rows@, id, 0) {
                    Some(c) => match c.value {
                        Some(v) => Some(v@),
                        None => None,
                    },
                    None => None,
                },
                i <= rows@.len(),
                find_in_rows(rows@, id, 0) == find_in_rows(rows@, id, i as int),
            decreases rows@.len() - i,
        {
            let comps = &rows[i].components;
            let mut j: usize = 0;
            while j < comps.len()
                invariant
                    id == input_custom_id@,
                    spec_modal_text(*self, id) == answer,
                    answer == match find_in_rows(rows@, id, 0) {
                        Some(c) => match c.value {
                            Some(v) => Some(v@),
                            None => None,
                        },
                        None => None,
                    },
                    find_in_rows(rows@, id, 0) == find_in_rows(rows@, id, i as int),
                    i < rows@.len(),
                    comps@ == rows@[i as int].components@,
                    j <= comps@.len(),
                    find_in_row(comps@, id, 0) == find_in_row(comps@, id, j as int),
                decreases comps@.len() - j,
            {
                let comp = &comps[j];
                if str_eq(comp.custom_id.as_str(), input_custom_id) {
                    return match &comp.value {
                        Some(v) => Some(v.as_str()),
                        None => None,
                    };
                }
                j = j + 1;
            }
            i = i + 1;
        }
        None
    }
}

#[derive(Clone, Debug)]
pub struct InteractionData {
    pub custom_id: Option<String>,
    pub components: Option<Vec<IncomingActionRow>>,
}

#[derive(Clone, Debug)]
pub struct IncomingActionRow {
    pub components: Vec<IncomingComponent>,
}

#[derive(Clone, Debug)]
pub struct IncomingComponent {
    pub custom_id: String,
    pub value: Option<String>,
}

#[derive(Clone, Debug)]
pub struct Message {
    pub id: String,
    pub content: Option<String>,
    pub channel_id: String,
}

} // verus!
