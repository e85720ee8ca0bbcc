//! Tiny `multipart/form-data` encoder used by the Telegram `sendPhoto` and
//! Discord file-upload paths. Assembling the body by hand is shorter than
//! driving the `FormData` shim and lets the bot clients pass plain bytes to
//! `Fetch`.

use vstd::prelude::*;
use vstd::string::*;
use vstd::utf8::encode_utf8;
use crate::text::{
    extend_with_bytes, extend_with_str, hex_fixed, lemma_hex_fixed_injective, lemma_hex_fixed_len,
    lemma_u64_below_pow16, push_char, push_hex_fixed,
};

verus! {

/// The character that stands for `c` inside a quoted header parameter:
/// quotes and control characters (CR and LF among them) become `_`.
pub open spec fn sanitize_char(c: char) -> char {
    if c == '"' || (c as u32) < 0x20 {
        '_'
    } else {
        c
    }
}

/// `s` with every character replaced by [`sanitize_char`].
pub open spec fn sanitized(s: Seq<char>) -> Seq<char> {
    s.map_values(|c: char| sanitize_char(c))
}

/// Replaces quotes and control characters by `_` so that a value can stand
/// inside a quoted `Content-Disposition` parameter.
pub fn sanitize_header_value(s: &str) -> (res: String)
    ensures
        res@ == sanitized(s@),
{
    let mut out = String::new();
    for c in it: s.chars()
        invariant
            it.seq() == s@,
            out@ == sanitized(s@.take(it.index())),
    {
        let d = if c == '"' || (c as u32) < 0x20 { '_' } else { c };
        push_char(&mut out, d);
        assert(s@.take(it.index() + 1) =~= s@.take(it.index()).push(c));
        assert(sanitized(s@.take(it.index() + 1)) =~= sanitized(s@.take(it.index())).push(d));
    }
    assert(s@.take(s@.len() as int) =~= s@);
    out
}

/// The boundary that [`MultipartBuilder::new`] derives from 64 random bits:
/// `----botrelay-` followed by the bits as 16 lowercase hexadecimal digits.
pub open spec fn spec_boundary_from_bits(bits: u64) -> Seq<char> {
    "----botrelay-"@ + hex_fixed(bits as nat, 16)
}

/// Sanitizing leaves no quote and no control character (so no CR or LF),
/// keeps the length, and keeps every other character in place.
pub proof fn lemma_sanitized_is_safe(s: Seq<char>)
    ensures
        sanitized(s).len() == s.len(),
        forall|k: int|
            0 <= k < s.len() ==> #[trigger] sanitized(s)[k] != '"' && (sanitized(s)[k] as u32)
                >= 0x20,
        forall|k: int|
            0 <= k < s.len() && s[k] != '"' && (s[k] as u32) >= 0x20 ==> #[trigger] sanitized(s)[k]
                == s[k],
{
}

/// Sanitizing twice is sanitizing once.
pub proof fn lemma_sanitized_idempotent(s: Seq<char>)
    ensures
        sanitized(sanitized(s)) == sanitized(s),
{
    assert(sanitized(sanitized(s)) =~= sanitized(s));
}

/// Distinct random bits give distinct boundaries, and every boundary has
/// the same length: the 13-character prefix and 16 hexadecimal digits.
pub proof fn lemma_boundary_from_bits_injective(a: u64, b: u64)
    ensures
        spec_boundary_from_bits(a) == spec_boundary_from_bits(b) ==> a == b,
        spec_boundary_from_bits(a).len() == "----botrelay-"@.len() + 16,
{
    lemma_hex_fixed_len(a as nat, 16);
    lemma_hex_fixed_len(b as nat, 16);
    lemma_u64_below_pow16(a);
    lemma_u64_below_pow16(b);
    if spec_boundary_from_bits(a) == spec_boundary_from_bits(b) {
        let pre = "----botrelay-"@;
        assert(hex_fixed(a as nat, 16) =~= spec_boundary_from_bits(a).subrange(
            pre.len() as int,
            pre.len() + 16int,
        ));
        assert(hex_fixed(b as nat, 16) =~= spec_boundary_from_bits(b).subrange(
            pre.len() as int,
            pre.len() + 16int,
        ));
        lemma_hex_fixed_injective(a as nat, b as nat, 16);
    }
}

/// The value of the `Content-Type` header of a body with this boundary.
pub open spec fn spec_content_type(boundary: Seq<char>) -> Seq<char> {
    "multipart/form-data; boundary="@ + boundary
}

/// The header block that opens a part: the delimiter line, the
/// `Content-Disposition` line with the sanitized name (and filename), the
/// optional `Content-Type` line and the blank line.
pub open spec fn part_header(
    boundary: Seq<char>,
    name: Seq<char>,
    filename: Option<Seq<char>>,
    content_type: Option<Seq<char>>,
) -> Seq<char> {
    "--"@ + boundary + "\r\n"@ + "Content-Disposition: form-data; name=\""@ + sanitized(name) + "\""@
        + match filename {
        Some(f) => "; filename=\""@ + sanitized(f) + "\""@,
        None => Seq::empty(),
    } + "\r\n"@ + match content_type {
        Some(ct) => "Content-Type: "@ + ct + "\r\n"@,
        None => Seq::empty(),
    } + "\r\n"@
}

/// The bytes of a text-valued part.
#[verifier::opaque]
pub open spec fn text_part(boundary: Seq<char>, name: Seq<char>, value: Seq<char>) -> Seq<u8> {
    encode_utf8(part_header(boundary, name, None, None)) + encode_utf8(value) + encode_utf8(
        "\r\n"@,
    )
}

/// The bytes of a part that carries a JSON document.
#[verifier::opaque]
pub open spec fn json_part(boundary: Seq<char>, name: Seq<char>, json: Seq<char>) -> Seq<u8> {
    encode_utf8(part_header(boundary, name, None, Some("application/json"@))) + encode_utf8(json)
        + encode_utf8("\r\n"@)
}

/// The content type a file part is sent with: the given one, or
/// `application/octet-stream` when it is empty.
pub open spec fn file_content_type(content_type: Seq<char>) -> Seq<char> {
    if content_type.len() == 0 {
        "application/octet-stream"@
    } else {
        content_type
    }
}

/// The bytes of a file-valued part.
#[verifier::opaque]
pub open spec fn file_part(
    boundary: Seq<char>,
    name: Seq<char>,
    filename: Seq<char>,
    content_type: Seq<char>,
    bytes: Seq<u8>,
) -> Seq<u8> {
    encode_utf8(part_header(boundary, name, Some(filename), Some(file_content_type(content_type))))
        + bytes + encode_utf8("\r\n"@)
}

/// The closing delimiter of a body.
pub open spec fn closing_delimiter(boundary: Seq<char>) -> Seq<u8> {
    encode_utf8("--"@ + boundary + "--\r\n"@)
}

/// A text part carries its value byte for byte: after the header block come
/// exactly the UTF-8 bytes of the value (quotes, CR and LF included, nothing
/// sanitized) and then CRLF; the header block does not depend on the value.
pub proof fn lemma_text_part_value_verbatim(boundary: Seq<char>, name: Seq<char>, value: Seq<char>)
    ensures
        text_part(boundary, name, value) == encode_utf8(part_header(boundary, name, None, None))
            + encode_utf8(value) + encode_utf8("\r\n"@),
{
    reveal(text_part);
}

/// A JSON part carries its document byte for byte, after a header block
/// that declares `Content-Type: application/json` and does not depend on
/// the document.
pub proof fn lemma_json_part_value_verbatim(boundary: Seq<char>, name: Seq<char>, json: Seq<char>)
    ensures
        json_part(boundary, name, json) == encode_utf8(
            part_header(boundary, name, None, Some("application/json"@)),
        ) + encode_utf8(json) + encode_utf8("\r\n"@),
{
    reveal(json_part);
}

/// A file part carries its bytes unchanged, after a header block that
/// names the file and its content type (the given one when non-empty).
pub proof fn lemma_file_part_bytes_verbatim(
    boundary: Seq<char>,
    name: Seq<char>,
    filename: Seq<char>,
    content_type: Seq<char>,
    bytes: Seq<u8>,
)
    ensures
        file_part(boundary, name, filename, content_type, bytes) == encode_utf8(
            part_header(
                boundary,
                name,
                Some(filename),
                Some(
                    if content_type.len() == 0 {
                        "application/octet-stream"@
                    } else {
                        content_type
                    },
                ),
            ),
        ) + bytes + encode_utf8("\r\n"@),
{
    reveal(file_part);
}

/// Builder for a `multipart/form-data` body. Append text and file parts in
/// the order you want them, then call [`MultipartBuilder::finish`].
pub struct MultipartBuilder {
    boundary: String,
    body: Vec<u8>,
}

impl MultipartBuilder {
    /// The boundary that separates the parts.
    pub closed spec fn spec_boundary(&self) -> Seq<char> {
        self.boundary@
    }

    /// The bytes of the parts appended so far.
    pub closed spec fn spec_body(&self) -> Seq<u8> {
        self.body@
    }

    /// Create a new builder whose boundary is derived from 64 random bits
    /// (the caller draws them).
    pub fn new(random_bits: u64) -> (mp: Self)
        ensures
            mp.spec_boundary() == spec_boundary_from_bits(random_bits),
            mp.spec_body() == Seq::<u8>::empty(),
    {
        let mut boundary = "----botrelay-".to_owned();
        push_hex_fixed(&mut boundary, random_bits, 16);
        MultipartBuilder { boundary, body: Vec::new() }
    }

    /// Create a new builder with the given boundary.
    pub fn with_boundary(boundary: String) -> (mp: Self)
        ensures
            mp.spec_boundary() == boundary@,
            mp.spec_body() == Seq::<u8>::empty(),
    {
        MultipartBuilder { boundary, body: Vec::new() }
    }

    /// The boundary that separates the parts.
    pub fn boundary(&self) -> (b: &str)
        ensures
            b@ == self.spec_boundary(),
    {
        self.boundary.as_str()
    }

    /// `multipart/form-data; boundary={...}`: set this as the request's
    /// `Content-Type` header.
    pub fn content_type(&self) -> (ct: String)
        ensures
            ct@ == spec_content_type(self.spec_boundary()),
    {
        let mut ct = "multipart/form-data; boundary=".to_owned();
        ct.append(self.boundary.as_str());
        ct
    }

    /// Append a text-valued form field.
    pub fn add_text(&mut self, name: &str, value: &str)
        ensures
            final(self).spec_boundary() == old(self).spec_boundary(),
            final(self).spec_body() == old(self).spec_body() + text_part(
                old(self).spec_boundary(),
                name@,
                value@,
            ),
    {
        self.write_part_header(name, None, None);
        extend_with_str(&mut self.body, value);
        extend_with_str(&mut self.body, "\r\n");
        reveal(text_part);
        assert(self.body@ =~= old(self).body@ + text_part(old(self).boundary@, name@, value@));
    }

    /// Append a form field that carries the given JSON document, with
    /// `Content-Type: application/json`.
    pub fn add_json(&mut self, name: &str, json: &str)
        ensures
            final(self).spec_boundary() == old(self).spec_boundary(),
            final(self).spec_body() == old(self).spec_body() + json_part(
                old(self).spec_boundary(),
                name@,
                json@,
            ),
    {
        self.write_part_header(name, None, Some("application/json"));
        extend_with_str(&mut self.body, json);
        extend_with_str(&mut self.body, "\r\n");
        reveal(json_part);
        assert(self.body@ =~= old(self).body@ + json_part(old(self).boundary@, name@, json@));
    }

    /// Append a file-valued form field. `content_type` defaults to
    /// `application/octet-stream` if empty.
    pub fn add_file(&mut self, name: &str, filename: &str, content_type: &str, bytes: &[u8])
        ensures
            final(self).spec_boundary() == old(self).spec_boundary(),
            final(self).spec_body() == old(self).spec_body() + file_part(
                old(self).spec_boundary(),
                name@,
                filename@,
                content_type@,
                bytes@,
            ),
    {
        let ct = if content_type.is_empty() {
            "application/octet-stream"
        } else {
            content_type
        };
        self.write_part_header(name, Some(filename), Some(ct));
        extend_with_bytes(&mut self.body, bytes);
        extend_with_str(&mut self.body, "\r\n");
        reveal(file_part);
        assert(self.body@ =~= old(self).body@ + file_part(
            old(self).boundary@,
            name@,
            filename@,
            content_type@,
            bytes@,
        ));
    }

    /// Close the body and return the assembled bytes.
    pub fn finish(self) -> (body: Vec<u8>)
        ensures
            body@ == self.spec_body() + closing_delimiter(self.spec_boundary()),
    {
        let mut body = self.body;
        let mut close = "--".to_owned();
        close.append(self.boundary.as_str());
        close.append("--\r\n");
        extend_with_str(&mut body, close.as_str());
        body
    }

    fn write_part_header(&mut self, name: &str, filename: Option<&str>, content_type: Option<&str>)
        ensures
            final(self).boundary@ == old(self).boundary@,
            final(self).body@ == old(self).body@ + encode_utf8(
                part_header(
                    old(self).boundary@,
                    name@,
                    match filename {
                        Some(f) => Some(f@),
                        None => None,
                    },
                    match content_type {
                        Some(ct) => Some(ct@),
                        None => None,
                    },
                ),
            ),
    {
        let mut header = "--".to_owned();
        header.append(self.boundary.as_str());
        header.append("\r\n");
        header.append("Content-Disposition: form-data; name=\"");
        let safe_name = sanitize_header_value(name);
        header.append(safe_name.as_str());
        header.append("\"");
        if let Some(fname) = filename {
            let safe_fname = sanitize_header_value(fname);
            header.append("; filename=\"");
            header.append(safe_fname.as_str());
            header.append("\"");
        }
        header.append("\r\n");
        if let Some(ct) = content_type {
            header.append("Content-Type: ");
            header.append(ct);
            header.append("\r\n");
        }
        header.append("\r\n");
        assert(header@ =~= part_header(
            self.boundary@,
            name@,
            match filename {
                Some(f) => Some(f@),
                None => None,
            },
            match content_type {
                Some(ct) => Some(ct@),
                None => None,
            },
        ));
        extend_with_str(&mut self.body, header.as_str());
    }
}

} // verus!
