//! Base64 and UTF-8: how log bytes travel on the wire and how copied text
//! reaches the terminal's clipboard.
use base64::engine::general_purpose::STANDARD;
use base64::Engine;
use vstd::prelude::*;
use vstd::utf8::{decode_utf8, valid_utf8};

verus! {

/// What the standard padded alphabet decodes `text` to; `None` where `text` is
/// no valid encoding.
pub uninterp spec fn base64_decoded(text: Seq<char>) -> Option<Seq<u8>>;

/// The standard padded encoding of `bytes`.
pub uninterp spec fn base64_encoded(bytes: Seq<u8>) -> Seq<char>;

/// `Engine::decode` of the `STANDARD` engine on the bytes of `text`, its error
/// dropped: the result is a function of the text alone.
#[verifier::external_body]
pub(crate) fn decode_base64(text: &str) -> (r: Option<Vec<u8>>)
    ensures
        (match r {
            Some(b) => Some(b@),
            None => None,
        }) == base64_decoded(text@),
{
    STANDARD.decode(text.as_bytes()).ok()
}

/// `Engine::encode` of the `STANDARD` engine: the result is a function of the
/// bytes alone, and decodes to those bytes again.
#[verifier::external_body]
pub(crate) fn encode_base64(bytes: &[u8]) -> (r: String)
    ensures
        r@ == base64_encoded(bytes@),
        base64_decoded(r@) == Some(bytes@),
{
    STANDARD.encode(bytes)
}

/// `String::from_utf8`, its error dropped: the text that `bytes` encode, where
/// they are valid UTF-8.
#[verifier::external_body]
pub(crate) fn utf8_text(bytes: Vec<u8>) -> (r: Option<String>)
    ensures
        match r {
            Some(s) => valid_utf8(bytes@) && s@ == decode_utf8(bytes@),
            None => !valid_utf8(bytes@),
        },
{
    String::from_utf8(bytes).ok()
}

/// The text that a base64 payload carries, where it carries one.
pub open spec fn payload_text(payload: Seq<char>) -> Option<Seq<char>> {
    match base64_decoded(payload) {
        Some(bytes) => bytes_text(bytes),
        None => None,
    }
}

/// The text that `bytes` encode, where they are valid UTF-8.
pub open spec fn bytes_text(bytes: Seq<u8>) -> Option<Seq<char>> {
    if valid_utf8(bytes) {
        Some(decode_utf8(bytes))
    } else {
        None
    }
}

/// Decodes a base64 payload to text.
pub fn decode_payload(payload: &str) -> (r: Option<String>)
    ensures
        match r {
            Some(s) => payload_text(payload@) == Some(s@),
            None => payload_text(payload@) is None,
        },
{
    match decode_base64(payload) {
        Some(bytes) => utf8_text(bytes),
        None => None,
    }
}

/// Encodes text for a base64 payload; decoding gives the text back.
pub fn encode_payload(text: &str) -> (r: String)
    ensures
        r@ == base64_encoded(vstd::utf8::encode_utf8(text@)),
        payload_text(r@) == Some(text@),
{
    let r = encode_base64(text.as_bytes());
    proof {
        vstd::utf8::encode_utf8_valid_utf8(text@);
        vstd::utf8::encode_utf8_decode_utf8(text@);
    }
    r
}

} // verus!
