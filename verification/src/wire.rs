//! The transport encoding of field values.
//!
//! The remote service takes every field value in base64 with the standard
//! alphabet and padding.  The encoding itself is the `base64` crate's; this
//! module names what it returns and builds the field-level encoder and
//! decoder on it.

use base64::prelude::{Engine, BASE64_STANDARD};
use crate::text::view_of;
use vstd::prelude::*;
use vstd::utf8::{decode_utf8, encode_utf8, valid_utf8};

verus! {

/// The base64 text that the standard engine returns for the UTF-8 bytes of
/// `s`.
pub uninterp spec fn base64_text(s: Seq<char>) -> Seq<char>;

/// The bytes that the standard engine decodes `s` to, if it accepts `s`.
pub uninterp spec fn base64_bytes(s: Seq<char>) -> Option<Seq<u8>>;

/// The bytes held by the result of a decoding.
pub open spec fn bytes_of(r: Option<Vec<u8>>) -> Option<Seq<u8>> {
    match r {
        Some(b) => Some(b@),
        None => None,
    }
}

/// `Engine::encode` of `base64::prelude::BASE64_STANDARD` on the bytes of
/// `s`.  The result is a function of the bytes alone and is only named.
/// The engine computes the output size with overflow checks that cannot
/// fail for a string held in memory.
#[verifier::external_body]
pub(crate) fn base64_encode(s: &str) -> (r: String)
    ensures
        r@ == base64_text(s@),
{
    BASE64_STANDARD.encode(s)
}

/// `Engine::decode` of `base64::prelude::BASE64_STANDARD`.  The result is
/// named; the one fact claimed of it is that the engine decodes what it
/// encoded: on the encoding of a text it returns that text's bytes.
#[verifier::external_body]
pub(crate) fn base64_decode(s: &str) -> (r: Option<Vec<u8>>)
    ensures
        bytes_of(r) == base64_bytes(s@),
        forall|t: Seq<char>|
            s@ == #[trigger] base64_text(t) ==> bytes_of(r) == Some(encode_utf8(t)),
{
    BASE64_STANDARD.decode(s).ok()
}

/// `String::from_utf8`: the string whose bytes are `bytes`, where they are
/// valid UTF-8, and nothing where they are not.
#[verifier::external_body]
pub(crate) fn text_from_utf8(bytes: Vec<u8>) -> (r: Option<String>)
    ensures
        r is Some <==> valid_utf8(bytes@),
        r is Some ==> encode_utf8(r.unwrap()@) == bytes@,
{
    String::from_utf8(bytes).ok()
}

/// The text that an encoded field value stands for: the decoded bytes read
/// as UTF-8.  Nothing where the value is not base64 or the bytes are not
/// UTF-8.
pub open spec fn decoded_text(s: Seq<char>) -> Option<Seq<char>> {
    match base64_bytes(s) {
        Some(bytes) => if valid_utf8(bytes) {
            Some(decode_utf8(bytes))
        } else {
            None
        },
        None => None,
    }
}

/// Encodes one field value for transport.
pub fn encode_field(s: &str) -> (r: String)
    ensures
        r@ == base64_text(s@),
{
    base64_encode(s)
}

/// Decodes one field value.  An encoded value decodes to the text it was
/// made from, whatever that text is.
pub fn decode_field(s: &str) -> (r: Option<String>)
    ensures
        view_of(r) == decoded_text(s@),
        forall|t: Seq<char>| s@ == #[trigger] base64_text(t) ==> view_of(r) == Some(t),
{
    broadcast use vstd::utf8::encode_utf8_valid_utf8, vstd::utf8::encode_utf8_decode_utf8;

    match base64_decode(s) {
        Some(bytes) => text_from_utf8(bytes),
        None => None,
    }
}

} // verus!
