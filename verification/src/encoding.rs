//! Base64 text forms: URL-safe without padding, and standard with padding.
//!
//! The `base64` crate does the encoding and the decoding. The results of
//! its encoders have names here, and the URL-safe decoder is specified as
//! the inverse of its encoder.

use base64::Engine;
use vstd::prelude::*;
use vstd::string::*;

verus! {

/// What the `URL_SAFE_NO_PAD` engine of the `base64` crate encodes `bytes`
/// to.
pub uninterp spec fn base64_url(bytes: Seq<u8>) -> Seq<char>;

/// The characters of the URL-safe base64 alphabet.
pub open spec fn is_base64_url_char(c: char) -> bool {
    ||| 'A' <= c && c <= 'Z'
    ||| 'a' <= c && c <= 'z'
    ||| '0' <= c && c <= '9'
    ||| c == '-'
    ||| c == '_'
}

/// Whether a text is made of characters of the URL-safe base64 alphabet.
pub open spec fn is_base64_url_text(text: Seq<char>) -> bool {
    forall|i: int| 0 <= i < text.len() ==> is_base64_url_char(#[trigger] text[i])
}

/// The length of the URL-safe base64 text of `len` bytes, without padding:
/// four characters for every three bytes, and two or three for the one or
/// two bytes that are left.
pub open spec fn base64_url_len(len: nat) -> nat {
    (len / 3) * 4 + if len % 3 == 0 {
        0nat
    } else if len % 3 == 1 {
        2nat
    } else {
        3nat
    }
}

/// What the `STANDARD` engine of the `base64` crate encodes `bytes` to: the
/// standard alphabet, with padding.
pub uninterp spec fn base64_standard(bytes: Seq<u8>) -> Seq<char>;

/// The length of the standard base64 text of `len` bytes, with padding:
/// four characters for every three bytes, begun or complete.
pub open spec fn base64_standard_len(len: nat) -> nat {
    ((len + 2) / 3) * 4
}

/// Whether `decoded` is what decoding `text` gives: the bytes that encode to
/// `text`, which are unique, or nothing where no bytes encode to it.
pub open spec fn is_base64_url_decoding(text: Seq<char>, decoded: Option<Seq<u8>>) -> bool {
    &&& decoded matches Some(bytes) ==> base64_url(bytes) == text
    &&& forall|bytes: Seq<u8>| #[trigger] base64_url(bytes) == text ==> decoded == Some(bytes)
}

/// The view of optional bytes.
pub open spec fn bytes_view(bytes: Option<Vec<u8>>) -> Option<Seq<u8>> {
    match bytes {
        Some(bytes) => Some(bytes@),
        None => None,
    }
}

/// Calls `Engine::encode` of the `base64` crate on its `URL_SAFE_NO_PAD`
/// engine. The result has a name; the contract adds that it only holds
/// characters of the engine's alphabet, and that it has the length that the
/// crate's `encoded_len` gives for an encoding without padding.
#[verifier::external_body]
pub(crate) fn base64_encode(bytes: &[u8]) -> (text: String)
    ensures
        text@ == base64_url(bytes@),
        is_base64_url_text(text@),
        text@.len() == base64_url_len(bytes@.len()),
{
    base64::prelude::BASE64_URL_SAFE_NO_PAD.encode(bytes)
}

/// Calls `Engine::encode` of the `base64` crate on its `STANDARD` engine.
/// The result has a name; the contract adds that it has the length that the
/// crate's `encoded_len` gives for an encoding with padding.
#[verifier::external_body]
pub(crate) fn base64_standard_encode(bytes: &[u8]) -> (text: String)
    ensures
        text@ == base64_standard(bytes@),
        text@.len() == base64_standard_len(bytes@.len()),
{
    base64::prelude::BASE64_STANDARD.encode(bytes)
}

/// Calls `Engine::decode` of the `base64` crate on its `URL_SAFE_NO_PAD`
/// engine, which accepts canonical encodings without padding and nothing
/// else: the contract says that it inverts the encoder.
#[verifier::external_body]
pub(crate) fn base64_decode(text: &str) -> (decoded: Option<Vec<u8>>)
    ensures
        is_base64_url_decoding(text@, bytes_view(decoded)),
{
    base64::prelude::BASE64_URL_SAFE_NO_PAD.decode(text).ok()
}

/// Decoding an encoding gives the encoded bytes back.
pub proof fn lemma_decode_inverts_encode(bytes: Seq<u8>, decoded: Option<Seq<u8>>)
    requires
        is_base64_url_decoding(base64_url(bytes), decoded),
    ensures
        decoded == Some(bytes),
{
}

} // verus!
