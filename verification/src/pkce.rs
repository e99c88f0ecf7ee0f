//! Proof keys for code exchange: the verifier and its challenge.

use vstd::prelude::*;
use vstd::string::*;
use vstd::utf8::*;

use crate::text::{
    ascii_text, is_ascii_bytes, lemma_ascii_bytes_are_utf8, lossy_text, lower_hex,
    lower_hex_text,
};

verus! {

/// The unreserved characters of a URI: letters, digits, `-`, `.`, `_`, `~`.
pub open spec fn is_unreserved(byte: u8) -> bool {
    ||| 0x41 <= byte <= 0x5a
    ||| 0x61 <= byte <= 0x7a
    ||| 0x30 <= byte <= 0x39
    ||| byte == 0x2d
    ||| byte == 0x2e
    ||| byte == 0x5f
    ||| byte == 0x7e
}

/// Whether every byte is an unreserved character.
pub open spec fn is_verifier(bytes: Seq<u8>) -> bool {
    forall|i: int| 0 <= i < bytes.len() ==> is_unreserved(#[trigger] bytes[i])
}

/// The first byte that is no unreserved character.
pub open spec fn first_reserved(bytes: Seq<u8>) -> Option<u8>
    decreases bytes.len(),
{
    if bytes.len() == 0 {
        None
    } else if !is_unreserved(bytes[0]) {
        Some(bytes[0])
    } else {
        first_reserved(bytes.drop_first())
    }
}

/// The message that refuses the verifier `text` for the byte `bad`.
pub open spec fn invalid_verifier_byte(bad: u8, text: Seq<char>) -> Seq<char> {
    "Invalid 0x"@ + lower_hex(bad as nat) + " found in PKCE code verifier: "@ + text
}

/// What reading a verifier from `text` gives: the bytes of the text where
/// all of them are unreserved characters, and else the message that names
/// the first one that is not.
pub open spec fn parsed_verifier(text: Seq<char>) -> Result<Seq<u8>, Seq<char>> {
    match first_reserved(encode_utf8(text)) {
        None => Ok(encode_utf8(text)),
        Some(bad) => Err(invalid_verifier_byte(bad, text)),
    }
}

/// The text form of a verifier: the characters whose codes are its bytes.
pub open spec fn verifier_text(bytes: Seq<u8>) -> Seq<char> {
    ascii_text(bytes)
}

/// The `S256` challenge of a verifier, as `io_oauth` derives it: the
/// URL-safe base64 text of the SHA-256 digest of the verifier.
pub uninterp spec fn pkce_challenge(verifier: Seq<u8>) -> Seq<char>;

/// A sequence is a verifier exactly where no byte of it is refused.
pub proof fn lemma_first_reserved(bytes: Seq<u8>)
    ensures
        is_verifier(bytes) <==> first_reserved(bytes) is None,
    decreases bytes.len(),
{
    if bytes.len() > 0 && is_unreserved(bytes[0]) {
        let rest = bytes.drop_first();
        lemma_first_reserved(rest);
        if is_verifier(rest) {
            assert forall|i: int| 0 <= i < bytes.len() implies is_unreserved(
                #[trigger] bytes[i],
            ) by {
                if i > 0 {
                    assert(bytes[i] == rest[i - 1]);
                }
            }
        } else {
            let i = choose|i: int| 0 <= i < rest.len() && !is_unreserved(#[trigger] rest[i]);
            assert(bytes[i + 1] == rest[i]);
        }
    }
}

/// The bytes of a verifier are ASCII codes.
pub proof fn lemma_verifier_is_ascii(bytes: Seq<u8>)
    requires
        is_verifier(bytes),
    ensures
        is_ascii_bytes(bytes),
{
    assert forall|i: int| 0 <= i < bytes.len() implies #[trigger] bytes[i] < 128 by {
        assert(is_unreserved(bytes[i]));
    }
}

/// Reading the text form of a verifier gives the verifier back.
pub proof fn lemma_verifier_text_round_trip(bytes: Seq<u8>)
    requires
        is_verifier(bytes),
    ensures
        parsed_verifier(verifier_text(bytes)) == Ok::<Seq<u8>, Seq<char>>(bytes),
{
    lemma_verifier_is_ascii(bytes);
    lemma_ascii_bytes_are_utf8(bytes);
    lemma_first_reserved(bytes);
}

/// Calls `PkceCodeVerifier::default` of `io_oauth`, which draws 43
/// unreserved characters at random, and hands out its bytes.
#[verifier::external_body]
fn random_verifier() -> (bytes: Vec<u8>)
    ensures
        bytes@.len() == 43,
        is_verifier(bytes@),
{
    io_oauth::v2_0::authorization_code_grant::pkce::PkceCodeVerifier::default().expose().to_vec()
}

/// Calls the `FromStr` impl of `io_oauth`'s `PkceCodeVerifier`. It keeps the
/// bytes of a text of unreserved characters, and refuses any other text with
/// the first other byte.
#[verifier::external_body]
fn verifier_from_str(text: &str) -> (parsed: Result<Vec<u8>, u8>)
    ensures
        match first_reserved(text.spec_bytes()) {
            None => parsed matches Ok(bytes) && bytes@ == text.spec_bytes(),
            Some(bad) => parsed == Err::<Vec<u8>, u8>(bad),
        },
{
    match text.parse::<io_oauth::v2_0::authorization_code_grant::pkce::PkceCodeVerifier>() {
        Ok(verifier) => Ok(verifier.expose().to_vec()),
        Err(bad) => Err(bad),
    }
}

/// Calls `PkceCodeChallenge::encode` of `io_oauth` for the method `S256` and
/// the verifier with the given bytes. The contract only names the outcome.
#[verifier::external_body]
fn s256_challenge(verifier: &[u8]) -> (challenge: String)
    requires
        is_verifier(verifier@),
    ensures
        challenge@ == pkce_challenge(verifier@),
{
    let verifier = String::from_utf8_lossy(verifier).parse().unwrap();
    io_oauth::v2_0::authorization_code_grant::pkce::PkceCodeChallenge {
        method: io_oauth::v2_0::authorization_code_grant::pkce::PkceCodeChallengeMethod::Sha256,
        verifier,
    }.encode().into_owned()
}

/// A PKCE code verifier: unreserved characters that only the token exchange
/// discloses.
pub struct PkceCodeVerifier {
    pub(crate) bytes: Vec<u8>,
}

impl View for PkceCodeVerifier {
    type V = Seq<u8>;

    closed spec fn view(&self) -> Seq<u8> {
        self.bytes@
    }
}

/// The bytes of an optional verifier.
pub open spec fn verifier_view(verifier: Option<PkceCodeVerifier>) -> Option<Seq<u8>> {
    match verifier {
        Some(verifier) => Some(verifier@),
        None => None,
    }
}

impl PkceCodeVerifier {
    #[verifier::type_invariant]
    closed spec fn well_formed(&self) -> bool {
        is_verifier(self.bytes@)
    }

    /// A fresh verifier for a new flow: 43 random unreserved characters.
    pub fn generate() -> (verifier: PkceCodeVerifier)
        ensures
            verifier@.len() == 43,
            is_verifier(verifier@),
    {
        PkceCodeVerifier { bytes: random_verifier() }
    }

    /// Reads a verifier from its text form.
    pub fn parse(text: &str) -> (parsed: Result<PkceCodeVerifier, String>)
        ensures
            match parsed_verifier(text@) {
                Ok(bytes) => parsed matches Ok(verifier) && verifier@ == bytes,
                Err(message) => parsed matches Err(m) && m@ == message,
            },
    {
        match verifier_from_str(text) {
            Ok(bytes) => {
                proof {
                    lemma_first_reserved(bytes@);
                }
                Ok(PkceCodeVerifier { bytes })
            },
            Err(bad) => {
                let mut message = String::from_str("Invalid 0x");
                let hex = lower_hex_text(bad);
                message.append(hex.as_str());
                message.append(" found in PKCE code verifier: ");
                message.append(text);
                Err(message)
            },
        }
    }

    /// The bytes of the verifier.
    pub fn expose(&self) -> (bytes: &[u8])
        ensures
            bytes@ == self@,
            is_verifier(self@),
    {
        proof {
            use_type_invariant(self);
        }
        self.bytes.as_slice()
    }

    /// The text form of the verifier.
    pub fn to_text(&self) -> (text: String)
        ensures
            text@ == verifier_text(self@),
    {
        proof {
            use_type_invariant(self);
            lemma_verifier_is_ascii(self.bytes@);
            lemma_ascii_bytes_are_utf8(self.bytes@);
        }
        lossy_text(self.bytes.as_slice())
    }

    /// The `S256` challenge to send in place of the verifier.
    pub fn challenge(&self) -> (challenge: String)
        ensures
            challenge@ == pkce_challenge(self@),
    {
        proof {
            use_type_invariant(self);
        }
        s256_challenge(self.bytes.as_slice())
    }

    /// A second value of the same verifier.
    pub fn duplicate(&self) -> (verifier: PkceCodeVerifier)
        ensures
            verifier@ == self@,
    {
        proof {
            use_type_invariant(self);
        }
        PkceCodeVerifier { bytes: self.bytes.clone() }
    }
}

/// A PKCE code challenge: what the authorization request shows of a
/// verifier. The method is always `S256`.
pub struct PkceCodeChallenge {
    pub(crate) verifier: PkceCodeVerifier,
}

impl View for PkceCodeChallenge {
    type V = Seq<u8>;

    /// The bytes of the verifier that the challenge derives from.
    closed spec fn view(&self) -> Seq<u8> {
        self.verifier@
    }
}

/// The verifier behind an optional challenge.
pub open spec fn challenge_view(challenge: Option<PkceCodeChallenge>) -> Option<Seq<u8>> {
    match challenge {
        Some(challenge) => Some(challenge@),
        None => None,
    }
}

impl PkceCodeChallenge {
    /// The challenge of `verifier`.
    pub fn new(verifier: PkceCodeVerifier) -> (challenge: PkceCodeChallenge)
        ensures
            challenge@ == verifier@,
    {
        PkceCodeChallenge { verifier }
    }

    /// The name of the method, as requests give it.
    pub fn method(&self) -> (method: &'static str)
        ensures
            method@ == "S256"@,
    {
        "S256"
    }

    /// The text of the challenge, as requests give it.
    pub fn encode(&self) -> (challenge: String)
        ensures
            challenge@ == pkce_challenge(self@),
    {
        self.verifier.challenge()
    }

    /// The verifier that the challenge derives from.
    pub fn code_verifier(&self) -> (verifier: &PkceCodeVerifier)
        ensures
            verifier@ == self@,
    {
        &self.verifier
    }
}

} // verus!
