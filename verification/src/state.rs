//! The anti-forgery state of an authorization flow.

use serde::Deserialize;
use vstd::prelude::*;
use vstd::string::*;
use vstd::utf8::*;

use crate::encoding::{
    base64_decode, base64_encode, base64_url, base64_url_len, bytes_view, is_base64_url_char,
    is_base64_url_decoding, is_base64_url_text,
};
use crate::text::{
    ascii_text, is_ascii_bytes, lemma_ascii_bytes_are_utf8, lossy_text, lower_hex,
};

verus! {

/// The visible ASCII characters, space included: what a state is made of.
pub open spec fn is_vschar(byte: u8) -> bool {
    0x20 <= byte <= 0x7e
}

/// Whether every byte is a visible ASCII character.
pub open spec fn is_state(bytes: Seq<u8>) -> bool {
    forall|i: int| 0 <= i < bytes.len() ==> is_vschar(#[trigger] bytes[i])
}

/// The first byte that is no visible ASCII character.
pub open spec fn first_non_vschar(bytes: Seq<u8>) -> Option<u8>
    decreases bytes.len(),
{
    if bytes.len() == 0 {
        None
    } else if !is_vschar(bytes[0]) {
        Some(bytes[0])
    } else {
        first_non_vschar(bytes.drop_first())
    }
}

/// The message that refuses a state for the byte `bad`.
pub open spec fn invalid_state_byte(bad: u8) -> Seq<char> {
    "invalid byte 0x"@ + lower_hex(bad as nat) + " found in state"@
}

/// What reading a state from `text` gives: the bytes of the text where all
/// of them are visible ASCII characters, and else the message that names the
/// first one that is not.
pub open spec fn parsed_state(text: Seq<char>) -> Result<Seq<u8>, Seq<char>> {
    match first_non_vschar(encode_utf8(text)) {
        None => Ok(encode_utf8(text)),
        Some(bad) => Err(invalid_state_byte(bad)),
    }
}

/// The text form of a state: the characters whose codes are its bytes.
pub open spec fn state_text(bytes: Seq<u8>) -> Seq<char> {
    ascii_text(bytes)
}

/// The state that stands for the random bytes `raw`: the bytes of their
/// URL-safe base64 text.
pub open spec fn url_friendly(raw: Seq<u8>) -> Seq<u8> {
    encode_utf8(base64_url(raw))
}

/// A sequence is a state exactly where no byte of it is refused.
pub proof fn lemma_first_non_vschar(bytes: Seq<u8>)
    ensures
        is_state(bytes) <==> first_non_vschar(bytes) is None,
    decreases bytes.len(),
{
    if bytes.len() > 0 && is_vschar(bytes[0]) {
        let rest = bytes.drop_first();
        lemma_first_non_vschar(rest);
        if is_state(rest) {
            assert forall|i: int| 0 <= i < bytes.len() implies is_vschar(#[trigger] bytes[i]) by {
                if i > 0 {
                    assert(bytes[i] == rest[i - 1]);
                }
            }
        } else {
            let i = choose|i: int| 0 <= i < rest.len() && !is_vschar(#[trigger] rest[i]);
            assert(bytes[i + 1] == rest[i]);
        }
    }
}

/// Calls `State::default` of `io_oauth`, which draws 32 visible ASCII
/// characters at random, and hands out its bytes.
#[verifier::external_body]
fn random_state() -> (raw: Vec<u8>)
    ensures
        raw@.len() == 32,
        is_state(raw@),
{
    io_oauth::v2_0::authorization_code_grant::state::State::default().expose().to_vec()
}

/// Calls the `Deserialize` impl of `io_oauth`'s `State` on a string
/// deserializer. It keeps the bytes of a text of visible ASCII characters,
/// and refuses any other text with a message that names the first other
/// byte in hexadecimal.
#[verifier::external_body]
fn deserialize_state(text: &str) -> (parsed: Result<Vec<u8>, String>)
    ensures
        match parsed_state(text@) {
            Ok(bytes) => parsed matches Ok(b) && b@ == bytes,
            Err(message) => parsed matches Err(m) && m@ == message,
        },
{
    let source = serde::de::value::StrDeserializer::<serde::de::value::Error>::new(text);
    match io_oauth::v2_0::authorization_code_grant::state::State::deserialize(source) {
        Ok(state) => Ok(state.expose().to_vec()),
        Err(err) => Err(err.to_string()),
    }
}

/// An anti-forgery state: visible ASCII characters that tie an authorization
/// response to the request that caused it.
pub struct State {
    pub(crate) bytes: Vec<u8>,
}

impl View for State {
    type V = Seq<u8>;

    closed spec fn view(&self) -> Seq<u8> {
        self.bytes@
    }
}

/// The bytes of an optional state.
pub open spec fn state_view(state: Option<State>) -> Option<Seq<u8>> {
    match state {
        Some(state) => Some(state@),
        None => None,
    }
}

impl State {
    #[verifier::type_invariant]
    closed spec fn well_formed(&self) -> bool {
        is_state(self.bytes@)
    }

    /// A fresh state for a new flow: 32 random visible ASCII characters in
    /// their URL-safe base64 text form, so that the state can be copied and
    /// pasted. The text has 43 characters, all of the URL-safe base64
    /// alphabet.
    pub fn generate() -> (state: State)
        ensures
            exists|raw: Seq<u8>|
                {
                    &&& raw.len() == 32
                    &&& is_state(raw)
                    &&& state@ == url_friendly(raw)
                    &&& state_text(state@) == base64_url(raw)
                },
            is_base64_url_text(state_text(state@)),
            state_text(state@).len() == 43,
    {
        let raw = random_state();
        State::from_raw(raw.as_slice())
    }

    /// The state that stands for the random bytes `raw`. Its text form is
    /// the URL-safe base64 text of `raw`, so [`State::to_raw`] gives `raw`
    /// back: characters of the URL-safe base64 alphabet only, without
    /// padding.
    pub fn from_raw(raw: &[u8]) -> (state: State)
        ensures
            state@ == url_friendly(raw@),
            state_text(state@) == base64_url(raw@),
            is_base64_url_text(state_text(state@)),
            state_text(state@).len() == base64_url_len(raw@.len()),
    {
        let text = base64_encode(raw);
        let bytes = text.as_str().as_bytes_vec();
        proof {
            lemma_base64_text_is_state(text@);
            lemma_state_is_ascii(bytes@);
            lemma_ascii_bytes_are_utf8(bytes@);
            encode_utf8_decode_utf8(text@);
        }
        State { bytes }
    }

    /// The random bytes that the state stands for, if it is the URL-safe
    /// base64 text of any.
    pub fn to_raw(&self) -> (raw: Option<Vec<u8>>)
        ensures
            is_base64_url_decoding(state_text(self@), bytes_view(raw)),
    {
        let text = self.to_text();
        base64_decode(text.as_str())
    }

    /// Reads a state from its text form.
    pub fn parse(text: &str) -> (parsed: Result<State, String>)
        ensures
            match parsed_state(text@) {
                Ok(bytes) => parsed matches Ok(state) && state@ == bytes,
                Err(message) => parsed matches Err(m) && m@ == message,
            },
    {
        match deserialize_state(text) {
            Ok(bytes) => {
                proof {
                    lemma_first_non_vschar(bytes@);
                }
                Ok(State { bytes })
            },
            Err(message) => Err(message),
        }
    }

    /// The state with the given bytes, if they are visible ASCII characters.
    pub fn from_bytes(bytes: Vec<u8>) -> (state: Option<State>)
        ensures
            match state {
                Some(state) => is_state(bytes@) && state@ == bytes@,
                None => !is_state(bytes@),
            },
    {
        let mut i: usize = 0;
        while i < bytes.len()
            invariant
                i <= bytes.len(),
                forall|j: int| 0 <= j < i ==> is_vschar(#[trigger] bytes@[j]),
            decreases bytes.len() - i,
        {
            if bytes[i] < 0x20 || bytes[i] > 0x7e {
                return None;
            }
            i = i + 1;
        }
        Some(State { bytes })
    }

    /// The bytes of the state. They are no secret.
    pub fn expose(&self) -> (bytes: &[u8])
        ensures
            bytes@ == self@,
            is_state(self@),
    {
        proof {
            use_type_invariant(self);
        }
        self.bytes.as_slice()
    }

    /// The text form of the state.
    pub fn to_text(&self) -> (text: String)
        ensures
            text@ == state_text(self@),
    {
        proof {
            use_type_invariant(self);
            lemma_state_is_ascii(self.bytes@);
            lemma_ascii_bytes_are_utf8(self.bytes@);
        }
        lossy_text(self.bytes.as_slice())
    }

    /// Whether two states are the same bytes.
    pub fn matches(&self, other: &State) -> (same: bool)
        ensures
            same == (self@ == other@),
    {
        let same = self.bytes == other.bytes;
        assert(same == (self.bytes@ =~= other.bytes@));
        same
    }

    /// A second value of the same state.
    pub fn duplicate(&self) -> (state: State)
        ensures
            state@ == self@,
    {
        proof {
            use_type_invariant(self);
        }
        State { bytes: self.bytes.clone() }
    }
}

/// The bytes of a state are ASCII codes.
pub proof fn lemma_state_is_ascii(bytes: Seq<u8>)
    requires
        is_state(bytes),
    ensures
        is_ascii_bytes(bytes),
{
    assert forall|i: int| 0 <= i < bytes.len() implies #[trigger] bytes[i] < 128 by {
        assert(is_vschar(bytes[i]));
    }
}

/// The bytes of a URL-safe base64 text are a state.
pub proof fn lemma_base64_text_is_state(text: Seq<char>)
    requires
        is_base64_url_text(text),
    ensures
        is_state(encode_utf8(text)),
{
    assert forall|i: int| 0 <= i < text.len() implies '\0' <= #[trigger] text[i] <= '\u{7f}' by {
        assert(is_base64_url_char(text[i]));
    }
    is_ascii_chars_encode_utf8(text);
}

/// Reading the text form of a state gives the state back.
pub proof fn lemma_state_text_round_trip(bytes: Seq<u8>)
    requires
        is_state(bytes),
    ensures
        parsed_state(state_text(bytes)) == Ok::<Seq<u8>, Seq<char>>(bytes),
{
    lemma_state_is_ascii(bytes);
    lemma_ascii_bytes_are_utf8(bytes);
    lemma_first_non_vschar(bytes);
}

} // verus!
