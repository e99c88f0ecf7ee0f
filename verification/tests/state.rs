use ortie::auth::get::{serialize_state, state_parser};
use ortie::state::State;

#[test]
fn raw_state_round_trips_through_its_text_form() {
    let raws: [&[u8]; 5] = [b"", b"h", b"hello", b"\x00\xff\x10 ~", &[0x20; 32]];
    for raw in raws {
        let state = State::from_raw(raw);
        assert_eq!(state.to_raw().as_deref(), Some(raw));
    }
}

#[test]
fn generated_state_round_trips() {
    let state = State::generate();
    let raw = state.to_raw().expect("a generated state is base64 text");
    assert_eq!(raw.len(), 32);
    assert!(raw.iter().all(|byte| (0x20..=0x7e).contains(byte)));
    let again = State::from_raw(&raw);
    assert!(again.matches(&state));
    assert_eq!(again.expose(), state.expose());
}

#[test]
fn generated_state_is_43_characters_of_url_safe_base64() {
    let text = State::generate().to_text();
    assert_eq!(text.len(), 43);
    assert!(text.bytes().all(|byte| byte.is_ascii_alphanumeric() || byte == b'-' || byte == b'_'));
}

#[test]
fn text_of_raw_bytes_has_the_length_of_an_unpadded_encoding() {
    for (len, expected) in [(0, 0), (1, 2), (2, 3), (3, 4), (4, 6), (5, 7), (6, 8), (32, 43)] {
        let raw = vec![0xffu8; len];
        assert_eq!(State::from_raw(&raw).to_text().len(), expected);
    }
}

#[test]
fn generated_states_differ() {
    let a = State::generate();
    let b = State::generate();
    assert!(!a.matches(&b));
}

#[test]
fn from_raw_is_url_safe_base64_without_padding() {
    assert_eq!(State::from_raw(b"hello").to_text(), "aGVsbG8");
    assert_eq!(State::from_raw(&[0xfb, 0xff]).to_text(), "-_8");
    assert_eq!(State::from_raw(b"").to_text(), "");
}

#[test]
fn text_form_round_trips_through_parser() {
    let state = State::from_raw(b"some flow");
    let text = serialize_state(&state);
    let parsed = state_parser(&text).expect("the text form of a state parses");
    assert!(parsed.matches(&state));
    assert_eq!(parsed.expose(), text.as_bytes());
}

#[test]
fn parser_keeps_visible_ascii() {
    let parsed = State::parse(" !~az09").expect("visible ASCII is a state");
    assert_eq!(parsed.expose(), b" !~az09");
    assert_eq!(parsed.to_text(), " !~az09");
    assert_eq!(State::parse("").expect("the empty state").expose(), b"");
}

#[test]
fn parser_names_the_first_invalid_byte() {
    let err = State::parse("ab\tc\n").err().expect("a tab is refused");
    assert_eq!(err, "invalid byte 0x9 found in state");
    let err = State::parse("é").err().expect("non-ASCII is refused");
    assert_eq!(err, "invalid byte 0xc3 found in state");
    let err = State::parse("a\u{7f}").err().expect("DEL is refused");
    assert_eq!(err, "invalid byte 0x7f found in state");
}

#[test]
fn to_raw_refuses_what_is_no_canonical_encoding() {
    assert!(State::parse("a").unwrap().to_raw().is_none());
    assert!(State::parse("aGVsbG8=").unwrap().to_raw().is_none());
    assert!(State::parse("aGVsbG9").unwrap().to_raw().is_none());
    assert!(State::parse("a b").unwrap().to_raw().is_none());
    assert_eq!(State::parse("aGVsbG8").unwrap().to_raw().as_deref(), Some(&b"hello"[..]));
}

#[test]
fn duplicate_is_the_same_state() {
    let state = State::from_raw(b"abc");
    assert!(state.duplicate().matches(&state));
}
