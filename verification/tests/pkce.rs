use ortie::auth::get::{pkce_code_verifier_parser, serialize_pkce_code_verifier};
use ortie::pkce::PkceCodeVerifier;

fn unreserved(byte: u8) -> bool {
    byte.is_ascii_alphanumeric() || matches!(byte, b'-' | b'.' | b'_' | b'~')
}

#[test]
fn generated_verifier_is_43_unreserved_characters() {
    let verifier = PkceCodeVerifier::generate();
    assert_eq!(verifier.expose().len(), 43);
    assert!(verifier.expose().iter().all(|byte| unreserved(*byte)));
}

#[test]
fn challenge_is_the_s256_transform() {
    let verifier = PkceCodeVerifier::parse("dBjftJeZ4CVP-mB92K27uhbUJU1p1r_wW1gFWFOEjXk").unwrap();
    assert_eq!(verifier.challenge(), "E9Melhoa2OwvFrEMTJguCHaoeK1t8URWbuGJSstw-cM");
}

#[test]
fn challenge_differs_from_verifier() {
    let verifier = PkceCodeVerifier::generate();
    assert_ne!(verifier.challenge(), verifier.to_text());
    assert_eq!(verifier.challenge().len(), 43);
}

#[test]
fn verifier_text_round_trips_through_parser() {
    let verifier = PkceCodeVerifier::generate();
    let text = serialize_pkce_code_verifier(&Some(verifier.duplicate())).unwrap();
    let parsed = pkce_code_verifier_parser(&text).unwrap();
    assert_eq!(parsed.expose(), verifier.expose());
    assert!(serialize_pkce_code_verifier(&None).is_none());
}

#[test]
fn parser_names_the_first_reserved_byte_and_the_input() {
    let err = PkceCodeVerifier::parse("a b").err().unwrap();
    assert_eq!(err, "Invalid 0x20 found in PKCE code verifier: a b");
    let err = pkce_code_verifier_parser("abc/def+").err().unwrap();
    assert_eq!(err, "Invalid 0x2f found in PKCE code verifier: abc/def+");
    let err = PkceCodeVerifier::parse("é").err().unwrap();
    assert_eq!(err, "Invalid 0xc3 found in PKCE code verifier: é");
}

#[test]
fn parser_accepts_every_unreserved_character() {
    let text = "ABCDEFGHIJKLMNOPQRSTUVWXYZabcdefghijklmnopqrstuvwxyz0123456789-._~";
    let parsed = PkceCodeVerifier::parse(text).unwrap();
    assert_eq!(parsed.to_text(), text);
    assert_eq!(PkceCodeVerifier::parse("").unwrap().expose(), b"");
}
