use ortie::error::{Error, ErrorKind};
use ortie::secret::Secret;

#[test]
fn error_chain_is_message_then_cause() {
    let plain = Error::new(ErrorKind::Backend, "failed".to_owned());
    assert_eq!(plain.to_text(), "failed");
    assert_eq!(plain.cause, None);
    let caused = Error::with_cause(ErrorKind::Transport, "failed".to_owned(), "why".to_owned());
    assert_eq!(caused.to_text(), "failed: why");
    assert_eq!(caused.kind, ErrorKind::Transport);
}

#[test]
fn provider_error_puts_the_code_in_brackets() {
    let err = Error::provider("What", "the_code", &None, &None);
    assert_eq!((err.kind, err.message.as_str(), err.cause.clone()), (ErrorKind::Provider, "What (code the_code)", None));
    let err = Error::provider("What", "c", &Some("d".to_owned()), &Some("u".to_owned()));
    assert_eq!(err.cause.as_deref(), Some("d: u"));
    let err = Error::provider("What", "c", &None, &Some("u".to_owned()));
    assert_eq!(err.cause.as_deref(), Some("u"));
    let err = Error::provider("What", "c", &Some("d".to_owned()), &None);
    assert_eq!(err.cause.as_deref(), Some("d"));
}

#[test]
fn secret_is_read_only_through_expose() {
    let secret = Secret::new("hunter2".to_owned());
    assert_eq!(secret.expose(), "hunter2");
    assert_eq!(secret.duplicate().expose(), "hunter2");
}
