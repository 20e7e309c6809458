use scythe::Cause;
use scythe::Error;

fn cause(code: u64, text: &str) -> Cause {
    Cause { code, text: String::from(text) }
}

#[test]
fn message_absent_by_default() {
    let e = Error::from_public_error(cause(7, "boom"));
    assert!(e.message().is_none());
}

#[test]
fn message_kept_when_given() {
    let e = Error::from_public_error_with_message(cause(7, "boom"), String::from("context"));
    assert_eq!(e.message(), Some("context"));
    let e = Error::from_error_with_message(cause(7, "boom"), String::from("hidden context"));
    assert_eq!(e.message(), Some("hidden context"));
}

#[test]
fn render_with_message() {
    let e = Error::from_public_error_with_message(cause(7, "boom"), String::from("failed"));
    assert_eq!(e.render(), "failed: boom");
}

#[test]
fn render_without_message() {
    let e = Error::from_error(cause(7, "boom"));
    assert_eq!(e.render(), "boom");
}

#[test]
fn downcast_public_recovers_concrete_type() {
    let e = Error::from_public_error(cause(42, "known failure"));
    assert!(!e.is_shielded());
    let c = e.downcast(42).expect("public cause must be recoverable");
    assert_eq!(c.code, 42);
    assert_eq!(c.text, "known failure");
    assert!(e.downcast(41).is_none());
}

#[test]
fn downcast_private_never_recovers() {
    let e = Error::from_error(cause(42, "internal failure"));
    assert!(e.is_shielded());
    assert!(e.downcast(42).is_none());
    assert!(e.downcast(0).is_none());
    // Display and chain traversal still reach the hidden cause's text.
    assert_eq!(e.source_text(), "internal failure");
    assert_eq!(e.render(), "internal failure");
}
