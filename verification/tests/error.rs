use opendal::error::other;
use opendal::error::BackendError;
use opendal::error::ContextEntry;
use opendal::error::Error;
use opendal::error::ErrorKind;

#[test]
fn error_other_keeps_cause_and_context() {
    let source = BackendError::new(vec![ContextEntry::new("root", "/x/")], "boom");
    let err = other(source);
    assert_eq!(err.kind(), ErrorKind::Other);
    assert_eq!(err.cause(), "boom");
    assert_eq!(err.context("root"), Some("/x/"));
}

#[test]
fn error_context_gives_the_first_value_of_a_key() {
    let context = vec![
        ContextEntry::new("op", "read"),
        ContextEntry::new("path", "a"),
        ContextEntry::new("path", "b"),
    ];
    let err = Error::new(ErrorKind::NotFound, BackendError::new(context, "gone"));
    assert_eq!(err.context("path"), Some("a"));
    assert_eq!(err.context("op"), Some("read"));
    assert_eq!(err.context("root"), None);
}

#[test]
fn error_to_string_names_kind_cause_and_context() {
    let context = vec![ContextEntry::new("op", "stat"), ContextEntry::new("path", "/a/f")];
    let err = Error::new(ErrorKind::NotFound, BackendError::new(context, "file does not exist"));
    assert_eq!(err.to_string(), "not found: file does not exist, op: stat, path: /a/f");
    let err = Error::new(ErrorKind::Incomplete, BackendError::new(Vec::new(), "closed"));
    assert_eq!(err.to_string(), "incomplete: closed");
}

#[test]
fn error_kind_labels() {
    assert_eq!(ErrorKind::NotFound.label(), "not found");
    assert_eq!(ErrorKind::AlreadyExists.label(), "already exists");
    assert_eq!(ErrorKind::IsADirectory.label(), "is a directory");
    assert_eq!(ErrorKind::NotADirectory.label(), "not a directory");
    assert_eq!(ErrorKind::InvalidConfig.label(), "invalid config");
    assert_eq!(ErrorKind::Incomplete.label(), "incomplete");
    assert_eq!(ErrorKind::Other.label(), "other");
}
