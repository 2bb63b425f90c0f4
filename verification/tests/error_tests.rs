use swarmy_core::error::{ErrorKind, SwarmyTauriError};

fn all_variants(detail: &str) -> Vec<SwarmyTauriError> {
    vec![
        SwarmyTauriError::StdErr(detail.to_string()),
        SwarmyTauriError::S2ProtoErr(detail.to_string()),
        SwarmyTauriError::StdIo(detail.to_string()),
        SwarmyTauriError::Polars(detail.to_string()),
        SwarmyTauriError::Utf8(detail.to_string()),
        SwarmyTauriError::Other(detail.to_string()),
    ]
}

#[test]
fn kind_of_each_variant() {
    let kinds: Vec<ErrorKind> = all_variants("x").iter().map(|e| e.kind()).collect();
    assert_eq!(
        kinds,
        vec![
            ErrorKind::StdErr,
            ErrorKind::S2Proto,
            ErrorKind::Io,
            ErrorKind::Polars,
            ErrorKind::Utf8,
            ErrorKind::Other,
        ]
    );
}

#[test]
fn tag_of_each_kind() {
    assert_eq!(ErrorKind::StdErr.tag(), "stdErr");
    assert_eq!(ErrorKind::Io.tag(), "io");
    assert_eq!(ErrorKind::Utf8.tag(), "utf8");
    assert_eq!(ErrorKind::S2Proto.tag(), "s2Proto");
    assert_eq!(ErrorKind::Polars.tag(), "polars");
    assert_eq!(ErrorKind::Other.tag(), "other");
}

#[test]
fn detail_is_the_cause() {
    for e in all_variants("the cause") {
        assert_eq!(e.detail(), "the cause");
    }
}

#[test]
fn message_has_prefix_and_cause() {
    let messages: Vec<String> = all_variants("boom").iter().map(|e| e.message()).collect();
    assert_eq!(
        messages,
        vec![
            "StdError: boom",
            "S2proto Error: boom",
            "StdIoError: boom",
            "Polars Error: boom",
            "UTF8 Error: boom",
            "Other Error: boom",
        ]
    );
}

#[test]
fn string_from_error_is_its_message() {
    for e in all_variants("why") {
        let expected = e.message();
        assert_eq!(String::from(e), expected);
    }
}

#[test]
fn display_text_of_each_variant() {
    let shown: Vec<String> =
        all_variants("boom").iter().map(|e| e.to_display_string()).collect();
    assert_eq!(
        shown,
        vec![
            "StdError",
            "S2proto Error",
            "boom",
            "Polars Error: boom",
            "UTF8 Error: boom",
            "Other Error: boom",
        ]
    );
}

#[test]
fn message_of_empty_cause_is_the_prefix() {
    assert_eq!(SwarmyTauriError::StdIo(String::new()).message(), "StdIoError: ");
}
