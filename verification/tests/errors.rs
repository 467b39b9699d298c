use socket_bridge::error::{
    Error, ErrorKind, INVALID_TEXT, NO_PEER, OVERRUN, UNEXPECTED_EOF, WRITE_ZERO,
};

#[test]
fn new_keeps_kind_and_message() {
    let error = Error::new(ErrorKind::IoError, String::from("connection reset"));
    assert_eq!(error.kind, ErrorKind::IoError);
    assert_eq!(error.message, "connection reset");
}

#[test]
fn fixed_copies_the_text() {
    let error = Error::fixed(ErrorKind::UnexpectedEofError, UNEXPECTED_EOF);
    assert_eq!(
        error,
        Error {
            kind: ErrorKind::UnexpectedEofError,
            message: String::from("failed to fill whole buffer"),
        }
    );
}

#[test]
fn describe_names_the_kind_before_the_message() {
    let error = Error::new(ErrorKind::BindError, String::from("address in use"));
    assert_eq!(error.describe(), "BindError: address in use");
}

#[test]
fn describe_of_an_empty_message_ends_with_the_separator() {
    let error = Error::new(ErrorKind::IoError, String::new());
    assert_eq!(error.describe(), "IoError: ");
}

#[test]
fn every_kind_has_its_own_name() {
    let kinds = [
        (ErrorKind::ConnectionError, "ConnectionError"),
        (ErrorKind::BindError, "BindError"),
        (ErrorKind::AddressError, "AddressError"),
        (ErrorKind::NotConnectedError, "NotConnectedError"),
        (ErrorKind::IoError, "IoError"),
        (ErrorKind::UnexpectedEofError, "UnexpectedEofError"),
        (ErrorKind::EncodingError, "EncodingError"),
    ];
    for (kind, name) in kinds {
        assert_eq!(kind.name(), name);
    }
    for (i, (left, _)) in kinds.iter().enumerate() {
        for (j, (right, _)) in kinds.iter().enumerate() {
            assert_eq!(left == right, i == j);
        }
    }
}

#[test]
fn the_fixed_messages_read_as_written() {
    assert_eq!(OVERRUN, "transport moved more bytes than requested");
    assert_eq!(UNEXPECTED_EOF, "failed to fill whole buffer");
    assert_eq!(WRITE_ZERO, "failed to write whole buffer");
    assert_eq!(INVALID_TEXT, "stream did not contain valid UTF-8");
    assert_eq!(NO_PEER, "no default peer has been set");
}
