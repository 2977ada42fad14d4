use relay_core::error::RelayError;
use std::io::{Error, ErrorKind};

#[test]
fn own_errors_have_their_wording() {
    assert_eq!(RelayError::PipeClosed.message(), Some("Pipe read EOF"));
    assert_eq!(RelayError::Timeout.message(), Some("Timeout"));
    assert_eq!(RelayError::ConnectionAborted.message(), Some("Connection aborted"));
    assert_eq!(RelayError::ChannelClosed.message(), Some("Channel closed"));
    assert_eq!(RelayError::WriteZero.message(), Some("Write zero"));
}

#[test]
fn errors_of_io_calls_carry_their_own_description() {
    let failure = |kind| Error::new(kind, "x");
    assert_eq!(RelayError::Connect(failure(ErrorKind::ConnectionRefused)).message(), None);
    assert_eq!(RelayError::Read(failure(ErrorKind::ConnectionReset)).message(), None);
    assert_eq!(RelayError::Write(failure(ErrorKind::BrokenPipe)).message(), None);
}

#[test]
fn io_error_inside_is_handed_out() {
    let kind = |e: RelayError| e.into_io().map(|inner| inner.kind());
    assert_eq!(
        kind(RelayError::Connect(Error::new(ErrorKind::ConnectionRefused, "x"))),
        Some(ErrorKind::ConnectionRefused)
    );
    assert_eq!(
        kind(RelayError::Read(Error::new(ErrorKind::ConnectionReset, "x"))),
        Some(ErrorKind::ConnectionReset)
    );
    assert_eq!(
        kind(RelayError::Write(Error::new(ErrorKind::BrokenPipe, "x"))),
        Some(ErrorKind::BrokenPipe)
    );
    assert_eq!(kind(RelayError::Timeout), None);
    assert_eq!(kind(RelayError::PipeClosed), None);
    assert_eq!(kind(RelayError::ConnectionAborted), None);
    assert_eq!(kind(RelayError::ChannelClosed), None);
    assert_eq!(kind(RelayError::WriteZero), None);
}
