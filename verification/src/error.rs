//! Why a session or a flow ended.

use vstd::prelude::*;

verus! {

/// `std::io::Error`, carried through untouched: the relay hands back the very
/// error that the operating system reported, and never looks inside it.
#[verifier::external_type_specification]
#[verifier::external_body]
pub struct ExIoError(std::io::Error);

/// The terminating error of a session or a flow.
///
/// A session produces exactly one of these, at the moment it ends.
#[derive(Debug)]
pub enum RelayError {
    /// The source reached end of stream: a read produced no bytes while
    /// nothing was waiting to be written.
    PipeClosed,
    /// No activity was seen for the whole idle timeout.
    Timeout,
    /// A liveness probe found that the peer had closed the connection.
    ConnectionAborted,
    /// The flow's mailbox is gone: its entry was removed from the flow table.
    ChannelClosed,
    /// The sink accepted no bytes of a non-empty write.
    WriteZero,
    /// The connection to the target could not be established.
    Connect(std::io::Error),
    /// A read or a receive failed.
    Read(std::io::Error),
    /// A write or a send failed.
    Write(std::io::Error),
}

impl RelayError {
    /// Whether the error was raised by the relay's own rules, as opposed to
    /// one that an I/O call reported.
    pub open spec fn is_own(self) -> bool {
        !(self is Connect || self is Read || self is Write)
    }

    /// The relay's wording for each of its own errors.
    pub open spec fn wording(self) -> Seq<char> {
        match self {
            RelayError::PipeClosed => "Pipe read EOF"@,
            RelayError::Timeout => "Timeout"@,
            RelayError::ConnectionAborted => "Connection aborted"@,
            RelayError::ChannelClosed => "Channel closed"@,
            RelayError::WriteZero => "Write zero"@,
            _ => Seq::empty(),
        }
    }

    /// The text to log for one of the relay's own errors; `None` for an error
    /// that an I/O call reported, which carries its own description.
    pub fn message(&self) -> (text: Option<&'static str>)
        ensures
            text is Some <==> self.is_own(),
            text matches Some(t) ==> t@ == self.wording(),
    {
        match self {
            RelayError::PipeClosed => Some("Pipe read EOF"),
            RelayError::Timeout => Some("Timeout"),
            RelayError::ConnectionAborted => Some("Connection aborted"),
            RelayError::ChannelClosed => Some("Channel closed"),
            RelayError::WriteZero => Some("Write zero"),
            RelayError::Connect(_) => None,
            RelayError::Read(_) => None,
            RelayError::Write(_) => None,
        }
    }

    /// The I/O error inside, if the error came from an I/O call.
    pub fn into_io(self) -> (inner: Option<std::io::Error>)
        ensures
            inner is None <==> self.is_own(),
            inner matches Some(e) ==> (self == RelayError::Connect(e) || self == RelayError::Read(e)
                || self == RelayError::Write(e)),
    {
        match self {
            RelayError::Connect(e) => Some(e),
            RelayError::Read(e) => Some(e),
            RelayError::Write(e) => Some(e),
            _ => None,
        }
    }
}

} // verus!
