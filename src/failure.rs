use vstd::prelude::*;

verus! {

/// The kinds of I/O failure that the relay tells apart.
#[derive(Debug, Clone, Copy, PartialEq, Eq, Structural)]
pub enum ErrorKind {
    ConnectionRefused,
    ConnectionReset,
    ConnectionAborted,
    NotConnected,
    AddrNotAvailable,
    BrokenPipe,
    InvalidInput,
    InvalidData,
    TimedOut,
    WriteZero,
    Interrupted,
    Unsupported,
    OutOfMemory,
    Other,
    /// Any kind not listed above.
    Unlisted,
}

/// An I/O failure: its kind, and a human-readable description of it.
#[derive(Debug)]
pub struct IoFailure {
    pub kind: ErrorKind,
    pub detail: String,
}

impl IoFailure {
    /// Creates a failure of the given kind.
    pub fn new(kind: ErrorKind, detail: String) -> (r: IoFailure)
        ensures
            r.kind == kind,
            r.detail@ == detail@,
    {
        IoFailure { kind, detail }
    }
}

/// The line the server logs when a handler task failed.
pub open spec fn server_log_text(kind: ErrorKind, detail: Seq<char>) -> Seq<char> {
    match kind {
        ErrorKind::BrokenPipe => "A pipe closed unexpectedly"@,
        ErrorKind::InvalidData => "Received invalid data"@,
        ErrorKind::TimedOut => "Request timed out"@,
        ErrorKind::Interrupted => "Receiving data was interrupted"@,
        ErrorKind::Unsupported => "Receiving data over internet is not supported"@,
        ErrorKind::OutOfMemory => "Request used too much memory"@,
        ErrorKind::Other => "Unexpected error occured"@,
        _ => "Unhandled error occured: "@ + detail,
    }
}

/// The message the client stops with when sending a request failed.
pub open spec fn send_failure_text(kind: ErrorKind, detail: Seq<char>) -> Seq<char> {
    match kind {
        ErrorKind::ConnectionRefused => "The server refused to connect!"@,
        ErrorKind::ConnectionReset => "The connection was reset by the server!"@,
        ErrorKind::ConnectionAborted => "The server aborted the connection!"@,
        ErrorKind::NotConnected => "The application tried to send the message before the connection was active!"@,
        ErrorKind::AddrNotAvailable => "The requested address wasn't available!"@,
        ErrorKind::BrokenPipe => "The pipe broke!"@,
        ErrorKind::InvalidInput => "The server address is invalid!\n"@ + detail,
        ErrorKind::TimedOut => "The connection took too long!"@,
        ErrorKind::WriteZero => "0 bytes were sent!"@,
        ErrorKind::Interrupted => "The connection was interrupted!"@,
        ErrorKind::Unsupported => "You don't have an internet connection!"@,
        ErrorKind::OutOfMemory => "Sending the message took too much memory!"@,
        ErrorKind::Other => "An unknown error occured!\n"@ + detail,
        _ => "An unhandled error occured!\n"@ + detail,
    }
}

/// The message the client stops with when receiving the history failed.
pub open spec fn receive_failure_text(kind: ErrorKind, detail: Seq<char>) -> Seq<char> {
    match kind {
        ErrorKind::ConnectionRefused => "The server refused to connect!"@,
        ErrorKind::ConnectionReset => "The connection was reset by the server!"@,
        ErrorKind::ConnectionAborted => "The server aborted the connection!"@,
        ErrorKind::NotConnected => "The application tried to send the message before the connection was active!"@,
        ErrorKind::BrokenPipe => "The pipe broke!"@,
        ErrorKind::InvalidData => "The message wasn't valid utf-8!"@,
        ErrorKind::TimedOut => "The connection took too long!"@,
        ErrorKind::Interrupted => "The connection was interrupted!"@,
        ErrorKind::OutOfMemory => "The received messages took too much memory!"@,
        ErrorKind::Other => "An unknown error occured!\n"@ + detail,
        _ => "An unhandled error occured!\n"@ + detail,
    }
}

fn text(s: &str) -> (r: String)
    ensures
        r@ == s@,
{
    String::from_str(s)
}

fn text_with_detail(head: &str, detail: &String) -> (r: String)
    ensures
        r@ == head@ + detail@,
{
    String::from_str(head).concat(detail.as_str())
}

impl IoFailure {
    /// The line the server logs for this failure of a handler task.
    pub fn server_log_message(&self) -> (r: String)
        ensures
            r@ == server_log_text(self.kind, self.detail@),
    {
        match self.kind {
            ErrorKind::BrokenPipe => text("A pipe closed unexpectedly"),
            ErrorKind::InvalidData => text("Received invalid data"),
            ErrorKind::TimedOut => text("Request timed out"),
            ErrorKind::Interrupted => text("Receiving data was interrupted"),
            ErrorKind::Unsupported => text("Receiving data over internet is not supported"),
            ErrorKind::OutOfMemory => text("Request used too much memory"),
            ErrorKind::Other => text("Unexpected error occured"),
            _ => text_with_detail("Unhandled error occured: ", &self.detail),
        }
    }

    /// The message the client stops with when this failure came while sending.
    pub fn send_failure_message(&self) -> (r: String)
        ensures
            r@ == send_failure_text(self.kind, self.detail@),
    {
        match self.kind {
            ErrorKind::ConnectionRefused => text("The server refused to connect!"),
            ErrorKind::ConnectionReset => text("The connection was reset by the server!"),
            ErrorKind::ConnectionAborted => text("The server aborted the connection!"),
            ErrorKind::NotConnected => text(
                "The application tried to send the message before the connection was active!",
            ),
            ErrorKind::AddrNotAvailable => text("The requested address wasn't available!"),
            ErrorKind::BrokenPipe => text("The pipe broke!"),
            ErrorKind::InvalidInput => text_with_detail(
                "The server address is invalid!\n",
                &self.detail,
            ),
            ErrorKind::TimedOut => text("The connection took too long!"),
            ErrorKind::WriteZero => text("0 bytes were sent!"),
            ErrorKind::Interrupted => text("The connection was interrupted!"),
            ErrorKind::Unsupported => text("You don't have an internet connection!"),
            ErrorKind::OutOfMemory => text("Sending the message took too much memory!"),
            ErrorKind::Other => text_with_detail("An unknown error occured!\n", &self.detail),
            _ => text_with_detail("An unhandled error occured!\n", &self.detail),
        }
    }

    /// The message the client stops with when this failure came while receiving.
    pub fn receive_failure_message(&self) -> (r: String)
        ensures
            r@ == receive_failure_text(self.kind, self.detail@),
    {
        match self.kind {
            ErrorKind::ConnectionRefused => text("The server refused to connect!"),
            ErrorKind::ConnectionReset => text("The connection was reset by the server!"),
            ErrorKind::ConnectionAborted => text("The server aborted the connection!"),
            ErrorKind::NotConnected => text(
                "The application tried to send the message before the connection was active!",
            ),
            ErrorKind::BrokenPipe => text("The pipe broke!"),
            ErrorKind::InvalidData => text("The message wasn't valid utf-8!"),
            ErrorKind::TimedOut => text("The connection took too long!"),
            ErrorKind::Interrupted => text("The connection was interrupted!"),
            ErrorKind::OutOfMemory => text("The received messages took too much memory!"),
            ErrorKind::Other => text_with_detail("An unknown error occured!\n", &self.detail),
            _ => text_with_detail("An unhandled error occured!\n", &self.detail),
        }
    }
}

} // verus!
