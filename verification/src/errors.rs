use vstd::prelude::*;

verus! {

/// What the exchange learned about a failed transport operation.
/// `TimedOut` marks the synthesized error returned when the timeout
/// budget is exhausted without a matching reply; every other
/// transport failure is carried as `Other`.
#[derive(Clone, Copy, Debug, PartialEq, Eq, Structural)]
pub enum IoErrorKind {
    TimedOut,
    Other,
}

/// The error taxonomy of the library.
#[derive(Clone, Copy, Debug, PartialEq, Eq, Structural)]
pub enum Error {
    /// The destination's address family is not supported.
    InvalidProtocol,
    /// An encode failure, a buffer sizing failure, or a clock anomaly.
    InternalError,
    /// The received IPv4 header is malformed.
    DecodeV4Error,
    /// The received ICMP echo reply is malformed.
    DecodeEchoReplyError,
    /// An underlying transport failure, including the synthesized
    /// timeout condition.
    IoError { kind: IoErrorKind },
}

} // verus!
