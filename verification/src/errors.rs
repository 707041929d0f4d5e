use vstd::prelude::*;

verus! {

/// Everything that can go wrong in one chat call.
///
/// The first three are fatal for the call that raised them; a
/// `ProtocolFrameError` only marks one inbound message as unusable, and a
/// `RemoteApplicationError` reports the service's own error code without
/// touching the transcript.
#[derive(Clone, Copy, Debug, PartialEq, Eq, Structural)]
pub enum SparkError {
    /// The endpoint could not be parsed into host and path components.
    InvalidEndpoint,
    /// The remote rejected the handshake as unauthorized.
    AuthenticationError,
    /// Any other transport-level failure while opening the connection.
    ConnectionError,
    /// An inbound message that is not a well-formed protocol document.
    ProtocolFrameError,
    /// The inbound document carried a non-zero application error code.
    RemoteApplicationError(i64),
}

/// The fixed diagnostic text of each error kind.
pub open spec fn message_of(e: SparkError) -> Seq<char> {
    match e {
        SparkError::InvalidEndpoint => "the endpoint could not be parsed into host and path"@,
        SparkError::AuthenticationError => "the handshake was rejected as unauthorized; the credentials may be wrong"@,
        SparkError::ConnectionError => "the connection could not be established"@,
        SparkError::ProtocolFrameError => "an inbound message was not a well-formed protocol document"@,
        SparkError::RemoteApplicationError(_) => "the service reported an application error code"@,
    }
}

impl SparkError {
    /// A printable description of the error.
    pub fn message(&self) -> (r: String)
        ensures
            r@ == message_of(*self),
    {
        match self {
            SparkError::InvalidEndpoint => String::from_str(
                "the endpoint could not be parsed into host and path",
            ),
            SparkError::AuthenticationError => String::from_str(
                "the handshake was rejected as unauthorized; the credentials may be wrong",
            ),
            SparkError::ConnectionError => String::from_str(
                "the connection could not be established",
            ),
            SparkError::ProtocolFrameError => String::from_str(
                "an inbound message was not a well-formed protocol document",
            ),
            SparkError::RemoteApplicationError(_) => String::from_str(
                "the service reported an application error code",
            ),
        }
    }
}

/// Decides what a failed connection handshake means: a rejection that came
/// back as an HTTP response with status 401 is an authentication failure,
/// anything else is a plain transport failure.
pub fn classify_handshake_failure(http_status: Option<u16>) -> (e: SparkError)
    ensures
        e == (if http_status == Some(401u16) {
            SparkError::AuthenticationError
        } else {
            SparkError::ConnectionError
        }),
{
    match http_status {
        Some(401u16) => SparkError::AuthenticationError,
        _ => SparkError::ConnectionError,
    }
}

} // verus!
