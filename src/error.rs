use vstd::prelude::*;

verus! {

/// Failures of the protocol engine.
#[derive(Clone, Copy, Debug, PartialEq, Eq, Structural)]
pub enum ZKError {
    /// The device is unreachable or rejected the handshake.
    ConnectionError,
    /// A reply was short, malformed, or carried a status where success was required.
    ResponseError,
    /// The transport failed, a timeout included.
    NetworkError,
    /// A record width with no known layout.
    UnsupportedRecordSize,
}

/// The description of each failure.
pub open spec fn error_message(e: ZKError) -> Seq<char> {
    match e {
        ZKError::ConnectionError => "Connection error"@,
        ZKError::ResponseError => "Response error"@,
        ZKError::NetworkError => "Network error"@,
        ZKError::UnsupportedRecordSize => "Unsupported Record Size"@,
    }
}

impl ZKError {
    /// A short description of the failure.
    pub fn message(&self) -> (r: &'static str)
        ensures
            r@ == error_message(*self),
    {
        match self {
            ZKError::ConnectionError => "Connection error",
            ZKError::ResponseError => "Response error",
            ZKError::NetworkError => "Network error",
            ZKError::UnsupportedRecordSize => "Unsupported Record Size",
        }
    }
}

} // verus!
