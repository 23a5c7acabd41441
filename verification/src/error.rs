//! The closed failure taxonomy of the session layer, and the mapping of
//! collaborator and filesystem failures into it.
//!
//! Every failure that crosses back to the caller is one of these variants;
//! no raw collaborator error ever escapes.

use vstd::prelude::*;
use vstd::string::StringExecFns;

verus! {

/// Errors that can occur during wormhole operations.
#[derive(Debug, Clone)]
pub enum WormholeError {
    /// Connection to the rendezvous or relay infrastructure failed.
    ConnectionFailed(String),
    /// The given wormhole code is not well formed.
    InvalidCode(String),
    /// The file transfer itself failed.
    TransferFailed(String),
    /// The peer withdrew before an offer arrived.
    Cancelled,
    /// The file to send does not exist.
    FileNotFound(String),
    /// Opening or writing the destination failed.
    IoError(String),
    /// The peer broke the transfer protocol.
    ProtocolError(String),
    /// The session holds no phase that permits the requested operation.
    NoActiveSession,
}

impl WormholeError {
    /// The user-visible text of this error.
    pub open spec fn spec_message(&self) -> Seq<char> {
        match self {
            WormholeError::ConnectionFailed(msg) => "Connection failed: "@ + msg@,
            WormholeError::InvalidCode(code) => "Invalid code: "@ + code@,
            WormholeError::TransferFailed(msg) => "Transfer failed: "@ + msg@,
            WormholeError::Cancelled => "Operation cancelled"@,
            WormholeError::FileNotFound(path) => "File not found: "@ + path@,
            WormholeError::IoError(msg) => "IO error: "@ + msg@,
            WormholeError::ProtocolError(msg) => "Protocol error: "@ + msg@,
            WormholeError::NoActiveSession => "No active wormhole session"@,
        }
    }

    /// Renders the error as text that distinguishes network, protocol and
    /// local I/O failures.
    pub fn message(&self) -> (r: String)
        ensures
            r@ == self.spec_message(),
    {
        match self {
            WormholeError::ConnectionFailed(msg) => String::from_str("Connection failed: ").concat(
                msg.as_str(),
            ),
            WormholeError::InvalidCode(code) => String::from_str("Invalid code: ").concat(
                code.as_str(),
            ),
            WormholeError::TransferFailed(msg) => String::from_str("Transfer failed: ").concat(
                msg.as_str(),
            ),
            WormholeError::Cancelled => String::from_str("Operation cancelled"),
            WormholeError::FileNotFound(path) => String::from_str("File not found: ").concat(
                path.as_str(),
            ),
            WormholeError::IoError(msg) => String::from_str("IO error: ").concat(msg.as_str()),
            WormholeError::ProtocolError(msg) => String::from_str("Protocol error: ").concat(
                msg.as_str(),
            ),
            WormholeError::NoActiveSession => String::from_str("No active wormhole session"),
        }
    }
}

/// Maps a rendezvous or key-exchange outcome: any failure detail becomes
/// `ConnectionFailed` carrying that detail; success is passed through.
pub fn map_connection_failure<T>(outcome: Result<T, String>) -> (r: Result<T, WormholeError>)
    ensures
        outcome matches Ok(v) ==> r matches Ok(w) && w == v,
        outcome matches Err(detail) ==> r == Err::<T, WormholeError>(
            WormholeError::ConnectionFailed(detail),
        ),
{
    match outcome {
        Ok(v) => Ok(v),
        Err(detail) => Err(WormholeError::ConnectionFailed(detail)),
    }
}

/// Maps a payload-transfer outcome: any failure detail becomes
/// `TransferFailed` carrying that detail; success is passed through.
pub fn map_transfer_failure<T>(outcome: Result<T, String>) -> (r: Result<T, WormholeError>)
    ensures
        outcome matches Ok(v) ==> r matches Ok(w) && w == v,
        outcome matches Err(detail) ==> r == Err::<T, WormholeError>(
            WormholeError::TransferFailed(detail),
        ),
{
    match outcome {
        Ok(v) => Ok(v),
        Err(detail) => Err(WormholeError::TransferFailed(detail)),
    }
}

/// Maps a local filesystem outcome: any failure detail becomes `IoError`
/// carrying that detail; success is passed through.
pub fn map_io_failure<T>(outcome: Result<T, String>) -> (r: Result<T, WormholeError>)
    ensures
        outcome matches Ok(v) ==> r matches Ok(w) && w == v,
        outcome matches Err(detail) ==> r == Err::<T, WormholeError>(WormholeError::IoError(detail)),
{
    match outcome {
        Ok(v) => Ok(v),
        Err(detail) => Err(WormholeError::IoError(detail)),
    }
}

} // verus!
