//! Error taxonomy of the client: connection failures, which are fatal to the
//! attempted operation, and session failures raised while sending or waiting.

use vstd::prelude::*;

verus! {

/// A failure reported by the transport while reading, writing or closing the
/// channel. The engine only ever distinguishes the variants below; every other
/// transport failure is carried as `Other`, with nothing further modeled.
#[derive(Clone, Copy, Debug, PartialEq, Eq, Structural)]
pub enum TransportError {
    /// The close handshake has completed and the channel is gone.
    ConnectionClosed,
    /// The channel was already closed when the operation was attempted.
    AlreadyClosed,
    /// A text frame arrived that was not valid UTF-8.
    Utf8,
    /// Any other transport failure.
    Other,
}

/// The transport failure type as callers of the session see it.
pub type NetworkError = TransportError;

/// An error raised while connecting to the browser instance.
#[derive(Clone, Copy, Debug, PartialEq, Eq, Structural)]
pub enum ClientError {
    /// There was an issue connecting to the browser instance.
    /// This can happen when no instance exposes a debugging port at the
    /// requested address, or when every resolved endpoint refused the upgrade.
    CannotConnect,
    /// The tab that was asked for does not exist in the directory.
    InvalidTab,
}

/// An error raised while sending a request or waiting for a frame.
#[derive(Debug)]
pub enum MessageError {
    /// The transport failed while sending or receiving a frame.
    NetworkError(TransportError),
    /// The peer understood the request and rejected it; the full response
    /// frame is carried for inspection.
    InvalidRequest(crate::frame::Frame),
    /// A frame was received that could not be decoded.
    InvalidResponse,
    /// Nothing is currently available, or a wait exhausted its budget
    /// without a match.
    NoMessage,
}

/// How a transport failure surfaces to the caller: a frame that was not valid
/// UTF-8 is a malformed frame, every other failure is a network error.
pub open spec fn err_from_transport(te: TransportError) -> MessageError {
    match te {
        TransportError::Utf8 => MessageError::InvalidResponse,
        _ => MessageError::NetworkError(te),
    }
}

impl From<TransportError> for MessageError {
    fn from(te: TransportError) -> (r: MessageError) {
        match te {
            TransportError::Utf8 => MessageError::InvalidResponse,
            _ => MessageError::NetworkError(te),
        }
    }
}

impl vstd::std_specs::convert::FromSpecImpl<TransportError> for MessageError {
    open spec fn obeys_from_spec() -> bool {
        true
    }

    open spec fn from_spec(te: TransportError) -> MessageError {
        err_from_transport(te)
    }
}

} // verus!
