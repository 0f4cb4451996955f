use vstd::prelude::*;

verus! {

/// The typed failures that the protocol engine reports to its callers.
#[derive(Debug, Clone, Copy, PartialEq, Eq, Structural)]
pub enum ProtocolError {
    /// The source ended before the byte count that the header declares.
    TruncatedFrame,
    /// A frame whose magic or checksum does not match.
    InvalidFrame,
    /// The handshake received a frame that does not fit its current state.
    UnexpectedResponse,
    /// The peer refused both the signature and the public key.
    AuthRejected,
    /// The peer closed a stream while it was being opened.
    OpenRejected,
    /// Key generation or signing failed.
    SigningError,
    /// An operation named a stream that is closed or was never opened.
    StreamClosed,
    /// The transport failed; the connection can no longer be used.
    ConnectionLost,
    /// A write was attempted while an earlier one is still unacknowledged.
    WritePending,
    /// Every 32-bit local stream id has been handed out.
    IdsExhausted,
    /// A payload longer than a frame's 32-bit length field can state.
    PayloadTooLarge,
}

} // verus!
