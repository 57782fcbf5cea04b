//! The errors of configuration and of a running session.

use vstd::prelude::*;

verus! {

/// Why a configuration value was turned down.
#[derive(Clone, Copy, Debug, PartialEq, Eq, Structural)]
pub enum ConfigError {
    /// The batch size is not positive, or twice the batch size does not fit
    /// in a signed 64-bit integer.
    InvalidBatchSize,
    /// The start position is negative.
    NegativeStartPosition,
    /// The hand-off queue was asked to hold nothing.
    ZeroCapacity,
}

/// How the transport failed.
#[derive(Clone, Copy, Debug, PartialEq, Eq, Structural)]
pub enum TransportFault {
    /// The stream could not be opened.
    OpenFailed,
    /// A read from the stream failed.
    ReadFailed,
    /// The peer closed the stream.
    PeerClosed,
}

/// The one error that ends a streaming session.
#[derive(Clone, Copy, Debug, PartialEq, Eq, Structural)]
pub enum SessionError {
    /// Opening or reading the stream failed.
    Transport(TransportFault),
    /// The other side of the hand-off is gone.
    ChannelClosed,
}

} // verus!
