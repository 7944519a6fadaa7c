//! The two families of failure: a capture device that cannot be used, and a
//! connection that cannot be used right now.

use vstd::prelude::*;

verus! {

/// Why capture could not be opened. Fatal to start-up.
#[derive(Clone, Copy, Debug, PartialEq, Eq, Structural)]
pub enum DeviceError {
    /// There is no default output device.
    NoOutputDevice,
    /// The device could not be asked for, or did not report, any supported
    /// configuration.
    NoSupportedConfig,
    /// The negotiated configuration has no channels.
    NoChannels,
}

/// Why a send or a read did not go through. Always recoverable: the next
/// call starts afresh.
#[derive(Clone, Copy, Debug, PartialEq, Eq, Structural)]
pub enum ConnectionError {
    /// No connection could be established.
    ConnectFailed,
    /// Writing or flushing the samples failed.
    WriteFailed,
    /// Reading failed for a reason other than the timeout.
    ReadFailed,
    /// Nothing arrived within the read timeout.
    TimedOut,
    /// The peer closed the connection.
    Closed,
    /// What arrived is not UTF-8 text.
    InvalidEncoding,
}

} // verus!
