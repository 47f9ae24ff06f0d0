//! The outcome of an attempt that may not be possible yet, and what can go
//! wrong on the socket.

use crate::io_kind::ErrorKind;
use vstd::prelude::*;

verus! {

/// What came of an attempt.
#[derive(Debug, Clone, Copy, PartialEq, Eq)]
pub enum Poll<T> {
    /// It was made, with this result.
    Ready(T),
    /// It cannot be made yet.
    Pending,
}

/// What can go wrong on the socket.
#[derive(Debug, Clone, PartialEq, Eq)]
pub enum SockError {
    /// The socket was closed.
    ConnectionClosed,
    /// An IPv6 address cannot be reached without an IPv6 socket.
    NoIpv6Connection,
    /// A relay message broke off inside a packet.
    UnexpectedEof,
    /// The operating system refused the operation, for a reason of this class and
    /// with its own words.
    Io { kind: ErrorKind, text: String },
}

impl SockError {
    /// The class of the error.
    pub fn kind(&self) -> (r: ErrorKind)
        ensures
            r == (match *self {
                SockError::ConnectionClosed => ErrorKind::NotConnected,
                SockError::UnexpectedEof => ErrorKind::UnexpectedEof,
                SockError::NoIpv6Connection => ErrorKind::Other,
                SockError::Io { kind, .. } => kind,
            }),
    {
        match self {
            SockError::ConnectionClosed => ErrorKind::NotConnected,
            SockError::UnexpectedEof => ErrorKind::UnexpectedEof,
            SockError::NoIpv6Connection => ErrorKind::Other,
            SockError::Io { kind, .. } => *kind,
        }
    }
}

} // verus!
