//! The failures that the codecs, the handshake and the relay report.

use vstd::prelude::*;

verus! {

/// What the logic reads of a failure of the Bluetooth transport.
#[derive(Debug, Clone, Copy, PartialEq, Eq)]
pub enum TransportFault {
    /// The adapter or the device was not found.
    NotFound,
    /// The services of the device were not resolved yet.
    ServicesUnresolved,
    /// Any other failure of the link.
    Other,
}

/// What the logic reads of a failure of a byte stream.
#[derive(Debug, Clone, Copy, PartialEq, Eq)]
pub enum IoFault {
    /// The operation would have had to wait.
    WouldBlock,
    /// The peer is gone.
    BrokenPipe,
    /// The input ended inside a value.
    UnexpectedEof,
    /// Any other failure.
    Other,
}

/// What went wrong.
#[allow(inconsistent_fields)]
#[derive(Debug, Clone, Copy, PartialEq, Eq)]
pub enum Error {
    /// The Bluetooth transport failed.
    Bluetooth(TransportFault),
    /// A byte stream failed.
    Io(IoFault),
    /// A byte did not hold one of the values expected of it.
    Parse { expected: &'static str, position: usize, actual: u8 },
    /// A record of fixed size came with another number of bytes.
    Length { expected: usize, actual: usize },
    /// The band ended the handshake with this notification.
    Protocol { notification: u8 },
}

impl Error {
    /// The error for a buffer that should have held a `T` and holds
    /// another number of bytes.
    pub fn vec_len<T>(v: Vec<u8>) -> (e: Error)
        ensures
            e == (Error::Length {
                expected: vstd::layout::size_of_as_usize::<T>(),
                actual: v@.len() as usize,
            }),
    {
        Error::Length { expected: core::mem::size_of::<T>(), actual: v.len() }
    }

    /// Whether the orchestrator may try the connection again after this
    /// error: only a transport that found nothing or has not resolved the
    /// services yet is worth a retry.
    pub open spec fn spec_is_retryable(&self) -> bool {
        *self == Error::Bluetooth(TransportFault::NotFound)
            || *self == Error::Bluetooth(TransportFault::ServicesUnresolved)
    }

    /// Says whether the connection is worth another try.
    #[verifier::when_used_as_spec(spec_is_retryable)]
    pub fn is_retryable(&self) -> (b: bool)
        ensures
            b == self.spec_is_retryable(),
    {
        match self {
            Error::Bluetooth(TransportFault::NotFound) => true,
            Error::Bluetooth(TransportFault::ServicesUnresolved) => true,
            _ => false,
        }
    }
}

} // verus!
