//! The ways in which the gateway can fail.

use vstd::prelude::*;

verus! {

/// What went wrong, and with it how far the damage reaches.
#[derive(Clone, Copy, Debug, PartialEq, Eq, Structural)]
pub enum ProtocolError {
    /// A cipher key was empty or longer than 56 bytes. The server cannot start.
    InvalidKeySize,
    /// A payload handed to the cipher was not a positive multiple of eight
    /// bytes long. The frame is dropped.
    InvalidBlockAlignment,
    /// Fewer bytes were available than a read asked for.
    ShortRead,
    /// The checksum stored in a payload is not the checksum of the payload.
    /// The connection is closed.
    ChecksumMismatch,
    /// The first byte of a payload names no known request. The frame is
    /// reported and skipped.
    UnknownOpcode,
    /// The listener could not accept a connection. It goes on listening.
    AcceptError,
}

/// How far an error reaches.
#[derive(Clone, Copy, Debug, PartialEq, Eq, Structural)]
pub enum Reach {
    /// The server does not come up.
    Startup,
    /// One frame is lost; the connection goes on.
    Frame,
    /// One connection ends; the others go on.
    Connection,
    /// One accept fails; the listener goes on.
    Listener,
}

impl ProtocolError {
    /// The reach of each error as a frame handler meets it.
    pub open spec fn spec_reach(self) -> Reach {
        match self {
            ProtocolError::InvalidKeySize => Reach::Startup,
            ProtocolError::InvalidBlockAlignment => Reach::Frame,
            ProtocolError::ShortRead => Reach::Connection,
            ProtocolError::ChecksumMismatch => Reach::Connection,
            ProtocolError::UnknownOpcode => Reach::Frame,
            ProtocolError::AcceptError => Reach::Listener,
        }
    }

    /// How far this error reaches.
    #[verifier::when_used_as_spec(spec_reach)]
    pub fn reach(self) -> (r: Reach)
        ensures
            r == self.spec_reach(),
    {
        match self {
            ProtocolError::InvalidKeySize => Reach::Startup,
            ProtocolError::InvalidBlockAlignment => Reach::Frame,
            ProtocolError::ShortRead => Reach::Connection,
            ProtocolError::ChecksumMismatch => Reach::Connection,
            ProtocolError::UnknownOpcode => Reach::Frame,
            ProtocolError::AcceptError => Reach::Listener,
        }
    }
}

} // verus!
