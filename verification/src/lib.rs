//! Verified core of a login gateway for a legacy binary protocol: the block
//! cipher and its key schedule, the packet codec, the packet checksum and the
//! per-connection state machine.

pub mod endian;
pub mod error;
pub mod blowfish;
pub mod packet;
pub mod loginserver;
