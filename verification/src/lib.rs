//! Host-side gateway for a confidential-computing stack: key derivation and
//! TLS channel policy for the guest-facing encrypted transport, the chunked
//! framing protocol that runs over it, and the per-connection session relay
//! that bridges framed requests onto local trusted-application sockets.

pub mod channel;
pub mod codec;
pub mod packet;
pub mod psk;
pub mod relay;

use vstd::prelude::*;

verus! {

/// Size in bytes of one chunk on the encrypted stream.
pub const CHUNK_SIZE: usize = 512;

} // verus!
