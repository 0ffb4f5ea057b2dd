//! Bridge between a networked cabinet I/O controller and local readers: the
//! datagram codec, the session state machine with its handshake on the
//! active flag, and the fixed layout of the shared segment.

pub mod api;
pub mod protocol;
pub mod server;
pub mod shmem;
