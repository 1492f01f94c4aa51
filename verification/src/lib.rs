//! A minimal TCP endpoint in user space.
//!
//! The endpoint takes raw frames from a point-to-point interface, finds the
//! TCP segments in them, keeps one connection per quad, and drives each
//! connection through the passive-open handshake and the bookkeeping of an
//! established connection. It answers with frames that are ready to be sent.
//! Reading from the interface and writing to it is left to the caller.
//!
//! - [`seqnum`]: arithmetic and order on sequence numbers, modulo 2^32.
//! - [`wire`]: the header codec, IPv4 and TCP headers between bytes and values.
//! - [`tcp`]: the connection state machine and its sequence spaces.
//! - [`isn`]: the choice of initial sequence numbers.
//! - [`quad`] and [`table`]: the identity of a connection, and the table of
//!   all connections.
//! - [`emit`]: outbound segments as bytes.
//! - [`demux`]: what a frame holds, and the handling of one frame from end to
//!   end, [`demux::process_frame`].

pub mod demux;
pub mod emit;
pub mod isn;
pub mod quad;
pub mod seqnum;
pub mod table;
pub mod tcp;
pub mod wire;
