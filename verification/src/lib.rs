//! Wire codec and request/response rules of the synthetic probe protocol.
//!
//! A request is sixteen bytes: the number of work iterations the server is
//! asked to perform, then the request's index, both as big-endian `u64`.
//! The server echoes the message, and the index read back from a response
//! tells which request it answers.

pub mod payload;
pub mod protocol;
pub mod wire;

pub use payload::{Payload, PayloadError, PAYLOAD_LEN};
pub use protocol::{Packet, SyntheticProtocol};
