//! An edge-triggered TCP connection manager: it multiplexes listening sockets
//! and connected streams over one OS readiness-polling facility, runs the
//! blocking wait on a background thread, and republishes readiness events to
//! the consumer through a FIFO queue.

pub mod codec;
pub mod manager;
pub mod registry;
pub mod sys;
pub mod types;

pub use manager::NetLoop;
pub use codec::{addr_from_bytes, addr_to_bytes, event_to_ints, AddrV4, RawEvent, SockAddr};
pub use types::{NetError, QueueError, ShutdownMode, SockKind};
