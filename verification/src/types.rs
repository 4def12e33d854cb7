use vstd::prelude::*;

verus! {

/// The failure a manager operation reports to its caller. Errors are returned,
/// never swallowed; the only advisory exceptions are the socket error slots
/// drained (and discarded) during `tcp_accept` and `read_stream`.
#[derive(Clone, Copy, Debug, PartialEq, Eq, Structural)]
pub enum NetError {
    /// The listening socket could not be bound or registered.
    Bind,
    /// The outbound connection could not be started or registered.
    Connect,
    /// No socket is registered under the given handle.
    NotFound,
    /// A socket is registered under the handle, but it is the other variant.
    WrongKind,
    /// The address is not an IPv4 address; no other family is supported.
    UnsupportedAddressFamily,
    /// The operation cannot complete now; a later readiness event will say when
    /// to retry.
    WouldBlock,
    /// The OS reported a failure on the socket operation itself.
    Io,
}

/// The failure an event-draining operation reports.
#[derive(Clone, Copy, Debug, PartialEq, Eq, Structural)]
pub enum QueueError {
    /// No event is queued right now (non-blocking drain only).
    Empty,
    /// The polling thread's sending side is gone.
    Disconnected,
    /// The waiting time elapsed before an event arrived (timed drain only).
    Timeout,
}

/// Which half of a stream to shut down.
#[derive(Clone, Copy, Debug, PartialEq, Eq, Structural)]
pub enum ShutdownMode {
    Read,
    Write,
    Both,
}

/// The variant a registry entry holds: a listening socket or a connected
/// stream.
#[derive(Clone, Copy, Debug, PartialEq, Eq, Structural)]
pub enum SockKind {
    Listener,
    Stream,
}

} // verus!
