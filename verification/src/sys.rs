use vstd::prelude::*;

use crate::codec::RawEvent;
use crate::types::{NetError, QueueError, ShutdownMode};

verus! {

#[verifier::external_type_specification]
#[verifier::external_body]
pub struct ExTcpListener(mio::net::TcpListener);

#[verifier::external_type_specification]
#[verifier::external_body]
pub struct ExTcpStream(mio::net::TcpStream);

#[verifier::external_type_specification]
#[verifier::external_body]
pub struct ExPoll(mio::Poll);

#[verifier::external_type_specification]
#[verifier::external_body]
pub struct ExEvents(mio::Events);

#[verifier::external_type_specification]
#[verifier::external_body]
#[verifier::reject_recursive_types(T)]
pub struct ExSender<T>(std::sync::mpsc::Sender<T>);

#[verifier::external_type_specification]
#[verifier::external_body]
#[verifier::reject_recursive_types(T)]
pub struct ExReceiver<T>(std::sync::mpsc::Receiver<T>);

#[verifier::external_type_specification]
#[verifier::external_body]
pub struct ExIoError(std::io::Error);

/// Relies on mio::Poll::new. A failure to create the OS polling facility is an
/// environment fault, not an operational one, so construction aborts on it.
#[verifier::external_body]
pub(crate) fn poll_new() -> mio::Poll {
    mio::Poll::new().unwrap()
}

/// Relies on std::sync::Arc::clone: the clone refers to the same polling
/// facility.
#[verifier::external_body]
pub(crate) fn poll_share(p: &std::sync::Arc<mio::Poll>) -> (r: std::sync::Arc<mio::Poll>)
    ensures
        r == *p,
{
    std::sync::Arc::clone(p)
}

/// Relies on mio::Events::with_capacity.
#[verifier::external_body]
pub(crate) fn events_new(cap: usize) -> mio::Events {
    mio::Events::with_capacity(cap)
}

/// Relies on mio::Poll::poll with no timeout: blocks until a registered socket
/// has a readiness transition, then fills the event buffer with the
/// notifications. A failed wait leaves no events to deliver.
#[verifier::external_body]
pub(crate) fn poll_wait(p: &std::sync::Arc<mio::Poll>, events: &mut mio::Events) {
    let _ = p.poll(events, None);
}

/// Relies on mio::Events::iter, mio::Event::token and mio::Event::readiness
/// (widened through mio::unix::UnixReady): each buffered notification is
/// carried over one-for-one into its plain form.
#[verifier::external_body]
pub(crate) fn events_collect(events: &mio::Events) -> Vec<RawEvent> {
    let mut out = Vec::new();
    for e in events.iter() {
        let ready = mio::unix::UnixReady::from(e.readiness());
        out.push(RawEvent {
            token: e.token().0,
            readable: ready.is_readable(),
            writable: ready.is_writable(),
            hup: ready.is_hup(),
            error: ready.is_error(),
        });
    }
    out
}

/// Relies on mio::Poll::register: puts the listener under the given token with
/// readable and writable interest in edge-triggered mode, the one registration
/// policy of this manager.
#[verifier::external_body]
pub(crate) fn poll_register_listener(
    p: &std::sync::Arc<mio::Poll>,
    l: &mio::net::TcpListener,
    id: usize,
) -> Result<(), ()> {
    match p.register(
        l,
        mio::Token(id),
        mio::Ready::readable() | mio::Ready::writable(),
        mio::PollOpt::edge(),
    ) {
        Ok(()) => Ok(()),
        Err(_) => Err(()),
    }
}

/// Relies on mio::Poll::register, as for listeners: readable and writable
/// interest in edge-triggered mode.
#[verifier::external_body]
pub(crate) fn poll_register_stream(
    p: &std::sync::Arc<mio::Poll>,
    s: &mio::net::TcpStream,
    id: usize,
) -> Result<(), ()> {
    match p.register(
        s,
        mio::Token(id),
        mio::Ready::readable() | mio::Ready::writable(),
        mio::PollOpt::edge(),
    ) {
        Ok(()) => Ok(()),
        Err(_) => Err(()),
    }
}

/// Relies on mio::net::TcpListener::bind: binds a non-blocking listening
/// socket (with the address-reuse option, as std does) to the given IPv4
/// address and port.
#[verifier::external_body]
pub(crate) fn bind_listener(o0: u8, o1: u8, o2: u8, o3: u8, port: u16) -> (r: Result<
    mio::net::TcpListener,
    NetError,
>)
    ensures
        r matches Err(e) ==> e == NetError::Bind,
{
    match mio::net::TcpListener::bind(&([o0, o1, o2, o3], port).into()) {
        Ok(l) => Ok(l),
        Err(_) => Err(NetError::Bind),
    }
}

/// Relies on mio::net::TcpStream::connect: starts a non-blocking outbound
/// connection to the given IPv4 address and port; completion is signalled by a
/// later writable readiness event.
#[verifier::external_body]
pub(crate) fn connect_stream(o0: u8, o1: u8, o2: u8, o3: u8, port: u16) -> (r: Result<
    mio::net::TcpStream,
    NetError,
>)
    ensures
        r matches Err(e) ==> e == NetError::Connect,
{
    match mio::net::TcpStream::connect(&([o0, o1, o2, o3], port).into()) {
        Ok(s) => Ok(s),
        Err(_) => Err(NetError::Connect),
    }
}

/// Relies on mio::net::TcpListener::accept: takes exactly one pending
/// connection; a would-block report means none is pending right now.
#[verifier::external_body]
pub(crate) fn listener_accept(l: &mio::net::TcpListener) -> (r: Result<
    mio::net::TcpStream,
    NetError,
>)
    ensures
        r matches Err(e) ==> e == NetError::WouldBlock || e == NetError::Io,
{
    match l.accept() {
        Ok((s, _)) => Ok(s),
        Err(e) => Err(
            if e.kind() == std::io::ErrorKind::WouldBlock {
                NetError::WouldBlock
            } else {
                NetError::Io
            },
        ),
    }
}

/// Relies on mio::net::TcpListener::take_error: takes and clears the socket's
/// pending advisory error, if one is recorded.
#[verifier::external_body]
pub(crate) fn listener_take_error(l: &mio::net::TcpListener) -> (r: Result<
    Option<std::io::Error>,
    NetError,
>)
    ensures
        r matches Err(e) ==> e == NetError::Io,
{
    match l.take_error() {
        Ok(o) => Ok(o),
        Err(_) => Err(NetError::Io),
    }
}

/// Relies on mio::net::TcpStream::take_error: takes and clears the socket's
/// pending advisory error, if one is recorded.
#[verifier::external_body]
pub(crate) fn stream_take_error(s: &mio::net::TcpStream) -> (r: Result<
    Option<std::io::Error>,
    NetError,
>)
    ensures
        r matches Err(e) ==> e == NetError::Io,
{
    match s.take_error() {
        Ok(o) => Ok(o),
        Err(_) => Err(NetError::Io),
    }
}

/// Relies on std::io::Read::read through mio::net::TcpStream: on success at
/// most buffer-many bytes are filled in from the front and the rest of the
/// buffer is untouched; the buffer's length never changes. A successful read
/// of zero bytes signals orderly peer shutdown.
#[verifier::external_body]
pub(crate) fn stream_read(s: &mio::net::TcpStream, b: &mut Vec<u8>) -> (r: Result<usize, NetError>)
    ensures
        final(b)@.len() == old(b)@.len(),
        match r {
            Ok(n) => n <= old(b)@.len() && final(b)@.skip(n as int) == old(b)@.skip(n as int),
            Err(e) => e == NetError::WouldBlock || e == NetError::Io,
        },
{
    let mut sr: &mio::net::TcpStream = s;
    match std::io::Read::read(&mut sr, b.as_mut_slice()) {
        Ok(n) => Ok(n),
        Err(e) => Err(
            if e.kind() == std::io::ErrorKind::WouldBlock {
                NetError::WouldBlock
            } else {
                NetError::Io
            },
        ),
    }
}

/// Relies on std::io::Write::write through mio::net::TcpStream: on success the
/// count of bytes taken never exceeds the buffer's length; a short count is a
/// partial write for the caller to resume after the next writable event.
#[verifier::external_body]
pub(crate) fn stream_write(s: &mio::net::TcpStream, b: &[u8]) -> (r: Result<usize, NetError>)
    ensures
        match r {
            Ok(n) => n <= b@.len(),
            Err(e) => e == NetError::WouldBlock || e == NetError::Io,
        },
{
    let mut sw: &mio::net::TcpStream = s;
    match std::io::Write::write(&mut sw, b) {
        Ok(n) => Ok(n),
        Err(e) => Err(
            if e.kind() == std::io::ErrorKind::WouldBlock {
                NetError::WouldBlock
            } else {
                NetError::Io
            },
        ),
    }
}

/// Relies on mio::net::TcpStream::shutdown, with the direction mapped
/// one-for-one onto the socket shutdown mode.
#[verifier::external_body]
#[allow(deprecated)]
pub(crate) fn stream_shutdown(s: &mio::net::TcpStream, how: ShutdownMode) -> (r: Result<
    (),
    NetError,
>)
    ensures
        r matches Err(e) ==> e == NetError::Io,
{
    let h = match how {
        ShutdownMode::Read => mio::tcp::Shutdown::Read,
        ShutdownMode::Write => mio::tcp::Shutdown::Write,
        ShutdownMode::Both => mio::tcp::Shutdown::Both,
    };
    match s.shutdown(h) {
        Ok(()) => Ok(()),
        Err(_) => Err(NetError::Io),
    }
}

/// Relies on mio::net::TcpListener::local_addr, rendered in std's display form
/// for the address.
#[verifier::external_body]
pub(crate) fn listener_local_addr(l: &mio::net::TcpListener) -> (r: Result<String, NetError>)
    ensures
        r matches Err(e) ==> e == NetError::Io,
{
    match l.local_addr() {
        Ok(a) => Ok(a.to_string()),
        Err(_) => Err(NetError::Io),
    }
}

/// Relies on mio::net::TcpStream::local_addr, rendered in std's display form
/// for the address.
#[verifier::external_body]
pub(crate) fn stream_local_addr(s: &mio::net::TcpStream) -> (r: Result<String, NetError>)
    ensures
        r matches Err(e) ==> e == NetError::Io,
{
    match s.local_addr() {
        Ok(a) => Ok(a.to_string()),
        Err(_) => Err(NetError::Io),
    }
}

/// Relies on mio::net::TcpStream::peer_addr, rendered in std's display form
/// for the address.
#[verifier::external_body]
pub(crate) fn stream_peer_addr(s: &mio::net::TcpStream) -> (r: Result<String, NetError>)
    ensures
        r matches Err(e) ==> e == NetError::Io,
{
    match s.peer_addr() {
        Ok(a) => Ok(a.to_string()),
        Err(_) => Err(NetError::Io),
    }
}

/// Relies on std::sync::mpsc::channel: an unbounded FIFO queue from the
/// polling thread to the consumer, which never drops an event under load.
#[verifier::external_body]
pub(crate) fn channel_new() -> (std::sync::mpsc::Sender<RawEvent>, std::sync::mpsc::Receiver<
    RawEvent,
>) {
    std::sync::mpsc::channel()
}

/// Relies on std::sync::mpsc::Sender::send. A failure means the receiving side
/// is gone; the notification is dropped then, having nowhere to go.
#[verifier::external_body]
pub(crate) fn chan_send(tx: &std::sync::mpsc::Sender<RawEvent>, e: RawEvent) {
    let _ = tx.send(e);
}

/// Relies on std::sync::mpsc::Receiver::try_recv: the next queued event
/// without blocking, or Empty when none is queued, or Disconnected when the
/// sending side is gone.
#[verifier::external_body]
pub(crate) fn chan_try_recv(rx: &std::sync::mpsc::Receiver<RawEvent>) -> (r: Result<
    RawEvent,
    QueueError,
>)
    ensures
        r matches Err(e) ==> e == QueueError::Empty || e == QueueError::Disconnected,
{
    match rx.try_recv() {
        Ok(e) => Ok(e),
        Err(std::sync::mpsc::TryRecvError::Empty) => Err(QueueError::Empty),
        Err(std::sync::mpsc::TryRecvError::Disconnected) => Err(QueueError::Disconnected),
    }
}

/// Relies on std::sync::mpsc::Receiver::recv: blocks until an event is queued,
/// failing only when the sending side is gone.
#[verifier::external_body]
pub(crate) fn chan_recv(rx: &std::sync::mpsc::Receiver<RawEvent>) -> (r: Result<
    RawEvent,
    QueueError,
>)
    ensures
        r matches Err(e) ==> e == QueueError::Disconnected,
{
    match rx.recv() {
        Ok(e) => Ok(e),
        Err(_) => Err(QueueError::Disconnected),
    }
}

/// Relies on std::sync::mpsc::Receiver::recv_timeout: blocks at most the given
/// time for an event, or reports Timeout, or Disconnected when the sending
/// side is gone.
#[verifier::external_body]
pub(crate) fn chan_recv_timeout(
    rx: &std::sync::mpsc::Receiver<RawEvent>,
    timeout: core::time::Duration,
) -> (r: Result<RawEvent, QueueError>)
    ensures
        r matches Err(e) ==> e == QueueError::Timeout || e == QueueError::Disconnected,
{
    match rx.recv_timeout(timeout) {
        Ok(e) => Ok(e),
        Err(std::sync::mpsc::RecvTimeoutError::Timeout) => Err(QueueError::Timeout),
        Err(std::sync::mpsc::RecvTimeoutError::Disconnected) => Err(QueueError::Disconnected),
    }
}

} // verus!
