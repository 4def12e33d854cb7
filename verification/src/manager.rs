use vstd::prelude::*;
use vstd::*;

use crate::codec::{RawEvent, SockAddr};
use crate::registry::{self, kind_of, slab_kinds, NetTcp};
use crate::sys;
use crate::types::{NetError, QueueError, ShutdownMode, SockKind};

verus! {

/// The connection manager: a registry of sockets keyed by small reusable
/// integer handles, the OS polling facility they are registered with, and the
/// receiving end of the queue the polling thread forwards readiness events
/// into.
///
/// A handle is unique only while its entry is registered: once closed it may
/// be assigned again to a later socket, so a caller must never treat one as
/// proof of continued identity.
#[derive(Debug)]
pub struct NetLoop {
    slab: slab::Slab<NetTcp>,
    poll: std::sync::Arc<mio::Poll>,
    pub is_listening: bool,
    event_receiver: std::sync::mpsc::Receiver<RawEvent>,
}

/// The polling thread's body: wait on the OS facility with no timeout, then
/// forward every readiness notification into the queue in arrival order, over
/// and over. Each step blocks for a wait, so the step counter that serves as
/// the loop's measure cannot run out in any real execution: the pump lives as
/// long as its process.
fn run_poller(poll: std::sync::Arc<mio::Poll>, tx: std::sync::mpsc::Sender<RawEvent>) {
    let mut events = sys::events_new(1024);
    let mut steps: u64 = u64::MAX;
    while steps > 0
        decreases steps,
    {
        sys::poll_wait(&poll, &mut events);
        let evs = sys::events_collect(&events);
        let mut k: usize = 0;
        while k < evs.len()
            invariant
                k <= evs.len(),
            decreases evs.len() - k,
        {
            sys::chan_send(&tx, evs[k]);
            k = k + 1;
        }
        steps = steps - 1;
    }
}

/// Law: removing a handle leaves it out of the registry while every other
/// entry stays as it was. Together with each operation's contract — close
/// leaves `entries().remove(h)`, and every lookup reports NotFound exactly
/// for a handle outside `entries()` — an operation keyed by a closed handle
/// fails with NotFound and can never silently reach another entry, even one
/// that later reuses the same handle value.
pub proof fn lemma_closed_handle_is_not_found(m: Map<int, SockKind>, h: int)
    ensures
        !m.remove(h).dom().contains(h),
        forall|k: int| k != h ==> m.remove(h).dom().contains(k) == m.dom().contains(k),
        forall|k: int| k != h && m.dom().contains(k) ==> m.remove(h)[k] == m[k],
{
}

impl NetLoop {
    /// The registry's contents: which handles are live, and the kind of
    /// socket each one holds.
    pub closed spec fn entries(&self) -> Map<int, SockKind> {
        slab_kinds(self.slab)
    }

    /// Whether a listen or connect has ever succeeded on this manager.
    pub closed spec fn listening(&self) -> bool {
        self.is_listening
    }

    /// Creates the manager: an empty registry, the OS polling facility, and
    /// the background thread that forwards readiness events into the queue
    /// for the manager's whole lifetime.
    pub fn new() -> (r: NetLoop)
        ensures
            (r.entries() == Map::<int, SockKind>::empty()),
            !r.listening(),
    {
        let poll = std::sync::Arc::new(sys::poll_new());
        let (tx, rx) = sys::channel_new();
        let t_poll = sys::poll_share(&poll);
        let _ = thread::spawn(move || run_poller(t_poll, tx));
        NetLoop { slab: registry::slab_new(), poll, is_listening: false, event_receiver: rx }
    }

    /// Takes the next queued readiness event without blocking.
    pub fn try_recv(&mut self) -> (r: Result<RawEvent, QueueError>)
        ensures
            *final(self) == *old(self),
            r matches Err(e) ==> e == QueueError::Empty || e == QueueError::Disconnected,
    {
        sys::chan_try_recv(&self.event_receiver)
    }

    /// Takes the next queued readiness event, blocking indefinitely for one.
    pub fn recv(&mut self) -> (r: Result<RawEvent, QueueError>)
        ensures
            *final(self) == *old(self),
            r matches Err(e) ==> e == QueueError::Disconnected,
    {
        sys::chan_recv(&self.event_receiver)
    }

    /// Takes the next queued readiness event, blocking at most the given
    /// time for one.
    pub fn recv_timeout(&mut self, timeout: std::time::Duration) -> (r: Result<
        RawEvent,
        QueueError,
    >)
        ensures
            *final(self) == *old(self),
            r matches Err(e) ==> e == QueueError::Timeout || e == QueueError::Disconnected,
    {
        sys::chan_recv_timeout(&self.event_receiver, timeout)
    }

    /// Binds a listening socket to the address, registers it for
    /// edge-triggered readiness, and stores it as a listener under a fresh
    /// handle. Only IPv4 addresses are supported; any failure leaves the
    /// registry as it was.
    pub fn tcp_listen(&mut self, addr: &SockAddr) -> (r: Result<usize, NetError>)
        ensures
            match r {
                Ok(id) => {
                    &&& !old(self).entries().dom().contains(id as int)
                    &&& final(self).entries() == old(self).entries().insert(
                        id as int,
                        SockKind::Listener,
                    )
                    &&& final(self).listening()
                },
                Err(e) => {
                    &&& final(self).entries() == old(self).entries()
                    &&& final(self).listening() == old(self).listening()
                    &&& (e == NetError::UnsupportedAddressFamily <==> (*addr) is V6)
                    &&& (e == NetError::Bind || e == NetError::UnsupportedAddressFamily)
                },
            },
            (*addr) is V6 ==> r is Err,
    {
        let a = match *addr {
            SockAddr::V4(a) => a,
            SockAddr::V6 => {
                return Err(NetError::UnsupportedAddressFamily);
            },
        };
        let listener = match sys::bind_listener(a.o0, a.o1, a.o2, a.o3, a.port) {
            Ok(l) => l,
            Err(_) => {
                return Err(NetError::Bind);
            },
        };
        let id = registry::slab_insert(&mut self.slab, NetTcp::Listener(listener));
        let entry = match registry::slab_lookup(&self.slab, id) {
            Some(e) => e,
            None => unreached(),
        };
        let l = match entry {
            NetTcp::Listener(l) => l,
            NetTcp::Stream(_) => unreached(),
        };
        match sys::poll_register_listener(&self.poll, l, id) {
            Ok(_) => {},
            Err(_) => {
                registry::slab_remove(&mut self.slab, id);
                proof {
                    assert(old(self).entries().insert(id as int, SockKind::Listener).remove(
                        id as int,
                    ) =~= old(self).entries());
                }
                return Err(NetError::Bind);
            },
        }
        self.is_listening = true;
        Ok(id)
    }

    /// Starts a non-blocking outbound connection to the address, registers
    /// it, and stores it as a stream under a fresh handle; a later writable
    /// event on that handle signals completion. Only IPv4 addresses are
    /// supported; any failure leaves the registry as it was.
    pub fn tcp_connect(&mut self, addr: &SockAddr) -> (r: Result<usize, NetError>)
        ensures
            match r {
                Ok(id) => {
                    &&& !old(self).entries().dom().contains(id as int)
                    &&& final(self).entries() == old(self).entries().insert(
                        id as int,
                        SockKind::Stream,
                    )
                    &&& final(self).listening()
                },
                Err(e) => {
                    &&& final(self).entries() == old(self).entries()
                    &&& final(self).listening() == old(self).listening()
                    &&& (e == NetError::UnsupportedAddressFamily <==> (*addr) is V6)
                    &&& (e == NetError::Connect || e == NetError::UnsupportedAddressFamily)
                },
            },
            (*addr) is V6 ==> r is Err,
    {
        let a = match *addr {
            SockAddr::V4(a) => a,
            SockAddr::V6 => {
                return Err(NetError::UnsupportedAddressFamily);
            },
        };
        let stream = match sys::connect_stream(a.o0, a.o1, a.o2, a.o3, a.port) {
            Ok(s) => s,
            Err(_) => {
                return Err(NetError::Connect);
            },
        };
        match self.register_stream(stream) {
            Ok(id) => {
                self.is_listening = true;
                Ok(id)
            },
            Err(_) => Err(NetError::Connect),
        }
    }

    /// Registers a connected stream for edge-triggered readiness and stores
    /// it under a fresh handle; on failure the registry is left as it was.
    fn register_stream(&mut self, stream: mio::net::TcpStream) -> (r: Result<usize, NetError>)
        ensures
            final(self).listening() == old(self).listening(),
            match r {
                Ok(id) => {
                    &&& !old(self).entries().dom().contains(id as int)
                    &&& final(self).entries() == old(self).entries().insert(
                        id as int,
                        SockKind::Stream,
                    )
                },
                Err(e) => final(self).entries() == old(self).entries() && e == NetError::Io,
            },
    {
        let id = registry::slab_insert(&mut self.slab, NetTcp::Stream(stream));
        let entry = match registry::slab_lookup(&self.slab, id) {
            Some(e) => e,
            None => unreached(),
        };
        let s = match entry {
            NetTcp::Stream(s) => s,
            NetTcp::Listener(_) => unreached(),
        };
        match sys::poll_register_stream(&self.poll, s, id) {
            Ok(_) => Ok(id),
            Err(_) => {
                registry::slab_remove(&mut self.slab, id);
                proof {
                    assert(old(self).entries().insert(id as int, SockKind::Stream).remove(
                        id as int,
                    ) =~= old(self).entries());
                }
                Err(NetError::Io)
            },
        }
    }

    /// Accepts exactly one pending connection on a listener handle, registers
    /// the new stream, and returns its fresh handle. A would-block failure
    /// means no connection is pending: edge-triggered callers must call again
    /// until they see it, since one readable edge can cover several queued
    /// connections. A pending advisory error on the listener is drained and
    /// discarded first.
    pub fn tcp_accept(&mut self, id: usize) -> (r: Result<usize, NetError>)
        ensures
            final(self).listening() == old(self).listening(),
            match r {
                Ok(nid) => {
                    &&& old(self).entries().dom().contains(id as int)
                    &&& old(self).entries()[id as int] == SockKind::Listener
                    &&& !old(self).entries().dom().contains(nid as int)
                    &&& final(self).entries() == old(self).entries().insert(
                        nid as int,
                        SockKind::Stream,
                    )
                },
                Err(e) => {
                    &&& final(self).entries() == old(self).entries()
                    &&& (e == NetError::NotFound <==> !old(self).entries().dom().contains(
                        id as int,
                    ))
                    &&& (e == NetError::WrongKind <==> (old(self).entries().dom().contains(
                        id as int,
                    ) && old(self).entries()[id as int] == SockKind::Stream))
                    &&& (e == NetError::NotFound || e == NetError::WrongKind || e
                        == NetError::WouldBlock || e == NetError::Io)
                },
            },
    {
        let stream = {
            let l = match self.get_listener_ref(id) {
                Ok(l) => l,
                Err(e) => {
                    return Err(e);
                },
            };
            match sys::listener_take_error(l) {
                Ok(_) => {},
                Err(e) => {
                    return Err(e);
                },
            }
            match sys::listener_accept(l) {
                Ok(s) => s,
                Err(e) => {
                    return Err(e);
                },
            }
        };
        match self.register_stream(stream) {
            Ok(nid) => Ok(nid),
            Err(_) => Err(NetError::Io),
        }
    }

    /// Takes and clears the pending OS error slot of the socket behind the
    /// handle, whichever kind it is.
    pub fn get_error(&mut self, id: usize) -> (r: Result<Option<std::io::Error>, NetError>)
        ensures
            *final(self) == *old(self),
            match r {
                Ok(_) => old(self).entries().dom().contains(id as int),
                Err(e) => {
                    &&& (e == NetError::NotFound <==> !old(self).entries().dom().contains(
                        id as int,
                    ))
                    &&& (e == NetError::NotFound || e == NetError::Io)
                },
            },
    {
        let entry = match self.slab_get(id) {
            Ok(e) => e,
            Err(e) => {
                return Err(e);
            },
        };
        match entry {
            NetTcp::Listener(l) => sys::listener_take_error(l),
            NetTcp::Stream(s) => sys::stream_take_error(s),
        }
    }

    /// The local address of the socket behind the handle, in its display
    /// form.
    pub fn local_addr(&self, i: usize) -> (r: Result<String, NetError>)
        ensures
            match r {
                Ok(_) => self.entries().dom().contains(i as int),
                Err(e) => {
                    &&& (e == NetError::NotFound <==> !self.entries().dom().contains(i as int))
                    &&& (e == NetError::NotFound || e == NetError::Io)
                },
            },
    {
        let entry = match self.slab_get(i) {
            Ok(e) => e,
            Err(e) => {
                return Err(e);
            },
        };
        match entry {
            NetTcp::Listener(l) => sys::listener_local_addr(l),
            NetTcp::Stream(s) => sys::stream_local_addr(s),
        }
    }

    /// The peer address of the stream behind the handle, in its display form.
    /// A listener has no peer, so it is the wrong kind here.
    pub fn peer_addr(&self, i: usize) -> (r: Result<String, NetError>)
        ensures
            match r {
                Ok(_) => self.entries().dom().contains(i as int) && self.entries()[i as int]
                    == SockKind::Stream,
                Err(e) => {
                    &&& (e == NetError::NotFound <==> !self.entries().dom().contains(i as int))
                    &&& (e == NetError::WrongKind <==> (self.entries().dom().contains(i as int)
                        && self.entries()[i as int] == SockKind::Listener))
                    &&& (e == NetError::NotFound || e == NetError::WrongKind || e == NetError::Io)
                },
            },
    {
        let s = match self.get_stream_ref(i) {
            Ok(s) => s,
            Err(e) => {
                return Err(e);
            },
        };
        sys::stream_peer_addr(s)
    }

    /// Reads once from the stream behind the handle into the front of `b`,
    /// returning how many bytes came in. Zero bytes on success is orderly
    /// peer shutdown, a normal terminal condition. A pending advisory error
    /// on the stream is drained and discarded first.
    pub fn read_stream(&self, i: usize, b: &mut Vec<u8>) -> (r: Result<usize, NetError>)
        ensures
            final(b)@.len() == old(b)@.len(),
            match r {
                Ok(n) => {
                    &&& self.entries().dom().contains(i as int)
                    &&& self.entries()[i as int] == SockKind::Stream
                    &&& n <= old(b)@.len()
                    &&& final(b)@.skip(n as int) == old(b)@.skip(n as int)
                },
                Err(e) => {
                    &&& (e == NetError::NotFound <==> !self.entries().dom().contains(i as int))
                    &&& (e == NetError::WrongKind <==> (self.entries().dom().contains(i as int)
                        && self.entries()[i as int] == SockKind::Listener))
                    &&& (e == NetError::NotFound || e == NetError::WrongKind || e
                        == NetError::WouldBlock || e == NetError::Io)
                    &&& ((e == NetError::NotFound || e == NetError::WrongKind) ==> final(b)@ == old(
                        b,
                    )@)
                },
            },
    {
        let s = match self.get_stream_ref(i) {
            Ok(s) => s,
            Err(e) => {
                return Err(e);
            },
        };
        match sys::stream_take_error(s) {
            Ok(_) => {},
            Err(e) => {
                return Err(e);
            },
        }
        sys::stream_read(s, b)
    }

    /// Writes once to the stream behind the handle, returning how many bytes
    /// were taken. A short count is a partial write: the caller resumes with
    /// the remainder after the next writable event.
    pub fn write_stream(&self, i: usize, b: &[u8]) -> (r: Result<usize, NetError>)
        ensures
            match r {
                Ok(n) => {
                    &&& self.entries().dom().contains(i as int)
                    &&& self.entries()[i as int] == SockKind::Stream
                    &&& n <= b@.len()
                },
                Err(e) => {
                    &&& (e == NetError::NotFound <==> !self.entries().dom().contains(i as int))
                    &&& (e == NetError::WrongKind <==> (self.entries().dom().contains(i as int)
                        && self.entries()[i as int] == SockKind::Listener))
                    &&& (e == NetError::NotFound || e == NetError::WrongKind || e
                        == NetError::WouldBlock || e == NetError::Io)
                },
            },
    {
        let s = match self.get_stream_ref(i) {
            Ok(s) => s,
            Err(e) => {
                return Err(e);
            },
        };
        sys::stream_write(s, b)
    }

    /// Shuts down one or both halves of the stream behind the handle.
    pub fn shutdown(&mut self, i: usize, how: ShutdownMode) -> (r: Result<(), NetError>)
        ensures
            *final(self) == *old(self),
            match r {
                Ok(_) => old(self).entries().dom().contains(i as int) && old(self).entries()[i
                    as int] == SockKind::Stream,
                Err(e) => {
                    &&& (e == NetError::NotFound <==> !old(self).entries().dom().contains(
                        i as int,
                    ))
                    &&& (e == NetError::WrongKind <==> (old(self).entries().dom().contains(i as int)
                        && old(self).entries()[i as int] == SockKind::Listener))
                    &&& (e == NetError::NotFound || e == NetError::WrongKind || e == NetError::Io)
                },
            },
    {
        let s = match self.get_stream_ref(i) {
            Ok(s) => s,
            Err(e) => {
                return Err(e);
            },
        };
        sys::stream_shutdown(s, how)
    }

    /// Removes the handle's entry, releasing its OS socket synchronously.
    /// Closing a handle that is not registered is a successful no-op, so
    /// close is idempotent. The freed handle may be assigned again by a later
    /// registration.
    pub fn close(&mut self, i: usize) -> (r: Result<(), NetError>)
        ensures
            r is Ok,
            final(self).entries() == old(self).entries().remove(i as int),
            final(self).listening() == old(self).listening(),
    {
        if registry::slab_contains(&self.slab, i) {
            registry::slab_remove(&mut self.slab, i);
        } else {
            proof {
                assert(old(self).entries().remove(i as int) =~= old(self).entries());
            }
        }
        Ok(())
    }

    /// Looks a handle up in the registry, reporting NotFound for a vacant
    /// one.
    fn slab_get(&self, i: usize) -> (r: Result<&NetTcp, NetError>)
        ensures
            match r {
                Ok(e) => self.entries().dom().contains(i as int) && self.entries()[i as int]
                    == kind_of(*e),
                Err(e) => e == NetError::NotFound && !self.entries().dom().contains(i as int),
            },
    {
        match registry::slab_lookup(&self.slab, i) {
            Some(e) => Ok(e),
            None => Err(NetError::NotFound),
        }
    }

    /// Narrows a handle to its listening socket, reporting WrongKind for a
    /// stream.
    fn get_listener_ref(&self, i: usize) -> (r: Result<&mio::net::TcpListener, NetError>)
        ensures
            match r {
                Ok(_) => self.entries().dom().contains(i as int) && self.entries()[i as int]
                    == SockKind::Listener,
                Err(e) => {
                    &&& (e == NetError::NotFound <==> !self.entries().dom().contains(i as int))
                    &&& (e == NetError::WrongKind <==> (self.entries().dom().contains(i as int)
                        && self.entries()[i as int] == SockKind::Stream))
                    &&& (e == NetError::NotFound || e == NetError::WrongKind)
                },
            },
    {
        let entry = match self.slab_get(i) {
            Ok(e) => e,
            Err(e) => {
                return Err(e);
            },
        };
        match entry {
            NetTcp::Listener(l) => Ok(l),
            NetTcp::Stream(_) => Err(NetError::WrongKind),
        }
    }

    /// Narrows a handle to its connected stream, reporting WrongKind for a
    /// listener.
    fn get_stream_ref(&self, i: usize) -> (r: Result<&mio::net::TcpStream, NetError>)
        ensures
            match r {
                Ok(_) => self.entries().dom().contains(i as int) && self.entries()[i as int]
                    == SockKind::Stream,
                Err(e) => {
                    &&& (e == NetError::NotFound <==> !self.entries().dom().contains(i as int))
                    &&& (e == NetError::WrongKind <==> (self.entries().dom().contains(i as int)
                        && self.entries()[i as int] == SockKind::Listener))
                    &&& (e == NetError::NotFound || e == NetError::WrongKind)
                },
            },
    {
        let entry = match self.slab_get(i) {
            Ok(e) => e,
            Err(e) => {
                return Err(e);
            },
        };
        match entry {
            NetTcp::Stream(s) => Ok(s),
            NetTcp::Listener(_) => Err(NetError::WrongKind),
        }
    }
}

} // verus!
