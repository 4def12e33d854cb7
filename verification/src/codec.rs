use vstd::prelude::*;

use crate::types::NetError;

verus! {

/// An IPv4 socket address: the four octets in their written order, and the
/// port.
#[derive(Clone, Copy, Debug, PartialEq, Eq, Structural)]
pub struct AddrV4 {
    pub o0: u8,
    pub o1: u8,
    pub o2: u8,
    pub o3: u8,
    pub port: u16,
}

/// A network address as the manager understands it: an IPv4 address with a
/// port, or an address of a family the manager does not support.
#[derive(Clone, Copy, Debug, PartialEq, Eq, Structural)]
pub enum SockAddr {
    V4(AddrV4),
    V6,
}

/// The low byte of the port, which comes first in the wire form.
pub open spec fn port_lo(port: u16) -> u8 {
    (port % 256) as u8
}

/// The high byte of the port, which comes second in the wire form.
pub open spec fn port_hi(port: u16) -> u8 {
    (port / 256) as u8
}

/// The 6-byte wire form of an IPv4 address: the four octets in network order,
/// then the port in little-endian order. The mixed endianness is the wire
/// contract itself, not an accident.
pub open spec fn encoded_addr(a: AddrV4) -> Seq<u8> {
    seq![a.o0, a.o1, a.o2, a.o3, port_lo(a.port), port_hi(a.port)]
}

/// The address a 6-byte wire form stands for: octets as written, port read
/// little-endian from the last two bytes.
pub open spec fn decoded_addr(s: Seq<u8>) -> AddrV4
    recommends
        s.len() >= 6,
{
    AddrV4 {
        o0: s[0],
        o1: s[1],
        o2: s[2],
        o3: s[3],
        port: (s[4] as int + 256 * (s[5] as int)) as u16,
    }
}

/// Writes the 6-byte wire form of `addr` over the front of `b`, leaving the
/// rest of `b` alone. A non-IPv4 address is rejected without touching `b` at
/// all.
pub fn addr_to_bytes(addr: &SockAddr, b: &mut Vec<u8>) -> (r: Result<(), NetError>)
    requires
        old(b)@.len() >= 6,
    ensures
        final(b)@.len() == old(b)@.len(),
        match *addr {
            SockAddr::V4(a) => {
                &&& r is Ok
                &&& final(b)@.subrange(0, 6) == encoded_addr(a)
                &&& final(b)@.skip(6) == old(b)@.skip(6)
            },
            SockAddr::V6 => {
                &&& r == Err::<(), NetError>(NetError::UnsupportedAddressFamily)
                &&& final(b)@ == old(b)@
            },
        },
{
    match *addr {
        SockAddr::V4(a) => {
            b.set(0, a.o0);
            b.set(1, a.o1);
            b.set(2, a.o2);
            b.set(3, a.o3);
            b.set(4, (a.port % 256) as u8);
            b.set(5, (a.port / 256) as u8);
            proof {
                assert(b@.subrange(0, 6) =~= encoded_addr(a));
                assert(b@.skip(6) =~= old(b)@.skip(6));
            }
            Ok(())
        },
        SockAddr::V6 => Err(NetError::UnsupportedAddressFamily),
    }
}

/// Reads an IPv4 address back out of its 6-byte wire form.
pub fn addr_from_bytes(b: &[u8]) -> (r: AddrV4)
    requires
        b@.len() >= 6,
    ensures
        r == decoded_addr(b@),
{
    AddrV4 {
        o0: b[0],
        o1: b[1],
        o2: b[2],
        o3: b[3],
        port: b[4] as u16 + 256 * (b[5] as u16),
    }
}

/// Law: decoding the 6-byte wire form of an IPv4 address reproduces the
/// address and port exactly.
pub proof fn lemma_addr_round_trip(a: AddrV4)
    ensures
        decoded_addr(encoded_addr(a)) == a,
{
}

/// A readiness notification in plain values: the handle of the socket it
/// concerns and the four independent readiness conditions.
#[derive(Clone, Copy, Debug, PartialEq, Eq, Structural)]
pub struct RawEvent {
    pub token: usize,
    pub readable: bool,
    pub writable: bool,
    pub hup: bool,
    pub error: bool,
}

/// The packed integer form of the readiness flags: bit 0 is readable, bit 1
/// writable, bit 2 hangup, bit 3 error; all higher bits are zero.
pub open spec fn readiness_bits(e: RawEvent) -> int {
    (if e.readable { 1int } else { 0int }) + (if e.writable { 2int } else { 0int })
        + (if e.hup { 4int } else { 0int }) + (if e.error { 8int } else { 0int })
}

/// Law: the packed readiness form uses only bits 0 through 3; every higher
/// bit is zero.
pub proof fn lemma_readiness_bits_range(e: RawEvent)
    ensures
        0 <= readiness_bits(e) < 16,
{
}

/// Renders a readiness event as a pair of plain integers, for consumers that
/// can only test integer bits: the handle unchanged, then the packed flags.
pub fn event_to_ints(event: &RawEvent) -> (r: (i64, i64))
    requires
        event.token <= i64::MAX,
    ensures
        r.0 == event.token,
        r.1 == readiness_bits(*event),
{
    let state: i64 = (if event.readable { 1i64 } else { 0i64 })
        + (if event.writable { 2i64 } else { 0i64 }) + (if event.hup { 4i64 } else { 0i64 })
        + (if event.error { 8i64 } else { 0i64 });
    (event.token as i64, state)
}

} // verus!
