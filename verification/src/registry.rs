use vstd::prelude::*;

use crate::types::SockKind;

verus! {

/// A registered socket: either a bound listening socket or a connected
/// bidirectional stream. Exactly one entry exists per live handle.
#[derive(Debug)]
pub enum NetTcp {
    Listener(mio::net::TcpListener),
    Stream(mio::net::TcpStream),
}

/// The variant tag of a registry entry.
pub open spec fn kind_of(e: NetTcp) -> SockKind {
    match e {
        NetTcp::Listener(_) => SockKind::Listener,
        NetTcp::Stream(_) => SockKind::Stream,
    }
}

#[verifier::external_type_specification]
#[verifier::external_body]
#[verifier::reject_recursive_types(T)]
pub struct ExSlab<T>(slab::Slab<T>);

/// What the slab holds: which handle is occupied, and by which kind of socket.
pub uninterp spec fn slab_kinds(s: slab::Slab<NetTcp>) -> Map<int, SockKind>;

/// Relies on slab::Slab::new: a fresh slab holds no entries.
#[verifier::external_body]
pub fn slab_new() -> (r: slab::Slab<NetTcp>)
    ensures
        (slab_kinds(r) == Map::<int, SockKind>::empty()),
{
    slab::Slab::new()
}

/// Relies on slab::Slab::insert: the value is stored under a key that no
/// current entry occupies, and every other entry stays as it was.
#[verifier::external_body]
pub(crate) fn slab_insert(s: &mut slab::Slab<NetTcp>, e: NetTcp) -> (k: usize)
    ensures
        !slab_kinds(*old(s)).dom().contains(k as int),
        slab_kinds(*final(s)) == slab_kinds(*old(s)).insert(k as int, kind_of(e)),
{
    s.insert(e)
}

/// Relies on slab::Slab::get: Some exactly for an occupied key, handing back
/// the entry stored there.
#[verifier::external_body]
pub(crate) fn slab_lookup(s: &slab::Slab<NetTcp>, k: usize) -> (r: Option<&NetTcp>)
    ensures
        match r {
            Some(e) => slab_kinds(*s).dom().contains(k as int) && slab_kinds(*s)[k as int]
                == kind_of(*e),
            None => !slab_kinds(*s).dom().contains(k as int),
        },
{
    s.get(k)
}

/// Relies on slab::Slab::contains.
#[verifier::external_body]
pub(crate) fn slab_contains(s: &slab::Slab<NetTcp>, k: usize) -> (r: bool)
    ensures
        r == slab_kinds(*s).dom().contains(k as int),
{
    s.contains(k)
}

/// Relies on slab::Slab::remove: the entry leaves the slab and is dropped,
/// which releases the OS socket it held. The call panics on a vacant key, so
/// occupancy is required here.
#[verifier::external_body]
pub(crate) fn slab_remove(s: &mut slab::Slab<NetTcp>, k: usize)
    requires
        slab_kinds(*old(s)).dom().contains(k as int),
    ensures
        slab_kinds(*final(s)) == slab_kinds(*old(s)).remove(k as int),
{
    let _ = s.remove(k);
}

} // verus!
