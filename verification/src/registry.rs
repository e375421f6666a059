//! The connection registry: local port to connection.

use crate::socket::{RawSocket, SocketView, VsockState};
use std::collections::BTreeMap;
use vstd::prelude::*;

verus! {

/// The error of `VsockMap::bind` on a port that is already bound.
#[derive(Debug, Copy, Clone, PartialEq, Eq)]
pub struct AddressInUse;

/// `BTreeMap::get_mut` on the port map: a bound port yields its entry, and
/// what the caller leaves behind the reference is the entry afterwards; an
/// unbound port yields nothing. No other entry changes.
#[verifier::external_body]
fn entry_mut(m: &mut BTreeMap<u32, RawSocket>, port: u32) -> (r: Option<&mut RawSocket>)
    ensures
        match r {
            Some(s) => {
                &&& old(m)@.contains_key(port)
                &&& *s == old(m)@[port]
                &&& final(m)@ == old(m)@.insert(port, *final(s))
            },
            None => !old(m)@.contains_key(port) && final(m)@ == old(m)@,
        },
{
    m.get_mut(&port)
}

/// Whether a bind of `port` is refused: the port is bound already.
pub open spec fn bind_refused(m: Map<u32, SocketView>, port: u32) -> bool {
    m.contains_key(port)
}

/// The registry after a bind of `port`: a new listening connection at a
/// port that was free, no change at all otherwise.
pub open spec fn after_bind(m: Map<u32, SocketView>, port: u32) -> Map<u32, SocketView> {
    if bind_refused(m, port) {
        m
    } else {
        m.insert(port, SocketView::fresh(VsockState::Listen))
    }
}

/// Connections keyed by local port.
pub struct VsockMap {
    port_map: BTreeMap<u32, RawSocket>,
}

impl View for VsockMap {
    type V = Map<u32, SocketView>;

    /// The bound ports, each with its connection.
    closed spec fn view(&self) -> Map<u32, SocketView> {
        self.port_map@.map_values(|s: RawSocket| s@)
    }
}

impl VsockMap {
    /// A registry without connections.
    pub fn new() -> (r: Self)
        ensures
            r@ == Map::<u32, SocketView>::empty(),
    {
        Self { port_map: BTreeMap::new() }
    }

    /// Binds `port` to a new listening connection.
    ///
    /// A port that is already bound is refused, and its connection is left
    /// as it is.
    pub fn bind(&mut self, port: u32) -> (r: Result<(), AddressInUse>)
        ensures
            r is Err <==> bind_refused(old(self)@, port),
            final(self)@ == after_bind(old(self)@, port),
    {
        if self.port_map.contains_key(&port) {
            Err(AddressInUse)
        } else {
            self.port_map.insert(port, RawSocket::new(VsockState::Listen));
            Ok(())
        }
    }

    /// The connection bound to `port`, if any.
    pub fn get_socket(&self, port: u32) -> (r: Option<&RawSocket>)
        ensures
            match r {
                Some(s) => self@.contains_key(port) && s@ == self@[port],
                None => !self@.contains_key(port),
            },
    {
        self.port_map.get(&port)
    }

    /// The connection bound to `port`, if any, for changing in place.
    pub fn get_mut_socket(&mut self, port: u32) -> (r: Option<&mut RawSocket>)
        ensures
            match r {
                Some(s) => {
                    &&& old(self)@.contains_key(port)
                    &&& s@ == old(self)@[port]
                    &&& final(self)@ == old(self)@.insert(port, final(s)@)
                },
                None => !old(self)@.contains_key(port) && final(self)@ == old(self)@,
            },
    {
        entry_mut(&mut self.port_map, port)
    }

    /// Unbinds `port`; a port that is not bound is left so.
    pub fn remove_socket(&mut self, port: u32)
        ensures
            final(self)@ == old(self)@.remove(port),
    {
        let _ = self.port_map.remove(&port);
    }
}

/// A port that has been bound is refused on the next bind, and that bind
/// leaves every connection, the one at the port included, as it was.
pub proof fn law_second_bind_refused(m: Map<u32, SocketView>, port: u32)
    ensures
        bind_refused(after_bind(m, port), port),
        after_bind(after_bind(m, port), port) == after_bind(m, port),
{
}

/// Binds of two distinct ports do not get in each other's way: whether the
/// second is refused does not depend on the first, and where both ports
/// were free each ends with a listening connection of its own, so that a
/// change to one leaves the other as it is.
pub proof fn law_distinct_binds_independent(
    m: Map<u32, SocketView>,
    p: u32,
    q: u32,
    changed: SocketView,
)
    requires
        p != q,
    ensures
        bind_refused(after_bind(m, p), q) == bind_refused(m, q),
        !bind_refused(m, p) && !bind_refused(m, q) ==> {
            let both = after_bind(after_bind(m, p), q);
            &&& both.contains_key(p)
            &&& both.contains_key(q)
            &&& both[p] == SocketView::fresh(VsockState::Listen)
            &&& both[q] == SocketView::fresh(VsockState::Listen)
            &&& both.insert(p, changed)[q] == both[q]
            &&& both.insert(q, changed)[p] == both[p]
        },
{
}

} // verus!
