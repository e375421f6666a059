//! Per-port connection state.

use crate::waker::WakerRegistration;
use vstd::prelude::*;

verus! {

/// Bytes reserved for a connection's receive buffer, and the buffer space
/// advertised to peers.
pub const RAW_SOCKET_BUFFER_SIZE: usize = 256 * 1024;

/// Protocol state of a connection; exactly one holds at any instant.
#[derive(Debug, Copy, Clone, PartialEq, Eq, Structural)]
pub enum VsockState {
    /// Listening: bound and waiting for a connection request.
    Listen,
    /// A connection request of a peer has been received.
    ReceiveRequest,
    /// Connected: payload is accepted.
    Connected,
    /// Connecting: a request of this side is under way.
    Connecting,
    /// Shutting down: the peer has announced the end of the connection.
    Shutdown,
}

/// What a connection is, as plain values.
#[verifier::ext_equal]
pub struct SocketView {
    /// Context id of the peer; meaningful once a request has been received.
    pub remote_cid: u32,
    /// Port of the peer; meaningful once a request has been received.
    pub remote_port: u32,
    pub state: VsockState,
    /// The waiting party whose wake is pending, if any.
    pub waiter: Option<int>,
    /// Payload received and not yet drained, in arrival order.
    pub buffer: Seq<u8>,
}

impl SocketView {
    /// A connection as `RawSocket::new` makes it: no peer, nobody waiting,
    /// nothing buffered.
    pub open spec fn fresh(state: VsockState) -> SocketView {
        SocketView { remote_cid: 0, remote_port: 0, state, waiter: None, buffer: Seq::empty() }
    }
}

/// Socket state of one local port.
#[derive(Debug)]
pub struct RawSocket {
    pub remote_cid: u32,
    pub remote_port: u32,
    pub state: VsockState,
    pub waker: WakerRegistration,
    pub buffer: Vec<u8>,
}

impl View for RawSocket {
    type V = SocketView;

    open spec fn view(&self) -> SocketView {
        SocketView {
            remote_cid: self.remote_cid,
            remote_port: self.remote_port,
            state: self.state,
            waiter: self.waker@,
            buffer: self.buffer@,
        }
    }
}

impl RawSocket {
    /// A connection in `state` without a peer, with an empty receive buffer
    /// of `RAW_SOCKET_BUFFER_SIZE` reserved bytes.
    pub fn new(state: VsockState) -> (r: Self)
        ensures
            r@ == SocketView::fresh(state),
    {
        Self {
            remote_cid: 0,
            remote_port: 0,
            state,
            waker: WakerRegistration::new(),
            buffer: Vec::with_capacity(RAW_SOCKET_BUFFER_SIZE),
        }
    }
}

} // verus!
