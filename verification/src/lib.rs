//! Transport-multiplexing core of a virtio-vsock socket layer.
//!
//! Inbound packets are demultiplexed by destination port onto per-port
//! connection state, the connection state machine is advanced, and the
//! protocol replies (credit updates, resets) are composed.
//!
//! - [`waker`]: the single-slot wake handle of a connection.
//! - [`socket`]: a connection and its protocol state.
//! - [`registry`]: the map from local port to connection.
//! - [`wire`]: the packet header, its codes and its bytes.
//! - [`pump`]: the handling of one inbound packet.

pub mod pump;
pub mod registry;
pub mod socket;
pub mod waker;
pub mod wire;

pub use crate::pump::{apply_rule, can_handle, classify, handle_packet, parse, reply_to};
pub use crate::pump::{HeaderError, Rule};
pub use crate::registry::{AddressInUse, VsockMap};
pub use crate::socket::{RawSocket, VsockState, RAW_SOCKET_BUFFER_SIZE};
pub use crate::waker::WakerRegistration;
pub use crate::wire::{Header, Op, Type, HEADER_SIZE};
