//! The packet header: its fields, its operation and socket-type codes, and
//! its bytes on the wire.

use endian_num::{le16, le32};
use virtio_spec::vsock::{Op as WireOp, Type as WireType};
use vstd::prelude::*;

verus! {

/// Bytes of a header on the wire.
pub const HEADER_SIZE: usize = 36;

/// Protocol verb of a packet.
#[derive(Debug, Copy, Clone, PartialEq, Eq, Structural)]
pub enum Op {
    /// Code 0, which no packet may carry.
    Invalid,
    Request,
    Response,
    /// Reset: refusal or abnormal end of a connection.
    Rst,
    Shutdown,
    /// Payload.
    Rw,
    CreditUpdate,
    CreditRequest,
}

/// Socket type of a packet.
#[derive(Debug, Copy, Clone, PartialEq, Eq, Structural)]
pub enum Type {
    Stream,
    Seqpacket,
}

/// The operation that a 16-bit code stands for.
pub open spec fn op_of_code(code: u16) -> Option<Op> {
    if code == 0 {
        Some(Op::Invalid)
    } else if code == 1 {
        Some(Op::Request)
    } else if code == 2 {
        Some(Op::Response)
    } else if code == 3 {
        Some(Op::Rst)
    } else if code == 4 {
        Some(Op::Shutdown)
    } else if code == 5 {
        Some(Op::Rw)
    } else if code == 6 {
        Some(Op::CreditUpdate)
    } else if code == 7 {
        Some(Op::CreditRequest)
    } else {
        None
    }
}

/// The 16-bit code of an operation.
pub open spec fn code_of_op(op: Op) -> u16 {
    match op {
        Op::Invalid => 0,
        Op::Request => 1,
        Op::Response => 2,
        Op::Rst => 3,
        Op::Shutdown => 4,
        Op::Rw => 5,
        Op::CreditUpdate => 6,
        Op::CreditRequest => 7,
    }
}

/// The socket type that a 16-bit code stands for.
pub open spec fn type_of_code(code: u16) -> Option<Type> {
    if code == 1 {
        Some(Type::Stream)
    } else if code == 2 {
        Some(Type::Seqpacket)
    } else {
        None
    }
}

/// The two bytes of `v`, least significant first.
pub open spec fn le_bytes16(v: u16) -> Seq<u8> {
    seq![(v % 256) as u8, (v / 256) as u8]
}

/// The four bytes of `v`, least significant first.
pub open spec fn le_bytes32(v: u32) -> Seq<u8> {
    seq![
        (v % 256) as u8,
        (v / 256 % 256) as u8,
        (v / 65536 % 256) as u8,
        (v / 16777216) as u8,
    ]
}

/// `virtio_spec::vsock::Op::try_from`: the operation whose discriminant is
/// `code`; a code that the crate gives no operation yields `None`.
#[verifier::external_body]
pub(crate) fn decode_op(code: u16) -> (r: Option<Op>)
    ensures
        r == op_of_code(code),
{
    match WireOp::try_from(code) {
        Ok(WireOp::Invalid) => Some(Op::Invalid),
        Ok(WireOp::Request) => Some(Op::Request),
        Ok(WireOp::Response) => Some(Op::Response),
        Ok(WireOp::Rst) => Some(Op::Rst),
        Ok(WireOp::Shutdown) => Some(Op::Shutdown),
        Ok(WireOp::Rw) => Some(Op::Rw),
        Ok(WireOp::CreditUpdate) => Some(Op::CreditUpdate),
        Ok(WireOp::CreditRequest) => Some(Op::CreditRequest),
        _ => None,
    }
}

/// `u16::from` on a `virtio_spec::vsock::Op`: the discriminant of the
/// operation.
#[verifier::external_body]
pub(crate) fn op_code(op: Op) -> (r: u16)
    ensures
        r == code_of_op(op),
{
    let wire = match op {
        Op::Invalid => WireOp::Invalid,
        Op::Request => WireOp::Request,
        Op::Response => WireOp::Response,
        Op::Rst => WireOp::Rst,
        Op::Shutdown => WireOp::Shutdown,
        Op::Rw => WireOp::Rw,
        Op::CreditUpdate => WireOp::CreditUpdate,
        Op::CreditRequest => WireOp::CreditRequest,
    };
    u16::from(wire)
}

/// `virtio_spec::vsock::Type::try_from`: the socket type whose discriminant
/// is `code`; a code that the crate gives no type yields `None`.
#[verifier::external_body]
pub(crate) fn decode_type(code: u16) -> (r: Option<Type>)
    ensures
        r == type_of_code(code),
{
    match WireType::try_from(code) {
        Ok(WireType::Stream) => Some(Type::Stream),
        Ok(WireType::Seqpacket) => Some(Type::Seqpacket),
        _ => None,
    }
}

/// `endian_num::le16::from_ne` and `to_le_bytes`: the little-endian form of
/// `v`, byte by byte.
#[verifier::external_body]
fn wire16(v: u16) -> (r: [u8; 2])
    ensures
        r@ == le_bytes16(v),
{
    le16::from_ne(v).to_le_bytes()
}

/// `endian_num::le32::from_ne` and `to_le_bytes`: the little-endian form of
/// `v`, byte by byte.
#[verifier::external_body]
fn wire32(v: u32) -> (r: [u8; 4])
    ensures
        r@ == le_bytes32(v),
{
    le32::from_ne(v).to_le_bytes()
}

/// The fixed-size header of a packet, each field in native byte order.
#[derive(Debug, Copy, Clone, PartialEq, Eq)]
pub struct Header {
    /// Context id of the sender.
    pub src_cid: u32,
    /// Context id of the receiver.
    pub dst_cid: u32,
    pub src_port: u32,
    pub dst_port: u32,
    /// Bytes of payload that follow the header.
    pub len: u32,
    /// Code of the socket type.
    pub type_: u16,
    /// Code of the operation.
    pub op: u16,
    pub flags: u32,
    /// Receive-buffer space that the sender advertises.
    pub buf_alloc: u32,
    /// Forward count that the sender reports.
    pub fwd_cnt: u32,
}

impl Header {
    /// The header on the wire: every field little-endian, in this order and
    /// at these offsets: `src_cid` 0, `dst_cid` 4, `src_port` 8, `dst_port`
    /// 12, `len` 16, `type_` 20, `op` 22, `flags` 24, `buf_alloc` 28,
    /// `fwd_cnt` 32.
    pub open spec fn wire_bytes(self) -> Seq<u8> {
        le_bytes32(self.src_cid) + le_bytes32(self.dst_cid) + le_bytes32(self.src_port)
            + le_bytes32(self.dst_port) + le_bytes32(self.len) + le_bytes16(self.type_)
            + le_bytes16(self.op) + le_bytes32(self.flags) + le_bytes32(self.buf_alloc)
            + le_bytes32(self.fwd_cnt)
    }

    /// Serialises the header field by field.
    pub fn encode(&self) -> (bytes: [u8; HEADER_SIZE])
        ensures
            bytes@ == self.wire_bytes(),
    {
        let a = wire32(self.src_cid);
        let b = wire32(self.dst_cid);
        let c = wire32(self.src_port);
        let d = wire32(self.dst_port);
        let e = wire32(self.len);
        let f = wire16(self.type_);
        let g = wire16(self.op);
        let h = wire32(self.flags);
        let i = wire32(self.buf_alloc);
        let j = wire32(self.fwd_cnt);
        let bytes = [
            a[0], a[1], a[2], a[3],
            b[0], b[1], b[2], b[3],
            c[0], c[1], c[2], c[3],
            d[0], d[1], d[2], d[3],
            e[0], e[1], e[2], e[3],
            f[0], f[1],
            g[0], g[1],
            h[0], h[1], h[2], h[3],
            i[0], i[1], i[2], i[3],
            j[0], j[1], j[2], j[3],
        ];
        bytes
    }
}

} // verus!
