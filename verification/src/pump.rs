//! The packet pump's handling of one inbound packet: which dispatch rule
//! applies, what it does to the addressed connection, and which reply, if
//! any, goes back to the sender.

use crate::registry::VsockMap;
use crate::socket::{RawSocket, SocketView, VsockState, RAW_SOCKET_BUFFER_SIZE};
use crate::wire::{code_of_op, decode_op, decode_type, op_code, op_of_code, type_of_code};
use crate::wire::{Header, Op, Type};
use vstd::prelude::*;

verus! {

/// Why a header is not handled at all.
#[derive(Debug, Copy, Clone, PartialEq, Eq, Structural)]
pub enum HeaderError {
    /// The operation code names no operation that a packet may carry.
    UnknownOp,
    /// The socket-type code names no socket type.
    UnknownType,
}

/// The dispatch rules, in their order of priority.
#[derive(Debug, Copy, Clone, PartialEq, Eq, Structural)]
pub enum Rule {
    /// A stream request reaches a listening connection.
    ConnectionRequest,
    /// Stream payload reaches a connected or shutting-down connection.
    DataDelivery,
    /// The peer reports its credit; taken note of and nothing more.
    CreditUpdate,
    /// The peer shuts the connection down.
    Shutdown,
    /// Nothing above applies: the sender gets a reply.
    Fallback,
}

/// The operation and socket type of a header, or why it has none. The
/// operation is looked at first.
pub open spec fn parsed(h: Header) -> Result<(Op, Type), HeaderError> {
    match op_of_code(h.op) {
        None => Err(HeaderError::UnknownOp),
        Some(Op::Invalid) => Err(HeaderError::UnknownOp),
        Some(op) => match type_of_code(h.type_) {
            None => Err(HeaderError::UnknownType),
            Some(ty) => Ok((op, ty)),
        },
    }
}

/// The first rule that matches a packet with operation `op` and socket type
/// `ty`, addressed to a connection in `state` (`None`: the port is unbound).
///
/// The first two rules ask for a connection in a given state; the others go
/// by the operation alone, whether the port is bound or not.
pub open spec fn rule_for(state: Option<VsockState>, op: Op, ty: Type) -> Rule {
    if state == Some(VsockState::Listen) && op == Op::Request && ty == Type::Stream {
        Rule::ConnectionRequest
    } else if (state == Some(VsockState::Connected) || state == Some(VsockState::Shutdown)) && ty
        == Type::Stream && op == Op::Rw {
        Rule::DataDelivery
    } else if op == Op::CreditUpdate {
        Rule::CreditUpdate
    } else if op == Op::Shutdown {
        Rule::Shutdown
    } else {
        Rule::Fallback
    }
}

/// The state of the connection that `port` is bound to, if it is bound.
pub open spec fn state_at(m: Map<u32, SocketView>, port: u32) -> Option<VsockState> {
    if m.contains_key(port) {
        Some(m[port].state)
    } else {
        None
    }
}

/// The rule that applies to a well-formed header `h` in registry `m`.
pub open spec fn rule_of(m: Map<u32, SocketView>, h: Header) -> Rule
    recommends
        parsed(h) is Ok,
{
    rule_for(state_at(m, h.dst_port), parsed(h)->Ok_0.0, parsed(h)->Ok_0.1)
}

/// The connection `s` after `rule` has been applied to it for header `h`
/// with payload `data`.
pub open spec fn socket_after(s: SocketView, rule: Rule, h: Header, data: Seq<u8>) -> SocketView {
    match rule {
        Rule::ConnectionRequest => SocketView {
            state: VsockState::ReceiveRequest,
            remote_cid: h.src_cid,
            remote_port: h.src_port,
            waiter: None,
            ..s
        },
        Rule::DataDelivery => SocketView { buffer: s.buffer + data, waiter: None, ..s },
        Rule::CreditUpdate => s,
        Rule::Shutdown => SocketView { state: VsockState::Shutdown, ..s },
        Rule::Fallback => s,
    }
}

/// The registry after a packet with header `h` and payload `data`: only the
/// connection at the destination port can change, and only for a
/// well-formed header.
pub open spec fn registry_after(m: Map<u32, SocketView>, h: Header, data: Seq<u8>) -> Map<
    u32,
    SocketView,
> {
    if parsed(h) is Ok && m.contains_key(h.dst_port) {
        m.insert(h.dst_port, socket_after(m[h.dst_port], rule_of(m, h), h, data))
    } else {
        m
    }
}

/// The forward count that a reply to `h` reports: the bytes buffered at the
/// destination port, for a credit request to a bound port; none otherwise.
pub open spec fn forward_count(m: Map<u32, SocketView>, h: Header) -> Option<nat> {
    if op_of_code(h.op) == Some(Op::CreditRequest) && m.contains_key(h.dst_port) {
        Some(m[h.dst_port].buffer.len())
    } else {
        None
    }
}

/// The reply to `h`: addressed back to the sender, without payload, with
/// the socket type of `h`, advertising the fixed buffer space. It is a
/// credit update carrying `fwd_cnt` where there is one, a reset with
/// forward count zero where there is none.
pub open spec fn reply_spec(h: Header, fwd_cnt: Option<u32>) -> Header {
    Header {
        src_cid: h.dst_cid,
        dst_cid: h.src_cid,
        src_port: h.dst_port,
        dst_port: h.src_port,
        len: 0,
        type_: h.type_,
        op: match fwd_cnt {
            Some(_) => code_of_op(Op::CreditUpdate),
            None => code_of_op(Op::Rst),
        },
        flags: 0,
        buf_alloc: RAW_SOCKET_BUFFER_SIZE as u32,
        fwd_cnt: match fwd_cnt {
            Some(n) => n,
            None => 0,
        },
    }
}

/// What the sender of `h` gets back: an error for a malformed header, a
/// reply where the fallback rule applies, nothing otherwise.
pub open spec fn outcome(m: Map<u32, SocketView>, h: Header) -> Result<Option<Header>, HeaderError> {
    match parsed(h) {
        Err(e) => Err(e),
        Ok(_) => if rule_of(m, h) == Rule::Fallback {
            Ok(
                Some(
                    reply_spec(
                        h,
                        match forward_count(m, h) {
                            Some(n) => Some(n as u32),
                            None => None,
                        },
                    ),
                ),
            )
        } else {
            Ok(None)
        },
    }
}

/// Whether the forward count that a reply to `h` would report fits its
/// 32-bit field.
pub open spec fn forward_count_fits(m: Map<u32, SocketView>, h: Header) -> bool {
    parsed(h) is Ok ==> match forward_count(m, h) {
        Some(n) => n <= u32::MAX,
        None => true,
    }
}

/// Picks the dispatch rule: the first that matches wins.
pub fn classify(state: Option<VsockState>, op: Op, ty: Type) -> (rule: Rule)
    ensures
        rule == rule_for(state, op, ty),
{
    let listening = match state {
        Some(VsockState::Listen) => true,
        _ => false,
    };
    let receiving = match state {
        Some(VsockState::Connected) => true,
        Some(VsockState::Shutdown) => true,
        _ => false,
    };
    if op == Op::Request && listening && ty == Type::Stream {
        return Rule::ConnectionRequest;
    }
    if receiving && ty == Type::Stream && op == Op::Rw {
        return Rule::DataDelivery;
    }
    if op == Op::CreditUpdate {
        Rule::CreditUpdate
    } else if op == Op::Shutdown {
        Rule::Shutdown
    } else {
        Rule::Fallback
    }
}

/// Composes the reply to `header`.
pub fn reply_to(header: &Header, fwd_cnt: Option<u32>) -> (reply: Header)
    ensures
        reply == reply_spec(*header, fwd_cnt),
{
    let (op, count) = match fwd_cnt {
        Some(n) => (op_code(Op::CreditUpdate), n),
        None => (op_code(Op::Rst), 0),
    };
    Header {
        src_cid: header.dst_cid,
        dst_cid: header.src_cid,
        src_port: header.dst_port,
        dst_port: header.src_port,
        len: 0,
        type_: header.type_,
        op,
        flags: 0,
        buf_alloc: RAW_SOCKET_BUFFER_SIZE as u32,
        fwd_cnt: count,
    }
}

/// Reads the operation and the socket type of a header.
pub fn parse(header: &Header) -> (r: Result<(Op, Type), HeaderError>)
    ensures
        r == parsed(*header),
{
    let op = match decode_op(header.op) {
        None => { return Err(HeaderError::UnknownOp); },
        Some(Op::Invalid) => { return Err(HeaderError::UnknownOp); },
        Some(op) => op,
    };
    match decode_type(header.type_) {
        None => Err(HeaderError::UnknownType),
        Some(ty) => Ok((op, ty)),
    }
}

/// Tells whether `handle_packet` may be called on this packet: whether the
/// forward count that the reply would report fits its field.
pub fn can_handle(map: &VsockMap, header: &Header) -> (ok: bool)
    ensures
        ok == forward_count_fits(map@, *header),
{
    match parse(header) {
        Ok((Op::CreditRequest, _)) => match map.get_socket(header.dst_port) {
            Some(raw) => raw.buffer.len() <= u32::MAX as usize,
            None => true,
        },
        _ => true,
    }
}

/// Applies `rule` to the connection that the packet is addressed to: a
/// request is taken down and the waiting party woken, payload is appended
/// and the waiting party woken, a shutdown is noted. The other rules leave
/// the connection as it is.
pub fn apply_rule(raw: &mut RawSocket, rule: Rule, header: &Header, data: &[u8])
    ensures
        final(raw)@ == socket_after(old(raw)@, rule, *header, data@),
{
    match rule {
        Rule::ConnectionRequest => {
            raw.state = VsockState::ReceiveRequest;
            raw.remote_cid = header.src_cid;
            raw.remote_port = header.src_port;
            raw.waker.wake();
        },
        Rule::DataDelivery => {
            raw.buffer.extend_from_slice(data);
            raw.waker.wake();
        },
        Rule::CreditUpdate => {},
        Rule::Shutdown => {
            raw.state = VsockState::Shutdown;
        },
        Rule::Fallback => {},
    }
}

/// Handles one inbound packet: applies the first matching rule to the
/// connection bound to the destination port, and returns the reply that is
/// owed to the sender, if one is.
///
/// A malformed header changes nothing and is reported as an error. Where
/// the reply reports a forward count, the count has to fit its field:
/// `can_handle` tells.
pub fn handle_packet(map: &mut VsockMap, header: &Header, data: &[u8]) -> (r: Result<
    Option<Header>,
    HeaderError,
>)
    requires
        forward_count_fits(old(map)@, *header),
    ensures
        r == outcome(old(map)@, *header),
        final(map)@ == registry_after(old(map)@, *header, data@),
{
    let (op, ty) = match parse(header) {
        Err(e) => { return Err(e); },
        Ok(pair) => pair,
    };
    let mut fwd_cnt: Option<u32> = None;
    let rule = match map.get_mut_socket(header.dst_port) {
        Some(raw) => {
            let rule = classify(Some(raw.state), op, ty);
            if rule == Rule::Fallback && op == Op::CreditRequest {
                fwd_cnt = Some(raw.buffer.len() as u32);
            }
            apply_rule(raw, rule, header, data);
            rule
        },
        None => classify(None, op, ty),
    };
    if rule == Rule::Fallback {
        Ok(Some(reply_to(header, fwd_cnt)))
    } else {
        Ok(None)
    }
}

/// A stream request to a listening connection makes it a connection with
/// a request received, records the sender's context id and port as the
/// peer, leaves nobody waiting to be woken, and is not replied to.
pub proof fn law_request_to_listener(m: Map<u32, SocketView>, h: Header, data: Seq<u8>)
    requires
        m.contains_key(h.dst_port),
        m[h.dst_port].state == VsockState::Listen,
        op_of_code(h.op) == Some(Op::Request),
        type_of_code(h.type_) == Some(Type::Stream),
    ensures
        registry_after(m, h, data)[h.dst_port].state == VsockState::ReceiveRequest,
        registry_after(m, h, data)[h.dst_port].remote_cid == h.src_cid,
        registry_after(m, h, data)[h.dst_port].remote_port == h.src_port,
        registry_after(m, h, data)[h.dst_port].waiter is None,
        outcome(m, h) == Ok::<Option<Header>, HeaderError>(None),
{
}

/// Stream payload to a connected connection is appended to what is
/// buffered, in its order, and a second such packet is appended after the
/// first.
pub proof fn law_payload_appended(
    m: Map<u32, SocketView>,
    first: Header,
    first_data: Seq<u8>,
    second: Header,
    second_data: Seq<u8>,
)
    requires
        m.contains_key(first.dst_port),
        m[first.dst_port].state == VsockState::Connected,
        second.dst_port == first.dst_port,
        op_of_code(first.op) == Some(Op::Rw),
        op_of_code(second.op) == Some(Op::Rw),
        type_of_code(first.type_) == Some(Type::Stream),
        type_of_code(second.type_) == Some(Type::Stream),
    ensures
        registry_after(m, first, first_data)[first.dst_port].buffer == m[first.dst_port].buffer
            + first_data,
        registry_after(
            registry_after(m, first, first_data),
            second,
            second_data,
        )[first.dst_port].buffer == m[first.dst_port].buffer + first_data + second_data,
{
}

/// A shutdown with a known socket type puts the addressed connection into
/// the shutting-down state, whatever state it was in.
pub proof fn law_shutdown_from_any_state(m: Map<u32, SocketView>, h: Header, data: Seq<u8>)
    requires
        m.contains_key(h.dst_port),
        op_of_code(h.op) == Some(Op::Shutdown),
        type_of_code(h.type_) is Some,
    ensures
        registry_after(m, h, data)[h.dst_port].state == VsockState::Shutdown,
{
}

/// A credit request to a port that is not bound changes nothing and is
/// answered: the reply goes back to the sender, reports forward count zero,
/// and is a reset, there being no buffer to report on.
pub proof fn law_credit_request_to_unbound_port(m: Map<u32, SocketView>, h: Header, data: Seq<u8>)
    requires
        !m.contains_key(h.dst_port),
        op_of_code(h.op) == Some(Op::CreditRequest),
        type_of_code(h.type_) is Some,
    ensures
        registry_after(m, h, data) == m,
        outcome(m, h) matches Ok(Some(reply)) && {
            &&& reply.src_cid == h.dst_cid
            &&& reply.dst_cid == h.src_cid
            &&& reply.src_port == h.dst_port
            &&& reply.dst_port == h.src_port
            &&& reply.fwd_cnt == 0
            &&& reply.len == 0
            &&& op_of_code(reply.op) == Some(Op::Rst)
        },
{
}

/// A packet to a bound connection that no rule before the fallback
/// matches, and that is no credit request, changes nothing and is answered
/// by a reset that goes back to the sender and reports forward count zero.
pub proof fn law_unexpected_packet_reset(m: Map<u32, SocketView>, h: Header, data: Seq<u8>)
    requires
        m.contains_key(h.dst_port),
        parsed(h) is Ok,
        rule_of(m, h) == Rule::Fallback,
        op_of_code(h.op) != Some(Op::CreditRequest),
    ensures
        registry_after(m, h, data) == m,
        outcome(m, h) matches Ok(Some(reply)) && {
            &&& reply.src_cid == h.dst_cid
            &&& reply.dst_cid == h.src_cid
            &&& reply.src_port == h.dst_port
            &&& reply.dst_port == h.src_port
            &&& reply.fwd_cnt == 0
            &&& reply.len == 0
            &&& op_of_code(reply.op) == Some(Op::Rst)
        },
{
}

} // verus!
