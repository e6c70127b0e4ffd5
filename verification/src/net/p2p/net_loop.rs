//! What the host and the client decide when a packet comes in, a ping goes
//! unanswered or the peer stays silent. Sockets and timers belong to the
//! caller: it reports what happened and carries out what these functions
//! return.

use vstd::prelude::*;
use crate::game::{GameAction, PieceColor, PieceData, Square};
use crate::net::net_utils::SocketAddress;
use crate::net::p2p::queue::{
    check_transaction_id, new_transaction_id, pop_outgoing_queue, push_incoming_gameaction,
    push_outgoing_queue, random_u16, set_response, table_after_response, Delivery, IncomingActions,
    OutgoingQueue, TransactionEntry, TransactionTable, TRANSACTION_IDS,
};
use crate::net::p2p::{
    P2pError, P2pPacket, P2pRequest, P2pRequestPacket, P2pResponse, P2pResponsePacket, PacketView,
    RequestPacketView, RequestView, ResponsePacketView, ResponseView,
};
use crate::net::status::{ConnectionData, ConnectionStatus, ConnectionView, CONNECT_SESSION_ID};

verus! {

/// How long a peer waits for an answer to a request, in milliseconds.
pub const REQUEST_TIMEOUT_MS: u128 = 500;

/// How long the client may stay silent before the host gives its place away,
/// in milliseconds.
pub const DISCONNECT_TIME_MS: u128 = 5_000;

/// Why the host turns a connect request down, or `None` if it takes it: the
/// join code must be the host's, the game must have no client yet, and the
/// session id must be the one of a client that has not joined. The first of
/// these that fails names the error.
pub open spec fn connect_refusal(data: ConnectionView, session_id: u16, join_code: Seq<char>) -> Option<
    P2pError,
> {
    if data.join_code != Some(join_code) {
        Some(P2pError::InvalidJoinCode)
    } else if data.other_addr is Some {
        Some(P2pError::FullGameSession)
    } else if session_id != CONNECT_SESSION_ID {
        Some(P2pError::InvalidSessionId)
    } else {
        None
    }
}

/// What the host answers to a request. `board` is the host's board, `color`
/// the color that the host plays and `username` the host's name.
pub open spec fn host_reply(
    data: ConnectionView,
    board: Seq<Square>,
    color: PieceColor,
    username: Seq<char>,
    request: RequestView,
) -> ResponsePacketView {
    match request.packet {
        RequestPacketView::Ping => ResponsePacketView::Pong,
        RequestPacketView::Connect { join_code, username: _ } => match connect_refusal(
            data,
            request.session_id,
            join_code,
        ) {
            Some(kind) => ResponsePacketView::Error { kind },
            None => ResponsePacketView::Connect {
                client_color: color.opposite(),
                host_username: username,
            },
        },
        RequestPacketView::Resync => ResponsePacketView::Resync { board },
        RequestPacketView::GameAction { action: _ } => ResponsePacketView::Acknowledge,
    }
}

/// The host's connection state after a request from `from`: a connect request
/// that is taken starts the session `fresh_session` with the sender as peer;
/// nothing else changes the state.
pub open spec fn host_after_request(
    data: ConnectionView,
    request: RequestView,
    from: SocketAddress,
    fresh_session: u16,
) -> ConnectionView {
    match request.packet {
        RequestPacketView::Connect { join_code, username: _ } => if connect_refusal(
            data,
            request.session_id,
            join_code,
        ) is None {
            ConnectionView {
                session_id: fresh_session,
                status: ConnectionStatus::Connected { ping: 0 },
                other_addr: Some(from),
                ..data
            }
        } else {
            data
        },
        _ => data,
    }
}

/// The actions that wait for the application after a request has come in: a
/// game action joins them, nothing else does.
pub open spec fn actions_after_request(actions: Seq<GameAction>, request: P2pRequest) -> Seq<
    GameAction,
> {
    match request.packet {
        P2pRequestPacket::GameAction { action } => actions.push(action),
        _ => actions,
    }
}

/// The host's state after the client has been silent for `idle_ms`
/// milliseconds: after the disconnect time the client's place is free again.
pub open spec fn host_after_silence(data: ConnectionView, idle_ms: u128) -> ConnectionView {
    if idle_ms >= DISCONNECT_TIME_MS && data.other_addr is Some {
        ConnectionView {
            other_addr: None,
            other_username: None,
            session_id: CONNECT_SESSION_ID,
            ..data
        }
    } else {
        data
    }
}

/// A packet that came from `from` shows that the client is there: any packet
/// from the address that the client is bound to, and the connect request by
/// which a sender becomes the client.
pub open spec fn shows_the_peer(data: ConnectionView, from: SocketAddress, packet: PacketView) -> bool {
    ||| data.other_addr == Some(from)
    ||| packet matches PacketView::Request(request) && request.packet
        matches RequestPacketView::Connect { join_code, .. } && connect_refusal(
        data,
        request.session_id,
        join_code,
    ) is None
}

/// Whether a packet that the host received from `from` shows that the client
/// is there, so that the time of silence starts anew. To be asked before the
/// packet is handled.
pub fn host_hears_peer(data: &ConnectionData, from: SocketAddress, packet: &P2pPacket) -> (heard: bool)
    ensures
        heard == shows_the_peer(data@, from, packet@),
{
    let bound = match data.other_addr {
        Some(peer) => peer == from,
        None => false,
    };
    if bound {
        return true;
    }
    match packet {
        P2pPacket::Request(request) => match &request.packet {
            P2pRequestPacket::Connect { join_code, username: _ } => host_accepts(
                data,
                request.session_id,
                join_code,
            ).is_none(),
            _ => false,
        },
        P2pPacket::Response(_) => false,
    }
}

/// The packets that show the peer are those of the address that the host is
/// bound to once the packet has been handled.
pub proof fn law_heard_peer_is_the_bound_one(
    data: ConnectionView,
    from: SocketAddress,
    request: RequestView,
    fresh_session: u16,
)
    ensures
        shows_the_peer(data, from, PacketView::Request(request)) == (host_after_request(
            data,
            request,
            from,
            fresh_session,
        ).other_addr == Some(from)),
{
}

/// Frees the client's place if the client has been silent for too long.
/// Returns whether it did.
pub fn host_evict_idle_peer(data: &mut ConnectionData, idle_ms: u128) -> (evicted: bool)
    ensures
        final(data)@ == host_after_silence(old(data)@, idle_ms),
        evicted == (idle_ms >= DISCONNECT_TIME_MS && old(data)@.other_addr is Some),
{
    if idle_ms >= DISCONNECT_TIME_MS && data.other_addr.is_some() {
        data.other_addr = None;
        data.other_username = None;
        data.session_id = CONNECT_SESSION_ID;
        true
    } else {
        false
    }
}

/// Whether the host takes a connect request with this session id and join
/// code.
pub fn host_accepts(data: &ConnectionData, session_id: u16, join_code: &String) -> (verdict: Option<
    P2pError,
>)
    ensures
        verdict == connect_refusal(data@, session_id, join_code@),
{
    let known = match &data.join_code {
        Some(code) => *code == *join_code,
        None => false,
    };
    if !known {
        Some(P2pError::InvalidJoinCode)
    } else if data.other_addr.is_some() {
        Some(P2pError::FullGameSession)
    } else if session_id != CONNECT_SESSION_ID {
        Some(P2pError::InvalidSessionId)
    } else {
        None
    }
}

/// Answers a request as the host. `fresh_session` is the id that a new
/// session gets if the request opens one.
pub fn host_answer(
    data: &mut ConnectionData,
    incoming: &mut IncomingActions,
    board: &Vec<PieceData>,
    color: PieceColor,
    username: &str,
    request: P2pRequest,
    from: SocketAddress,
    fresh_session: u16,
) -> (answer: P2pResponsePacket)
    ensures
        answer@ == host_reply(old(data)@, board.deep_view(), color, username@, request@),
        final(data)@ == host_after_request(old(data)@, request@, from, fresh_session),
        final(incoming)@ == actions_after_request(old(incoming)@, request),
{
    match request.packet {
        P2pRequestPacket::Ping => P2pResponsePacket::Pong,
        P2pRequestPacket::Connect { join_code, username: _ } => {
            match host_accepts(data, request.session_id, &join_code) {
                Some(kind) => P2pResponsePacket::error(kind),
                None => {
                    data.session_id = fresh_session;
                    data.status = ConnectionStatus::connected();
                    data.other_addr = Some(from);
                    P2pResponsePacket::connect(color.get_opposite(), username.to_owned())
                },
            }
        },
        P2pRequestPacket::Resync => {
            let mut copy: Vec<PieceData> = Vec::new();
            let mut i: usize = 0;
            while i < board.len()
                invariant
                    i <= board@.len(),
                    copy@ == board@.subrange(0, i as int),
                decreases board@.len() - i,
            {
                copy.push(board[i]);
                i += 1;
                assert(copy@ =~= board@.subrange(0, i as int));
            }
            assert(copy@ =~= board@);
            assert(copy.deep_view() =~= board.deep_view());
            P2pResponsePacket::resync(copy)
        },
        P2pRequestPacket::GameAction { action } => {
            push_incoming_gameaction(incoming, action);
            P2pResponsePacket::Acknowledge
        },
    }
}

/// What the host did with a packet.
#[derive(Debug, PartialEq, Eq)]
pub enum HostReaction {
    /// It was a request. This answer is to be sent at once to where the
    /// request came from, and the sender has shown that it is there.
    Reply(P2pResponse),
    /// It was a response to an open transaction, and this became of it.
    Delivered(Delivery),
    /// It was a response to no open transaction, and was dropped.
    Dropped,
}

/// Handles a packet that the host received from `from`.
///
/// Every request gets an answer, under the session id that holds after the
/// request and under the request's transaction id. A connect request that is
/// taken starts a session whose id is drawn at random. A response is recorded
/// in the transaction table if its transaction is open.
pub fn host_handle_packet(
    data: &mut ConnectionData,
    table: &mut TransactionTable,
    incoming: &mut IncomingActions,
    board: &Vec<PieceData>,
    color: PieceColor,
    username: &str,
    packet: P2pPacket,
    from: SocketAddress,
) -> (reaction: HostReaction)
    ensures
        match packet {
            P2pPacket::Request(request) => {
                &&& exists|fresh_session: u16|
                    final(data)@ == #[trigger] host_after_request(
                        old(data)@,
                        request@,
                        from,
                        fresh_session,
                    )
                &&& final(incoming)@ == actions_after_request(old(incoming)@, request)
                &&& final(table)@ == old(table)@
                &&& reaction matches HostReaction::Reply(answer)
                &&& answer@ == (ResponseView {
                    session_id: final(data)@.session_id,
                    transaction_id: request.transaction_id,
                    packet: host_reply(old(data)@, board.deep_view(), color, username@, request@),
                })
            },
            P2pPacket::Response(response) => {
                &&& final(data)@ == old(data)@
                &&& final(incoming)@ == old(incoming)@
                &&& final(table)@ == table_after_response(
                    old(table)@,
                    response.transaction_id,
                    Some(packet),
                )
                &&& match reaction {
                    HostReaction::Reply(_) => false,
                    HostReaction::Dropped => !old(table)@.contains_key(response.transaction_id),
                    HostReaction::Delivered(delivery) => old(table)@.contains_key(
                        response.transaction_id,
                    ) && match delivery {
                        Delivery::Unknown => false,
                        Delivery::Stored => !old(table)@[response.transaction_id].has_callback,
                        Delivery::Callback(answer) => old(table)@[response.transaction_id].has_callback
                            && answer == response,
                        Delivery::Discarded => false,
                    },
                }
            },
        },
{
    match packet {
        P2pPacket::Request(request) => {
            let transaction_id = request.transaction_id;
            let opens_session = match &request.packet {
                P2pRequestPacket::Connect { join_code, username: _ } => host_accepts(
                    data,
                    request.session_id,
                    join_code,
                ).is_none(),
                _ => false,
            };
            let fresh_session = if opens_session {
                random_u16()
            } else {
                data.session_id
            };
            let answer = host_answer(data, incoming, board, color, username, request, from, fresh_session);
            let session_id = data.session_id;
            HostReaction::Reply(P2pResponse::new(session_id, transaction_id, answer))
        },
        P2pPacket::Response(response) => {
            let transaction_id = response.transaction_id;
            if !check_transaction_id(table, transaction_id) {
                return HostReaction::Dropped;
            }
            HostReaction::Delivered(set_response(table, transaction_id, Some(P2pPacket::Response(response))))
        },
    }
}

/// What the client answers to a request: a pong to a ping, an acknowledgement
/// to a game action, and to anything else that such requests go the other
/// way.
pub open spec fn client_reply(request: RequestPacketView) -> ResponsePacketView {
    match request {
        RequestPacketView::Ping => ResponsePacketView::Pong,
        RequestPacketView::GameAction { action: _ } => ResponsePacketView::Acknowledge,
        _ => ResponsePacketView::Error { kind: P2pError::WrongDirection },
    }
}

/// Answers a request as the client. The answer carries the ids of the
/// request.
pub fn client_answer(incoming: &mut IncomingActions, request: P2pRequest) -> (answer: P2pResponse)
    ensures
        answer@ == (ResponseView {
            session_id: request.session_id,
            transaction_id: request.transaction_id,
            packet: client_reply(request@.packet),
        }),
        final(incoming)@ == actions_after_request(old(incoming)@, request),
{
    let session_id = request.session_id;
    let transaction_id = request.transaction_id;
    let packet = match request.packet {
        P2pRequestPacket::Ping => P2pResponsePacket::Pong,
        P2pRequestPacket::GameAction { action } => {
            push_incoming_gameaction(incoming, action);
            P2pResponsePacket::Acknowledge
        },
        _ => P2pResponsePacket::error(P2pError::WrongDirection),
    };
    P2pResponse::new(session_id, transaction_id, packet)
}

/// What the client did with a packet.
#[derive(Debug, PartialEq, Eq)]
pub enum ClientReaction {
    /// The packet did not come from the host, and was dropped.
    Ignored,
    /// It was a request. This answer is to be sent to the host at once.
    Reply(P2pResponse),
    /// It was a response, and this became of it.
    Delivered(Delivery),
}

/// Handles a packet that the client received from `from`.
pub fn client_handle_packet(
    data: &ConnectionData,
    table: &mut TransactionTable,
    incoming: &mut IncomingActions,
    packet: P2pPacket,
    from: SocketAddress,
) -> (reaction: ClientReaction)
    ensures
        data@.other_addr != Some(from) ==> {
            &&& reaction is Ignored
            &&& final(table)@ == old(table)@
            &&& final(incoming)@ == old(incoming)@
        },
        data@.other_addr == Some(from) ==> match packet {
            P2pPacket::Request(request) => {
                &&& reaction matches ClientReaction::Reply(answer)
                &&& answer@ == (ResponseView {
                    session_id: request.session_id,
                    transaction_id: request.transaction_id,
                    packet: client_reply(request@.packet),
                })
                &&& final(table)@ == old(table)@
                &&& final(incoming)@ == actions_after_request(old(incoming)@, request)
            },
            P2pPacket::Response(response) => {
                &&& reaction matches ClientReaction::Delivered(delivery)
                &&& final(table)@ == table_after_response(
                    old(table)@,
                    response.transaction_id,
                    Some(packet),
                )
                &&& final(incoming)@ == old(incoming)@
                &&& match delivery {
                    Delivery::Unknown => !old(table)@.contains_key(response.transaction_id),
                    Delivery::Stored => old(table)@.contains_key(response.transaction_id) && !old(table)@[response.transaction_id].has_callback,
                    Delivery::Callback(answer) => old(table)@.contains_key(response.transaction_id)
                        && old(table)@[response.transaction_id].has_callback && answer == response,
                    Delivery::Discarded => false,
                }
            },
        },
{
    let known = match data.other_addr {
        Some(host) => host == from,
        None => false,
    };
    if !known {
        return ClientReaction::Ignored;
    }
    match packet {
        P2pPacket::Request(request) => ClientReaction::Reply(client_answer(incoming, request)),
        P2pPacket::Response(response) => {
            let transaction_id = response.transaction_id;
            ClientReaction::Delivered(set_response(table, transaction_id, Some(P2pPacket::Response(response))))
        },
    }
}

/// Whether the client pings the host at this tick: while it is connected or
/// reconnecting, and knows where the host is.
pub fn client_wants_ping(data: &ConnectionData) -> (wanted: bool)
    ensures
        wanted == ((data@.status is Connected || data@.status is Reconnecting) && data@.other_addr
            is Some),
{
    (data.status.is_connected() || data.status.is_reconnecting()) && data.other_addr.is_some()
}

/// Queues a ping under the client's session id and a new transaction id,
/// which it returns.
pub fn client_send_ping(data: &ConnectionData, outgoing: &mut OutgoingQueue, table: &mut TransactionTable) -> (ping_id:
    u16)
    requires
        old(table)@.len() < TRANSACTION_IDS,
    ensures
        !old(table)@.contains_key(ping_id),
        final(table)@ == old(table)@.insert(
            ping_id,
            TransactionEntry { response: None, has_callback: false },
        ),
        final(outgoing)@.len() == old(outgoing)@.len() + 1,
        final(outgoing)@.drop_last() == old(outgoing)@,
        final(outgoing)@.last().1 == ping_id,
        final(outgoing)@.last().0@ == PacketView::Request(
            RequestView {
                session_id: data@.session_id,
                transaction_id: ping_id,
                packet: RequestPacketView::Ping,
            },
        ),
{
    let ping_id = new_transaction_id(table);
    let ping = P2pRequest::new(data.session_id, ping_id, P2pRequestPacket::Ping);
    let ghost sent = P2pPacket::Request(ping);
    push_outgoing_queue(outgoing, table, P2pPacket::Request(ping), false);
    assert(outgoing@.drop_last() =~= old(outgoing)@);
    assert(outgoing@.last() == (sent, ping_id));
    ping_id
}

/// The packet is a pong.
pub open spec fn is_pong(answer: PacketView) -> bool {
    answer matches PacketView::Response(response) && response.packet is Pong
}

/// The client's state after the answer to a ping has come within
/// `elapsed_ns` nanoseconds. A pong shows that the host is there, and the
/// client is `Connected` with that round-trip time; anything else in its place
/// shows nothing.
pub open spec fn client_after_answer(data: ConnectionView, answer: PacketView, elapsed_ns: u128) -> ConnectionView {
    if is_pong(answer) {
        ConnectionView { status: ConnectionStatus::Connected { ping: elapsed_ns }, ..data }
    } else {
        data
    }
}

/// Notes that the answer to a ping has come within `elapsed_ns` nanoseconds.
pub fn client_ping_answered(data: &mut ConnectionData, answer: &P2pPacket, elapsed_ns: u128)
    ensures
        final(data)@ == client_after_answer(old(data)@, answer@, elapsed_ns),
{
    if let P2pPacket::Response(response) = answer {
        if response.packet.is_pong() {
            data.status = ConnectionStatus::Connected { ping: elapsed_ns };
        }
    }
}

/// The client's state after a ping has gone unanswered: the status steps on,
/// and when it steps to `Disconnected` the host is forgotten.
pub open spec fn client_after_timeout(data: ConnectionView) -> ConnectionView {
    let status = data.status.after_timeout();
    if status is Disconnected && !(data.status is Disconnected) {
        ConnectionView { status, other_addr: None, other_username: None, ..data }
    } else {
        ConnectionView { status, ..data }
    }
}

/// Notes that a ping has gone unanswered.
pub fn client_ping_timed_out(data: &mut ConnectionData)
    ensures
        final(data)@ == client_after_timeout(old(data)@),
{
    let was_disconnected = matches!(data.status, ConnectionStatus::Disconnected);
    data.status = data.status.timed_out();
    if matches!(data.status, ConnectionStatus::Disconnected) && !was_disconnected {
        data.other_addr = None;
        data.other_username = None;
    }
}

/// The client's state after `count` pings in a row have gone unanswered.
pub open spec fn client_after_timeouts(data: ConnectionView, count: nat) -> ConnectionView
    decreases count,
{
    if count == 0 {
        data
    } else {
        client_after_timeout(client_after_timeouts(data, (count - 1) as nat))
    }
}

/// From `Connected`, fewer unanswered pings in a row than the budget allows
/// leave the client `Reconnecting`, with their number as `tries` and the host
/// still known; as many as the budget leave it `Disconnected`, with the host's
/// address and name forgotten.
pub proof fn law_client_gives_up_after_budget(data: ConnectionView, count: nat)
    requires
        data.status is Connected,
        1 <= count <= crate::net::status::RECONNECT_TRIES,
    ensures
        count < crate::net::status::RECONNECT_TRIES ==> client_after_timeouts(data, count) == (
        ConnectionView { status: ConnectionStatus::Reconnecting { tries: count as u8 }, ..data }),
        count == crate::net::status::RECONNECT_TRIES ==> client_after_timeouts(data, count) == (
        ConnectionView {
            status: ConnectionStatus::Disconnected,
            other_addr: None,
            other_username: None,
            ..data
        }),
    decreases count,
{
    if count == 1 {
        assert(client_after_timeouts(data, 0) == data);
    } else {
        law_client_gives_up_after_budget(data, (count - 1) as nat);
    }
}

/// A connect request with a join code that is not the host's is always
/// answered with `InvalidJoinCode`, and changes nothing at the host.
pub proof fn law_wrong_join_code_is_refused(
    data: ConnectionView,
    board: Seq<Square>,
    color: PieceColor,
    username: Seq<char>,
    request: RequestView,
    from: SocketAddress,
    fresh_session: u16,
)
    requires
        request.packet matches RequestPacketView::Connect { join_code, .. } && data.join_code != Some(
            join_code,
        ),
    ensures
        host_reply(data, board, color, username, request) == (ResponsePacketView::Error {
            kind: P2pError::InvalidJoinCode,
        }),
        host_after_request(data, request, from, fresh_session) == data,
{
}

/// A connect request is never passed over: it is answered with the client's
/// color or with an error.
pub proof fn law_connect_is_always_answered(
    data: ConnectionView,
    board: Seq<Square>,
    color: PieceColor,
    username: Seq<char>,
    request: RequestView,
)
    requires
        request.packet is Connect,
    ensures
        host_reply(data, board, color, username, request) is Connect || host_reply(
            data,
            board,
            color,
            username,
            request,
        ) is Error,
{
}

/// The next packet to send and where to send it, once the other peer is
/// known. Until then nothing leaves the queue.
pub fn next_to_send(data: &ConnectionData, outgoing: &mut OutgoingQueue) -> (next: Option<
    (P2pPacket, SocketAddress),
>)
    ensures
        match next {
            Some((packet, to)) => {
                &&& data@.other_addr == Some(to)
                &&& old(outgoing)@.len() > 0
                &&& packet == old(outgoing)@[0].0
                &&& final(outgoing)@ == old(outgoing)@.drop_first()
            },
            None => {
                &&& data@.other_addr is None || old(outgoing)@.len() == 0
                &&& final(outgoing)@ == old(outgoing)@
            },
        },
{
    let to = match data.other_addr {
        Some(addr) => addr,
        None => {
            return None;
        },
    };
    match pop_outgoing_queue(outgoing) {
        Some((packet, _)) => Some((packet, to)),
        None => None,
    }
}

} // verus!
