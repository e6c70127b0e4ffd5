//! What the application asks of the network layer: to open a session, to
//! join one, to send a game action and to fetch the actions of the other
//! player.

use vstd::prelude::*;
use crate::game::{GameAction, PieceColor};
use crate::net::net_utils::{
    hex_decode_ip, hex_encode_ip, hex_text, join_code_address, join_payload, IpAddress, JoinCodeError,
    NetworkError, NetworkErrorView, SocketAddress,
};
use crate::net::p2p::queue::{
    check_for_response, new_transaction_id, pop_incoming_gameaction, push_outgoing_queue,
    table_after_check, waiting_response, IncomingActions, OutgoingQueue, TransactionEntry,
    TransactionTable, TRANSACTION_IDS,
};
use crate::net::p2p::{
    P2pError, P2pPacket, P2pRequest, P2pRequestPacket, P2pResponse, P2pResponsePacket, PacketView,
    RequestPacketView, RequestView, ResponsePacketView,
};
use crate::net::status::{ConnectionData, ConnectionStatus, ConnectionView, CONNECT_SESSION_ID};

verus! {

/// How often the client looks for the answer to a join request before it
/// sends the request again.
pub const JOIN_CHECKS: u32 = 25;

/// How many join requests the client sends before it gives up.
pub const JOIN_ATTEMPTS: u32 = 10;

/// Why a join request did not bring the client into the game.
#[derive(Clone, Copy, Debug, PartialEq, Eq, Structural)]
pub enum JoinFailure {
    /// The host answered with this error.
    Refused(P2pError),
    /// The host answered with a response of another kind.
    WrongResponse,
    /// A request stood where the response was expected.
    NotAResponse,
}

/// Opens a session as the host that listens on `addr`: computes the join code
/// and remembers it. Returns the join code for the client.
pub fn open_host_session(data: &mut ConnectionData, addr: SocketAddress) -> (code: Result<
    String,
    NetworkError,
>)
    ensures
        match addr.ip {
            IpAddress::V4(ip) => {
                &&& code is Ok
                &&& code->Ok_0@ == hex_text(join_payload(ip, addr.port))
                &&& final(data)@ == (ConnectionView { join_code: Some(code->Ok_0@), ..old(data)@ })
            },
            IpAddress::V6(_) => {
                &&& code is Err
                &&& code->Err_0@ == NetworkErrorView::GetIpV4Error
                &&& final(data)@ == old(data)@
            },
        },
{
    match hex_encode_ip(addr) {
        Ok(code) => {
            data.join_code = Some(code.clone());
            Ok(code)
        },
        Err(error) => Err(error),
    }
}

/// Sends a join request to the host.
///
/// The join code names the host's address. If it names none, nothing
/// changes. Else the client remembers code and address, is in
/// `PendingConnection`, and a connect request under a new transaction id,
/// which is returned, stands at the end of the outgoing queue.
///
/// ## Params
/// * `join_code` - The join code sent by the host.
/// * `username` - The client's username.
pub fn send_join_request(
    data: &mut ConnectionData,
    outgoing: &mut OutgoingQueue,
    table: &mut TransactionTable,
    join_code: &str,
    username: &str,
) -> (sent: Result<u16, JoinCodeError>)
    requires
        old(table)@.len() < TRANSACTION_IDS,
    ensures
        match sent {
            Err(error) => {
                &&& join_code_address(join_code@) == Err::<SocketAddress, JoinCodeError>(error)
                &&& final(data)@ == old(data)@
                &&& final(outgoing)@ == old(outgoing)@
                &&& final(table)@ == old(table)@
            },
            Ok(transaction_id) => {
                &&& join_code_address(join_code@) is Ok
                &&& final(data)@ == (ConnectionView {
                    join_code: Some(join_code@),
                    other_addr: Some(join_code_address(join_code@)->Ok_0),
                    status: ConnectionStatus::PendingConnection,
                    ..old(data)@
                })
                &&& !old(table)@.contains_key(transaction_id)
                &&& final(table)@ == old(table)@.insert(
                    transaction_id,
                    TransactionEntry { response: None, has_callback: false },
                )
                &&& final(outgoing)@.len() == old(outgoing)@.len() + 1
                &&& final(outgoing)@.drop_last() == old(outgoing)@
                &&& final(outgoing)@.last().1 == transaction_id
                &&& final(outgoing)@.last().0@ == PacketView::Request(
                    RequestView {
                        session_id: CONNECT_SESSION_ID,
                        transaction_id,
                        packet: RequestPacketView::Connect {
                            join_code: join_code@,
                            username: username@,
                        },
                    },
                )
            },
        },
{
    let host_addr = match hex_decode_ip(join_code) {
        Ok(addr) => addr,
        Err(error) => {
            return Err(error);
        },
    };
    data.join_code = Some(join_code.to_owned());
    data.other_addr = Some(host_addr);

    let transaction_id = new_transaction_id(table);
    let join_request = P2pRequest::new(
        CONNECT_SESSION_ID,
        transaction_id,
        P2pRequestPacket::connect(join_code, username),
    );
    data.status = ConnectionStatus::PendingConnection;

    let ghost sent = P2pPacket::Request(join_request);
    push_outgoing_queue(outgoing, table, P2pPacket::Request(join_request), false);
    assert(outgoing@.drop_last() =~= old(outgoing)@);
    assert(outgoing@.last() == (sent, transaction_id));
    Ok(transaction_id)
}

/// What the answer to a join request means for the client.
pub open spec fn join_outcome(answer: PacketView) -> Result<(PieceColor, Seq<char>), JoinFailure> {
    match answer {
        PacketView::Response(response) => match response.packet {
            ResponsePacketView::Connect { client_color, host_username } => Ok(
                (client_color, host_username),
            ),
            ResponsePacketView::Error { kind } => Err(JoinFailure::Refused(kind)),
            _ => Err(JoinFailure::WrongResponse),
        },
        PacketView::Request(_) => Err(JoinFailure::NotAResponse),
    }
}

/// The client's state after the answer to its join request has been read:
/// being taken in makes it `Connected`, in the session and with the host name that
/// the answer carries; anything else changes nothing.
pub open spec fn client_after_join_answer(data: ConnectionView, answer: PacketView) -> ConnectionView {
    match answer {
        PacketView::Response(response) => match response.packet {
            ResponsePacketView::Connect { client_color, host_username } => ConnectionView {
                status: ConnectionStatus::Connected { ping: 0 },
                session_id: response.session_id,
                other_username: Some(host_username),
                ..data
            },
            _ => data,
        },
        PacketView::Request(_) => data,
    }
}

/// Check if the connection request sent with `send_join_request()` has gotten
/// a response. If a packet has been received, and if that packet takes the
/// client in, the function returns the client's assigned piece color, as well
/// as the host's username.
///
/// ## Params
/// * `transaction_id` - The id of the join request
pub fn check_for_connection_resp(data: &mut ConnectionData, table: &mut TransactionTable, transaction_id: u16) -> (answer:
    Option<Result<(PieceColor, String), JoinFailure>>)
    ensures
        final(table)@ == table_after_check(old(table)@, transaction_id),
        match waiting_response(old(table)@, transaction_id) {
            None => answer is None && final(data)@ == old(data)@,
            Some(packet) => {
                &&& final(data)@ == client_after_join_answer(old(data)@, packet@)
                &&& match answer {
                    Some(Ok((color, host_username))) => join_outcome(packet@) == Ok::<
                        (PieceColor, Seq<char>),
                        JoinFailure,
                    >((color, host_username@)),
                    Some(Err(failure)) => join_outcome(packet@) == Err::<
                        (PieceColor, Seq<char>),
                        JoinFailure,
                    >(failure),
                    None => false,
                }
            },
        },
{
    match check_for_response(table, transaction_id) {
        Some(resp) => match resp {
            P2pPacket::Response(resp) => match resp.packet {
                P2pResponsePacket::Connect { client_color, host_username } => {
                    data.status = ConnectionStatus::connected();
                    data.session_id = resp.session_id;
                    data.other_username = Some(host_username.clone());
                    Some(Ok((client_color, host_username)))
                },
                P2pResponsePacket::Error { kind } => Some(Err(JoinFailure::Refused(kind))),
                _ => Some(Err(JoinFailure::WrongResponse)),
            },
            _ => Some(Err(JoinFailure::NotAResponse)),
        },
        None => None,
    }
}

/// What the client does next while it waits to be taken in.
#[derive(Clone, Copy, Debug, PartialEq, Eq, Structural)]
pub enum JoinStep {
    /// Wait a tick and look for the answer again.
    KeepWaiting,
    /// Send the join request again.
    SendAgain,
    /// No answer has come to any request: give up.
    GiveUp,
}

/// The next step of a client that has sent `attempts` join requests and has
/// looked `checks` times for the answer to the last one, without finding
/// any: it looks 25 times, then sends the request again, and gives up after
/// the tenth request.
pub fn next_join_step(attempts: u32, checks: u32) -> (step: JoinStep)
    ensures
        step == if checks < JOIN_CHECKS {
            JoinStep::KeepWaiting
        } else if attempts < JOIN_ATTEMPTS {
            JoinStep::SendAgain
        } else {
            JoinStep::GiveUp
        },
{
    if checks < JOIN_CHECKS {
        JoinStep::KeepWaiting
    } else if attempts < JOIN_ATTEMPTS {
        JoinStep::SendAgain
    } else {
        JoinStep::GiveUp
    }
}

/// Get the next game action from the other user.
pub fn get_next_game_action(incoming: &mut IncomingActions) -> (next: Option<GameAction>)
    ensures
        match next {
            Some(action) => old(incoming)@.len() > 0 && action == old(incoming)@[0] && final(incoming)@ == old(incoming)@.drop_first(),
            None => old(incoming)@.len() == 0 && final(incoming)@ == old(incoming)@,
        },
{
    pop_incoming_gameaction(incoming)
}

/// Send a game action to the other user: a request that carries the action,
/// under the session id and a new transaction id, goes to the end of the
/// outgoing queue, and its transaction is marked as having a callback. Returns
/// the transaction id, under which the caller keeps the callback.
pub fn send_game_action(
    data: &ConnectionData,
    outgoing: &mut OutgoingQueue,
    table: &mut TransactionTable,
    action: GameAction,
) -> (transaction_id: u16)
    requires
        old(table)@.len() < TRANSACTION_IDS,
        data@.status.can_send_spec(),
    ensures
        !old(table)@.contains_key(transaction_id),
        final(table)@ == old(table)@.insert(
            transaction_id,
            TransactionEntry { response: None, has_callback: true },
        ),
        final(outgoing)@.len() == old(outgoing)@.len() + 1,
        final(outgoing)@.drop_last() == old(outgoing)@,
        final(outgoing)@.last().1 == transaction_id,
        final(outgoing)@.last().0@ == PacketView::Request(
            RequestView {
                session_id: data@.session_id,
                transaction_id,
                packet: RequestPacketView::GameAction { action: action@ },
            },
        ),
{
    let transaction_id = new_transaction_id(table);
    let request = P2pRequest {
        session_id: data.session_id,
        transaction_id,
        packet: P2pRequestPacket::game_action(action),
    };
    let ghost sent = P2pPacket::Request(request);
    push_outgoing_queue(outgoing, table, P2pPacket::Request(request), true);
    assert(outgoing@.drop_last() =~= old(outgoing)@);
    assert(outgoing@.last() == (sent, transaction_id));
    transaction_id
}

/// What the answer to a game action tells the one who sent it: an error
/// response means that the action was turned down, any other response that it
/// arrived.
pub fn game_action_outcome(response: &P2pResponse) -> (outcome: Result<(), P2pError>)
    ensures
        outcome == match response@.packet {
            ResponsePacketView::Error { kind } => Err::<(), P2pError>(kind),
            _ => Ok::<(), P2pError>(()),
        },
{
    match &response.packet {
        P2pResponsePacket::Error { kind } => Err(*kind),
        _ => Ok(()),
    }
}

/// Check if there is an established connection between the host and client.
pub fn is_connected(data: &ConnectionData) -> (yes: bool)
    ensures
        yes == (data@.status is Connected),
{
    data.status.is_connected()
}

/// Gets the other user's username.
pub fn get_other_username(data: &ConnectionData) -> (name: Option<String>)
    ensures
        crate::net::status::text_of(name) == data@.other_username,
{
    crate::net::status::get_other_username(data)
}

} // verus!
