//! The packets that the peers exchange.
//!
//! A packet is a request or a response. Both carry the id of the session and
//! the id of the transaction they belong to, then a payload. On the wire a
//! packet is one byte that tells requests (0) from responses (1), the two ids
//! as big-endian 16-bit numbers, one byte for the kind of payload, and the
//! payload's own fields. Text fills the rest of the packet, so it comes last;
//! the join code of a connect request is twelve bytes and stands before the
//! user name.

pub mod codec;
pub mod net_loop;
pub mod queue;
pub mod wire;

use vstd::prelude::*;
use crate::game::{GameAction, GameActionView, PieceColor, PieceData, Square};

verus! {

/// The error used by `P2pResponsePacket`
#[derive(Clone, Copy, Debug, PartialEq, Eq, Structural)]
pub enum P2pError {
    /// The client has an outdated or invalid board, as when it wants to move a
    /// piece to an invalid position.
    InvalidBoard,
    /// The client sent a packet with a wrong join code.
    InvalidJoinCode,
    /// The client sent a packet with an invalid session id.
    InvalidSessionId,
    /// The client tried to join a game that is already full.
    FullGameSession,
    /// Data flows in the wrong direction, as when a host sends a connect
    /// request to the client.
    WrongDirection,
}

/// The different types of packets you can send as a request to the other peer.
#[derive(Debug, PartialEq, Eq)]
pub enum P2pRequestPacket {
    /// Ping the other peer, to uphold the connection. This must be done often.
    Ping,
    /// Request to connect to the host.
    Connect {
        /// The game's join code: the hex text of the host's address and port.
        join_code: String,
        /// The client's user name.
        username: String,
    },
    /// Ask the host for a copy of the correct board, so the client can resync theirs.
    Resync,
    /// Perform a game action
    GameAction { action: GameAction },
}

/// The mathematical content of a [`P2pRequestPacket`].
pub enum RequestPacketView {
    Ping,
    Connect { join_code: Seq<char>, username: Seq<char> },
    Resync,
    GameAction { action: GameActionView },
}

impl View for P2pRequestPacket {
    type V = RequestPacketView;

    open spec fn view(&self) -> RequestPacketView {
        match self {
            P2pRequestPacket::Ping => RequestPacketView::Ping,
            P2pRequestPacket::Connect { join_code, username } => RequestPacketView::Connect {
                join_code: join_code@,
                username: username@,
            },
            P2pRequestPacket::Resync => RequestPacketView::Resync,
            P2pRequestPacket::GameAction { action } => RequestPacketView::GameAction { action: action@ },
        }
    }
}

impl Clone for P2pRequestPacket {
    fn clone(&self) -> (copy: Self)
        ensures
            copy@ == self@,
    {
        match self {
            P2pRequestPacket::Ping => P2pRequestPacket::Ping,
            P2pRequestPacket::Connect { join_code, username } => P2pRequestPacket::Connect {
                join_code: join_code.clone(),
                username: username.clone(),
            },
            P2pRequestPacket::Resync => P2pRequestPacket::Resync,
            P2pRequestPacket::GameAction { action } => P2pRequestPacket::GameAction {
                action: action.clone(),
            },
        }
    }
}

impl P2pRequestPacket {
    /// Request to connect to the host. `join_code` is the hex text of the
    /// host's address and port; `username` is the name the client wishes to
    /// use.
    pub fn connect(join_code: &str, username: &str) -> (packet: Self)
        ensures
            packet@ == (RequestPacketView::Connect { join_code: join_code@, username: username@ }),
    {
        P2pRequestPacket::Connect { join_code: join_code.to_owned(), username: username.to_owned() }
    }

    /// Perform a game action
    pub fn game_action(action: GameAction) -> (packet: Self)
        ensures
            packet@ == (RequestPacketView::GameAction { action: action@ }),
    {
        P2pRequestPacket::GameAction { action }
    }
}

/// A request for P2P (Peer to Peer) connection. This moves mostly from client
/// to host, but the host will send requests to the client, when it makes an
/// update to the board.
#[derive(Debug, PartialEq, Eq)]
pub struct P2pRequest {
    /// The session's id, set by the host. A client that has not joined yet
    /// sends the connect session id.
    pub session_id: u16,
    /// This specific transaction's id
    pub transaction_id: u16,
    /// The main packet of the request.
    pub packet: P2pRequestPacket,
}

/// The mathematical content of a [`P2pRequest`].
pub struct RequestView {
    pub session_id: u16,
    pub transaction_id: u16,
    pub packet: RequestPacketView,
}

impl View for P2pRequest {
    type V = RequestView;

    open spec fn view(&self) -> RequestView {
        RequestView {
            session_id: self.session_id,
            transaction_id: self.transaction_id,
            packet: self.packet@,
        }
    }
}

impl Clone for P2pRequest {
    fn clone(&self) -> (copy: Self)
        ensures
            copy@ == self@,
    {
        P2pRequest {
            session_id: self.session_id,
            transaction_id: self.transaction_id,
            packet: self.packet.clone(),
        }
    }
}

impl P2pRequest {
    /// Create a new `P2pRequest` from the session's id, the transaction's id
    /// and the packet.
    pub fn new(session_id: u16, transaction_id: u16, packet: P2pRequestPacket) -> (request: Self)
        ensures
            request.session_id == session_id,
            request.transaction_id == transaction_id,
            request.packet == packet,
    {
        P2pRequest { session_id, transaction_id, packet }
    }
}

/// The different types of packets you can send as a response to the other peer.
#[derive(Debug, PartialEq, Eq)]
pub enum P2pResponsePacket {
    /// The packet for if an error has occurred.
    Error {
        /// The error's kind.
        kind: P2pError,
    },
    /// The response to `P2pRequestPacket::Ping`.
    Pong,
    /// Response to `P2pRequestPacket::Connect`.
    Connect {
        /// The board color that the client will be assigned to.
        client_color: PieceColor,
        /// The host's user name.
        host_username: String,
    },
    /// A response to `P2pRequestPacket::Resync`, features the host's version of the game board.
    Resync {
        /// The host's version of the game board, which the client will copy.
        board: Vec<PieceData>,
    },
    /// A simple acknowledge.
    Acknowledge,
}

/// The mathematical content of a [`P2pResponsePacket`].
pub enum ResponsePacketView {
    Error { kind: P2pError },
    Pong,
    Connect { client_color: PieceColor, host_username: Seq<char> },
    Resync { board: Seq<Square> },
    Acknowledge,
}

impl View for P2pResponsePacket {
    type V = ResponsePacketView;

    open spec fn view(&self) -> ResponsePacketView {
        match self {
            P2pResponsePacket::Error { kind } => ResponsePacketView::Error { kind: *kind },
            P2pResponsePacket::Pong => ResponsePacketView::Pong,
            P2pResponsePacket::Connect { client_color, host_username } => ResponsePacketView::Connect {
                client_color: *client_color,
                host_username: host_username@,
            },
            P2pResponsePacket::Resync { board } => ResponsePacketView::Resync {
                board: board.deep_view(),
            },
            P2pResponsePacket::Acknowledge => ResponsePacketView::Acknowledge,
        }
    }
}

impl Clone for P2pResponsePacket {
    fn clone(&self) -> (copy: Self)
        ensures
            copy@ == self@,
    {
        match self {
            P2pResponsePacket::Error { kind } => P2pResponsePacket::Error { kind: *kind },
            P2pResponsePacket::Pong => P2pResponsePacket::Pong,
            P2pResponsePacket::Connect { client_color, host_username } => P2pResponsePacket::Connect {
                client_color: *client_color,
                host_username: host_username.clone(),
            },
            P2pResponsePacket::Resync { board } => {
                let mut copy: Vec<PieceData> = Vec::new();
                let mut i: usize = 0;
                while i < board.len()
                    invariant
                        i <= board@.len(),
                        copy@ == board@.subrange(0, i as int),
                    decreases board@.len() - i,
                {
                    copy.push(board[i]);
                    i += 1;
                    assert(copy@ =~= board@.subrange(0, i as int));
                }
                assert(copy@ =~= board@);
                assert(copy.deep_view() =~= board.deep_view());
                P2pResponsePacket::Resync { board: copy }
            },
            P2pResponsePacket::Acknowledge => P2pResponsePacket::Acknowledge,
        }
    }
}

impl P2pResponsePacket {
    /// The packet for if an error has occurred.
    pub fn error(kind: P2pError) -> (packet: Self)
        ensures
            packet@ == (ResponsePacketView::Error { kind }),
    {
        P2pResponsePacket::Error { kind }
    }

    /// Response to `P2pRequestPacket::Connect`.
    pub fn connect(client_color: PieceColor, host_username: String) -> (packet: Self)
        ensures
            packet@ == (ResponsePacketView::Connect { client_color, host_username: host_username@ }),
    {
        P2pResponsePacket::Connect { client_color, host_username }
    }

    /// A response to `P2pRequestPacket::Resync`, features the host's version of the game board.
    pub fn resync(board: Vec<PieceData>) -> (packet: Self)
        ensures
            packet@ == (ResponsePacketView::Resync { board: board.deep_view() }),
    {
        P2pResponsePacket::Resync { board }
    }

    /// Whether this is the answer to a ping.
    pub fn is_pong(&self) -> (yes: bool)
        ensures
            yes == (self@ is Pong),
    {
        matches!(self, P2pResponsePacket::Pong)
    }

    /// Whether this reports an error.
    pub fn is_error(&self) -> (yes: bool)
        ensures
            yes == (self@ is Error),
    {
        matches!(self, P2pResponsePacket::Error { .. })
    }
}

/// A response to the `P2pRequest` struct.
#[derive(Debug, PartialEq, Eq)]
pub struct P2pResponse {
    /// The session's id, set randomly by the host.
    pub session_id: u16,
    /// This specific transaction's id
    pub transaction_id: u16,
    /// The main packet of the response.
    pub packet: P2pResponsePacket,
}

/// The mathematical content of a [`P2pResponse`].
pub struct ResponseView {
    pub session_id: u16,
    pub transaction_id: u16,
    pub packet: ResponsePacketView,
}

impl View for P2pResponse {
    type V = ResponseView;

    open spec fn view(&self) -> ResponseView {
        ResponseView {
            session_id: self.session_id,
            transaction_id: self.transaction_id,
            packet: self.packet@,
        }
    }
}

impl Clone for P2pResponse {
    fn clone(&self) -> (copy: Self)
        ensures
            copy@ == self@,
    {
        P2pResponse {
            session_id: self.session_id,
            transaction_id: self.transaction_id,
            packet: self.packet.clone(),
        }
    }
}

impl P2pResponse {
    /// Create a new `P2pResponse` from the session's id, the transaction's id
    /// and the packet.
    pub fn new(session_id: u16, transaction_id: u16, packet: P2pResponsePacket) -> (response: Self)
        ensures
            response.session_id == session_id,
            response.transaction_id == transaction_id,
            response.packet == packet,
    {
        P2pResponse { session_id, transaction_id, packet }
    }
}

/// A packet of either direction.
#[derive(Debug, PartialEq, Eq)]
pub enum P2pPacket {
    Request(P2pRequest),
    Response(P2pResponse),
}

/// The mathematical content of a [`P2pPacket`].
pub enum PacketView {
    Request(RequestView),
    Response(ResponseView),
}

impl View for P2pPacket {
    type V = PacketView;

    open spec fn view(&self) -> PacketView {
        match self {
            P2pPacket::Request(request) => PacketView::Request(request@),
            P2pPacket::Response(response) => PacketView::Response(response@),
        }
    }
}

impl Clone for P2pPacket {
    fn clone(&self) -> (copy: Self)
        ensures
            copy@ == self@,
    {
        match self {
            P2pPacket::Request(request) => P2pPacket::Request(request.clone()),
            P2pPacket::Response(response) => P2pPacket::Response(response.clone()),
        }
    }
}

impl P2pPacket {
    pub fn is_request(&self) -> (yes: bool)
        ensures
            yes == (self@ is Request),
    {
        match self {
            P2pPacket::Request(_) => true,
            _ => false,
        }
    }

    pub fn is_response(&self) -> (yes: bool)
        ensures
            yes == (self@ is Response),
    {
        match self {
            P2pPacket::Response(_) => true,
            _ => false,
        }
    }

    /// The id of the transaction that the packet belongs to.
    pub fn transaction_id(&self) -> (id: u16)
        ensures
            id == match self@ {
                PacketView::Request(request) => request.transaction_id,
                PacketView::Response(response) => response.transaction_id,
            },
    {
        match self {
            P2pPacket::Request(request) => request.transaction_id,
            P2pPacket::Response(response) => response.transaction_id,
        }
    }
}

} // verus!
