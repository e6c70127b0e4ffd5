//! Writing packets to bytes and reading them back.

use vstd::prelude::*;
use vstd::slice::{slice_subrange, slice_to_vec};
use vstd::utf8::{decode_utf8, encode_utf8, encode_utf8_decode_utf8, valid_utf8};
use crate::game::{GameAction, GameActionView, Move, MoveView, PieceColor, PieceData, Square};
use crate::net::net_utils::{push_u16, read_u16, FromPacket, PacketError, PacketErrorView, ToByte, ToPacket};
use crate::net::p2p::wire::{
    action_wire, board_wire, color_byte, error_byte, malformed, move_flags, packet_wire, parse_action,
    parse_board, parse_color, parse_error_kind, parse_packet, parse_piece, parse_request,
    parse_request_packet, parse_response, parse_response_packet, parse_squares, piece_byte,
    request_kind, request_packet_wire, request_wire, response_kind, response_packet_wire,
    response_wire, squares_wire,
};
use crate::net::p2p::{
    P2pError, P2pPacket, P2pRequest, P2pRequestPacket, P2pResponse, P2pResponsePacket, PacketView,
    RequestPacketView, RequestView, ResponsePacketView, ResponseView,
};

verus! {

/// `String::from_utf8`: the text whose UTF-8 encoding the bytes are, if they
/// are the encoding of any.
#[verifier::external_body]
fn string_from_utf8(bytes: Vec<u8>) -> (text: Option<String>)
    ensures
        match text {
            Some(string) => valid_utf8(bytes@) && encode_utf8(string@) == bytes@,
            None => !valid_utf8(bytes@),
        },
{
    String::from_utf8(bytes).ok()
}

/// Adds the bytes of `more` to `bytes`.
fn append_bytes(bytes: &mut Vec<u8>, more: &[u8])
    ensures
        final(bytes)@ == old(bytes)@ + more@,
{
    let mut i: usize = 0;
    while i < more.len()
        invariant
            i <= more@.len(),
            bytes@ == old(bytes)@ + more@.subrange(0, i as int),
        decreases more@.len() - i,
    {
        bytes.push(more[i]);
        i += 1;
        assert(bytes@ =~= old(bytes)@ + more@.subrange(0, i as int));
    }
    assert(more@.subrange(0, more@.len() as int) =~= more@);
}

/// The text that the bytes `from..to` of `bytes` encode, or an error with
/// `reason` if they encode none.
fn read_text(bytes: &[u8], from: usize, to: usize, reason: &str) -> (text: Result<String, PacketError>)
    requires
        from <= to <= bytes@.len(),
    ensures
        match text {
            Ok(string) => valid_utf8(bytes@.subrange(from as int, to as int)) && string@ == decode_utf8(
                bytes@.subrange(from as int, to as int),
            ),
            Err(error) => !valid_utf8(bytes@.subrange(from as int, to as int)) && error@ == malformed(
                reason@,
            ),
        },
{
    match string_from_utf8(slice_to_vec(slice_subrange(bytes, from, to))) {
        Some(string) => {
            proof {
                encode_utf8_decode_utf8(string@);
            }
            Ok(string)
        },
        None => Err(PacketError::data_error(reason)),
    }
}

impl ToByte for PieceColor {
    open spec fn byte(&self) -> u8 {
        color_byte(*self)
    }

    fn to_u8(&self) -> (code: u8) {
        match self {
            PieceColor::White => 1,
            PieceColor::Black => 2,
        }
    }
}

impl PieceColor {
    /// The color that a byte stands for.
    pub fn try_from(value: u8) -> (color: Result<Self, PacketError>)
        ensures
            match color {
                Ok(color) => parse_color(value) == Ok::<PieceColor, PacketErrorView>(color),
                Err(error) => parse_color(value) == Err::<PieceColor, PacketErrorView>(error@),
            },
    {
        match value {
            1 => Ok(PieceColor::White),
            2 => Ok(PieceColor::Black),
            _ => Err(PacketError::data_error("Can only take 1 or 2 for Piece Color")),
        }
    }
}

impl ToByte for P2pError {
    open spec fn byte(&self) -> u8 {
        error_byte(*self)
    }

    fn to_u8(&self) -> (code: u8) {
        match self {
            P2pError::InvalidBoard => 0,
            P2pError::InvalidJoinCode => 1,
            P2pError::InvalidSessionId => 2,
            P2pError::FullGameSession => 3,
            P2pError::WrongDirection => 4,
        }
    }
}

impl P2pError {
    /// The error kind that a byte stands for.
    pub fn try_from(value: u8) -> (kind: Result<Self, PacketError>)
        ensures
            match kind {
                Ok(kind) => parse_error_kind(value) == Ok::<P2pError, PacketErrorView>(kind),
                Err(error) => parse_error_kind(value) == Err::<P2pError, PacketErrorView>(error@),
            },
    {
        match value {
            0 => Ok(P2pError::InvalidBoard),
            1 => Ok(P2pError::InvalidJoinCode),
            2 => Ok(P2pError::InvalidSessionId),
            3 => Ok(P2pError::FullGameSession),
            4 => Ok(P2pError::WrongDirection),
            _ => Err(PacketError::data_error("Can only take values in range 0..=4 for P2p Error")),
        }
    }
}

impl ToByte for PieceData {
    open spec fn byte(&self) -> u8 {
        piece_byte(self@)
    }

    fn to_u8(&self) -> (code: u8) {
        let mut byte: u8 = 0;
        if !self.is_active {
            return byte;
        }
        match self.color {
            PieceColor::White => {
                byte += 0b001;
            },
            PieceColor::Black => {
                byte += 0b010;
            },
        }
        if self.is_king {
            byte += 0b100;
        }
        byte
    }
}

impl PieceData {
    /// What a byte says of a square. The byte 0 gives the canonical empty
    /// slot.
    pub fn try_from(value: u8) -> (piece: Result<Self, PacketError>)
        ensures
            match piece {
                Ok(piece) => parse_piece(value) == Ok::<Square, PacketErrorView>(piece@) && (value == 0
                    ==> piece == PieceData::empty()),
                Err(error) => parse_piece(value) == Err::<Square, PacketErrorView>(error@),
            },
    {
        if value == 0 {
            return Ok(PieceData { color: PieceColor::White, is_active: false, is_king: false });
        }
        // Exactly one of the two color bits must be set
        let color_bits: u8 = value % 4;
        if color_bits != 1 && color_bits != 2 {
            return Err(PacketError::data_error("Got byte in wrong format"));
        }
        let color = if color_bits == 1 {
            PieceColor::White
        } else {
            PieceColor::Black
        };
        let is_king = (value / 4) % 2 == 1;
        Ok(PieceData { color, is_active: true, is_king })
    }
}

impl ToByte for GameAction {
    open spec fn byte(&self) -> u8 {
        match self@ {
            GameActionView::MovePiece(_) => 0,
            GameActionView::Stalemate => 1,
            GameActionView::Surrender => 2,
        }
    }

    fn to_u8(&self) -> (code: u8) {
        match self {
            GameAction::MovePiece(_) => 0,
            GameAction::Stalemate => 1,
            GameAction::Surrender => 2,
        }
    }
}

impl GameAction {
    /// An action of the kind that `value` stands for; for a move, one from
    /// square 0 to square 0 that the caller fills in.
    pub fn from(value: u8) -> (action: Self)
        requires
            value <= 2,
        ensures
            action.byte() == value,
            value == 0 ==> action@ == GameActionView::MovePiece(
                MoveView { index: 0, end: 0, promoted: false, captured: None },
            ),
    {
        match value {
            0 => GameAction::MovePiece(Move { index: 0, end: 0, promoted: false, captured: None }),
            1 => GameAction::Stalemate,
            _ => GameAction::Surrender,
        }
    }
}

impl ToPacket for GameAction {
    open spec fn wire(&self) -> Seq<u8> {
        action_wire(self@)
    }

    fn to_packet(&self) -> (bytes: Vec<u8>) {
        let mut bytes: Vec<u8> = Vec::new();
        bytes.push(self.to_u8());
        match self {
            GameAction::MovePiece(move_action) => {
                let index: usize = move_action.index % 256;
                let end: usize = move_action.end % 256;
                bytes.push(index as u8);
                bytes.push(end as u8);
                let mut flags: u8 = 0;
                if move_action.promoted {
                    flags += 1;
                }
                if move_action.captured.is_some() {
                    flags += 2;
                }
                bytes.push(flags);
                assert(flags == move_flags(move_action@));
                let ghost head = bytes@;
                if let Some(captured) = &move_action.captured {
                    let mut i: usize = 0;
                    while i < captured.len()
                        invariant
                            i <= captured@.len(),
                            bytes@ == head + squares_wire(captured@).subrange(0, i as int),
                        decreases captured@.len() - i,
                    {
                        let piece: usize = captured[i] % 256;
                        bytes.push(piece as u8);
                        i += 1;
                        assert(bytes@ =~= head + squares_wire(captured@).subrange(0, i as int));
                    }
                    assert(squares_wire(captured@).subrange(0, captured@.len() as int) =~= squares_wire(
                        captured@,
                    ));
                    assert(move_action@.captured == Some(captured@));
                } else {
                    assert(bytes@ =~= head + Seq::<u8>::empty());
                }
                assert(head =~= seq![
                    0u8,
                    (move_action@.index % 256) as u8,
                    (move_action@.end % 256) as u8,
                    move_flags(move_action@),
                ]);
            },
            GameAction::Stalemate => {
                assert(bytes@ =~= seq![1u8]);
            },
            GameAction::Surrender => {
                assert(bytes@ =~= seq![2u8]);
            },
        }
        bytes
    }
}

/// The game action that the bytes stand for.
pub fn read_action(packet: &[u8]) -> (parsed: Result<GameAction, PacketError>)
    ensures
        match parsed {
            Ok(action) => parse_action(packet@) == Ok::<GameActionView, PacketErrorView>(action@),
            Err(error) => parse_action(packet@) == Err::<GameActionView, PacketErrorView>(error@),
        },
{
    if packet.len() == 0 {
        return Err(PacketError::invalid_length(1, 0));
    }
    match packet[0] {
        0 => {
            if packet.len() < 4 {
                return Err(PacketError::invalid_length(4, packet.len()));
            }
            let index = packet[1] as usize;
            let end = packet[2] as usize;
            let flags = packet[3];
            if flags >= 4 {
                return Err(PacketError::data_error("Can only take values in range 0..=3 for move flags"));
            }
            if flags < 2 && packet.len() != 4 {
                return Err(PacketError::invalid_length(4, packet.len()));
            }
            let promoted = flags % 2 == 1;
            let mut captured: Option<Vec<usize>> = None;
            if flags >= 2 {
                let mut squares: Vec<usize> = Vec::new();
                let ghost rest = packet@.subrange(4, packet@.len() as int);
                let mut i: usize = 4;
                while i < packet.len()
                    invariant
                        4 <= i <= packet@.len(),
                        rest == packet@.subrange(4, packet@.len() as int),
                        squares@ == parse_squares(rest).subrange(0, i - 4),
                    decreases packet@.len() - i,
                {
                    squares.push(packet[i] as usize);
                    i += 1;
                    assert(squares@ =~= parse_squares(rest).subrange(0, i - 4));
                }
                assert(parse_squares(rest).subrange(0, rest.len() as int) =~= parse_squares(rest));
                captured = Some(squares);
            }
            Ok(GameAction::move_piece(index, end, captured, promoted))
        },
        1 => {
            if packet.len() != 1 {
                return Err(PacketError::invalid_length(1, packet.len()));
            }
            Ok(GameAction::Stalemate)
        },
        2 => {
            if packet.len() != 1 {
                return Err(PacketError::invalid_length(1, packet.len()));
            }
            Ok(GameAction::Surrender)
        },
        _ => Err(PacketError::InavlidType),
    }
}

impl FromPacket for GameAction {
    open spec fn parse(packet: Seq<u8>) -> Result<GameActionView, PacketErrorView> {
        parse_action(packet)
    }

    fn from_packet(packet: Vec<u8>) -> (parsed: Result<Self, PacketError>) {
        read_action(packet.as_slice())
    }
}

impl ToByte for P2pRequestPacket {
    open spec fn byte(&self) -> u8 {
        request_kind(self@)
    }

    fn to_u8(&self) -> (code: u8) {
        match self {
            P2pRequestPacket::Ping => 1,
            P2pRequestPacket::Connect { join_code: _, username: _ } => 2,
            P2pRequestPacket::Resync => 3,
            P2pRequestPacket::GameAction { action: _ } => 4,
        }
    }
}

impl ToPacket for P2pRequestPacket {
    open spec fn wire(&self) -> Seq<u8> {
        request_packet_wire(self@)
    }

    fn to_packet(&self) -> (bytes: Vec<u8>) {
        let mut bytes: Vec<u8> = Vec::new();
        bytes.push(self.to_u8());  // Packet type code
        assert(bytes@ =~= seq![request_kind(self@)]);
        match self {
            P2pRequestPacket::Ping => {
                assert(bytes@ =~= seq![request_kind(self@)] + Seq::<u8>::empty());
            },
            P2pRequestPacket::Connect { join_code, username } => {
                append_bytes(&mut bytes, join_code.as_str().as_bytes());
                append_bytes(&mut bytes, username.as_str().as_bytes());
                assert(bytes@ =~= seq![request_kind(self@)] + (encode_utf8(join_code@) + encode_utf8(
                    username@,
                )));
            },
            P2pRequestPacket::Resync => {
                assert(bytes@ =~= seq![request_kind(self@)] + Seq::<u8>::empty());
            },
            P2pRequestPacket::GameAction { action } => {
                let more = action.to_packet();
                append_bytes(&mut bytes, more.as_slice());
            },
        }
        bytes
    }
}

/// The request payload that the bytes stand for.
pub fn read_request_packet(packet: &[u8]) -> (parsed: Result<P2pRequestPacket, PacketError>)
    ensures
        match parsed {
            Ok(value) => parse_request_packet(packet@) == Ok::<RequestPacketView, PacketErrorView>(
                value@,
            ),
            Err(error) => parse_request_packet(packet@) == Err::<RequestPacketView, PacketErrorView>(
                error@,
            ),
        },
{
    if packet.len() == 0 {
        return Err(PacketError::Empty);
    }
    match packet[0] {
        // Ping
        1 => Ok(P2pRequestPacket::Ping),
        // Connect
        2 => {
            if packet.len() < 13 {
                return Err(PacketError::invalid_length(13, packet.len()));
            }
            let join_code = match read_text(packet, 1, 13, "Invalid UTF-8 encoded values for join code") {
                Ok(string) => string,
                Err(error) => {
                    return Err(error);
                },
            };
            let username = match read_text(
                packet,
                13,
                packet.len(),
                "Invalid UTF-8 encoded values for username",
            ) {
                Ok(string) => string,
                Err(error) => {
                    return Err(error);
                },
            };
            Ok(P2pRequestPacket::Connect { join_code, username })
        },
        // Resync
        3 => Ok(P2pRequestPacket::Resync),
        // Game Action
        4 => {
            if packet.len() < 2 {
                return Err(PacketError::invalid_length(2, packet.len()));
            }
            match read_action(slice_subrange(packet, 1, packet.len())) {
                Ok(action) => Ok(P2pRequestPacket::GameAction { action }),
                Err(error) => Err(error),
            }
        },
        _ => Err(PacketError::InavlidType),
    }
}

impl FromPacket for P2pRequestPacket {
    open spec fn parse(packet: Seq<u8>) -> Result<RequestPacketView, PacketErrorView> {
        parse_request_packet(packet)
    }

    fn from_packet(packet: Vec<u8>) -> (parsed: Result<Self, PacketError>) {
        read_request_packet(packet.as_slice())
    }
}

impl ToByte for P2pResponsePacket {
    open spec fn byte(&self) -> u8 {
        response_kind(self@)
    }

    fn to_u8(&self) -> (code: u8) {
        match self {
            P2pResponsePacket::Error { kind: _ } => 0,
            P2pResponsePacket::Pong => 1,
            P2pResponsePacket::Connect { client_color: _, host_username: _ } => 2,
            P2pResponsePacket::Resync { board: _ } => 3,
            P2pResponsePacket::Acknowledge => 4,
        }
    }
}

impl ToPacket for P2pResponsePacket {
    open spec fn wire(&self) -> Seq<u8> {
        response_packet_wire(self@)
    }

    fn to_packet(&self) -> (bytes: Vec<u8>) {
        let mut bytes: Vec<u8> = Vec::new();
        bytes.push(self.to_u8());  // Packet type code
        assert(bytes@ =~= seq![response_kind(self@)]);
        match self {
            P2pResponsePacket::Error { kind } => {
                bytes.push(kind.to_u8());
                assert(bytes@ =~= seq![response_kind(self@)] + seq![error_byte(*kind)]);
            },
            P2pResponsePacket::Pong => {
                assert(bytes@ =~= seq![response_kind(self@)] + Seq::<u8>::empty());
            },
            P2pResponsePacket::Connect { client_color, host_username } => {
                bytes.push(client_color.to_u8());
                append_bytes(&mut bytes, host_username.as_str().as_bytes());
                assert(bytes@ =~= seq![response_kind(self@)] + (seq![color_byte(*client_color)]
                    + encode_utf8(host_username@)));
            },
            P2pResponsePacket::Resync { board } => {
                let ghost squares = board.deep_view();
                let mut i: usize = 0;
                while i < board.len()
                    invariant
                        i <= board@.len(),
                        squares == board.deep_view(),
                        bytes@ == seq![response_kind(self@)] + board_wire(squares).subrange(0, i as int),
                    decreases board@.len() - i,
                {
                    bytes.push(board[i].to_u8());
                    i += 1;
                    assert(bytes@ =~= seq![response_kind(self@)] + board_wire(squares).subrange(
                        0,
                        i as int,
                    ));
                }
                assert(board_wire(squares).subrange(0, board@.len() as int) =~= board_wire(squares));
            },
            P2pResponsePacket::Acknowledge => {
                assert(bytes@ =~= seq![response_kind(self@)] + Seq::<u8>::empty());
            },
        }
        bytes
    }
}

/// The squares that the bytes of a snapshot stand for.
fn read_board(bytes: &[u8]) -> (parsed: Result<Vec<PieceData>, PacketError>)
    ensures
        match parsed {
            Ok(board) => parse_board(bytes@) == Ok::<Seq<Square>, PacketErrorView>(board.deep_view()),
            Err(error) => parse_board(bytes@) == Err::<Seq<Square>, PacketErrorView>(error@),
        },
{
    let mut board: Vec<PieceData> = Vec::new();
    let mut i: usize = 0;
    while i < bytes.len()
        invariant
            i <= bytes@.len(),
            board@.len() == i,
            forall|k: int| 0 <= k < i ==> parse_piece(#[trigger] bytes@[k]) == Ok::<
                Square,
                PacketErrorView,
            >(board@[k]@),
        decreases bytes@.len() - i,
    {
        match PieceData::try_from(bytes[i]) {
            Ok(piece) => board.push(piece),
            Err(error) => {
                assert(parse_piece(bytes@[i as int]) is Err);
                return Err(error);
            },
        }
        i += 1;
    }
    assert(board.deep_view() =~= Seq::new(bytes@.len(), |k: int| parse_piece(bytes@[k])->Ok_0));
    Ok(board)
}

/// The response payload that the bytes stand for.
pub fn read_response_packet(packet: &[u8]) -> (parsed: Result<P2pResponsePacket, PacketError>)
    ensures
        match parsed {
            Ok(value) => parse_response_packet(packet@) == Ok::<ResponsePacketView, PacketErrorView>(
                value@,
            ),
            Err(error) => parse_response_packet(packet@) == Err::<ResponsePacketView, PacketErrorView>(
                error@,
            ),
        },
{
    if packet.len() == 0 {
        return Err(PacketError::Empty);
    }
    match packet[0] {
        // Error
        0 => {
            if packet.len() != 2 {
                return Err(PacketError::invalid_length(2, packet.len()));
            }
            match P2pError::try_from(packet[1]) {
                Ok(kind) => Ok(P2pResponsePacket::Error { kind }),
                Err(error) => Err(error),
            }
        },
        // Pong
        1 => Ok(P2pResponsePacket::Pong),
        // Connect
        2 => {
            if packet.len() < 2 {
                return Err(PacketError::invalid_length(2, packet.len()));
            }
            let client_color = match PieceColor::try_from(packet[1]) {
                Ok(color) => color,
                Err(error) => {
                    return Err(error);
                },
            };
            let host_username = match read_text(
                packet,
                2,
                packet.len(),
                "Invalid UTF-8 encoded values for username",
            ) {
                Ok(string) => string,
                Err(error) => {
                    return Err(error);
                },
            };
            Ok(P2pResponsePacket::Connect { client_color, host_username })
        },
        // Resync
        3 => {
            if packet.len() < 33 {
                return Err(PacketError::invalid_length(33, packet.len()));
            }
            match read_board(slice_subrange(packet, 1, packet.len())) {
                Ok(board) => Ok(P2pResponsePacket::Resync { board }),
                Err(error) => Err(error),
            }
        },
        // Ok
        4 => Ok(P2pResponsePacket::Acknowledge),
        _ => Err(PacketError::InavlidType),
    }
}

impl FromPacket for P2pResponsePacket {
    open spec fn parse(packet: Seq<u8>) -> Result<ResponsePacketView, PacketErrorView> {
        parse_response_packet(packet)
    }

    fn from_packet(packet: Vec<u8>) -> (parsed: Result<Self, PacketError>) {
        read_response_packet(packet.as_slice())
    }
}

impl ToPacket for P2pRequest {
    open spec fn wire(&self) -> Seq<u8> {
        request_wire(self@)
    }

    fn to_packet(&self) -> (bytes: Vec<u8>) {
        let mut bytes: Vec<u8> = Vec::new();
        bytes.push(0u8);
        push_u16(&mut bytes, self.session_id);
        push_u16(&mut bytes, self.transaction_id);
        let payload = self.packet.to_packet();
        append_bytes(&mut bytes, payload.as_slice());
        assert(bytes@ =~= request_wire(self@));
        bytes
    }
}

/// The request that the bytes stand for.
pub fn read_request(packet: &[u8]) -> (parsed: Result<P2pRequest, PacketError>)
    ensures
        match parsed {
            Ok(value) => parse_request(packet@) == Ok::<RequestView, PacketErrorView>(value@),
            Err(error) => parse_request(packet@) == Err::<RequestView, PacketErrorView>(error@),
        },
{
    if packet.len() < 6 {
        return Err(PacketError::invalid_length(6, packet.len()));
    }
    if packet[0] != 0 {
        return Err(PacketError::InavlidType);
    }
    let session_id = read_u16(packet[1], packet[2]);
    let transaction_id = read_u16(packet[3], packet[4]);
    match read_request_packet(slice_subrange(packet, 5, packet.len())) {
        Ok(payload) => Ok(P2pRequest { session_id, transaction_id, packet: payload }),
        Err(error) => Err(error),
    }
}

impl FromPacket for P2pRequest {
    open spec fn parse(packet: Seq<u8>) -> Result<RequestView, PacketErrorView> {
        parse_request(packet)
    }

    fn from_packet(packet: Vec<u8>) -> (parsed: Result<Self, PacketError>) {
        read_request(packet.as_slice())
    }
}

impl ToPacket for P2pResponse {
    open spec fn wire(&self) -> Seq<u8> {
        response_wire(self@)
    }

    fn to_packet(&self) -> (bytes: Vec<u8>) {
        let mut bytes: Vec<u8> = Vec::new();
        bytes.push(1u8);
        push_u16(&mut bytes, self.session_id);
        push_u16(&mut bytes, self.transaction_id);
        let payload = self.packet.to_packet();
        append_bytes(&mut bytes, payload.as_slice());
        assert(bytes@ =~= response_wire(self@));
        bytes
    }
}

/// The response that the bytes stand for.
pub fn read_response(packet: &[u8]) -> (parsed: Result<P2pResponse, PacketError>)
    ensures
        match parsed {
            Ok(value) => parse_response(packet@) == Ok::<ResponseView, PacketErrorView>(value@),
            Err(error) => parse_response(packet@) == Err::<ResponseView, PacketErrorView>(error@),
        },
{
    if packet.len() < 6 {
        return Err(PacketError::invalid_length(6, packet.len()));
    }
    if packet[0] != 1 {
        return Err(PacketError::InavlidType);
    }
    let session_id = read_u16(packet[1], packet[2]);
    let transaction_id = read_u16(packet[3], packet[4]);
    match read_response_packet(slice_subrange(packet, 5, packet.len())) {
        Ok(payload) => Ok(P2pResponse { session_id, transaction_id, packet: payload }),
        Err(error) => Err(error),
    }
}

impl FromPacket for P2pResponse {
    open spec fn parse(packet: Seq<u8>) -> Result<ResponseView, PacketErrorView> {
        parse_response(packet)
    }

    fn from_packet(packet: Vec<u8>) -> (parsed: Result<Self, PacketError>) {
        read_response(packet.as_slice())
    }
}

impl crate::net::net_utils::NetworkSendable for P2pRequest {

}

impl crate::net::net_utils::NetworkSendable for P2pResponse {

}

impl crate::net::net_utils::NetworkSendable for P2pPacket {

}

impl ToPacket for P2pPacket {
    open spec fn wire(&self) -> Seq<u8> {
        packet_wire(self@)
    }

    fn to_packet(&self) -> (bytes: Vec<u8>) {
        match self {
            P2pPacket::Request(req) => req.to_packet(),
            P2pPacket::Response(resp) => resp.to_packet(),
        }
    }
}

impl FromPacket for P2pPacket {
    open spec fn parse(packet: Seq<u8>) -> Result<PacketView, PacketErrorView> {
        parse_packet(packet)
    }

    fn from_packet(packet: Vec<u8>) -> (parsed: Result<Self, PacketError>) {
        if packet.len() == 0 {
            return Err(PacketError::Empty);
        }
        match packet[0] {
            0 => match read_request(packet.as_slice()) {
                Ok(req) => Ok(P2pPacket::Request(req)),
                Err(e) => Err(e),
            },
            1 => match read_response(packet.as_slice()) {
                Ok(resp) => Ok(P2pPacket::Response(resp)),
                Err(e) => Err(e),
            },
            _ => Err(PacketError::InavlidType),
        }
    }
}

} // verus!
