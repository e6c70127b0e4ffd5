//! The wire format, stated as mathematics: for each kind of value the bytes
//! that stand for it, and for each sequence of bytes the value it stands for
//! or the reason why it stands for none.

use vstd::prelude::*;
use vstd::utf8::{decode_utf8, encode_utf8, valid_utf8};
use crate::game::{GameActionView, MoveView, PieceColor, Square};
use crate::net::net_utils::{be_u16, u16_be, PacketErrorView};
use crate::net::p2p::{
    P2pError, PacketView, RequestPacketView, RequestView, ResponsePacketView, ResponseView,
};

verus! {

/// Number of squares that a board snapshot holds at least.
pub const SNAPSHOT_SQUARES: usize = 32;

/// Number of bytes that the join code of a connect request takes.
pub const JOIN_CODE_BYTES: usize = 12;

/// A field that holds a value that stands for nothing, with the reason.
pub open spec fn malformed(reason: Seq<char>) -> PacketErrorView {
    PacketErrorView::DataError { reason }
}

/// A packet of `got` bytes where `expected` are needed.
pub open spec fn wrong_length(expected: int, got: int) -> PacketErrorView {
    PacketErrorView::InvalidLength { expected: expected as usize, got: got as usize }
}

pub open spec fn reason_piece() -> Seq<char> {
    "Got byte in wrong format"@
}

pub open spec fn reason_color() -> Seq<char> {
    "Can only take 1 or 2 for Piece Color"@
}

pub open spec fn reason_error_kind() -> Seq<char> {
    "Can only take values in range 0..=4 for P2p Error"@
}

pub open spec fn reason_flags() -> Seq<char> {
    "Can only take values in range 0..=3 for move flags"@
}

pub open spec fn reason_join_code() -> Seq<char> {
    "Invalid UTF-8 encoded values for join code"@
}

pub open spec fn reason_username() -> Seq<char> {
    "Invalid UTF-8 encoded values for username"@
}

/// The byte of a color: 1 for White, 2 for Black.
pub open spec fn color_byte(color: PieceColor) -> u8 {
    match color {
        PieceColor::White => 1,
        PieceColor::Black => 2,
    }
}

/// The color that a byte stands for.
pub open spec fn parse_color(byte: u8) -> Result<PieceColor, PacketErrorView> {
    if byte == 1 {
        Ok(PieceColor::White)
    } else if byte == 2 {
        Ok(PieceColor::Black)
    } else {
        Err(malformed(reason_color()))
    }
}

/// The byte of an error kind.
pub open spec fn error_byte(kind: P2pError) -> u8 {
    match kind {
        P2pError::InvalidBoard => 0,
        P2pError::InvalidJoinCode => 1,
        P2pError::InvalidSessionId => 2,
        P2pError::FullGameSession => 3,
        P2pError::WrongDirection => 4,
    }
}

/// The error kind that a byte stands for.
pub open spec fn parse_error_kind(byte: u8) -> Result<P2pError, PacketErrorView> {
    if byte == 0 {
        Ok(P2pError::InvalidBoard)
    } else if byte == 1 {
        Ok(P2pError::InvalidJoinCode)
    } else if byte == 2 {
        Ok(P2pError::InvalidSessionId)
    } else if byte == 3 {
        Ok(P2pError::FullGameSession)
    } else if byte == 4 {
        Ok(P2pError::WrongDirection)
    } else {
        Err(malformed(reason_error_kind()))
    }
}

/// The byte of a square: 0 when it is empty; else 1 for a white piece or 2
/// for a black one, and 4 more for a king.
pub open spec fn piece_byte(square: Square) -> u8 {
    match square {
        Square::Empty => 0,
        Square::Occupied { color, is_king } => (color_byte(color) + if is_king {
            4int
        } else {
            0int
        }) as u8,
    }
}

/// What a byte says of a square. The two lowest bits give the color and must
/// not both be set, nor both be clear unless the whole byte is zero; the third
/// bit marks a king; higher bits are not looked at.
pub open spec fn parse_piece(byte: u8) -> Result<Square, PacketErrorView> {
    if byte == 0 {
        Ok(Square::Empty)
    } else if byte % 4 == 1 {
        Ok(Square::Occupied { color: PieceColor::White, is_king: (byte / 4) % 2 == 1 })
    } else if byte % 4 == 2 {
        Ok(Square::Occupied { color: PieceColor::Black, is_king: (byte / 4) % 2 == 1 })
    } else {
        Err(malformed(reason_piece()))
    }
}

/// The bytes of a board snapshot: one for each square, in order.
pub open spec fn board_wire(board: Seq<Square>) -> Seq<u8> {
    Seq::new(board.len(), |i: int| piece_byte(board[i]))
}

/// The squares that the bytes of a snapshot stand for.
pub open spec fn parse_board(bytes: Seq<u8>) -> Result<Seq<Square>, PacketErrorView> {
    if exists|i: int| 0 <= i < bytes.len() && parse_piece(#[trigger] bytes[i]) is Err {
        Err(malformed(reason_piece()))
    } else {
        Ok(Seq::new(bytes.len(), |i: int| parse_piece(bytes[i])->Ok_0))
    }
}

/// The bytes of a list of squares: one each, the square's number reduced
/// modulo 256.
pub open spec fn squares_wire(squares: Seq<usize>) -> Seq<u8> {
    Seq::new(squares.len(), |i: int| (squares[i] % 256) as u8)
}

/// The squares that a list of bytes names.
pub open spec fn parse_squares(bytes: Seq<u8>) -> Seq<usize> {
    Seq::new(bytes.len(), |i: int| bytes[i] as usize)
}

/// The flag byte of a move: 1 if it promotes, 2 more if it has a list of
/// captured squares.
pub open spec fn move_flags(mov: MoveView) -> u8 {
    ((if mov.promoted {
        1int
    } else {
        0int
    }) + (if mov.captured is Some {
        2int
    } else {
        0int
    })) as u8
}

/// The bytes of a game action: its kind (0 for a move, 1 for a stalemate
/// offer, 2 for a surrender) and, for a move, the start square, the end
/// square, the flags and the captured squares.
pub open spec fn action_wire(action: GameActionView) -> Seq<u8> {
    match action {
        GameActionView::MovePiece(mov) => seq![
            0u8,
            (mov.index % 256) as u8,
            (mov.end % 256) as u8,
            move_flags(mov),
        ] + match mov.captured {
            Some(squares) => squares_wire(squares),
            None => Seq::empty(),
        },
        GameActionView::Stalemate => seq![1u8],
        GameActionView::Surrender => seq![2u8],
    }
}

/// The game action that the bytes stand for.
pub open spec fn parse_action(bytes: Seq<u8>) -> Result<GameActionView, PacketErrorView> {
    if bytes.len() == 0 {
        Err(wrong_length(1, 0))
    } else if bytes[0] == 0 {
        if bytes.len() < 4 {
            Err(wrong_length(4, bytes.len() as int))
        } else if bytes[3] >= 4 {
            Err(malformed(reason_flags()))
        } else if bytes[3] < 2 && bytes.len() != 4 {
            Err(wrong_length(4, bytes.len() as int))
        } else {
            Ok(
                GameActionView::MovePiece(
                    MoveView {
                        index: bytes[1] as usize,
                        end: bytes[2] as usize,
                        promoted: bytes[3] % 2 == 1,
                        captured: if bytes[3] >= 2 {
                            Some(parse_squares(bytes.subrange(4, bytes.len() as int)))
                        } else {
                            None
                        },
                    },
                ),
            )
        }
    } else if bytes[0] == 1 {
        if bytes.len() != 1 {
            Err(wrong_length(1, bytes.len() as int))
        } else {
            Ok(GameActionView::Stalemate)
        }
    } else if bytes[0] == 2 {
        if bytes.len() != 1 {
            Err(wrong_length(1, bytes.len() as int))
        } else {
            Ok(GameActionView::Surrender)
        }
    } else {
        Err(PacketErrorView::InavlidType)
    }
}

/// The kind byte of a request payload.
pub open spec fn request_kind(packet: RequestPacketView) -> u8 {
    match packet {
        RequestPacketView::Ping => 1,
        RequestPacketView::Connect { .. } => 2,
        RequestPacketView::Resync => 3,
        RequestPacketView::GameAction { .. } => 4,
    }
}

/// The bytes of a request payload: its kind, then its fields.
pub open spec fn request_packet_wire(packet: RequestPacketView) -> Seq<u8> {
    seq![request_kind(packet)] + match packet {
        RequestPacketView::Connect { join_code, username } => encode_utf8(join_code) + encode_utf8(
            username,
        ),
        RequestPacketView::GameAction { action } => action_wire(action),
        _ => Seq::empty(),
    }
}

/// The request payload that the bytes stand for.
pub open spec fn parse_request_packet(bytes: Seq<u8>) -> Result<RequestPacketView, PacketErrorView> {
    if bytes.len() == 0 {
        Err(PacketErrorView::Empty)
    } else if bytes[0] == 1 {
        Ok(RequestPacketView::Ping)
    } else if bytes[0] == 2 {
        if bytes.len() < 13 {
            Err(wrong_length(13, bytes.len() as int))
        } else if !valid_utf8(bytes.subrange(1, 13)) {
            Err(malformed(reason_join_code()))
        } else if !valid_utf8(bytes.subrange(13, bytes.len() as int)) {
            Err(malformed(reason_username()))
        } else {
            Ok(
                RequestPacketView::Connect {
                    join_code: decode_utf8(bytes.subrange(1, 13)),
                    username: decode_utf8(bytes.subrange(13, bytes.len() as int)),
                },
            )
        }
    } else if bytes[0] == 3 {
        Ok(RequestPacketView::Resync)
    } else if bytes[0] == 4 {
        if bytes.len() < 2 {
            Err(wrong_length(2, bytes.len() as int))
        } else {
            match parse_action(bytes.subrange(1, bytes.len() as int)) {
                Ok(action) => Ok(RequestPacketView::GameAction { action }),
                Err(error) => Err(error),
            }
        }
    } else {
        Err(PacketErrorView::InavlidType)
    }
}

/// The kind byte of a response payload.
pub open spec fn response_kind(packet: ResponsePacketView) -> u8 {
    match packet {
        ResponsePacketView::Error { .. } => 0,
        ResponsePacketView::Pong => 1,
        ResponsePacketView::Connect { .. } => 2,
        ResponsePacketView::Resync { .. } => 3,
        ResponsePacketView::Acknowledge => 4,
    }
}

/// The bytes of a response payload: its kind, then its fields.
pub open spec fn response_packet_wire(packet: ResponsePacketView) -> Seq<u8> {
    seq![response_kind(packet)] + match packet {
        ResponsePacketView::Error { kind } => seq![error_byte(kind)],
        ResponsePacketView::Connect { client_color, host_username } => seq![color_byte(client_color)]
            + encode_utf8(host_username),
        ResponsePacketView::Resync { board } => board_wire(board),
        _ => Seq::empty(),
    }
}

/// The response payload that the bytes stand for.
pub open spec fn parse_response_packet(bytes: Seq<u8>) -> Result<ResponsePacketView, PacketErrorView> {
    if bytes.len() == 0 {
        Err(PacketErrorView::Empty)
    } else if bytes[0] == 0 {
        if bytes.len() != 2 {
            Err(wrong_length(2, bytes.len() as int))
        } else {
            match parse_error_kind(bytes[1]) {
                Ok(kind) => Ok(ResponsePacketView::Error { kind }),
                Err(error) => Err(error),
            }
        }
    } else if bytes[0] == 1 {
        Ok(ResponsePacketView::Pong)
    } else if bytes[0] == 2 {
        if bytes.len() < 2 {
            Err(wrong_length(2, bytes.len() as int))
        } else {
            match parse_color(bytes[1]) {
                Err(error) => Err(error),
                Ok(client_color) => if !valid_utf8(bytes.subrange(2, bytes.len() as int)) {
                    Err(malformed(reason_username()))
                } else {
                    Ok(
                        ResponsePacketView::Connect {
                            client_color,
                            host_username: decode_utf8(bytes.subrange(2, bytes.len() as int)),
                        },
                    )
                },
            }
        }
    } else if bytes[0] == 3 {
        if bytes.len() < 33 {
            Err(wrong_length(33, bytes.len() as int))
        } else {
            match parse_board(bytes.subrange(1, bytes.len() as int)) {
                Ok(board) => Ok(ResponsePacketView::Resync { board }),
                Err(error) => Err(error),
            }
        }
    } else if bytes[0] == 4 {
        Ok(ResponsePacketView::Acknowledge)
    } else {
        Err(PacketErrorView::InavlidType)
    }
}

/// The five bytes that head a packet: `direction` (0 for a request, 1 for a
/// response) and the two ids.
pub open spec fn header_wire(direction: u8, session_id: u16, transaction_id: u16) -> Seq<u8> {
    seq![direction] + u16_be(session_id) + u16_be(transaction_id)
}

/// The bytes of a request.
pub open spec fn request_wire(request: RequestView) -> Seq<u8> {
    header_wire(0, request.session_id, request.transaction_id) + request_packet_wire(request.packet)
}

/// The request that the bytes stand for.
pub open spec fn parse_request(bytes: Seq<u8>) -> Result<RequestView, PacketErrorView> {
    if bytes.len() < 6 {
        Err(wrong_length(6, bytes.len() as int))
    } else if bytes[0] != 0 {
        Err(PacketErrorView::InavlidType)
    } else {
        match parse_request_packet(bytes.subrange(5, bytes.len() as int)) {
            Ok(packet) => Ok(
                RequestView {
                    session_id: be_u16(bytes[1], bytes[2]),
                    transaction_id: be_u16(bytes[3], bytes[4]),
                    packet,
                },
            ),
            Err(error) => Err(error),
        }
    }
}

/// The bytes of a response.
pub open spec fn response_wire(response: ResponseView) -> Seq<u8> {
    header_wire(1, response.session_id, response.transaction_id) + response_packet_wire(
        response.packet,
    )
}

/// The response that the bytes stand for.
pub open spec fn parse_response(bytes: Seq<u8>) -> Result<ResponseView, PacketErrorView> {
    if bytes.len() < 6 {
        Err(wrong_length(6, bytes.len() as int))
    } else if bytes[0] != 1 {
        Err(PacketErrorView::InavlidType)
    } else {
        match parse_response_packet(bytes.subrange(5, bytes.len() as int)) {
            Ok(packet) => Ok(
                ResponseView {
                    session_id: be_u16(bytes[1], bytes[2]),
                    transaction_id: be_u16(bytes[3], bytes[4]),
                    packet,
                },
            ),
            Err(error) => Err(error),
        }
    }
}

/// The bytes of a packet.
pub open spec fn packet_wire(packet: PacketView) -> Seq<u8> {
    match packet {
        PacketView::Request(request) => request_wire(request),
        PacketView::Response(response) => response_wire(response),
    }
}

/// The packet that the bytes stand for.
pub open spec fn parse_packet(bytes: Seq<u8>) -> Result<PacketView, PacketErrorView> {
    if bytes.len() == 0 {
        Err(PacketErrorView::Empty)
    } else if bytes[0] == 0 {
        match parse_request(bytes) {
            Ok(request) => Ok(PacketView::Request(request)),
            Err(error) => Err(error),
        }
    } else if bytes[0] == 1 {
        match parse_response(bytes) {
            Ok(response) => Ok(PacketView::Response(response)),
            Err(error) => Err(error),
        }
    } else {
        Err(PacketErrorView::InavlidType)
    }
}

/// Every square that the move names has a number below 256, so that one byte
/// holds it.
pub open spec fn move_fits(mov: MoveView) -> bool {
    &&& mov.index < 256
    &&& mov.end < 256
    &&& match mov.captured {
        Some(squares) => forall|i: int| 0 <= i < squares.len() ==> #[trigger] squares[i] < 256,
        None => true,
    }
}

/// The action can be read back from its bytes.
pub open spec fn action_fits(action: GameActionView) -> bool {
    match action {
        GameActionView::MovePiece(mov) => move_fits(mov),
        _ => true,
    }
}

/// The request payload can be read back from its bytes: a join code takes
/// twelve bytes and squares have numbers below 256.
pub open spec fn request_packet_fits(packet: RequestPacketView) -> bool {
    match packet {
        RequestPacketView::Connect { join_code, username } => encode_utf8(join_code).len() == 12,
        RequestPacketView::GameAction { action } => action_fits(action),
        _ => true,
    }
}

/// The response payload can be read back from its bytes: a snapshot holds at
/// least 32 squares.
pub open spec fn response_packet_fits(packet: ResponsePacketView) -> bool {
    match packet {
        ResponsePacketView::Resync { board } => board.len() >= 32,
        _ => true,
    }
}

/// The packet can be read back from its bytes.
pub open spec fn packet_fits(packet: PacketView) -> bool {
    match packet {
        PacketView::Request(request) => request_packet_fits(request.packet),
        PacketView::Response(response) => response_packet_fits(response.packet),
    }
}

/// A square reads back from its byte.
pub proof fn lemma_piece_round_trip(square: Square)
    ensures
        parse_piece(piece_byte(square)) == Ok::<Square, PacketErrorView>(square),
{
}

/// A snapshot reads back from its bytes.
pub proof fn lemma_board_round_trip(board: Seq<Square>)
    ensures
        parse_board(board_wire(board)) == Ok::<Seq<Square>, PacketErrorView>(board),
{
    let bytes = board_wire(board);
    assert forall|i: int| 0 <= i < bytes.len() implies parse_piece(#[trigger] bytes[i]) == Ok::<
        Square,
        PacketErrorView,
    >(board[i]) by {
        lemma_piece_round_trip(board[i]);
    }
    assert(parse_board(bytes)->Ok_0 =~= board);
}

/// A game action reads back from its bytes.
pub proof fn law_action_round_trip(action: GameActionView)
    requires
        action_fits(action),
    ensures
        parse_action(action_wire(action)) == Ok::<GameActionView, PacketErrorView>(action),
{
    match action {
        GameActionView::MovePiece(mov) => {
            let bytes = action_wire(action);
            match mov.captured {
                Some(squares) => {
                    let rest = bytes.subrange(4, bytes.len() as int);
                    assert(rest =~= squares_wire(squares));
                    assert(parse_squares(rest) =~= squares);
                },
                None => {},
            }
        },
        _ => {},
    }
}

/// A request payload reads back from its bytes.
pub proof fn law_request_packet_round_trip(packet: RequestPacketView)
    requires
        request_packet_fits(packet),
    ensures
        parse_request_packet(request_packet_wire(packet)) == Ok::<RequestPacketView, PacketErrorView>(
            packet,
        ),
{
    let bytes = request_packet_wire(packet);
    match packet {
        RequestPacketView::Connect { join_code, username } => {
            assert(bytes.subrange(1, 13) =~= encode_utf8(join_code));
            assert(bytes.subrange(13, bytes.len() as int) =~= encode_utf8(username));
            vstd::utf8::encode_utf8_valid_utf8(join_code);
            vstd::utf8::encode_utf8_valid_utf8(username);
            vstd::utf8::encode_utf8_decode_utf8(join_code);
            vstd::utf8::encode_utf8_decode_utf8(username);
        },
        RequestPacketView::GameAction { action } => {
            law_action_round_trip(action);
            assert(bytes.subrange(1, bytes.len() as int) =~= action_wire(action));
        },
        _ => {},
    }
}

/// A response payload reads back from its bytes.
pub proof fn law_response_packet_round_trip(packet: ResponsePacketView)
    requires
        response_packet_fits(packet),
    ensures
        parse_response_packet(response_packet_wire(packet)) == Ok::<
            ResponsePacketView,
            PacketErrorView,
        >(packet),
{
    let bytes = response_packet_wire(packet);
    match packet {
        ResponsePacketView::Connect { client_color, host_username } => {
            assert(bytes.subrange(2, bytes.len() as int) =~= encode_utf8(host_username));
            vstd::utf8::encode_utf8_valid_utf8(host_username);
            vstd::utf8::encode_utf8_decode_utf8(host_username);
        },
        ResponsePacketView::Resync { board } => {
            lemma_board_round_trip(board);
            assert(bytes.subrange(1, bytes.len() as int) =~= board_wire(board));
        },
        _ => {},
    }
}

/// The header reads back: the direction byte and the two ids.
proof fn lemma_header(direction: u8, session_id: u16, transaction_id: u16, payload: Seq<u8>)
    ensures
        ({
            let bytes = header_wire(direction, session_id, transaction_id) + payload;
            &&& bytes.len() == 5 + payload.len()
            &&& bytes[0] == direction
            &&& be_u16(bytes[1], bytes[2]) == session_id
            &&& be_u16(bytes[3], bytes[4]) == transaction_id
            &&& bytes.subrange(5, bytes.len() as int) == payload
        }),
{
    let bytes = header_wire(direction, session_id, transaction_id) + payload;
    crate::net::net_utils::lemma_u16_round_trip(session_id);
    crate::net::net_utils::lemma_u16_round_trip(transaction_id);
    assert(bytes[1] == u16_be(session_id)[0]);
    assert(bytes[2] == u16_be(session_id)[1]);
    assert(bytes[3] == u16_be(transaction_id)[0]);
    assert(bytes[4] == u16_be(transaction_id)[1]);
    assert(bytes.subrange(5, bytes.len() as int) =~= payload);
}

/// A request reads back from its bytes.
pub proof fn law_request_round_trip(request: RequestView)
    requires
        request_packet_fits(request.packet),
    ensures
        parse_request(request_wire(request)) == Ok::<RequestView, PacketErrorView>(request),
{
    law_request_packet_round_trip(request.packet);
    lemma_header(0, request.session_id, request.transaction_id, request_packet_wire(request.packet));
}

/// A response reads back from its bytes.
pub proof fn law_response_round_trip(response: ResponseView)
    requires
        response_packet_fits(response.packet),
    ensures
        parse_response(response_wire(response)) == Ok::<ResponseView, PacketErrorView>(response),
{
    law_response_packet_round_trip(response.packet);
    lemma_header(1, response.session_id, response.transaction_id, response_packet_wire(response.packet));
}

/// Round trip: a packet reads back from its bytes as the packet that was
/// written.
pub proof fn law_packet_round_trip(packet: PacketView)
    requires
        packet_fits(packet),
    ensures
        parse_packet(packet_wire(packet)) == Ok::<PacketView, PacketErrorView>(packet),
{
    match packet {
        PacketView::Request(request) => {
            law_request_round_trip(request);
            lemma_header(0, request.session_id, request.transaction_id, request_packet_wire(request.packet));
        },
        PacketView::Response(response) => {
            law_response_round_trip(response);
            lemma_header(
                1,
                response.session_id,
                response.transaction_id,
                response_packet_wire(response.packet),
            );
        },
    }
}

} // verus!
