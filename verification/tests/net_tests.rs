use the_checker_mater::game::board::Board;
use the_checker_mater::game::{GameAction, PieceColor};
use the_checker_mater::net::interface::{
    check_for_connection_resp, game_action_outcome, get_next_game_action, is_connected,
    next_join_step, open_host_session, send_game_action, send_join_request, JoinFailure, JoinStep,
};
use the_checker_mater::net::net_utils::{
    hex_decode_ip, hex_encode_ip, IpAddress, JoinCodeError, NetworkError, SocketAddress,
};
use the_checker_mater::net::p2p::net_loop::{
    client_answer, client_handle_packet, client_ping_answered, client_ping_timed_out,
    client_send_ping, client_wants_ping, host_accepts, host_evict_idle_peer, host_handle_packet,
    host_hears_peer,
    next_to_send, ClientReaction, HostReaction, DISCONNECT_TIME_MS,
};
use the_checker_mater::net::p2p::queue::{
    check_for_response, check_transaction_id, close_transaction, free_transaction_id_from, get_incoming_gameaction_len,
    get_outgoing_queue_len, has_free_transaction_id, new_transaction_id, pop_incoming_gameaction,
    pop_outgoing_queue, push_incoming_gameaction, push_outgoing_queue, set_response, Delivery,
    IncomingActions, OutgoingQueue, TransactionTable,
};
use the_checker_mater::net::p2p::{
    P2pError, P2pPacket, P2pRequest, P2pRequestPacket, P2pResponse, P2pResponsePacket,
};
use the_checker_mater::net::status::{
    get_connection_ping, get_connection_status, get_join_code, get_other_addr, get_other_username,
    get_session_id, remove_other_addr, remove_other_username, set_connection_ping,
    set_connection_status, set_join_code, set_other_addr, set_other_username, set_reconnect_tries,
    set_session_id, ConnectionData, ConnectionStatus, CONNECT_SESSION_ID, RECONNECT_TRIES,
};

fn v4(a: u8, b: u8, c: u8, d: u8, port: u16) -> SocketAddress {
    SocketAddress { ip: IpAddress::V4(u32::from_be_bytes([a, b, c, d])), port }
}

fn ping(transaction_id: u16) -> P2pPacket {
    P2pPacket::Request(P2pRequest::new(1, transaction_id, P2pRequestPacket::Ping))
}

fn pong(transaction_id: u16) -> P2pPacket {
    P2pPacket::Response(P2pResponse::new(1, transaction_id, P2pResponsePacket::Pong))
}

struct Host {
    data: ConnectionData,
    outgoing: OutgoingQueue,
    table: TransactionTable,
    incoming: IncomingActions,
    board: Board,
}

fn host() -> Host {
    let mut data = ConnectionData::new();
    set_join_code(&mut data, "c0a8010a1770");
    let mut board = Board::new();
    board.start_new_game(PieceColor::White);
    Host {
        data,
        outgoing: OutgoingQueue::new(),
        table: TransactionTable::new(),
        incoming: IncomingActions::new(),
        board,
    }
}

fn receive(host: &mut Host, packet: P2pPacket, from: SocketAddress) -> HostReaction {
    host_handle_packet(
        &mut host.data,
        &mut host.table,
        &mut host.incoming,
        &host.board.snapshot(),
        host.board.player_color(),
        "Atle",
        packet,
        from,
    )
}

fn answer(host: &mut Host, packet: P2pPacket, from: SocketAddress) -> P2pResponse {
    match receive(host, packet, from) {
        HostReaction::Reply(response) => response,
        other => panic!("no answer: {:?}", other),
    }
}

fn connect(session_id: u16, transaction_id: u16, join_code: &str) -> P2pPacket {
    P2pPacket::Request(P2pRequest::new(
        session_id,
        transaction_id,
        P2pRequestPacket::connect(join_code, "Bo"),
    ))
}

#[test]
fn join_code_of_an_address() {
    assert_eq!(hex_encode_ip(v4(192, 168, 1, 10, 6000)), Ok("c0a8010a1770".to_owned()));
    assert_eq!(hex_encode_ip(v4(0, 0, 0, 0, 0)), Ok("000000000000".to_owned()));
    assert_eq!(hex_encode_ip(v4(255, 255, 255, 255, 65535)), Ok("ffffffffffff".to_owned()));
    assert_eq!(
        hex_encode_ip(SocketAddress { ip: IpAddress::V6(1), port: 6000 }),
        Err(NetworkError::GetIpV4Error)
    );
}

#[test]
fn address_of_a_join_code() {
    assert_eq!(hex_decode_ip("c0a8010a1770"), Ok(v4(192, 168, 1, 10, 6000)));
    assert_eq!(hex_decode_ip("C0A8010A1770"), Ok(v4(192, 168, 1, 10, 6000)));
    assert_eq!(hex_decode_ip("7f0000011b58"), Ok(v4(127, 0, 0, 1, 7000)));
    assert_eq!(hex_decode_ip("c0a8010a177"), Err(JoinCodeError::NotHex));
    assert_eq!(hex_decode_ip("c0a8010a177g"), Err(JoinCodeError::NotHex));
    assert_eq!(hex_decode_ip("c0a8010a17é0"), Err(JoinCodeError::NotHex));
    assert_eq!(hex_decode_ip("c0a8010a17"), Err(JoinCodeError::WrongLength));
    assert_eq!(hex_decode_ip("c0a8010a177000"), Err(JoinCodeError::WrongLength));
    assert_eq!(hex_decode_ip(""), Err(JoinCodeError::WrongLength));
    for addr in [v4(10, 0, 0, 1, 6001), v4(1, 2, 3, 4, 5), v4(255, 0, 255, 0, 65535)] {
        assert_eq!(hex_decode_ip(&hex_encode_ip(addr).unwrap()), Ok(addr));
    }
}

#[test]
fn network_error_constructors() {
    assert_eq!(
        NetworkError::send_error("down"),
        NetworkError::SendError { details: "down".to_owned() }
    );
    assert_eq!(
        NetworkError::recieve_error("down"),
        NetworkError::RecieveError { details: "down".to_owned() }
    );
}

#[test]
fn connection_status_helpers() {
    assert_eq!(ConnectionStatus::connected(), ConnectionStatus::Connected { ping: 0 });
    assert_eq!(ConnectionStatus::reconnecting(), ConnectionStatus::Reconnecting { tries: 0 });
    assert!(ConnectionStatus::connected().is_connected());
    assert!(!ConnectionStatus::connected().is_reconnecting());
    assert!(ConnectionStatus::reconnecting().is_reconnecting());
    assert!(!ConnectionStatus::PendingConnection.is_connected());
    assert!(!ConnectionStatus::Disconnected.can_send());
    assert!(ConnectionStatus::PendingConnection.can_send());
    assert!(ConnectionStatus::reconnecting().can_send());
    assert!(ConnectionStatus::connected().can_send());
}

#[test]
fn connection_data_accessors() {
    let mut data = ConnectionData::new();
    assert_eq!(get_connection_status(&data), ConnectionStatus::Disconnected);
    assert_eq!(get_other_addr(&data), None);
    assert_eq!(get_other_username(&data), None);
    assert_eq!(get_join_code(&data), None);
    assert_eq!(get_session_id(&data), CONNECT_SESSION_ID);
    assert_eq!(CONNECT_SESSION_ID, 0x15f4);
    assert_eq!(get_connection_ping(&data), None);

    set_other_addr(&mut data, v4(1, 2, 3, 4, 5));
    set_other_username(&mut data, "Bo");
    set_join_code(&mut data, "c0a8010a1770");
    set_session_id(&mut data, 77);
    set_connection_status(&mut data, ConnectionStatus::connected());
    assert_eq!(get_other_addr(&data), Some(v4(1, 2, 3, 4, 5)));
    assert_eq!(get_other_username(&data), Some("Bo".to_owned()));
    assert_eq!(get_join_code(&data), Some("c0a8010a1770".to_owned()));
    assert_eq!(get_session_id(&data), 77);
    assert!(is_connected(&data));

    set_connection_ping(&mut data, 1234);
    assert_eq!(get_connection_ping(&data), Some(1234));
    set_reconnect_tries(&mut data, 3);
    assert_eq!(get_connection_status(&data), ConnectionStatus::Connected { ping: 1234 });
    set_connection_status(&mut data, ConnectionStatus::reconnecting());
    set_connection_ping(&mut data, 99);
    assert_eq!(get_connection_status(&data), ConnectionStatus::Reconnecting { tries: 0 });
    set_reconnect_tries(&mut data, 3);
    assert_eq!(get_connection_status(&data), ConnectionStatus::Reconnecting { tries: 3 });
    assert!(!is_connected(&data));

    remove_other_addr(&mut data);
    remove_other_username(&mut data);
    assert_eq!(get_other_addr(&data), None);
    assert_eq!(get_other_username(&data), None);
    assert_eq!(
        the_checker_mater::net::interface::get_other_username(&data),
        None
    );
}

#[test]
fn missed_pings_count_up_to_the_budget_then_disconnect() {
    let mut data = ConnectionData::new();
    set_connection_status(&mut data, ConnectionStatus::Connected { ping: 5 });
    set_other_addr(&mut data, v4(1, 2, 3, 4, 5));
    set_other_username(&mut data, "Atle");
    assert_eq!(RECONNECT_TRIES, 10);
    for count in 1..RECONNECT_TRIES {
        client_ping_timed_out(&mut data);
        assert_eq!(get_connection_status(&data), ConnectionStatus::Reconnecting { tries: count });
        assert_eq!(get_other_addr(&data), Some(v4(1, 2, 3, 4, 5)));
        assert!(client_wants_ping(&data));
    }
    client_ping_timed_out(&mut data);
    assert_eq!(get_connection_status(&data), ConnectionStatus::Disconnected);
    assert_eq!(get_other_addr(&data), None);
    assert_eq!(get_other_username(&data), None);
    assert!(!client_wants_ping(&data));
    client_ping_timed_out(&mut data);
    assert_eq!(get_connection_status(&data), ConnectionStatus::Disconnected);
}

#[test]
fn status_steps_on_a_missed_ping() {
    assert_eq!(
        ConnectionStatus::Connected { ping: 9 }.timed_out(),
        ConnectionStatus::Reconnecting { tries: 1 }
    );
    assert_eq!(
        ConnectionStatus::Reconnecting { tries: 8 }.timed_out(),
        ConnectionStatus::Reconnecting { tries: 9 }
    );
    assert_eq!(ConnectionStatus::Reconnecting { tries: 9 }.timed_out(), ConnectionStatus::Disconnected);
    assert_eq!(ConnectionStatus::Reconnecting { tries: 255 }.timed_out(), ConnectionStatus::Disconnected);
    assert_eq!(ConnectionStatus::PendingConnection.timed_out(), ConnectionStatus::PendingConnection);
    assert_eq!(ConnectionStatus::Disconnected.timed_out(), ConnectionStatus::Disconnected);
}

#[test]
fn an_answered_ping_reconnects() {
    let mut data = ConnectionData::new();
    set_connection_status(&mut data, ConnectionStatus::Connected { ping: 5 });
    set_other_addr(&mut data, v4(1, 2, 3, 4, 5));
    client_ping_timed_out(&mut data);
    client_ping_timed_out(&mut data);
    // Only a pong shows that the host is there.
    client_ping_answered(&mut data, &ping(3), 700);
    assert_eq!(get_connection_status(&data), ConnectionStatus::Reconnecting { tries: 2 });
    let refusal = P2pPacket::Response(P2pResponse::new(
        1,
        3,
        P2pResponsePacket::error(P2pError::InvalidSessionId),
    ));
    client_ping_answered(&mut data, &refusal, 700);
    assert_eq!(get_connection_status(&data), ConnectionStatus::Reconnecting { tries: 2 });
    let ack = P2pPacket::Response(P2pResponse::new(1, 3, P2pResponsePacket::Acknowledge));
    client_ping_answered(&mut data, &ack, 700);
    assert_eq!(get_connection_status(&data), ConnectionStatus::Reconnecting { tries: 2 });
    client_ping_answered(&mut data, &pong(3), 700);
    assert_eq!(get_connection_status(&data), ConnectionStatus::Connected { ping: 700 });
    client_ping_timed_out(&mut data);
    assert_eq!(get_connection_status(&data), ConnectionStatus::Reconnecting { tries: 1 });
}

#[test]
fn the_client_pings_only_when_it_has_a_host() {
    let mut data = ConnectionData::new();
    assert!(!client_wants_ping(&data));
    set_connection_status(&mut data, ConnectionStatus::connected());
    assert!(!client_wants_ping(&data));
    set_other_addr(&mut data, v4(1, 2, 3, 4, 5));
    assert!(client_wants_ping(&data));
    set_connection_status(&mut data, ConnectionStatus::PendingConnection);
    assert!(!client_wants_ping(&data));

    set_connection_status(&mut data, ConnectionStatus::connected());
    set_session_id(&mut data, 0x0102);
    let mut outgoing = OutgoingQueue::new();
    let mut table = TransactionTable::new();
    let ping_id = client_send_ping(&data, &mut outgoing, &mut table);
    assert!(check_transaction_id(&table, ping_id));
    assert_eq!(
        pop_outgoing_queue(&mut outgoing),
        Some((P2pPacket::Request(P2pRequest::new(0x0102, ping_id, P2pRequestPacket::Ping)), ping_id))
    );
}

#[test]
fn the_outgoing_queue_is_first_in_first_out() {
    let mut outgoing = OutgoingQueue::new();
    let mut table = TransactionTable::new();
    assert_eq!(pop_outgoing_queue(&mut outgoing), None);
    assert_eq!(push_outgoing_queue(&mut outgoing, &mut table, ping(10), false), 10);
    assert_eq!(push_outgoing_queue(&mut outgoing, &mut table, pong(20), false), 20);
    assert_eq!(push_outgoing_queue(&mut outgoing, &mut table, ping(30), true), 30);
    assert_eq!(get_outgoing_queue_len(&outgoing), 3);
    assert_eq!(table.len(), 3);
    assert_eq!(pop_outgoing_queue(&mut outgoing), Some((ping(10), 10)));
    assert_eq!(pop_outgoing_queue(&mut outgoing), Some((pong(20), 20)));
    assert_eq!(pop_outgoing_queue(&mut outgoing), Some((ping(30), 30)));
    assert_eq!(pop_outgoing_queue(&mut outgoing), None);
    assert_eq!(get_outgoing_queue_len(&outgoing), 0);
}

#[test]
fn nothing_is_sent_before_the_peer_is_known() {
    let mut data = ConnectionData::new();
    let mut outgoing = OutgoingQueue::new();
    let mut table = TransactionTable::new();
    push_outgoing_queue(&mut outgoing, &mut table, ping(10), false);
    assert_eq!(next_to_send(&data, &mut outgoing), None);
    assert_eq!(get_outgoing_queue_len(&outgoing), 1);
    set_other_addr(&mut data, v4(1, 2, 3, 4, 5));
    assert_eq!(next_to_send(&data, &mut outgoing), Some((ping(10), v4(1, 2, 3, 4, 5))));
    assert_eq!(next_to_send(&data, &mut outgoing), None);
}

#[test]
fn a_response_is_handed_out_once() {
    let mut outgoing = OutgoingQueue::new();
    let mut table = TransactionTable::new();
    push_outgoing_queue(&mut outgoing, &mut table, ping(10), false);
    assert!(check_transaction_id(&table, 10));
    assert_eq!(check_for_response(&mut table, 10), None);
    assert!(check_transaction_id(&table, 10));

    assert_eq!(set_response(&mut table, 10, Some(pong(10))), Delivery::Stored);
    assert_eq!(check_for_response(&mut table, 10), Some(pong(10)));
    assert!(!check_transaction_id(&table, 10));
    assert_eq!(check_for_response(&mut table, 10), None);

    // A second response for the id that was consumed changes nothing.
    assert_eq!(set_response(&mut table, 10, Some(pong(10))), Delivery::Unknown);
    assert_eq!(table.len(), 0);
    assert_eq!(check_for_response(&mut table, 10), None);
}

#[test]
fn a_response_for_a_transaction_with_callback_closes_it() {
    let mut outgoing = OutgoingQueue::new();
    let mut table = TransactionTable::new();
    push_outgoing_queue(&mut outgoing, &mut table, ping(10), true);
    let answer = P2pResponse::new(1, 10, P2pResponsePacket::Acknowledge);
    assert_eq!(
        set_response(&mut table, 10, Some(P2pPacket::Response(answer.clone()))),
        Delivery::Callback(answer)
    );
    assert!(!check_transaction_id(&table, 10));
    assert_eq!(set_response(&mut table, 10, Some(pong(10))), Delivery::Unknown);

    push_outgoing_queue(&mut outgoing, &mut table, ping(11), true);
    assert_eq!(set_response(&mut table, 11, Some(ping(11))), Delivery::Discarded);
    assert!(!check_transaction_id(&table, 11));
    push_outgoing_queue(&mut outgoing, &mut table, ping(12), true);
    assert_eq!(set_response(&mut table, 12, None), Delivery::Discarded);
}

#[test]
fn an_abandoned_transaction_can_be_closed() {
    let mut outgoing = OutgoingQueue::new();
    let mut table = TransactionTable::new();
    push_outgoing_queue(&mut outgoing, &mut table, ping(10), false);
    assert!(close_transaction(&mut table, 10));
    assert!(!check_transaction_id(&table, 10));
    assert!(!close_transaction(&mut table, 10));
    // A response that comes after all finds nothing to answer.
    assert_eq!(set_response(&mut table, 10, Some(pong(10))), Delivery::Unknown);
}

#[test]
fn a_later_response_replaces_a_stored_one() {
    let mut outgoing = OutgoingQueue::new();
    let mut table = TransactionTable::new();
    push_outgoing_queue(&mut outgoing, &mut table, ping(10), false);
    let first = P2pPacket::Response(P2pResponse::new(1, 10, P2pResponsePacket::Pong));
    let second = P2pPacket::Response(P2pResponse::new(1, 10, P2pResponsePacket::Acknowledge));
    assert_eq!(set_response(&mut table, 10, Some(first)), Delivery::Stored);
    assert_eq!(set_response(&mut table, 10, Some(second.clone())), Delivery::Stored);
    assert_eq!(check_for_response(&mut table, 10), Some(second));
}

#[test]
fn new_transaction_ids_are_free() {
    let mut outgoing = OutgoingQueue::new();
    let mut table = TransactionTable::new();
    for _ in 0..200 {
        assert!(has_free_transaction_id(&table));
        let id = new_transaction_id(&table);
        assert!(!check_transaction_id(&table, id));
        push_outgoing_queue(&mut outgoing, &mut table, ping(id), false);
    }
    assert_eq!(table.len(), 200);
}

#[test]
fn the_last_free_transaction_id_is_found() {
    let mut outgoing = OutgoingQueue::new();
    let mut table = TransactionTable::new();
    for id in 0..=u16::MAX {
        if id != 40000 {
            push_outgoing_queue(&mut outgoing, &mut table, ping(id), false);
        }
    }
    assert_eq!(table.len(), 65535);
    assert!(has_free_transaction_id(&table));
    assert_eq!(new_transaction_id(&table), 40000);
    assert_eq!(free_transaction_id_from(&table, 40000), 40000);
    assert_eq!(free_transaction_id_from(&table, 40001), 40000);
    assert_eq!(free_transaction_id_from(&table, 0), 40000);
    push_outgoing_queue(&mut outgoing, &mut table, ping(40000), false);
    assert!(!has_free_transaction_id(&table));
}

#[test]
fn probing_goes_round_after_the_highest_id() {
    let mut outgoing = OutgoingQueue::new();
    let mut table = TransactionTable::new();
    push_outgoing_queue(&mut outgoing, &mut table, ping(65534), false);
    push_outgoing_queue(&mut outgoing, &mut table, ping(65535), false);
    push_outgoing_queue(&mut outgoing, &mut table, ping(0), false);
    assert_eq!(free_transaction_id_from(&table, 65534), 1);
    assert_eq!(free_transaction_id_from(&table, 5), 5);
}

#[test]
fn incoming_actions_are_first_in_first_out() {
    let mut incoming = IncomingActions::new();
    assert_eq!(pop_incoming_gameaction(&mut incoming), None);
    push_incoming_gameaction(&mut incoming, GameAction::Surrender);
    push_incoming_gameaction(&mut incoming, GameAction::move_piece(20, 16, None, false));
    assert_eq!(get_incoming_gameaction_len(&incoming), 2);
    assert_eq!(get_next_game_action(&mut incoming), Some(GameAction::Surrender));
    assert_eq!(
        pop_incoming_gameaction(&mut incoming),
        Some(GameAction::move_piece(20, 16, None, false))
    );
    assert_eq!(get_next_game_action(&mut incoming), None);
}

#[test]
fn the_host_answers_a_ping_with_a_pong() {
    let mut host = host();
    let from = v4(10, 0, 0, 2, 6001);
    assert_eq!(
        receive(&mut host, ping(42), from),
        HostReaction::Reply(P2pResponse::new(CONNECT_SESSION_ID, 42, P2pResponsePacket::Pong))
    );
    assert_eq!(get_outgoing_queue_len(&host.outgoing), 0);
    assert!(!check_transaction_id(&host.table, 42));
}

#[test]
fn a_wrong_join_code_is_refused() {
    let mut host = host();
    let from = v4(10, 0, 0, 2, 6001);
    assert_eq!(
        host_accepts(&host.data, CONNECT_SESSION_ID, &"000000000000".to_owned()),
        Some(P2pError::InvalidJoinCode)
    );
    assert_eq!(
        receive(&mut host, connect(CONNECT_SESSION_ID, 5, "000000000000"), from),
        HostReaction::Reply(P2pResponse::new(
            CONNECT_SESSION_ID,
            5,
            P2pResponsePacket::error(P2pError::InvalidJoinCode)
        ))
    );
    assert_eq!(get_other_addr(&host.data), None);
    assert_eq!(get_connection_status(&host.data), ConnectionStatus::Disconnected);
    assert_eq!(get_session_id(&host.data), CONNECT_SESSION_ID);
}

#[test]
fn a_host_without_join_code_refuses_every_code() {
    let mut host = host();
    host.data = ConnectionData::new();
    let from = v4(10, 0, 0, 2, 6001);
    let reply = answer(&mut host, connect(CONNECT_SESSION_ID, 5, "c0a8010a1770"), from);
    assert_eq!(reply.packet, P2pResponsePacket::error(P2pError::InvalidJoinCode));
}

#[test]
fn a_wrong_session_id_is_refused() {
    let mut host = host();
    let from = v4(10, 0, 0, 2, 6001);
    assert_eq!(
        answer(&mut host, connect(1, 5, "c0a8010a1770"), from),
        P2pResponse::new(CONNECT_SESSION_ID, 5, P2pResponsePacket::error(P2pError::InvalidSessionId))
    );
    assert_eq!(get_other_addr(&host.data), None);
}

#[test]
fn the_host_takes_one_client() {
    let mut host = host();
    let from = v4(10, 0, 0, 2, 6001);
    assert_eq!(host_accepts(&host.data, CONNECT_SESSION_ID, &"c0a8010a1770".to_owned()), None);
    let reply = answer(&mut host, connect(CONNECT_SESSION_ID, 5, "c0a8010a1770"), from);
    let session_id = get_session_id(&host.data);
    assert_eq!(
        reply,
        P2pResponse::new(session_id, 5, P2pResponsePacket::connect(PieceColor::Black, "Atle".to_owned()))
    );
    assert_eq!(get_other_addr(&host.data), Some(from));
    assert_eq!(get_connection_status(&host.data), ConnectionStatus::Connected { ping: 0 });

    // The game is full now for whoever has the right join code; a wrong join
    // code is still answered as a wrong join code.
    let other = v4(10, 0, 0, 3, 6002);
    let reply = answer(&mut host, connect(CONNECT_SESSION_ID, 6, "c0a8010a1770"), other);
    assert_eq!(reply.packet, P2pResponsePacket::error(P2pError::FullGameSession));
    let reply = answer(&mut host, connect(1, 6, "c0a8010a1770"), other);
    assert_eq!(reply.packet, P2pResponsePacket::error(P2pError::FullGameSession));
    let reply = answer(&mut host, connect(CONNECT_SESSION_ID, 7, "000000000000"), other);
    assert_eq!(reply, P2pResponse::new(session_id, 7, P2pResponsePacket::error(P2pError::InvalidJoinCode)));
    assert_eq!(
        host_accepts(&host.data, CONNECT_SESSION_ID, &"000000000000".to_owned()),
        Some(P2pError::InvalidJoinCode)
    );
    assert_eq!(
        host_accepts(&host.data, CONNECT_SESSION_ID, &"c0a8010a1770".to_owned()),
        Some(P2pError::FullGameSession)
    );
    assert_eq!(get_other_addr(&host.data), Some(from));
    assert_eq!(get_session_id(&host.data), session_id);
}

#[test]
fn a_silent_client_loses_its_place() {
    let mut host = host();
    let from = v4(10, 0, 0, 2, 6001);
    assert!(!host_evict_idle_peer(&mut host.data, 60_000));
    receive(&mut host, connect(CONNECT_SESSION_ID, 5, "c0a8010a1770"), from);
    set_other_username(&mut host.data, "Bo");
    assert_eq!(DISCONNECT_TIME_MS, 5_000);
    assert!(!host_evict_idle_peer(&mut host.data, 4_999));
    assert_eq!(get_other_addr(&host.data), Some(from));
    assert!(host_evict_idle_peer(&mut host.data, 5_000));
    assert_eq!(get_other_addr(&host.data), None);
    assert_eq!(get_other_username(&host.data), None);
    assert_eq!(get_session_id(&host.data), CONNECT_SESSION_ID);
    assert!(!host_evict_idle_peer(&mut host.data, 5_000));

    // A new client can join.
    let other = v4(10, 0, 0, 3, 6002);
    let reply = answer(&mut host, connect(CONNECT_SESSION_ID, 6, "c0a8010a1770"), other);
    assert!(matches!(reply.packet, P2pResponsePacket::Connect { .. }));
    assert_eq!(get_other_addr(&host.data), Some(other));
}

#[test]
fn the_host_hears_its_client_in_every_packet_of_it() {
    let mut host = host();
    let client = v4(10, 0, 0, 2, 6001);
    let stranger = v4(10, 0, 0, 3, 6002);
    // Before a client is bound only the request that binds one counts.
    assert!(!host_hears_peer(&host.data, client, &ping(1)));
    assert!(!host_hears_peer(&host.data, client, &pong(1)));
    assert!(!host_hears_peer(&host.data, client, &connect(CONNECT_SESSION_ID, 2, "000000000000")));
    assert!(!host_hears_peer(&host.data, client, &connect(1, 2, "c0a8010a1770")));
    assert!(host_hears_peer(&host.data, client, &connect(CONNECT_SESSION_ID, 2, "c0a8010a1770")));
    answer(&mut host, connect(CONNECT_SESSION_ID, 2, "c0a8010a1770"), client);
    // After that every packet of the client counts, and none of anyone else.
    assert!(host_hears_peer(&host.data, client, &ping(3)));
    assert!(host_hears_peer(&host.data, client, &pong(3)));
    assert!(host_hears_peer(&host.data, client, &connect(CONNECT_SESSION_ID, 4, "000000000000")));
    assert!(!host_hears_peer(&host.data, stranger, &ping(3)));
    assert!(!host_hears_peer(&host.data, stranger, &pong(3)));
    assert!(!host_hears_peer(&host.data, stranger, &connect(CONNECT_SESSION_ID, 4, "c0a8010a1770")));
}

#[test]
fn the_host_sends_its_board_on_resync() {
    let mut host = host();
    let from = v4(10, 0, 0, 2, 6001);
    let request = P2pPacket::Request(P2pRequest::new(1, 8, P2pRequestPacket::Resync));
    let reply = answer(&mut host, request, from);
    assert_eq!(reply.packet, P2pResponsePacket::resync(host.board.snapshot()));
}

#[test]
fn the_host_queues_game_actions_and_acknowledges() {
    let mut host = host();
    let from = v4(10, 0, 0, 2, 6001);
    let action = GameAction::move_piece(20, 16, None, false);
    let request = P2pPacket::Request(P2pRequest::new(1, 8, P2pRequestPacket::game_action(action.clone())));
    let reply = answer(&mut host, request, from);
    assert_eq!(reply, P2pResponse::new(CONNECT_SESSION_ID, 8, P2pResponsePacket::Acknowledge));
    assert_eq!(get_next_game_action(&mut host.incoming), Some(action));
}

#[test]
fn the_host_records_responses_to_open_transactions_only() {
    let mut host = host();
    let from = v4(10, 0, 0, 2, 6001);
    assert_eq!(receive(&mut host, pong(9), from), HostReaction::Dropped);
    assert_eq!(host.table.len(), 0);

    set_connection_status(&mut host.data, ConnectionStatus::connected());
    let id = send_game_action(&host.data, &mut host.outgoing, &mut host.table, GameAction::Surrender);
    let reply = P2pResponse::new(1, id, P2pResponsePacket::Acknowledge);
    assert_eq!(
        receive(&mut host, P2pPacket::Response(reply.clone()), from),
        HostReaction::Delivered(Delivery::Callback(reply.clone()))
    );
    assert_eq!(game_action_outcome(&reply), Ok(()));
    // A duplicate of the response finds the transaction closed.
    assert_eq!(receive(&mut host, P2pPacket::Response(reply), from), HostReaction::Dropped);
}

#[test]
fn the_outcome_of_a_game_action() {
    assert_eq!(game_action_outcome(&P2pResponse::new(1, 2, P2pResponsePacket::Acknowledge)), Ok(()));
    assert_eq!(game_action_outcome(&P2pResponse::new(1, 2, P2pResponsePacket::Pong)), Ok(()));
    assert_eq!(
        game_action_outcome(&P2pResponse::new(1, 2, P2pResponsePacket::error(P2pError::InvalidBoard))),
        Err(P2pError::InvalidBoard)
    );
}

#[test]
fn sending_a_game_action() {
    let mut data = ConnectionData::new();
    set_connection_status(&mut data, ConnectionStatus::connected());
    set_session_id(&mut data, 321);
    let mut outgoing = OutgoingQueue::new();
    let mut table = TransactionTable::new();
    let action = GameAction::move_piece(21, 12, Some(vec![17]), false);
    let id = send_game_action(&data, &mut outgoing, &mut table, action.clone());
    assert_eq!(
        pop_outgoing_queue(&mut outgoing),
        Some((P2pPacket::Request(P2pRequest::new(321, id, P2pRequestPacket::game_action(action))), id))
    );
    assert!(check_transaction_id(&table, id));
}

#[test]
fn the_client_answers_requests() {
    let mut incoming = IncomingActions::new();
    assert_eq!(
        client_answer(&mut incoming, P2pRequest::new(3, 4, P2pRequestPacket::Ping)),
        P2pResponse::new(3, 4, P2pResponsePacket::Pong)
    );
    assert_eq!(
        client_answer(&mut incoming, P2pRequest::new(3, 5, P2pRequestPacket::Resync)),
        P2pResponse::new(3, 5, P2pResponsePacket::error(P2pError::WrongDirection))
    );
    assert_eq!(
        client_answer(&mut incoming, P2pRequest::new(3, 6, P2pRequestPacket::connect("c0a8010a1770", "x"))),
        P2pResponse::new(3, 6, P2pResponsePacket::error(P2pError::WrongDirection))
    );
    assert_eq!(get_incoming_gameaction_len(&incoming), 0);
    assert_eq!(
        client_answer(
            &mut incoming,
            P2pRequest::new(3, 7, P2pRequestPacket::game_action(GameAction::Stalemate))
        ),
        P2pResponse::new(3, 7, P2pResponsePacket::Acknowledge)
    );
    assert_eq!(get_next_game_action(&mut incoming), Some(GameAction::Stalemate));
}

#[test]
fn the_client_listens_to_its_host_only() {
    let mut data = ConnectionData::new();
    let mut table = TransactionTable::new();
    let mut incoming = IncomingActions::new();
    let host = v4(10, 0, 0, 1, 6000);
    let stranger = v4(10, 0, 0, 9, 6000);
    assert_eq!(
        client_handle_packet(&data, &mut table, &mut incoming, ping(1), host),
        ClientReaction::Ignored
    );
    set_other_addr(&mut data, host);
    assert_eq!(
        client_handle_packet(&data, &mut table, &mut incoming, ping(1), stranger),
        ClientReaction::Ignored
    );
    assert_eq!(
        client_handle_packet(&data, &mut table, &mut incoming, ping(1), host),
        ClientReaction::Reply(P2pResponse::new(1, 1, P2pResponsePacket::Pong))
    );
    assert_eq!(
        client_handle_packet(&data, &mut table, &mut incoming, pong(2), host),
        ClientReaction::Delivered(Delivery::Unknown)
    );
    let mut outgoing = OutgoingQueue::new();
    push_outgoing_queue(&mut outgoing, &mut table, ping(2), false);
    assert_eq!(
        client_handle_packet(&data, &mut table, &mut incoming, pong(2), host),
        ClientReaction::Delivered(Delivery::Stored)
    );
    assert_eq!(check_for_response(&mut table, 2), Some(pong(2)));
}

#[test]
fn opening_a_session_as_host() {
    let mut data = ConnectionData::new();
    assert_eq!(
        open_host_session(&mut data, v4(192, 168, 1, 10, 6000)),
        Ok("c0a8010a1770".to_owned())
    );
    assert_eq!(get_join_code(&data), Some("c0a8010a1770".to_owned()));
    let mut data = ConnectionData::new();
    assert_eq!(
        open_host_session(&mut data, SocketAddress { ip: IpAddress::V6(1), port: 1 }),
        Err(NetworkError::GetIpV4Error)
    );
    assert_eq!(get_join_code(&data), None);
}

#[test]
fn joining_a_game() {
    let mut data = ConnectionData::new();
    let mut outgoing = OutgoingQueue::new();
    let mut table = TransactionTable::new();
    assert_eq!(
        send_join_request(&mut data, &mut outgoing, &mut table, "nonsense", "Bo"),
        Err(JoinCodeError::NotHex)
    );
    assert_eq!(data, ConnectionData::new());
    assert_eq!(get_outgoing_queue_len(&outgoing), 0);

    let id = send_join_request(&mut data, &mut outgoing, &mut table, "c0a8010a1770", "Bo").unwrap();
    assert_eq!(get_connection_status(&data), ConnectionStatus::PendingConnection);
    assert_eq!(get_other_addr(&data), Some(v4(192, 168, 1, 10, 6000)));
    assert_eq!(get_join_code(&data), Some("c0a8010a1770".to_owned()));
    assert_eq!(
        next_to_send(&data, &mut outgoing),
        Some((connect(CONNECT_SESSION_ID, id, "c0a8010a1770"), v4(192, 168, 1, 10, 6000)))
    );
    assert_eq!(check_for_connection_resp(&mut data, &mut table, id), None);

    let welcome = P2pResponse::new(777, id, P2pResponsePacket::connect(PieceColor::Black, "Atle".to_owned()));
    assert_eq!(set_response(&mut table, id, Some(P2pPacket::Response(welcome))), Delivery::Stored);
    assert_eq!(
        check_for_connection_resp(&mut data, &mut table, id),
        Some(Ok((PieceColor::Black, "Atle".to_owned())))
    );
    assert_eq!(get_connection_status(&data), ConnectionStatus::Connected { ping: 0 });
    assert_eq!(get_session_id(&data), 777);
    assert_eq!(get_other_username(&data), Some("Atle".to_owned()));
    assert_eq!(check_for_connection_resp(&mut data, &mut table, id), None);
}

#[test]
fn a_join_request_that_is_turned_down() {
    let mut data = ConnectionData::new();
    let mut outgoing = OutgoingQueue::new();
    let mut table = TransactionTable::new();
    let id = send_join_request(&mut data, &mut outgoing, &mut table, "c0a8010a1770", "Bo").unwrap();
    let refusal = P2pResponse::new(1, id, P2pResponsePacket::error(P2pError::InvalidJoinCode));
    set_response(&mut table, id, Some(P2pPacket::Response(refusal)));
    assert_eq!(
        check_for_connection_resp(&mut data, &mut table, id),
        Some(Err(JoinFailure::Refused(P2pError::InvalidJoinCode)))
    );
    assert_eq!(get_connection_status(&data), ConnectionStatus::PendingConnection);

    let id = send_join_request(&mut data, &mut outgoing, &mut table, "c0a8010a1770", "Bo").unwrap();
    set_response(&mut table, id, Some(pong(id)));
    assert_eq!(check_for_connection_resp(&mut data, &mut table, id), Some(Err(JoinFailure::WrongResponse)));
    let id = send_join_request(&mut data, &mut outgoing, &mut table, "c0a8010a1770", "Bo").unwrap();
    set_response(&mut table, id, Some(ping(id)));
    assert_eq!(check_for_connection_resp(&mut data, &mut table, id), Some(Err(JoinFailure::NotAResponse)));
}

#[test]
fn the_join_handshake_end_to_end() {
    let mut host = host();
    let mut data = ConnectionData::new();
    let mut outgoing = OutgoingQueue::new();
    let mut table = TransactionTable::new();
    let client_addr = v4(10, 0, 0, 2, 6001);

    // With the wrong code the client gets an explicit refusal.
    let id = send_join_request(&mut data, &mut outgoing, &mut table, "c0a8010a1771", "Bo").unwrap();
    let (request, _) = next_to_send(&data, &mut outgoing).unwrap();
    let reply = answer(&mut host, request, client_addr);
    set_response(&mut table, id, Some(P2pPacket::Response(reply)));
    assert_eq!(
        check_for_connection_resp(&mut data, &mut table, id),
        Some(Err(JoinFailure::Refused(P2pError::InvalidJoinCode)))
    );

    // With the right code it is taken in.
    let id = send_join_request(&mut data, &mut outgoing, &mut table, "c0a8010a1770", "Bo").unwrap();
    let (request, _) = next_to_send(&data, &mut outgoing).unwrap();
    let reply = answer(&mut host, request, client_addr);
    set_response(&mut table, id, Some(P2pPacket::Response(reply)));
    assert_eq!(
        check_for_connection_resp(&mut data, &mut table, id),
        Some(Ok((PieceColor::Black, "Atle".to_owned())))
    );
    assert_eq!(get_session_id(&data), get_session_id(&host.data));
    assert!(is_connected(&data) && is_connected(&host.data));
}

#[test]
fn steps_of_a_client_that_waits_to_be_taken_in() {
    assert_eq!(next_join_step(1, 0), JoinStep::KeepWaiting);
    assert_eq!(next_join_step(1, 24), JoinStep::KeepWaiting);
    assert_eq!(next_join_step(1, 25), JoinStep::SendAgain);
    assert_eq!(next_join_step(9, 25), JoinStep::SendAgain);
    assert_eq!(next_join_step(10, 24), JoinStep::KeepWaiting);
    assert_eq!(next_join_step(10, 25), JoinStep::GiveUp);
}
