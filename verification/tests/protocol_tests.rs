use card_server::client::TemporaryClient;
use card_server::deck::{CardRef, Deck};
use card_server::errors::{NetworkError, PlayerConnectionError};
use card_server::header::HeaderType;
use card_server::packet::Packet;
use card_server::player::{DeckFetch, PartialPlayerProfile, ProfileFetch};
use card_server::protocol::{
    HandshakeAction, PlayCardAction, Protocol, WireAction, SEND_ATTEMPT_LIMIT,
};
use card_server::requests::{ConnectionRequest, PlayCardRequest, ReconnectionRequest};
use card_server::server::ServerInstance;

fn fresh_protocol() -> Protocol {
    Protocol::new(ServerInstance::new(4000))
}

fn good_profile(id: &str) -> ProfileFetch {
    ProfileFetch::Response {
        status: 200,
        profile: Ok(PartialPlayerProfile {
            id: String::from(id),
            username: String::from("name"),
            level: 9,
        }),
    }
}

fn good_deck() -> DeckFetch {
    DeckFetch::Response {
        status: 200,
        deck: Some(Deck { cards: vec![CardRef { card_id: String::from("c1") }] }),
    }
}

fn connect_request(id: &str) -> Result<ConnectionRequest, String> {
    Ok(ConnectionRequest {
        player_id: String::from(id),
        auth_token: String::from("token"),
        current_deck_id: String::from("deck-1"),
    })
}

fn reconnect_request(id: &str) -> Result<ReconnectionRequest, String> {
    Ok(ReconnectionRequest { player_id: String::from(id), auth_token: String::from("token") })
}

fn connect(proto: &mut Protocol, id: &str, addr: &str) {
    let temp = TemporaryClient::new(String::from(addr));
    proto
        .handle_connect(temp, connect_request(id), good_profile(id), good_deck())
        .expect("connect must succeed");
}

#[test]
fn unframable_buffer_is_dropped_silently() {
    let proto = fresh_protocol();
    assert!(matches!(proto.handle_incoming(&[1, 2]), WireAction::Ignore));
}

#[test]
fn corrupted_checksum_is_answered_and_closed() {
    let proto = fresh_protocol();
    let mut bytes = Packet::new(HeaderType::PlayCard, vec![1, 2, 3]).wrap_packet();
    bytes[10] ^= 0x04;
    match proto.handle_incoming(&bytes) {
        WireAction::ReplyAndDisconnect(p) => {
            assert_eq!(p.header.header_type, HeaderType::InvalidChecksum);
        }
        other => panic!("expected a reply-and-disconnect, got {other:?}"),
    }
}

#[test]
fn disconnect_packet_is_acknowledged_and_closed() {
    let proto = fresh_protocol();
    let bytes = Packet::new(HeaderType::Disconnect, Vec::new()).wrap_packet();
    match proto.handle_incoming(&bytes) {
        WireAction::ReplyAndDisconnect(p) => {
            assert_eq!(p.header.header_type, HeaderType::Disconnect);
        }
        other => panic!("expected a reply-and-disconnect, got {other:?}"),
    }
}

#[test]
fn play_card_payload_is_handed_on_for_deserialisation() {
    let proto = fresh_protocol();
    let bytes = Packet::new(HeaderType::PlayCard, vec![8, 9]).wrap_packet();
    match proto.handle_incoming(&bytes) {
        WireAction::PlayCard(payload) => assert_eq!(payload, vec![8, 9]),
        other => panic!("expected a play-card action, got {other:?}"),
    }
}

#[test]
fn unexpected_header_is_answered_with_invalid_header() {
    let proto = fresh_protocol();
    for h in [HeaderType::Connect, HeaderType::GameStateUpdate, HeaderType::Error] {
        let bytes = Packet::new(h, Vec::new()).wrap_packet();
        match proto.handle_incoming(&bytes) {
            WireAction::ReplyOrDisconnect(p) => {
                assert_eq!(p.header.header_type, HeaderType::InvalidHeader);
            }
            other => panic!("expected a reply-or-disconnect, got {other:?}"),
        }
    }
}

#[test]
fn handshake_routes_connect_and_reconnect_payloads() {
    let proto = fresh_protocol();
    let bytes = Packet::new(HeaderType::Connect, vec![1, 2]).wrap_packet();
    match proto.handle_handshake(&bytes) {
        HandshakeAction::Connect(payload) => assert_eq!(payload, vec![1, 2]),
        other => panic!("expected a connect action, got {other:?}"),
    }
    let bytes = Packet::new(HeaderType::Reconnect, vec![3]).wrap_packet();
    match proto.handle_handshake(&bytes) {
        HandshakeAction::Reconnect(payload) => assert_eq!(payload, vec![3]),
        other => panic!("expected a reconnect action, got {other:?}"),
    }
}

#[test]
fn handshake_rejects_checksum_mismatch_and_foreign_headers() {
    let proto = fresh_protocol();
    assert!(matches!(proto.handle_handshake(&[0, 1]), HandshakeAction::Ignore));
    let mut bytes = Packet::new(HeaderType::Connect, vec![1]).wrap_packet();
    bytes[9] ^= 0x01;
    match proto.handle_handshake(&bytes) {
        HandshakeAction::RejectAndClose(p) => {
            assert_eq!(p.header.header_type, HeaderType::InvalidChecksum);
        }
        other => panic!("expected a reject, got {other:?}"),
    }
    let bytes = Packet::new(HeaderType::PlayCard, vec![1]).wrap_packet();
    match proto.handle_handshake(&bytes) {
        HandshakeAction::RejectAndClose(p) => {
            assert_eq!(p.header.header_type, HeaderType::InvalidHeader);
        }
        other => panic!("expected a reject, got {other:?}"),
    }
}

#[test]
fn unparsed_play_card_request_keeps_the_connection_open() {
    let r = Protocol::handle_play_card_request(Err(String::from("garbage")));
    match r {
        PlayCardAction::Reply(p) => {
            assert_eq!(p.header.header_type, HeaderType::InvalidPacketPayload);
        }
        other => panic!("expected a reply, got {other:?}"),
    }
    // the connection stays usable: a later valid packet is still routed
    let proto = fresh_protocol();
    let bytes = Packet::new(HeaderType::PlayCard, vec![1]).wrap_packet();
    assert!(matches!(proto.handle_incoming(&bytes), WireAction::PlayCard(_)));
}

#[test]
fn parsed_play_card_request_is_executed() {
    let request = PlayCardRequest {
        player_id: String::from("alice"),
        card_id: String::from("c9"),
    };
    match Protocol::handle_play_card_request(Ok(request)) {
        PlayCardAction::Execute(req) => {
            assert_eq!(req.player_id, "alice");
            assert_eq!(req.card_id, "c9");
        }
        other => panic!("expected an execute, got {other:?}"),
    }
}

#[test]
fn send_packet_stops_at_the_first_success() {
    let (attempts, r) = Protocol::send_packet(&[true, false, false]);
    assert_eq!(attempts, 1);
    assert!(r.is_ok());
    let (attempts, r) = Protocol::send_packet(&[false, true, false]);
    assert_eq!(attempts, 2);
    assert!(r.is_ok());
    let (attempts, r) = Protocol::send_packet(&[false, false, true]);
    assert_eq!(attempts, 3);
    assert!(r.is_ok());
}

#[test]
fn send_packet_makes_exactly_three_attempts_when_every_write_fails() {
    let (attempts, r) = Protocol::send_packet(&[false, false, false]);
    assert_eq!(attempts, SEND_ATTEMPT_LIMIT);
    assert!(matches!(r, Err(NetworkError::PackageWriteError(_))));
    // a success that would only come after the budget is never reached
    let (attempts, r) = Protocol::send_packet(&[false, false, false, true]);
    assert_eq!(attempts, SEND_ATTEMPT_LIMIT);
    assert!(r.is_err());
}

#[test]
fn connect_promotes_the_temporary_handle_into_the_registry() {
    let mut proto = fresh_protocol();
    connect(&mut proto, "alice", "127.0.0.1:5001");
    assert_eq!(proto.server_instance.players.len(), 1);
    let c = &proto.server_instance.players[0];
    assert_eq!(c.id, "alice");
    assert_eq!(c.addr, "127.0.0.1:5001");
    assert!(c.connected);
    assert!(c.missed_packets.is_empty());
    assert_eq!(c.player.username, "name");
}

#[test]
fn connect_with_rejected_token_never_promotes() {
    let mut proto = fresh_protocol();
    let temp = TemporaryClient::new(String::from("127.0.0.1:5002"));
    let r = proto.handle_connect(
        temp,
        connect_request("alice"),
        ProfileFetch::Response { status: 401, profile: Err(String::new()) },
        good_deck(),
    );
    match r {
        Err((returned, PlayerConnectionError::UnauthorizedPlayerError)) => {
            assert_eq!(returned.addr, "127.0.0.1:5002");
        }
        other => panic!("expected an unauthorized error, got {other:?}"),
    }
    assert!(proto.server_instance.players.is_empty());
}

#[test]
fn second_connect_for_the_same_player_id_loses() {
    let mut proto = fresh_protocol();
    connect(&mut proto, "alice", "127.0.0.1:5003");
    let temp = TemporaryClient::new(String::from("127.0.0.1:5004"));
    let r = proto.handle_connect(temp, connect_request("alice"), good_profile("alice"), good_deck());
    match r {
        Err((returned, PlayerConnectionError::InternalError(_))) => {
            assert_eq!(returned.addr, "127.0.0.1:5004");
        }
        other => panic!("expected an internal error, got {other:?}"),
    }
    // the winner's live record is untouched
    assert_eq!(proto.server_instance.players.len(), 1);
    let c = &proto.server_instance.players[0];
    assert_eq!(c.addr, "127.0.0.1:5003");
    assert!(c.connected);
}

#[test]
fn reconnect_of_an_unknown_player_fails() {
    let mut proto = fresh_protocol();
    let temp = TemporaryClient::new(String::from("127.0.0.1:5005"));
    let r = proto.handle_reconnect(temp, reconnect_request("ghost"), good_profile("ghost"));
    assert!(matches!(r, Err((_, PlayerConnectionError::PlayerNotConnected))));
}

#[test]
fn reconnect_with_mismatched_profile_alters_no_registry_entry() {
    let mut proto = fresh_protocol();
    connect(&mut proto, "alice", "127.0.0.1:5006");
    Protocol::disconnect(&mut proto.server_instance.players[0]);
    let temp = TemporaryClient::new(String::from("127.0.0.1:5007"));
    let r = proto.handle_reconnect(temp, reconnect_request("alice"), good_profile("mallory"));
    assert!(matches!(r, Err((_, PlayerConnectionError::PlayerDoesNotMatch))));
    let c = &proto.server_instance.players[0];
    assert_eq!(c.addr, "127.0.0.1:5006");
    assert!(!c.connected);
}

#[test]
fn reconnect_replays_missed_packets_in_order_before_new_traffic() {
    let mut proto = fresh_protocol();
    connect(&mut proto, "alice", "127.0.0.1:5008");
    Protocol::disconnect(&mut proto.server_instance.players[0]);

    // while alice is away the broadcaster queues three state updates
    for k in 0..3u8 {
        let update = Packet::new(HeaderType::GameStateUpdate, vec![k]);
        let live = proto.server_instance.broadcast(&update);
        assert!(live.is_empty());
    }

    let temp = TemporaryClient::new(String::from("127.0.0.1:5009"));
    let delivered = proto
        .handle_reconnect(temp, reconnect_request("alice"), good_profile("alice"))
        .expect("reconnect must succeed");
    assert_eq!(delivered.len(), 3);
    for (k, p) in delivered.iter().enumerate() {
        assert_eq!(p.header.header_type, HeaderType::GameStateUpdate);
        assert_eq!(p.payload, vec![k as u8]);
    }
    let c = &proto.server_instance.players[0];
    assert!(c.connected);
    assert_eq!(c.addr, "127.0.0.1:5009");
    assert!(c.missed_packets.is_empty());
}

#[test]
fn disconnect_retains_the_record_and_its_backlog() {
    let mut proto = fresh_protocol();
    connect(&mut proto, "alice", "127.0.0.1:5010");
    {
        let c = &mut proto.server_instance.players[0];
        c.queue_missed_packet(Packet::new(HeaderType::GameStateUpdate, vec![1]));
        Protocol::disconnect(c);
    }
    assert_eq!(proto.server_instance.players.len(), 1);
    let c = &proto.server_instance.players[0];
    assert!(!c.connected);
    assert_eq!(c.missed_packets.len(), 1);
}

#[test]
fn send_missed_packets_drains_the_backlog_fifo() {
    let mut proto = fresh_protocol();
    connect(&mut proto, "alice", "127.0.0.1:5011");
    let c = &mut proto.server_instance.players[0];
    c.queue_missed_packet(Packet::new(HeaderType::GameStateUpdate, vec![1]));
    c.queue_missed_packet(Packet::new(HeaderType::GameStateUpdate, vec![2]));
    let drained = Protocol::send_missed_packets(c);
    assert_eq!(drained.len(), 2);
    assert_eq!(drained[0].payload, vec![1]);
    assert_eq!(drained[1].payload, vec![2]);
    assert!(c.missed_packets.is_empty());
}

#[test]
fn unparsed_connect_request_reports_its_reason() {
    let mut proto = fresh_protocol();
    let temp = TemporaryClient::new(String::from("127.0.0.1:5012"));
    let r = proto.handle_connect(
        temp,
        Err(String::from("not cbor")),
        good_profile("alice"),
        good_deck(),
    );
    match r {
        Err((_, PlayerConnectionError::InvalidPlayerPayload(reason))) => {
            assert_eq!(reason, "not cbor");
        }
        other => panic!("expected an invalid payload, got {other:?}"),
    }
    assert!(proto.server_instance.players.is_empty());
}
