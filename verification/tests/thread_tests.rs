use crypto_box::SecretKey;
use globed_game_server::codec::{decode, CodecError};
use globed_game_server::crypto::CryptoSession;
use globed_game_server::packets::{
    EncodedAudioFrame, Packet, PlayerIconData, VoiceBroadcastPacket,
};
use globed_game_server::server_thread::{
    GameServerThread, HandlerError, LoopStep, PeerAddress, QueueEvent, Request, Response,
    ServerContext, ServerThreadMessage, ThreadError, ThreadState, IDLE_TIMEOUT_SECS,
    PROTOCOL_VERSION, QUEUE_CAPACITY,
};

const SECRET: [u8; 32] = [7u8; 32];
const PEER_KEY: [u8; 32] = [0x42u8; 32];
const MILLI: u128 = 1_000_000;
const START: u128 = 1_700_000_000_000 * MILLI;

fn peer() -> PeerAddress {
    PeerAddress { ip: [192, 168, 0, 7], port: 50123 }
}

fn ctx_at(now: u128) -> ServerContext {
    ServerContext { player_count: 3, secret_key: SECRET, now, chat_blocked: false }
}

fn fresh() -> GameServerThread {
    GameServerThread::new(peer(), START)
}

fn logged_in(account_id: i32) -> GameServerThread {
    let mut thread = fresh();
    thread.complete_login(account_id, "status_ok:Alice");
    thread
}

fn voice(bytes: usize) -> Packet {
    Packet::Voice { data: EncodedAudioFrame { opus_frames: vec![vec![0x5A; bytes]] } }
}

fn disconnect_reply(message: &str) -> Response {
    Response {
        reply: Some(Packet::ServerDisconnect { message: message.to_string() }),
        request: Request::Nothing,
    }
}

#[test]
fn new_thread_is_running_and_unset() {
    let thread = fresh();
    assert_eq!(thread.state(), ThreadState::Running);
    assert!(!thread.authenticated());
    assert_eq!(thread.account_id(), 0);
    assert_eq!(thread.account_data().account_id, 0);
    assert_eq!(thread.account_data().name, "");
    assert!(thread.session().is_none());
    assert_eq!(thread.last_voice_packet(), START);
    assert_eq!(thread.peer(), peer());
}

#[test]
fn constants_of_the_loop() {
    assert_eq!(IDLE_TIMEOUT_SECS, 60);
    assert_eq!(QUEUE_CAPACITY, 8);
}

#[test]
fn ping_is_answered_with_id_and_player_count() {
    let mut thread = fresh();
    let out = thread.handle_packet(Packet::Ping { id: 99 }, &ctx_at(START));
    assert_eq!(
        out,
        Ok(Response {
            reply: Some(Packet::PingResponse { id: 99, player_count: 3 }),
            request: Request::Nothing,
        })
    );
    assert_eq!(thread.state(), ThreadState::Running);
}

#[test]
fn handshake_with_equal_version_establishes_session() {
    let mut thread = fresh();
    let out = thread.handle_packet(
        Packet::CryptoHandshakeStart { protocol: PROTOCOL_VERSION, key: PEER_KEY },
        &ctx_at(START),
    );
    let server_public = SecretKey::from(SECRET).public_key().to_bytes();
    assert_ne!(server_public, SECRET);
    assert_eq!(
        out,
        Ok(Response {
            reply: Some(Packet::CryptoHandshakeResponse { key: server_public }),
            request: Request::Nothing,
        })
    );
    let session = thread.session().expect("the handshake established a session");
    assert_eq!(session.peer_public_key, PEER_KEY);
    assert_eq!(session.server_secret_key, SECRET);
    assert_eq!(thread.state(), ThreadState::Running);
}

#[test]
fn second_handshake_is_rejected_and_keeps_the_first_session() {
    let mut thread = fresh();
    thread
        .handle_packet(
            Packet::CryptoHandshakeStart { protocol: PROTOCOL_VERSION, key: PEER_KEY },
            &ctx_at(START),
        )
        .unwrap();
    let out = thread.handle_packet(
        Packet::CryptoHandshakeStart { protocol: PROTOCOL_VERSION, key: [1u8; 32] },
        &ctx_at(START),
    );
    assert_eq!(out, Err(HandlerError::DuplicateHandshake));
    assert_eq!(thread.session().unwrap().peer_public_key, PEER_KEY);
    assert_eq!(thread.state(), ThreadState::Running);
}

#[test]
fn newer_peer_is_told_the_server_is_outdated() {
    let mut thread = fresh();
    let out = thread.handle_packet(
        Packet::CryptoHandshakeStart { protocol: 250, key: PEER_KEY },
        &ctx_at(START),
    );
    assert_eq!(
        out,
        Ok(disconnect_reply(
            "Outdated server! You are running protocol v250 while the server is still on v1."
        ))
    );
    assert_eq!(thread.state(), ThreadState::Terminating);
    assert!(thread.session().is_none());
}

#[test]
fn older_peer_is_told_the_client_is_outdated() {
    let mut thread = fresh();
    let out = thread.handle_packet(
        Packet::CryptoHandshakeStart { protocol: 0, key: PEER_KEY },
        &ctx_at(START),
    );
    assert_eq!(
        out,
        Ok(disconnect_reply(
            "Outdated client! Please update the mod in order to connect to the server. Client protocol version: v0, server: v1"
        ))
    );
    assert_eq!(thread.state(), ThreadState::Terminating);
    assert!(thread.session().is_none());
}

#[test]
fn mismatch_after_a_session_keeps_the_session() {
    let mut thread = fresh();
    thread
        .handle_packet(
            Packet::CryptoHandshakeStart { protocol: PROTOCOL_VERSION, key: PEER_KEY },
            &ctx_at(START),
        )
        .unwrap();
    let out = thread.handle_packet(
        Packet::CryptoHandshakeStart { protocol: 65535, key: [1u8; 32] },
        &ctx_at(START),
    );
    let reply = out.unwrap().reply.unwrap();
    match reply {
        Packet::ServerDisconnect { message } => {
            assert!(message.contains("65535"));
            assert!(message.contains("v1"));
        }
        other => panic!("unexpected reply {:?}", other),
    }
    assert_eq!(thread.state(), ThreadState::Terminating);
    assert_eq!(thread.session().unwrap().peer_public_key, PEER_KEY);
}

#[test]
fn protected_packets_before_login_get_a_disconnect_reply() {
    let protected = vec![
        Packet::Keepalive,
        Packet::SyncIcons { icons: PlayerIconData::default() },
        Packet::RequestProfiles { ids: vec![1, 2] },
        voice(10),
    ];
    for packet in protected {
        let mut thread = fresh();
        let out = thread.handle_packet(packet, &ctx_at(START + 5 * MILLI));
        assert_eq!(out, Ok(disconnect_reply("not logged in")));
        assert!(!thread.authenticated());
        assert_eq!(thread.account_id(), 0);
        assert_eq!(thread.state(), ThreadState::Running);
        assert_eq!(thread.last_voice_packet(), START);
    }
}

#[test]
fn login_asks_for_verification() {
    let mut thread = fresh();
    let out = thread.handle_packet(
        Packet::Login { account_id: 5, token: "abc".to_string() },
        &ctx_at(START),
    );
    assert_eq!(
        out,
        Ok(Response {
            reply: None,
            request: Request::VerifyLogin { account_id: 5, token: "abc".to_string() },
        })
    );
    assert!(!thread.authenticated());
    assert_eq!(thread.account_id(), 0);
}

#[test]
fn accepted_login_authenticates_and_stores_the_name() {
    let mut thread = fresh();
    let out = thread.complete_login(5, "status_ok:Alice");
    assert_eq!(out, Response { reply: Some(Packet::LoggedIn), request: Request::PlayerJoined });
    assert!(thread.authenticated());
    assert_eq!(thread.account_id(), 5);
    assert_eq!(thread.account_data().account_id, 5);
    assert_eq!(thread.account_data().name, "Alice");
    assert_eq!(thread.state(), ThreadState::Running);
}

#[test]
fn accepted_login_counts_exactly_one_player() {
    let mut thread = fresh();
    let mut player_count: u32 = 10;
    let first = thread.handle_packet(
        Packet::Login { account_id: 5, token: "abc".to_string() },
        &ctx_at(START),
    );
    if let Ok(Response { request: Request::PlayerJoined, .. }) = first {
        player_count += 1;
    }
    assert_eq!(player_count, 10);
    let out = thread.complete_login(5, "status_ok:Alice");
    if let Request::PlayerJoined = out.request {
        player_count += 1;
    }
    assert_eq!(player_count, 11);
}

#[test]
fn rejected_login_terminates_with_the_services_answer() {
    let mut thread = fresh();
    let out = thread.complete_login(5, "status_denied:bad token");
    assert_eq!(
        out,
        Response {
            reply: Some(Packet::LoginFailed {
                message: "authentication failed: status_denied:bad token".to_string(),
            }),
            request: Request::Nothing,
        }
    );
    assert_eq!(thread.state(), ThreadState::Terminating);
    assert!(!thread.authenticated());
    assert_eq!(thread.account_id(), 0);
    assert_eq!(thread.account_data().name, "");
}

#[test]
fn account_id_is_set_once() {
    let mut thread = logged_in(5);
    let out = thread.complete_login(9, "status_ok:Bob");
    assert_eq!(out.reply, Some(Packet::LoggedIn));
    assert_eq!(thread.account_id(), 5);
    assert_eq!(thread.account_data().account_id, 5);
    assert_eq!(thread.account_data().name, "Bob");
    assert!(thread.authenticated());
}

#[test]
fn rejected_login_after_login_keeps_the_login() {
    let mut thread = logged_in(5);
    thread.complete_login(5, "nope");
    assert!(thread.authenticated());
    assert_eq!(thread.account_id(), 5);
    assert_eq!(thread.state(), ThreadState::Terminating);
}

#[test]
fn keepalive_after_login_is_answered_with_player_count() {
    let mut thread = logged_in(5);
    let out = thread.handle_packet(Packet::Keepalive, &ctx_at(START));
    assert_eq!(
        out,
        Ok(Response {
            reply: Some(Packet::KeepaliveResponse { player_count: 3 }),
            request: Request::Nothing,
        })
    );
}

#[test]
fn sync_icons_overwrites_the_stored_icons() {
    let mut thread = logged_in(5);
    let icons = PlayerIconData {
        cube: 10,
        ship: 11,
        ball: 12,
        ufo: 13,
        wave: 14,
        robot: 15,
        spider: 16,
        color1: 17,
        color2: 18,
    };
    let out = thread.handle_packet(Packet::SyncIcons { icons }, &ctx_at(START));
    assert_eq!(out, Ok(Response { reply: None, request: Request::Nothing }));
    assert_eq!(thread.account_data().icons, icons);
    assert_eq!(thread.account_data().name, "Alice");
}

#[test]
fn request_profiles_is_passed_on() {
    let mut thread = logged_in(5);
    let out = thread.handle_packet(Packet::RequestProfiles { ids: vec![3, 4] }, &ctx_at(START));
    assert_eq!(
        out,
        Ok(Response { reply: None, request: Request::GatherProfiles { ids: vec![3, 4] } })
    );
}

#[test]
fn disconnect_sets_terminating_without_reply() {
    let mut thread = fresh();
    let out = thread.handle_packet(Packet::Disconnect, &ctx_at(START));
    assert_eq!(out, Ok(Response { reply: None, request: Request::Nothing }));
    assert_eq!(thread.state(), ThreadState::Terminating);
}

#[test]
fn voice_twenty_kilobytes_a_second_is_dropped() {
    let mut thread = logged_in(5);
    let first = thread.handle_packet(voice(2000), &ctx_at(START + 1000 * MILLI));
    assert!(matches!(first, Ok(Response { reply: None, request: Request::BroadcastVoice(_) })));
    let second = thread.handle_packet(voice(2000), &ctx_at(START + 1100 * MILLI));
    assert_eq!(second, Ok(Response { reply: None, request: Request::Nothing }));
    assert_eq!(thread.last_voice_packet(), START + 1100 * MILLI);
    assert_eq!(thread.state(), ThreadState::Running);
}

#[test]
fn voice_two_kilobytes_a_second_is_relayed() {
    let mut thread = logged_in(5);
    thread.handle_packet(voice(2000), &ctx_at(START + 1000 * MILLI)).unwrap();
    let second = thread.handle_packet(voice(2000), &ctx_at(START + 2000 * MILLI));
    assert_eq!(
        second,
        Ok(Response {
            reply: None,
            request: Request::BroadcastVoice(VoiceBroadcastPacket {
                player_id: 5,
                data: EncodedAudioFrame { opus_frames: vec![vec![0x5A; 2000]] },
            }),
        })
    );
    assert_eq!(thread.last_voice_packet(), START + 2000 * MILLI);
}

#[test]
fn voice_at_exactly_the_limit_is_relayed() {
    let mut thread = logged_in(5);
    let at = thread.handle_packet(voice(800), &ctx_at(START + 100 * MILLI));
    assert!(matches!(at, Ok(Response { request: Request::BroadcastVoice(_), .. })));
    let over = thread.handle_packet(voice(801), &ctx_at(START + 200 * MILLI));
    assert_eq!(over, Ok(Response { reply: None, request: Request::Nothing }));
}

#[test]
fn dropped_voice_still_moves_the_clock() {
    let mut thread = logged_in(5);
    // 100 ms after creation: too much, dropped
    thread.handle_packet(voice(2000), &ctx_at(START + 100 * MILLI)).unwrap();
    // 200 ms later 1600 bytes pass only if the dropped packet moved the clock
    let next = thread.handle_packet(voice(1601), &ctx_at(START + 300 * MILLI));
    assert_eq!(next, Ok(Response { reply: None, request: Request::Nothing }));
    let fits = thread.handle_packet(voice(1600), &ctx_at(START + 500 * MILLI));
    assert!(matches!(fits, Ok(Response { request: Request::BroadcastVoice(_), .. })));
}

#[test]
fn voice_counts_all_frames_and_whole_milliseconds() {
    let mut thread = logged_in(5);
    let frames = Packet::Voice {
        data: EncodedAudioFrame { opus_frames: vec![vec![1; 300], vec![], vec![2; 501]] },
    };
    // 100.999 ms count as 100: 801 bytes are one too many
    let out = thread.handle_packet(frames, &ctx_at(START + 100 * MILLI + 999_999));
    assert_eq!(out, Ok(Response { reply: None, request: Request::Nothing }));
}

#[test]
fn voice_with_no_time_elapsed_passes_only_when_empty() {
    let mut thread = logged_in(5);
    let empty = Packet::Voice { data: EncodedAudioFrame { opus_frames: vec![] } };
    let out = thread.handle_packet(empty, &ctx_at(START));
    assert!(matches!(out, Ok(Response { request: Request::BroadcastVoice(_), .. })));
    let one = thread.handle_packet(voice(1), &ctx_at(START));
    assert_eq!(one, Ok(Response { reply: None, request: Request::Nothing }));
}

#[test]
fn blocked_voice_is_dropped_and_leaves_the_clock() {
    let mut thread = logged_in(5);
    let mut ctx = ctx_at(START + 5000 * MILLI);
    ctx.chat_blocked = true;
    let out = thread.handle_packet(voice(10), &ctx);
    assert_eq!(out, Ok(Response { reply: None, request: Request::Nothing }));
    assert_eq!(thread.last_voice_packet(), START);
}

#[test]
fn voice_from_the_past_is_an_error() {
    let mut thread = logged_in(5);
    let out = thread.handle_packet(voice(10), &ctx_at(START - 1));
    assert_eq!(out, Err(HandlerError::ClockWentBackwards));
    assert_eq!(thread.last_voice_packet(), START);
}

#[test]
fn server_packets_have_no_handler() {
    let mut thread = logged_in(5);
    let out = thread.handle_packet(Packet::LoggedIn, &ctx_at(START));
    assert_eq!(out, Err(HandlerError::NoHandler { id: 20004 }));
    let out = thread.handle_packet(
        Packet::PingResponse { id: 1, player_count: 1 },
        &ctx_at(START),
    );
    assert_eq!(out, Err(HandlerError::NoHandler { id: 20000 }));
    assert_eq!(thread.state(), ThreadState::Running);
}

#[test]
fn message_with_bytes_is_decoded_and_handled() {
    let mut thread = fresh();
    let message = ServerThreadMessage::Packet(vec![0x27, 0x10, 0x00, 0, 0, 0, 8]);
    let out = thread.handle_message(message, &ctx_at(START));
    assert_eq!(
        out,
        Ok(Response {
            reply: Some(Packet::PingResponse { id: 8, player_count: 3 }),
            request: Request::Nothing,
        })
    );
}

#[test]
fn message_that_is_no_packet_is_an_error_and_changes_nothing() {
    let mut thread = logged_in(5);
    let out = thread.handle_message(ServerThreadMessage::Packet(vec![1]), &ctx_at(START));
    assert_eq!(out, Err(ThreadError::Parse(CodecError::ShortHeader)));
    let out = thread.handle_message(ServerThreadMessage::Packet(vec![0, 1, 0]), &ctx_at(START));
    assert_eq!(out, Err(ThreadError::Parse(CodecError::UnknownPacketId { id: 1 })));
    let out = thread.handle_message(
        ServerThreadMessage::Packet(vec![0x27, 0x13, 1, 0, 0]),
        &ctx_at(START),
    );
    assert_eq!(out, Err(ThreadError::Parse(CodecError::NoSession)));
    assert_eq!(thread.state(), ThreadState::Running);
    assert!(thread.authenticated());
    assert_eq!(thread.account_id(), 5);
}

#[test]
fn handler_errors_are_reported_as_such() {
    let mut thread = fresh();
    let out = thread.handle_message(
        ServerThreadMessage::Packet(vec![0x4E, 0x24, 0x00]),
        &ctx_at(START),
    );
    assert_eq!(out, Err(ThreadError::Handle(HandlerError::NoHandler { id: 20004 })));
}

#[test]
fn broadcast_message_becomes_the_reply() {
    let mut thread = fresh();
    let packet = VoiceBroadcastPacket {
        player_id: 77,
        data: EncodedAudioFrame { opus_frames: vec![vec![1, 2]] },
    };
    let out = thread.handle_message(
        ServerThreadMessage::BroadcastVoice(packet.clone()),
        &ctx_at(START),
    );
    assert_eq!(
        out,
        Ok(Response { reply: Some(Packet::VoiceBroadcast(packet)), request: Request::Nothing })
    );
    assert_eq!(thread.state(), ThreadState::Running);
}

#[test]
fn messages_are_handled_in_the_order_given() {
    let mut thread = fresh();
    let handshake = {
        let mut bytes = vec![0x27, 0x11, 0x00, 0x00, 0x01];
        bytes.extend_from_slice(&PEER_KEY);
        bytes
    };
    let a = thread.handle_message(ServerThreadMessage::Packet(handshake), &ctx_at(START));
    assert!(matches!(a, Ok(Response { reply: Some(Packet::CryptoHandshakeResponse { .. }), .. })));
    let b = thread.handle_message(
        ServerThreadMessage::Packet(vec![0x27, 0x10, 0x00, 0, 0, 0, 1]),
        &ctx_at(START),
    );
    assert!(matches!(b, Ok(Response { reply: Some(Packet::PingResponse { id: 1, .. }), .. })));
    let c = thread.handle_message(
        ServerThreadMessage::Packet(vec![0x27, 0x14, 0x00]),
        &ctx_at(START),
    );
    assert_eq!(c, Ok(Response { reply: None, request: Request::Nothing }));
    assert_eq!(thread.state(), ThreadState::Terminating);
    assert!(thread.session().is_some());
}

#[test]
fn serialize_and_parse_use_the_session() {
    let mut thread = fresh();
    let login = Packet::Login { account_id: 5, token: "abc".to_string() };
    assert_eq!(thread.serialize_packet(&login), Err(CodecError::NoSession));
    thread
        .handle_packet(
            Packet::CryptoHandshakeStart { protocol: PROTOCOL_VERSION, key: PEER_KEY },
            &ctx_at(START),
        )
        .unwrap();
    let bytes = thread.serialize_packet(&login).unwrap();
    assert_eq!(bytes.len(), 3 + 24 + 11 + 16);
    assert_eq!(thread.parse_packet(&bytes), Ok(login.clone()));
    let session = CryptoSession::establish(PEER_KEY, SECRET);
    assert_eq!(decode(&bytes, Some(&session)), Ok(login));
}

#[test]
fn every_sealed_packet_gets_its_own_nonce() {
    let mut thread = fresh();
    thread
        .handle_packet(
            Packet::CryptoHandshakeStart { protocol: PROTOCOL_VERSION, key: PEER_KEY },
            &ctx_at(START),
        )
        .unwrap();
    let login = Packet::Login { account_id: 5, token: "abc".to_string() };
    let first = thread.serialize_packet(&login).unwrap();
    let second = thread.serialize_packet(&login).unwrap();
    assert_ne!(&first[3..27], &second[3..27]);
    assert_ne!(first, second);
}

#[test]
fn cleartext_reply_serializes_without_session() {
    let thread = fresh();
    let bytes = thread.serialize_packet(&Packet::LoggedIn).unwrap();
    assert_eq!(bytes, vec![0x4E, 0x24, 0x00]);
}

#[test]
fn terminate_is_seen_at_the_next_step() {
    let mut thread = fresh();
    assert_eq!(thread.next_step(), LoopStep::Wait { timeout_secs: 60 });
    assert_eq!(thread.state(), ThreadState::Running);
    thread.terminate();
    assert_eq!(thread.state(), ThreadState::Terminating);
    thread.terminate();
    assert_eq!(thread.state(), ThreadState::Terminating);
    assert_eq!(thread.next_step(), LoopStep::Exit);
    assert_eq!(thread.state(), ThreadState::Terminated);
    thread.terminate();
    assert_eq!(thread.state(), ThreadState::Terminated);
    assert_eq!(thread.next_step(), LoopStep::Exit);
}

#[test]
fn message_after_terminate_is_still_handled() {
    let mut thread = fresh();
    thread.terminate();
    let out = thread.handle_event(
        QueueEvent::Message(ServerThreadMessage::Packet(vec![0x27, 0x10, 0x00, 0, 0, 0, 2])),
        &ctx_at(START),
    );
    assert!(matches!(out, Ok(Response { reply: Some(Packet::PingResponse { id: 2, .. }), .. })));
    assert_eq!(thread.state(), ThreadState::Terminating);
}

#[test]
fn idle_timeout_terminates_the_thread() {
    let mut thread = logged_in(5);
    assert_eq!(thread.next_step(), LoopStep::Wait { timeout_secs: IDLE_TIMEOUT_SECS });
    let out = thread.handle_event(QueueEvent::TimedOut, &ctx_at(START + 60_000 * MILLI));
    assert_eq!(out, Ok(Response { reply: None, request: Request::Nothing }));
    assert_eq!(thread.state(), ThreadState::Terminated);
    assert_eq!(thread.next_step(), LoopStep::Exit);
    assert!(thread.authenticated());
}

#[test]
fn closed_queue_terminates_the_thread() {
    let mut thread = fresh();
    let out = thread.handle_event(QueueEvent::Closed, &ctx_at(START));
    assert_eq!(out, Ok(Response { reply: None, request: Request::Nothing }));
    assert_eq!(thread.state(), ThreadState::Terminated);
}

#[test]
fn error_in_a_message_does_not_stop_the_loop() {
    let mut thread = fresh();
    let out = thread.handle_event(
        QueueEvent::Message(ServerThreadMessage::Packet(vec![])),
        &ctx_at(START),
    );
    assert_eq!(out, Err(ThreadError::Parse(CodecError::ShortHeader)));
    assert_eq!(thread.next_step(), LoopStep::Wait { timeout_secs: 60 });
}

#[test]
fn bytes_sealed_for_another_peer_do_not_open() {
    let mut first = fresh();
    first
        .handle_packet(
            Packet::CryptoHandshakeStart { protocol: PROTOCOL_VERSION, key: PEER_KEY },
            &ctx_at(START),
        )
        .unwrap();
    let mut second = fresh();
    second
        .handle_packet(
            Packet::CryptoHandshakeStart { protocol: PROTOCOL_VERSION, key: [0x43u8; 32] },
            &ctx_at(START),
        )
        .unwrap();
    let login = Packet::Login { account_id: 5, token: "abc".to_string() };
    let bytes = first.serialize_packet(&login).unwrap();
    assert_eq!(first.parse_packet(&bytes), Ok(login));
    assert_eq!(second.parse_packet(&bytes), Err(CodecError::DecryptionFailed));
    let out = second.handle_message(ServerThreadMessage::Packet(bytes), &ctx_at(START));
    assert_eq!(out, Err(ThreadError::Parse(CodecError::DecryptionFailed)));
    assert_eq!(second.session().unwrap().peer_public_key, [0x43u8; 32]);
    assert_eq!(second.session().unwrap().server_secret_key, SECRET);
    assert_eq!(second.state(), ThreadState::Running);
    assert!(!second.authenticated());
    assert_eq!(second.account_id(), 0);
}
