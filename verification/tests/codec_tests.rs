use crypto_box::aead::generic_array::GenericArray;
use crypto_box::aead::Aead;
use crypto_box::{ChaChaBox, PublicKey, SecretKey};
use globed_game_server::codec::{decode, decode_opened, encode, frame_sealed, CodecError};
use globed_game_server::crypto::{CryptoSession, MAX_SEALED_BODY, MAX_SEALED_LEN, TAG_SIZE};
use globed_game_server::packets::{
    match_packet, EncodedAudioFrame, Packet, PacketKind, PlayerAccountData, PlayerIconData,
    VoiceBroadcastPacket, PACKET_HEADER_LEN,
};

const SERVER_SECRET: [u8; 32] = [7u8; 32];
const CLIENT_SECRET: [u8; 32] = [9u8; 32];
const NONCE: [u8; 24] = [3u8; 24];

fn client_public() -> [u8; 32] {
    SecretKey::from(CLIENT_SECRET).public_key().to_bytes()
}

fn server_public() -> [u8; 32] {
    SecretKey::from(SERVER_SECRET).public_key().to_bytes()
}

fn server_session() -> CryptoSession {
    CryptoSession::establish(client_public(), SERVER_SECRET)
}

fn icons(seed: i32) -> PlayerIconData {
    PlayerIconData {
        cube: seed,
        ship: seed + 1,
        ball: seed + 2,
        ufo: seed + 3,
        wave: seed + 4,
        robot: seed + 5,
        spider: seed + 6,
        color1: seed + 7,
        color2: seed + 8,
    }
}

fn round_trip_clear(packet: Packet) {
    let bytes = encode(&packet, None, &NONCE).expect("a cleartext packet encodes without a session");
    assert_eq!(bytes[2], 0);
    assert_eq!(decode(&bytes, None), Ok(packet.clone()));
    let session = server_session();
    assert_eq!(decode(&bytes, Some(&session)), Ok(packet));
}

fn round_trip_sealed(packet: Packet) {
    let session = server_session();
    let bytes = encode(&packet, Some(&session), &NONCE).expect("a sealed packet encodes with a session");
    assert_eq!(bytes[2], 1);
    assert_eq!(&bytes[3..27], &NONCE[..]);
    assert_eq!(decode(&bytes, Some(&session)), Ok(packet));
}

#[test]
fn header_length_is_three() {
    assert_eq!(PACKET_HEADER_LEN, 3);
}

#[test]
fn ping_has_exact_bytes() {
    let bytes = encode(&Packet::Ping { id: 0x0102_0304 }, None, &NONCE).unwrap();
    assert_eq!(bytes, vec![0x27, 0x10, 0x00, 0x01, 0x02, 0x03, 0x04]);
}

#[test]
fn handshake_body_is_version_then_key() {
    let mut key = [0u8; 32];
    for (i, b) in key.iter_mut().enumerate() {
        *b = i as u8;
    }
    let bytes = encode(&Packet::CryptoHandshakeStart { protocol: 0x0102, key }, None, &NONCE).unwrap();
    assert_eq!(bytes.len(), 3 + 2 + 32);
    assert_eq!(&bytes[..5], &[0x27, 0x11, 0x00, 0x01, 0x02]);
    assert_eq!(&bytes[5..], &key[..]);
}

#[test]
fn ping_response_has_exact_bytes() {
    let bytes = encode(&Packet::PingResponse { id: 1, player_count: 0xAABB_CCDD }, None, &NONCE).unwrap();
    assert_eq!(bytes, vec![0x4E, 0x20, 0x00, 0, 0, 0, 1, 0xAA, 0xBB, 0xCC, 0xDD]);
}

#[test]
fn text_is_length_prefixed_utf8() {
    let packet = Packet::ServerDisconnect { message: "h\u{e9}".to_string() };
    let bytes = encode(&packet, None, &NONCE).unwrap();
    assert_eq!(bytes, vec![0x4E, 0x23, 0x00, 0, 0, 0, 3, b'h', 0xC3, 0xA9]);
}

#[test]
fn negative_numbers_are_twos_complement() {
    let mut selection = icons(1);
    selection.cube = -1;
    selection.color2 = i32::MIN;
    let bytes = encode(&Packet::SyncIcons { icons: selection }, None, &NONCE).unwrap();
    assert_eq!(bytes.len(), 3 + 36);
    assert_eq!(&bytes[3..7], &[0xFF, 0xFF, 0xFF, 0xFF]);
    assert_eq!(&bytes[7..11], &[0, 0, 0, 2]);
    assert_eq!(&bytes[35..39], &[0x80, 0, 0, 0]);
    assert_eq!(decode(&bytes, None), Ok(Packet::SyncIcons { icons: selection }));
}

#[test]
fn id_list_has_count_then_items() {
    let bytes = encode(&Packet::RequestProfiles { ids: vec![5, -2] }, None, &NONCE).unwrap();
    assert_eq!(
        bytes,
        vec![0x2A, 0xF9, 0x00, 0, 0, 0, 2, 0, 0, 0, 5, 0xFF, 0xFF, 0xFF, 0xFE]
    );
}

#[test]
fn cleartext_packets_round_trip() {
    round_trip_clear(Packet::Ping { id: 0 });
    round_trip_clear(Packet::Ping { id: u32::MAX });
    round_trip_clear(Packet::CryptoHandshakeStart { protocol: 1, key: client_public() });
    round_trip_clear(Packet::CryptoHandshakeStart { protocol: u16::MAX, key: [0xFF; 32] });
    round_trip_clear(Packet::Keepalive);
    round_trip_clear(Packet::Disconnect);
    round_trip_clear(Packet::SyncIcons { icons: icons(-4) });
    round_trip_clear(Packet::RequestProfiles { ids: vec![] });
    round_trip_clear(Packet::RequestProfiles { ids: vec![1, 2, 3, i32::MIN, i32::MAX] });
    round_trip_clear(Packet::PingResponse { id: 77, player_count: 12 });
    round_trip_clear(Packet::CryptoHandshakeResponse { key: server_public() });
    round_trip_clear(Packet::KeepaliveResponse { player_count: 3 });
    round_trip_clear(Packet::ServerDisconnect { message: String::new() });
    round_trip_clear(Packet::ServerDisconnect { message: "not logged in".to_string() });
    round_trip_clear(Packet::LoggedIn);
    round_trip_clear(Packet::LoginFailed { message: "authentication failed: \u{2603}".to_string() });
    round_trip_clear(Packet::PlayerProfiles { profiles: vec![] });
    round_trip_clear(Packet::PlayerProfiles {
        profiles: vec![
            PlayerAccountData { account_id: 5, name: "Alice".to_string(), icons: icons(1) },
            PlayerAccountData { account_id: -6, name: String::new(), icons: icons(100) },
        ],
    });
}

#[test]
fn sealed_packets_round_trip() {
    round_trip_sealed(Packet::Login { account_id: 5, token: "abc".to_string() });
    round_trip_sealed(Packet::Voice { data: EncodedAudioFrame { opus_frames: vec![] } });
    round_trip_sealed(Packet::Voice {
        data: EncodedAudioFrame { opus_frames: vec![vec![1, 2, 3], vec![], vec![9; 400]] },
    });
    round_trip_sealed(Packet::VoiceBroadcast(VoiceBroadcastPacket {
        player_id: 42,
        data: EncodedAudioFrame { opus_frames: vec![vec![0xAB; 10]] },
    }));
}

#[test]
fn sealed_envelope_is_header_nonce_and_sealed_body() {
    let session = server_session();
    let packet = Packet::Login { account_id: 5, token: "abc".to_string() };
    let bytes = encode(&packet, Some(&session), &NONCE).unwrap();
    // body: 4 bytes of account id, 4 of length, 3 of text; the tag adds 16
    assert_eq!(bytes.len(), 3 + 24 + 11 + 16);
    assert_eq!(&bytes[..3], &[0x27, 0x13, 0x01]);
    // the body does not travel in the clear
    assert_ne!(&bytes[27..38], &[0, 0, 0, 5, 0, 0, 0, 3, b'a', b'b', b'c']);
}

#[test]
fn peer_opens_what_the_server_sealed() {
    let session = server_session();
    let packet = Packet::Login { account_id: 5, token: "abc".to_string() };
    let bytes = encode(&packet, Some(&session), &NONCE).unwrap();
    let peer_box = ChaChaBox::new(&PublicKey::from(server_public()), &SecretKey::from(CLIENT_SECRET));
    let plain = peer_box
        .decrypt(GenericArray::from_slice(&bytes[3..27]), &bytes[27..])
        .expect("the peer's box opens the server's packet");
    assert_eq!(plain, vec![0, 0, 0, 5, 0, 0, 0, 3, b'a', b'b', b'c']);
}

#[test]
fn server_opens_what_the_peer_sealed() {
    let peer_box = ChaChaBox::new(&PublicKey::from(server_public()), &SecretKey::from(CLIENT_SECRET));
    let body = vec![0xFF, 0xFF, 0xFF, 0xFB, 0, 0, 0, 2, b'o', b'k'];
    let sealed = peer_box.encrypt(GenericArray::from_slice(&NONCE[..]), &body[..]).unwrap();
    let mut message = vec![0x27, 0x13, 0x01];
    message.extend_from_slice(&NONCE);
    message.extend_from_slice(&sealed);
    let session = server_session();
    assert_eq!(
        decode(&message, Some(&session)),
        Ok(Packet::Login { account_id: -5, token: "ok".to_string() })
    );
}

#[test]
fn another_session_fails_to_open() {
    let session = server_session();
    let packet = Packet::Login { account_id: 5, token: "abc".to_string() };
    let bytes = encode(&packet, Some(&session), &NONCE).unwrap();
    let other = CryptoSession::establish(client_public(), [8u8; 32]);
    assert_eq!(decode(&bytes, Some(&other)), Err(CodecError::DecryptionFailed));
    let stranger = CryptoSession::establish([5u8; 32], SERVER_SECRET);
    assert_eq!(decode(&bytes, Some(&stranger)), Err(CodecError::DecryptionFailed));
}

#[test]
fn tampered_bytes_fail_to_open() {
    let session = server_session();
    let packet = Packet::Voice { data: EncodedAudioFrame { opus_frames: vec![vec![1, 2, 3]] } };
    let bytes = encode(&packet, Some(&session), &NONCE).unwrap();
    for at in [3usize, 27, bytes.len() - 1] {
        let mut bad = bytes.clone();
        bad[at] ^= 1;
        assert_eq!(decode(&bad, Some(&session)), Err(CodecError::DecryptionFailed));
    }
}

#[test]
fn short_sealed_part_fails_to_open() {
    let session = server_session();
    for extra in 0usize..40 {
        let mut message = vec![0x27, 0x13, 0x01];
        message.extend(std::iter::repeat(0u8).take(extra));
        assert_eq!(decode(&message, Some(&session)), Err(CodecError::DecryptionFailed));
    }
}

#[test]
fn short_header_is_rejected() {
    assert_eq!(decode(&[], None), Err(CodecError::ShortHeader));
    assert_eq!(decode(&[0x27], None), Err(CodecError::ShortHeader));
    assert_eq!(decode(&[0x27, 0x10], None), Err(CodecError::ShortHeader));
}

#[test]
fn unknown_packet_id_is_rejected() {
    assert_eq!(decode(&[0, 0, 0], None), Err(CodecError::UnknownPacketId { id: 0 }));
    assert_eq!(
        decode(&[0xFF, 0xFE, 1, 2, 3], None),
        Err(CodecError::UnknownPacketId { id: 0xFFFE })
    );
}

#[test]
fn cleartext_for_a_sealed_type_is_rejected() {
    let message = vec![0x27, 0x13, 0x00, 0, 0, 0, 5, 0, 0, 0, 0];
    assert_eq!(decode(&message, None), Err(CodecError::CleartextViolation));
    let session = server_session();
    assert_eq!(decode(&message, Some(&session)), Err(CodecError::CleartextViolation));
}

#[test]
fn malformed_bodies_are_rejected() {
    // a ping with half an id
    assert_eq!(decode(&[0x27, 0x10, 0, 1, 2], None), Err(CodecError::MalformedBody));
    // a handshake with a short key
    assert_eq!(decode(&[0x27, 0x11, 0, 0, 1, 9, 9, 9], None), Err(CodecError::MalformedBody));
    // a text that claims more bytes than there are
    assert_eq!(
        decode(&[0x4E, 0x23, 0, 0, 0, 0, 5, b'a'], None),
        Err(CodecError::MalformedBody)
    );
    // a text that is no UTF-8
    assert_eq!(
        decode(&[0x4E, 0x23, 0, 0, 0, 0, 2, 0xC3, 0x28], None),
        Err(CodecError::MalformedBody)
    );
    // a list that claims more items than there are
    assert_eq!(
        decode(&[0x2A, 0xF9, 0, 0xFF, 0xFF, 0xFF, 0xFF, 0, 0, 0, 1], None),
        Err(CodecError::MalformedBody)
    );
    // icons cut short
    assert_eq!(decode(&[0x2A, 0xF8, 0, 0, 0, 0, 1], None), Err(CodecError::MalformedBody));
}

#[test]
fn sealed_message_without_session_is_rejected() {
    let session = server_session();
    let packet = Packet::Login { account_id: 5, token: "abc".to_string() };
    let bytes = encode(&packet, Some(&session), &NONCE).unwrap();
    assert_eq!(decode(&bytes, None), Err(CodecError::NoSession));
}

#[test]
fn sealed_packet_without_session_is_not_encoded() {
    let packet = Packet::Login { account_id: 5, token: "abc".to_string() };
    assert_eq!(encode(&packet, None, &NONCE), Err(CodecError::NoSession));
    let voice = Packet::Voice { data: EncodedAudioFrame { opus_frames: vec![] } };
    assert_eq!(encode(&voice, None, &NONCE), Err(CodecError::NoSession));
}

#[test]
fn any_flag_but_zero_means_sealed() {
    let session = server_session();
    let peer_box = ChaChaBox::new(&PublicKey::from(server_public()), &SecretKey::from(CLIENT_SECRET));
    let sealed = peer_box.encrypt(GenericArray::from_slice(&NONCE[..]), &[0u8, 0, 0, 9][..]).unwrap();
    // a ping need not be sealed, and may be
    let mut message = vec![0x27, 0x10, 0x02];
    message.extend_from_slice(&NONCE);
    message.extend_from_slice(&sealed);
    assert_eq!(decode(&message, Some(&session)), Ok(Packet::Ping { id: 9 }));
    assert_eq!(decode(&message, None), Err(CodecError::NoSession));
}

#[test]
fn sealed_body_of_the_wrong_shape_is_malformed() {
    let session = server_session();
    let peer_box = ChaChaBox::new(&PublicKey::from(server_public()), &SecretKey::from(CLIENT_SECRET));
    let sealed = peer_box.encrypt(GenericArray::from_slice(&NONCE[..]), &[0u8, 0][..]).unwrap();
    let mut message = vec![0x27, 0x13, 0x01];
    message.extend_from_slice(&NONCE);
    message.extend_from_slice(&sealed);
    assert_eq!(decode(&message, Some(&session)), Err(CodecError::MalformedBody));
}

#[test]
fn bytes_behind_the_body_are_ignored() {
    assert_eq!(
        decode(&[0x27, 0x10, 0, 0, 0, 0, 7, 0xEE, 0xEE], None),
        Ok(Packet::Ping { id: 7 })
    );
    assert_eq!(decode(&[0x27, 0x12, 0, 1, 2, 3], None), Ok(Packet::Keepalive));
}

#[test]
fn decode_opened_tells_failure_from_malformation() {
    assert_eq!(decode_opened(PacketKind::Login, None), Err(CodecError::DecryptionFailed));
    assert_eq!(decode_opened(PacketKind::Login, Some(vec![1])), Err(CodecError::MalformedBody));
    assert_eq!(
        decode_opened(PacketKind::Login, Some(vec![0, 0, 0, 5, 0, 0, 0, 1, b'x'])),
        Ok(Packet::Login { account_id: 5, token: "x".to_string() })
    );
}

#[test]
fn frame_sealed_builds_the_envelope() {
    assert_eq!(frame_sealed(PacketKind::Voice, &NONCE, None), Err(CodecError::EncryptionFailed));
    let mut expected = vec![0x2B, 0x02, 0x01];
    expected.extend_from_slice(&NONCE);
    expected.extend_from_slice(&[1, 2, 3]);
    assert_eq!(frame_sealed(PacketKind::Voice, &NONCE, Some(vec![1, 2, 3])), Ok(expected));
}

#[test]
fn packet_ids_resolve_to_their_types() {
    let kinds = [
        (10000u16, PacketKind::Ping, false),
        (10001, PacketKind::CryptoHandshakeStart, false),
        (10002, PacketKind::Keepalive, false),
        (10003, PacketKind::Login, true),
        (10004, PacketKind::Disconnect, false),
        (11000, PacketKind::SyncIcons, false),
        (11001, PacketKind::RequestProfiles, false),
        (11010, PacketKind::Voice, true),
        (20000, PacketKind::PingResponse, false),
        (20001, PacketKind::CryptoHandshakeResponse, false),
        (20002, PacketKind::KeepaliveResponse, false),
        (20003, PacketKind::ServerDisconnect, false),
        (20004, PacketKind::LoggedIn, false),
        (20005, PacketKind::LoginFailed, false),
        (21000, PacketKind::PlayerProfiles, false),
        (21010, PacketKind::VoiceBroadcast, true),
    ];
    for (id, kind, sealed) in kinds {
        assert_eq!(match_packet(id), Some(kind));
        assert_eq!(kind.packet_id(), id);
        assert_eq!(kind.is_encrypted(), sealed);
    }
    assert_eq!(match_packet(10005), None);
    assert_eq!(match_packet(0), None);
    assert!(PacketKind::Keepalive.needs_auth());
    assert!(PacketKind::SyncIcons.needs_auth());
    assert!(PacketKind::RequestProfiles.needs_auth());
    assert!(PacketKind::Voice.needs_auth());
    assert!(!PacketKind::Ping.needs_auth());
    assert!(!PacketKind::Login.needs_auth());
    assert!(!PacketKind::CryptoHandshakeStart.needs_auth());
    assert!(!PacketKind::Disconnect.needs_auth());
}

#[test]
fn packets_know_their_id_and_flag() {
    let login = Packet::Login { account_id: 1, token: String::new() };
    assert_eq!(login.get_packet_id(), 10003);
    assert!(login.get_encrypted());
    assert_eq!(login.kind(), PacketKind::Login);
    assert_eq!(Packet::LoggedIn.get_packet_id(), 20004);
    assert!(!Packet::LoggedIn.get_encrypted());
}

#[test]
fn default_account_data_is_unset() {
    let data = PlayerAccountData::default();
    assert_eq!(data.account_id, 0);
    assert_eq!(data.name, "");
    assert_eq!(data.icons, PlayerIconData::default());
    assert_eq!(data.icons.cube, 1);
    assert_eq!(data.icons.color1, 0);
}

#[test]
fn sealing_bounds() {
    assert_eq!(TAG_SIZE, 16);
    assert_eq!(MAX_SEALED_BODY, 0x7fff_ffef);
    assert_eq!(MAX_SEALED_LEN, MAX_SEALED_BODY + TAG_SIZE);
}

#[test]
fn session_seals_and_opens() {
    let session = server_session();
    for plain in [vec![], vec![0u8], vec![7u8; 1000]] {
        let sealed = session.seal(&NONCE, &plain).expect("a body within the bound is sealed");
        assert_eq!(sealed.len(), plain.len() + 16);
        if !plain.is_empty() {
            assert_ne!(&sealed[16..], &plain[..]);
        }
        assert_eq!(session.open(&NONCE, &sealed), Some(plain));
    }
}

#[test]
fn session_seals_as_the_cipher_does() {
    let session = server_session();
    let own_box = ChaChaBox::new(&PublicKey::from(client_public()), &SecretKey::from(SERVER_SECRET));
    let expected = own_box.encrypt(GenericArray::from_slice(&NONCE[..]), &b"voice"[..]).unwrap();
    assert_eq!(session.seal(&NONCE, b"voice"), Some(expected));
}

#[test]
fn session_refuses_what_it_did_not_seal() {
    let session = server_session();
    let sealed = session.seal(&NONCE, b"voice").unwrap();
    assert_eq!(session.open(&[4u8; 24], &sealed), None);
    assert_eq!(session.open(&NONCE, &sealed[..sealed.len() - 1]), None);
    assert_eq!(session.open(&NONCE, &sealed[..15]), None);
    assert_eq!(session.open(&NONCE, &[]), None);
    let mut bad = sealed.clone();
    bad[0] ^= 0x80;
    assert_eq!(session.open(&NONCE, &bad), None);
}

#[test]
fn encoded_length_is_body_and_envelope() {
    let session = server_session();
    let voice = Packet::Voice { data: EncodedAudioFrame { opus_frames: vec![vec![1; 100], vec![2; 50]] } };
    // body: a count of 4 bytes, then two frames with 4 bytes of length each
    let body = 4 + (4 + 100) + (4 + 50);
    assert_eq!(encode(&voice, Some(&session), &NONCE).unwrap().len(), body + 43);
    let ping = Packet::Ping { id: 1 };
    assert_eq!(encode(&ping, Some(&session), &NONCE).unwrap().len(), 4 + 3);
}
