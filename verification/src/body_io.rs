//! Executable writers and readers of packet bodies, over the byte cursors of
//! the `bytebuffer` crate. Each is held to the wire format's specification.

use crate::body::{
    body_fits, frame_fits, frames_fit, lemma_parse_frames_stays_none, lemma_parse_ids_stays_none,
    lemma_parse_profiles_stays_none, parse_body, parse_bytes, parse_frame, parse_frame_list,
    parse_frames, parse_icons, parse_id_list, parse_ids, parse_profile, parse_profile_list,
    parse_profiles, parse_string, parse_u32, profile_fits, profiles_fit, ser_body, ser_frame,
    ser_frame_list, ser_frames, ser_icons, ser_id_list, ser_ids, ser_profile, ser_profile_list,
    ser_profiles, ser_string, string_fits,
};
use crate::packets::{
    frame_views, profile_views, EncodedAudioFrame, Packet, PacketKind, PlayerAccountData,
    PlayerIconData, VoiceBroadcastPacket,
};
use crate::wire::{
    buffer_appends, buffer_data, buffer_write_bytes, buffer_write_i32, buffer_write_u16,
    buffer_write_u32, reader_data, reader_len, reader_ok, reader_pos, reader_position,
    reader_read_bytes, reader_read_i32, reader_read_u16, reader_read_u32, string_from_utf8,
};
use bytebuffer::{ByteBuffer, ByteReader};
use vstd::prelude::*;

verus! {

// ---------------------------------------------------------------------------
// Writers
// ---------------------------------------------------------------------------

/// Writes a text. Returns whether it fits; nothing is promised of the
/// buffer's contents where it does not.
pub(crate) fn write_string(buf: &mut ByteBuffer, text: &str) -> (ok: bool)
    requires
        buffer_appends(*old(buf)),
    ensures
        buffer_appends(*final(buf)),
        ok == string_fits(text@),
        ok ==> buffer_data(*final(buf)) == buffer_data(*old(buf)) + ser_string(text@),
{
    let bytes = text.as_bytes();
    if bytes.len() > u32::MAX as usize {
        return false;
    }
    let ghost before = buffer_data(*buf);
    buffer_write_u32(buf, bytes.len() as u32);
    buffer_write_bytes(buf, bytes);
    assert(buffer_data(*buf) =~= before + ser_string(text@));
    true
}

/// Writes an icon selection.
pub(crate) fn write_icons(buf: &mut ByteBuffer, icons: &PlayerIconData)
    requires
        buffer_appends(*old(buf)),
    ensures
        buffer_appends(*final(buf)),
        buffer_data(*final(buf)) == buffer_data(*old(buf)) + ser_icons(*icons),
{
    let ghost before = buffer_data(*buf);
    buffer_write_i32(buf, icons.cube);
    buffer_write_i32(buf, icons.ship);
    buffer_write_i32(buf, icons.ball);
    buffer_write_i32(buf, icons.ufo);
    buffer_write_i32(buf, icons.wave);
    buffer_write_i32(buf, icons.robot);
    buffer_write_i32(buf, icons.spider);
    buffer_write_i32(buf, icons.color1);
    buffer_write_i32(buf, icons.color2);
    assert(buffer_data(*buf) =~= before + ser_icons(*icons));
}

/// Writes a profile. Returns whether it fits.
pub(crate) fn write_profile(buf: &mut ByteBuffer, profile: &PlayerAccountData) -> (ok: bool)
    requires
        buffer_appends(*old(buf)),
    ensures
        buffer_appends(*final(buf)),
        ok == profile_fits(profile@),
        ok ==> buffer_data(*final(buf)) == buffer_data(*old(buf)) + ser_profile(profile@),
{
    let ghost before = buffer_data(*buf);
    buffer_write_i32(buf, profile.account_id);
    if !write_string(buf, profile.name.as_str()) {
        return false;
    }
    write_icons(buf, &profile.icons);
    assert(buffer_data(*buf) =~= before + ser_profile(profile@));
    true
}

/// Writes an audio frame. Returns whether it fits.
pub(crate) fn write_frame(buf: &mut ByteBuffer, frame: &Vec<u8>) -> (ok: bool)
    requires
        buffer_appends(*old(buf)),
    ensures
        buffer_appends(*final(buf)),
        ok == frame_fits(frame@),
        ok ==> buffer_data(*final(buf)) == buffer_data(*old(buf)) + ser_frame(frame@),
{
    if frame.len() > u32::MAX as usize {
        return false;
    }
    let ghost before = buffer_data(*buf);
    buffer_write_u32(buf, frame.len() as u32);
    buffer_write_bytes(buf, frame.as_slice());
    assert(buffer_data(*buf) =~= before + ser_frame(frame@));
    true
}

/// Writes a list of account ids. Returns whether its count fits.
pub(crate) fn write_id_list(buf: &mut ByteBuffer, ids: &Vec<i32>) -> (ok: bool)
    requires
        buffer_appends(*old(buf)),
    ensures
        buffer_appends(*final(buf)),
        ok == (ids@.len() <= u32::MAX),
        ok ==> buffer_data(*final(buf)) == buffer_data(*old(buf)) + ser_id_list(ids@),
{
    if ids.len() > u32::MAX as usize {
        return false;
    }
    let ghost before = buffer_data(*buf);
    buffer_write_u32(buf, ids.len() as u32);
    let ghost head = buffer_data(*buf);
    let mut i: usize = 0;
    while i < ids.len()
        invariant
            i <= ids.len(),
            buffer_appends(*buf),
            buffer_data(*buf) == head + ser_ids(ids@.take(i as int)),
        decreases ids.len() - i,
    {
        let ghost so_far = ids@.take(i as int);
        buffer_write_i32(buf, ids[i]);
        proof {
            let next = ids@.take(i + 1);
            assert(next.drop_last() =~= so_far);
            assert(next.last() == ids@[i as int]);
            assert(buffer_data(*buf) =~= head + ser_ids(next));
        }
        i += 1;
    }
    proof {
        assert(ids@.take(ids@.len() as int) =~= ids@);
        assert(buffer_data(*buf) =~= before + ser_id_list(ids@));
    }
    true
}

/// Writes a list of audio frames. Returns whether its count and every frame fit.
pub(crate) fn write_frame_list(buf: &mut ByteBuffer, frames: &Vec<Vec<u8>>) -> (ok: bool)
    requires
        buffer_appends(*old(buf)),
    ensures
        buffer_appends(*final(buf)),
        ok == frames_fit(frame_views(frames@)),
        ok ==> buffer_data(*final(buf)) == buffer_data(*old(buf)) + ser_frame_list(
            frame_views(frames@),
        ),
{
    let ghost views = frame_views(frames@);
    if frames.len() > u32::MAX as usize {
        return false;
    }
    let ghost before = buffer_data(*buf);
    buffer_write_u32(buf, frames.len() as u32);
    let ghost head = buffer_data(*buf);
    let mut i: usize = 0;
    while i < frames.len()
        invariant
            i <= frames.len(),
            views == frame_views(frames@),
            buffer_appends(*buf),
            forall|j: int| 0 <= j < i ==> frame_fits(#[trigger] views[j]),
            buffer_data(*buf) == head + ser_frames(views.take(i as int)),
        decreases frames.len() - i,
    {
        let ghost so_far = views.take(i as int);
        assert(views[i as int] == frames@[i as int]@);
        if !write_frame(buf, &frames[i]) {
            return false;
        }
        proof {
            let next = views.take(i + 1);
            assert(next.drop_last() =~= so_far);
            assert(next.last() == views[i as int]);
            assert(buffer_data(*buf) =~= head + ser_frames(next));
        }
        i += 1;
    }
    proof {
        assert(views.take(views.len() as int) =~= views);
        assert(buffer_data(*buf) =~= before + ser_frame_list(views));
    }
    true
}

/// Writes a list of profiles. Returns whether its count and every profile fit.
pub(crate) fn write_profile_list(buf: &mut ByteBuffer, profiles: &Vec<PlayerAccountData>) -> (ok:
    bool)
    requires
        buffer_appends(*old(buf)),
    ensures
        buffer_appends(*final(buf)),
        ok == profiles_fit(profile_views(profiles@)),
        ok ==> buffer_data(*final(buf)) == buffer_data(*old(buf)) + ser_profile_list(
            profile_views(profiles@),
        ),
{
    let ghost views = profile_views(profiles@);
    if profiles.len() > u32::MAX as usize {
        return false;
    }
    let ghost before = buffer_data(*buf);
    buffer_write_u32(buf, profiles.len() as u32);
    let ghost head = buffer_data(*buf);
    let mut i: usize = 0;
    while i < profiles.len()
        invariant
            i <= profiles.len(),
            views == profile_views(profiles@),
            buffer_appends(*buf),
            forall|j: int| 0 <= j < i ==> profile_fits(#[trigger] views[j]),
            buffer_data(*buf) == head + ser_profiles(views.take(i as int)),
        decreases profiles.len() - i,
    {
        let ghost so_far = views.take(i as int);
        assert(views[i as int] == profiles@[i as int]@);
        if !write_profile(buf, &profiles[i]) {
            return false;
        }
        proof {
            let next = views.take(i + 1);
            assert(next.drop_last() =~= so_far);
            assert(next.last() == views[i as int]);
            assert(buffer_data(*buf) =~= head + ser_profiles(next));
        }
        i += 1;
    }
    proof {
        assert(views.take(views.len() as int) =~= views);
        assert(buffer_data(*buf) =~= before + ser_profile_list(views));
    }
    true
}

/// Writes the body of a packet. Returns whether the packet fits the wire
/// format; nothing is promised of the buffer's contents where it does not.
pub(crate) fn write_body(buf: &mut ByteBuffer, packet: &Packet) -> (ok: bool)
    requires
        buffer_appends(*old(buf)),
    ensures
        buffer_appends(*final(buf)),
        ok == body_fits(packet@),
        ok ==> buffer_data(*final(buf)) == buffer_data(*old(buf)) + ser_body(packet@),
{
    let ghost before = buffer_data(*buf);
    match packet {
        Packet::Ping { id } => {
            buffer_write_u32(buf, *id);
            true
        },
        Packet::CryptoHandshakeStart { protocol, key } => {
            buffer_write_u16(buf, *protocol);
            buffer_write_bytes(buf, key.as_slice());
            assert(buffer_data(*buf) =~= before + ser_body(packet@));
            true
        },
        Packet::Keepalive => {
            assert(buffer_data(*buf) =~= before + ser_body(packet@));
            true
        },
        Packet::Login { account_id, token } => {
            buffer_write_i32(buf, *account_id);
            let ok = write_string(buf, token.as_str());
            assert(ok ==> buffer_data(*buf) =~= before + ser_body(packet@));
            ok
        },
        Packet::Disconnect => {
            assert(buffer_data(*buf) =~= before + ser_body(packet@));
            true
        },
        Packet::SyncIcons { icons } => {
            write_icons(buf, icons);
            true
        },
        Packet::RequestProfiles { ids } => write_id_list(buf, ids),
        Packet::Voice { data } => write_frame_list(buf, &data.opus_frames),
        Packet::PingResponse { id, player_count } => {
            buffer_write_u32(buf, *id);
            buffer_write_u32(buf, *player_count);
            assert(buffer_data(*buf) =~= before + ser_body(packet@));
            true
        },
        Packet::CryptoHandshakeResponse { key } => {
            buffer_write_bytes(buf, key.as_slice());
            true
        },
        Packet::KeepaliveResponse { player_count } => {
            buffer_write_u32(buf, *player_count);
            true
        },
        Packet::ServerDisconnect { message } => write_string(buf, message.as_str()),
        Packet::LoggedIn => {
            assert(buffer_data(*buf) =~= before + ser_body(packet@));
            true
        },
        Packet::LoginFailed { message } => write_string(buf, message.as_str()),
        Packet::PlayerProfiles { profiles } => write_profile_list(buf, profiles),
        Packet::VoiceBroadcast(broadcast) => {
            buffer_write_i32(buf, broadcast.player_id);
            let ok = write_frame_list(buf, &broadcast.data.opus_frames);
            assert(ok ==> buffer_data(*buf) =~= before + ser_body(packet@));
            ok
        },
    }
}

// ---------------------------------------------------------------------------
// Readers
// ---------------------------------------------------------------------------

/// Reads a text.
pub(crate) fn read_string(r: &mut ByteReader<'_>) -> (out: Option<String>)
    requires
        reader_ok(*old(r)),
    ensures
        reader_ok(*final(r)),
        reader_data(*final(r)) == reader_data(*old(r)),
        match out {
            Some(text) => parse_string(reader_data(*old(r)), reader_pos(*old(r)) as int) == Some(
                (text@, reader_pos(*final(r)) as int),
            ),
            None => parse_string(reader_data(*old(r)), reader_pos(*old(r)) as int) is None,
        },
{
    let n: u32 = match reader_read_u32(r) {
        Some(n) => n,
        None => {
            return None;
        },
    };
    let remaining: usize = reader_len(r) - reader_position(r);
    if n as usize > remaining {
        return None;
    }
    match reader_read_bytes(r, n as usize) {
        Some(bytes) => string_from_utf8(bytes),
        None => None,
    }
}

/// Reads an audio frame.
pub(crate) fn read_frame(r: &mut ByteReader<'_>) -> (out: Option<Vec<u8>>)
    requires
        reader_ok(*old(r)),
    ensures
        reader_ok(*final(r)),
        reader_data(*final(r)) == reader_data(*old(r)),
        match out {
            Some(frame) => parse_frame(reader_data(*old(r)), reader_pos(*old(r)) as int) == Some(
                (frame@, reader_pos(*final(r)) as int),
            ),
            None => parse_frame(reader_data(*old(r)), reader_pos(*old(r)) as int) is None,
        },
{
    let n: u32 = match reader_read_u32(r) {
        Some(n) => n,
        None => {
            return None;
        },
    };
    let remaining: usize = reader_len(r) - reader_position(r);
    if n as usize > remaining {
        return None;
    }
    reader_read_bytes(r, n as usize)
}

/// The 32 bytes of a vector as a key.
fn key_from(bytes: &Vec<u8>) -> (key: [u8; 32])
    requires
        bytes@.len() == 32,
    ensures
        key@ == bytes@,
{
    let mut key: [u8; 32] = [0u8; 32];
    let mut i: usize = 0;
    while i < 32
        invariant
            i <= 32,
            bytes@.len() == 32,
            forall|j: int| 0 <= j < i ==> key@[j] == bytes@[j],
        decreases 32 - i,
    {
        key[i] = bytes[i];
        i += 1;
    }
    assert(key@ =~= bytes@);
    key
}

/// Reads a key: 32 bytes.
pub(crate) fn read_key(r: &mut ByteReader<'_>) -> (out: Option<[u8; 32]>)
    requires
        reader_ok(*old(r)),
    ensures
        reader_ok(*final(r)),
        reader_data(*final(r)) == reader_data(*old(r)),
        match out {
            Some(key) => parse_bytes(reader_data(*old(r)), reader_pos(*old(r)) as int, 32) == Some(
                (key@, reader_pos(*final(r)) as int),
            ),
            None => parse_bytes(reader_data(*old(r)), reader_pos(*old(r)) as int, 32) is None,
        },
{
    let remaining: usize = reader_len(r) - reader_position(r);
    if remaining < 32 {
        return None;
    }
    match reader_read_bytes(r, 32) {
        Some(bytes) => Some(key_from(&bytes)),
        None => None,
    }
}

/// Reads an icon selection.
pub(crate) fn read_icons(r: &mut ByteReader<'_>) -> (out: Option<PlayerIconData>)
    requires
        reader_ok(*old(r)),
    ensures
        reader_ok(*final(r)),
        reader_data(*final(r)) == reader_data(*old(r)),
        match out {
            Some(icons) => parse_icons(reader_data(*old(r)), reader_pos(*old(r)) as int) == Some(
                (icons, reader_pos(*final(r)) as int),
            ),
            None => parse_icons(reader_data(*old(r)), reader_pos(*old(r)) as int) is None,
        },
{
    let remaining: usize = reader_len(r) - reader_position(r);
    if remaining < 36 {
        return None;
    }
    let cube: i32 = match reader_read_i32(r) {
        Some(v) => v,
        None => {
            return None;
        },
    };
    let ship: i32 = match reader_read_i32(r) {
        Some(v) => v,
        None => {
            return None;
        },
    };
    let ball: i32 = match reader_read_i32(r) {
        Some(v) => v,
        None => {
            return None;
        },
    };
    let ufo: i32 = match reader_read_i32(r) {
        Some(v) => v,
        None => {
            return None;
        },
    };
    let wave: i32 = match reader_read_i32(r) {
        Some(v) => v,
        None => {
            return None;
        },
    };
    let robot: i32 = match reader_read_i32(r) {
        Some(v) => v,
        None => {
            return None;
        },
    };
    let spider: i32 = match reader_read_i32(r) {
        Some(v) => v,
        None => {
            return None;
        },
    };
    let color1: i32 = match reader_read_i32(r) {
        Some(v) => v,
        None => {
            return None;
        },
    };
    let color2: i32 = match reader_read_i32(r) {
        Some(v) => v,
        None => {
            return None;
        },
    };
    Some(PlayerIconData { cube, ship, ball, ufo, wave, robot, spider, color1, color2 })
}

/// Reads a profile.
pub(crate) fn read_profile(r: &mut ByteReader<'_>) -> (out: Option<PlayerAccountData>)
    requires
        reader_ok(*old(r)),
    ensures
        reader_ok(*final(r)),
        reader_data(*final(r)) == reader_data(*old(r)),
        match out {
            Some(profile) => parse_profile(reader_data(*old(r)), reader_pos(*old(r)) as int)
                == Some((profile@, reader_pos(*final(r)) as int)),
            None => parse_profile(reader_data(*old(r)), reader_pos(*old(r)) as int) is None,
        },
{
    let account_id: i32 = match reader_read_i32(r) {
        Some(v) => v,
        None => {
            return None;
        },
    };
    let name = match read_string(r) {
        Some(v) => v,
        None => {
            return None;
        },
    };
    let icons = match read_icons(r) {
        Some(v) => v,
        None => {
            return None;
        },
    };
    Some(PlayerAccountData { account_id, name, icons })
}

/// Reads a list of account ids.
pub(crate) fn read_id_list(r: &mut ByteReader<'_>) -> (out: Option<Vec<i32>>)
    requires
        reader_ok(*old(r)),
    ensures
        reader_ok(*final(r)),
        reader_data(*final(r)) == reader_data(*old(r)),
        match out {
            Some(ids) => parse_id_list(reader_data(*old(r)), reader_pos(*old(r)) as int) == Some(
                (ids@, reader_pos(*final(r)) as int),
            ),
            None => parse_id_list(reader_data(*old(r)), reader_pos(*old(r)) as int) is None,
        },
{
    let ghost data = reader_data(*r);
    let count: u32 = match reader_read_u32(r) {
        Some(n) => n,
        None => {
            return None;
        },
    };
    let ghost start = reader_pos(*r) as int;
    let mut ids: Vec<i32> = Vec::new();
    let mut i: u32 = 0;
    while i < count
        invariant
            i <= count,
            reader_ok(*r),
            reader_data(*r) == data,
            data == reader_data(*old(r)),
            parse_u32(data, reader_pos(*old(r)) as int) == Some((count, start)),
            parse_ids(data, start, i as nat) == Some((ids@, reader_pos(*r) as int)),
        decreases count - i,
    {
        match reader_read_i32(r) {
            Some(id) => {
                ids.push(id);
            },
            None => {
                proof {
                    lemma_parse_ids_stays_none(data, start, (i + 1) as nat, count as nat);
                }
                return None;
            },
        }
        i += 1;
    }
    Some(ids)
}

/// Reads a list of audio frames.
pub(crate) fn read_frame_list(r: &mut ByteReader<'_>) -> (out: Option<Vec<Vec<u8>>>)
    requires
        reader_ok(*old(r)),
    ensures
        reader_ok(*final(r)),
        reader_data(*final(r)) == reader_data(*old(r)),
        match out {
            Some(frames) => parse_frame_list(reader_data(*old(r)), reader_pos(*old(r)) as int)
                == Some((frame_views(frames@), reader_pos(*final(r)) as int)),
            None => parse_frame_list(reader_data(*old(r)), reader_pos(*old(r)) as int) is None,
        },
{
    let ghost data = reader_data(*r);
    let count: u32 = match reader_read_u32(r) {
        Some(n) => n,
        None => {
            return None;
        },
    };
    let ghost start = reader_pos(*r) as int;
    let mut frames: Vec<Vec<u8>> = Vec::new();
    let mut i: u32 = 0;
    assert(frame_views(frames@) =~= Seq::<Seq<u8>>::empty());
    while i < count
        invariant
            i <= count,
            reader_ok(*r),
            reader_data(*r) == data,
            data == reader_data(*old(r)),
            parse_u32(data, reader_pos(*old(r)) as int) == Some((count, start)),
            parse_frames(data, start, i as nat) == Some(
                (frame_views(frames@), reader_pos(*r) as int),
            ),
        decreases count - i,
    {
        let ghost so_far = frame_views(frames@);
        match read_frame(r) {
            Some(frame) => {
                frames.push(frame);
                assert(frame_views(frames@) =~= so_far.push(frame@));
            },
            None => {
                proof {
                    lemma_parse_frames_stays_none(data, start, (i + 1) as nat, count as nat);
                }
                return None;
            },
        }
        i += 1;
    }
    Some(frames)
}

/// Reads a list of profiles.
pub(crate) fn read_profile_list(r: &mut ByteReader<'_>) -> (out: Option<Vec<PlayerAccountData>>)
    requires
        reader_ok(*old(r)),
    ensures
        reader_ok(*final(r)),
        reader_data(*final(r)) == reader_data(*old(r)),
        match out {
            Some(profiles) => parse_profile_list(reader_data(*old(r)), reader_pos(*old(r)) as int)
                == Some((profile_views(profiles@), reader_pos(*final(r)) as int)),
            None => parse_profile_list(reader_data(*old(r)), reader_pos(*old(r)) as int) is None,
        },
{
    let ghost data = reader_data(*r);
    let count: u32 = match reader_read_u32(r) {
        Some(n) => n,
        None => {
            return None;
        },
    };
    let ghost start = reader_pos(*r) as int;
    let mut profiles: Vec<PlayerAccountData> = Vec::new();
    let mut i: u32 = 0;
    assert(profile_views(profiles@) =~= Seq::<crate::packets::ProfileView>::empty());
    while i < count
        invariant
            i <= count,
            reader_ok(*r),
            reader_data(*r) == data,
            data == reader_data(*old(r)),
            parse_u32(data, reader_pos(*old(r)) as int) == Some((count, start)),
            parse_profiles(data, start, i as nat) == Some(
                (profile_views(profiles@), reader_pos(*r) as int),
            ),
        decreases count - i,
    {
        let ghost so_far = profile_views(profiles@);
        match read_profile(r) {
            Some(profile) => {
                profiles.push(profile);
                assert(profile_views(profiles@) =~= so_far.push(profile@));
            },
            None => {
                proof {
                    lemma_parse_profiles_stays_none(data, start, (i + 1) as nat, count as nat);
                }
                return None;
            },
        }
        i += 1;
    }
    Some(profiles)
}

/// Reads the body of a packet of type `kind`. Bytes behind the body are left
/// unread.
pub(crate) fn read_body(kind: PacketKind, r: &mut ByteReader<'_>) -> (out: Option<Packet>)
    requires
        reader_ok(*old(r)),
    ensures
        reader_ok(*final(r)),
        reader_data(*final(r)) == reader_data(*old(r)),
        match out {
            Some(packet) => parse_body(kind, reader_data(*old(r)), reader_pos(*old(r)) as int)
                == Some((packet@, reader_pos(*final(r)) as int)),
            None => parse_body(kind, reader_data(*old(r)), reader_pos(*old(r)) as int) is None,
        },
{
    match kind {
        PacketKind::Ping => match reader_read_u32(r) {
            Some(id) => Some(Packet::Ping { id }),
            None => None,
        },
        PacketKind::CryptoHandshakeStart => {
            let protocol: u16 = match reader_read_u16(r) {
                Some(v) => v,
                None => {
                    return None;
                },
            };
            match read_key(r) {
                Some(key) => Some(Packet::CryptoHandshakeStart { protocol, key }),
                None => None,
            }
        },
        PacketKind::Keepalive => Some(Packet::Keepalive),
        PacketKind::Login => {
            let account_id: i32 = match reader_read_i32(r) {
                Some(v) => v,
                None => {
                    return None;
                },
            };
            match read_string(r) {
                Some(token) => Some(Packet::Login { account_id, token }),
                None => None,
            }
        },
        PacketKind::Disconnect => Some(Packet::Disconnect),
        PacketKind::SyncIcons => match read_icons(r) {
            Some(icons) => Some(Packet::SyncIcons { icons }),
            None => None,
        },
        PacketKind::RequestProfiles => match read_id_list(r) {
            Some(ids) => Some(Packet::RequestProfiles { ids }),
            None => None,
        },
        PacketKind::Voice => match read_frame_list(r) {
            Some(opus_frames) => Some(Packet::Voice { data: EncodedAudioFrame { opus_frames } }),
            None => None,
        },
        PacketKind::PingResponse => {
            let id: u32 = match reader_read_u32(r) {
                Some(v) => v,
                None => {
                    return None;
                },
            };
            match reader_read_u32(r) {
                Some(player_count) => Some(Packet::PingResponse { id, player_count }),
                None => None,
            }
        },
        PacketKind::CryptoHandshakeResponse => match read_key(r) {
            Some(key) => Some(Packet::CryptoHandshakeResponse { key }),
            None => None,
        },
        PacketKind::KeepaliveResponse => match reader_read_u32(r) {
            Some(player_count) => Some(Packet::KeepaliveResponse { player_count }),
            None => None,
        },
        PacketKind::ServerDisconnect => match read_string(r) {
            Some(message) => Some(Packet::ServerDisconnect { message }),
            None => None,
        },
        PacketKind::LoggedIn => Some(Packet::LoggedIn),
        PacketKind::LoginFailed => match read_string(r) {
            Some(message) => Some(Packet::LoginFailed { message }),
            None => None,
        },
        PacketKind::PlayerProfiles => match read_profile_list(r) {
            Some(profiles) => Some(Packet::PlayerProfiles { profiles }),
            None => None,
        },
        PacketKind::VoiceBroadcast => {
            let player_id: i32 = match reader_read_i32(r) {
                Some(v) => v,
                None => {
                    return None;
                },
            };
            match read_frame_list(r) {
                Some(opus_frames) => Some(
                    Packet::VoiceBroadcast(
                        VoiceBroadcastPacket { player_id, data: EncodedAudioFrame { opus_frames } },
                    ),
                ),
                None => None,
            }
        },
    }
}

} // verus!
