//! The wire format of packet bodies: what each body looks like as bytes, how
//! bytes are read back, and the executable writers and readers.

use crate::packets::{PacketKind, PacketView, PlayerIconData, ProfileView};
use crate::wire::{
    i32_bits, i32_bytes, i32_of_bits, lemma_i32_round_trip, lemma_u16_round_trip,
    lemma_u32_round_trip, u16_bytes, u16_value, u32_bytes, u32_value,
};
use vstd::prelude::*;
use vstd::utf8::{decode_utf8, encode_utf8, valid_utf8};

verus! {

// ---------------------------------------------------------------------------
// What is read at a position
// ---------------------------------------------------------------------------

/// The big-endian `u16` at `pos`, and the position after it.
pub open spec fn parse_u16(data: Seq<u8>, pos: int) -> Option<(u16, int)> {
    if 0 <= pos && pos + 2 <= data.len() {
        Some((u16_value(data.skip(pos)), pos + 2))
    } else {
        None
    }
}

/// The big-endian `u32` at `pos`, and the position after it.
pub open spec fn parse_u32(data: Seq<u8>, pos: int) -> Option<(u32, int)> {
    if 0 <= pos && pos + 4 <= data.len() {
        Some((u32_value(data.skip(pos)), pos + 4))
    } else {
        None
    }
}

/// The big-endian two's complement `i32` at `pos`, and the position after it.
pub open spec fn parse_i32(data: Seq<u8>, pos: int) -> Option<(i32, int)> {
    if 0 <= pos && pos + 4 <= data.len() {
        Some((i32_of_bits(u32_value(data.skip(pos))), pos + 4))
    } else {
        None
    }
}

/// The `n` bytes at `pos`, and the position after them.
pub open spec fn parse_bytes(data: Seq<u8>, pos: int, n: int) -> Option<(Seq<u8>, int)> {
    if 0 <= pos && 0 <= n && pos + n <= data.len() {
        Some((data.subrange(pos, pos + n), pos + n))
    } else {
        None
    }
}

/// A text at `pos`: a `u32` byte count, then as many bytes of UTF-8.
pub open spec fn parse_string(data: Seq<u8>, pos: int) -> Option<(Seq<char>, int)> {
    match parse_u32(data, pos) {
        None => None,
        Some((n, p)) => match parse_bytes(data, p, n as int) {
            None => None,
            Some((bytes, q)) => if valid_utf8(bytes) {
                Some((decode_utf8(bytes), q))
            } else {
                None
            },
        },
    }
}

/// An icon selection at `pos`: nine `i32`, in the order of the fields.
pub open spec fn parse_icons(data: Seq<u8>, pos: int) -> Option<(PlayerIconData, int)> {
    if 0 <= pos && pos + 36 <= data.len() {
        Some(
            (
                PlayerIconData {
                    cube: i32_of_bits(u32_value(data.skip(pos))),
                    ship: i32_of_bits(u32_value(data.skip(pos + 4))),
                    ball: i32_of_bits(u32_value(data.skip(pos + 8))),
                    ufo: i32_of_bits(u32_value(data.skip(pos + 12))),
                    wave: i32_of_bits(u32_value(data.skip(pos + 16))),
                    robot: i32_of_bits(u32_value(data.skip(pos + 20))),
                    spider: i32_of_bits(u32_value(data.skip(pos + 24))),
                    color1: i32_of_bits(u32_value(data.skip(pos + 28))),
                    color2: i32_of_bits(u32_value(data.skip(pos + 32))),
                },
                pos + 36,
            ),
        )
    } else {
        None
    }
}

/// A profile at `pos`: account id, name, icon selection.
pub open spec fn parse_profile(data: Seq<u8>, pos: int) -> Option<(ProfileView, int)> {
    match parse_i32(data, pos) {
        None => None,
        Some((account_id, p)) => match parse_string(data, p) {
            None => None,
            Some((name, q)) => match parse_icons(data, q) {
                None => None,
                Some((icons, end)) => Some((ProfileView { account_id, name, icons }, end)),
            },
        },
    }
}

/// An audio frame at `pos`: a `u32` byte count, then as many bytes.
pub open spec fn parse_frame(data: Seq<u8>, pos: int) -> Option<(Seq<u8>, int)> {
    match parse_u32(data, pos) {
        None => None,
        Some((n, p)) => parse_bytes(data, p, n as int),
    }
}

// ---------------------------------------------------------------------------
// What is written
// ---------------------------------------------------------------------------

/// Whether the UTF-8 form of a text is short enough for its `u32` byte count.
pub open spec fn string_fits(text: Seq<char>) -> bool {
    encode_utf8(text).len() <= u32::MAX
}

/// The bytes of a text: its `u32` byte count, then its UTF-8 form.
pub open spec fn ser_string(text: Seq<char>) -> Seq<u8> {
    u32_bytes(encode_utf8(text).len() as u32) + encode_utf8(text)
}

/// The bytes of an icon selection.
pub open spec fn ser_icons(icons: PlayerIconData) -> Seq<u8> {
    i32_bytes(icons.cube) + i32_bytes(icons.ship) + i32_bytes(icons.ball) + i32_bytes(icons.ufo)
        + i32_bytes(icons.wave) + i32_bytes(icons.robot) + i32_bytes(icons.spider) + i32_bytes(
        icons.color1,
    ) + i32_bytes(icons.color2)
}

/// Whether a profile can be written: its name fits.
pub open spec fn profile_fits(profile: ProfileView) -> bool {
    string_fits(profile.name)
}

/// The bytes of a profile.
pub open spec fn ser_profile(profile: ProfileView) -> Seq<u8> {
    i32_bytes(profile.account_id) + ser_string(profile.name) + ser_icons(profile.icons)
}

/// Whether an audio frame is short enough for its `u32` byte count.
pub open spec fn frame_fits(frame: Seq<u8>) -> bool {
    frame.len() <= u32::MAX
}

/// The bytes of an audio frame: its `u32` byte count, then its bytes.
pub open spec fn ser_frame(frame: Seq<u8>) -> Seq<u8> {
    u32_bytes(frame.len() as u32) + frame
}

// ---------------------------------------------------------------------------
// Reading back what was written
// ---------------------------------------------------------------------------

/// `data` holds `bytes` from `pos` on.
pub open spec fn holds_at(data: Seq<u8>, pos: int, bytes: Seq<u8>) -> bool {
    0 <= pos && pos + bytes.len() <= data.len() && data.subrange(pos, pos + bytes.len())
        == bytes
}

/// Where `data` holds `a + b`, it holds `a` and, behind it, `b`.
pub proof fn lemma_holds_split(data: Seq<u8>, pos: int, a: Seq<u8>, b: Seq<u8>)
    requires
        holds_at(data, pos, a + b),
    ensures
        holds_at(data, pos, a),
        holds_at(data, pos + a.len(), b),
{
    let whole = data.subrange(pos, pos + (a + b).len());
    assert(data.subrange(pos, pos + a.len()) =~= a) by {
        assert forall|i: int| 0 <= i < a.len() implies data[pos + i] == a[i] by {
            assert(whole[i] == (a + b)[i]);
        }
    }
    assert(data.subrange(pos + a.len(), pos + a.len() + b.len()) =~= b) by {
        assert forall|i: int| 0 <= i < b.len() implies data[pos + a.len() + i] == b[i] by {
            assert(whole[a.len() + i] == (a + b)[a.len() + i]);
        }
    }
}

pub proof fn lemma_parse_u16(data: Seq<u8>, pos: int, v: u16)
    requires
        holds_at(data, pos, u16_bytes(v)),
    ensures
        parse_u16(data, pos) == Some((v, pos + 2)),
{
    lemma_u16_round_trip(v);
    let held = data.subrange(pos, pos + 2);
    assert(held[0] == data.skip(pos)[0]);
    assert(held[1] == data.skip(pos)[1]);
}

pub proof fn lemma_parse_u32(data: Seq<u8>, pos: int, v: u32)
    requires
        holds_at(data, pos, u32_bytes(v)),
    ensures
        parse_u32(data, pos) == Some((v, pos + 4)),
{
    lemma_u32_round_trip(v);
    let held = data.subrange(pos, pos + 4);
    assert(held[0] == data.skip(pos)[0]);
    assert(held[1] == data.skip(pos)[1]);
    assert(held[2] == data.skip(pos)[2]);
    assert(held[3] == data.skip(pos)[3]);
}

pub proof fn lemma_parse_i32(data: Seq<u8>, pos: int, v: i32)
    requires
        holds_at(data, pos, i32_bytes(v)),
    ensures
        parse_i32(data, pos) == Some((v, pos + 4)),
{
    lemma_i32_round_trip(v);
    lemma_parse_u32(data, pos, i32_bits(v));
}

pub proof fn lemma_parse_bytes(data: Seq<u8>, pos: int, bytes: Seq<u8>)
    requires
        holds_at(data, pos, bytes),
    ensures
        parse_bytes(data, pos, bytes.len() as int) == Some((bytes, pos + bytes.len())),
{
}

pub proof fn lemma_parse_string(data: Seq<u8>, pos: int, text: Seq<char>)
    requires
        string_fits(text),
        holds_at(data, pos, ser_string(text)),
    ensures
        parse_string(data, pos) == Some((text, pos + ser_string(text).len())),
{
    let utf8 = encode_utf8(text);
    lemma_holds_split(data, pos, u32_bytes(utf8.len() as u32), utf8);
    lemma_u32_round_trip(utf8.len() as u32);
    lemma_parse_u32(data, pos, utf8.len() as u32);
    lemma_parse_bytes(data, pos + 4, utf8);
    vstd::utf8::encode_utf8_valid_utf8(text);
    vstd::utf8::encode_utf8_decode_utf8(text);
}

pub proof fn lemma_parse_frame(data: Seq<u8>, pos: int, frame: Seq<u8>)
    requires
        frame_fits(frame),
        holds_at(data, pos, ser_frame(frame)),
    ensures
        parse_frame(data, pos) == Some((frame, pos + ser_frame(frame).len())),
{
    lemma_holds_split(data, pos, u32_bytes(frame.len() as u32), frame);
    lemma_u32_round_trip(frame.len() as u32);
    lemma_parse_u32(data, pos, frame.len() as u32);
    lemma_parse_bytes(data, pos + 4, frame);
}

pub proof fn lemma_parse_icons(data: Seq<u8>, pos: int, icons: PlayerIconData)
    requires
        holds_at(data, pos, ser_icons(icons)),
    ensures
        ser_icons(icons).len() == 36,
        parse_icons(data, pos) == Some((icons, pos + 36)),
{
    let b0 = i32_bytes(icons.cube);
    let b1 = b0 + i32_bytes(icons.ship);
    let b2 = b1 + i32_bytes(icons.ball);
    let b3 = b2 + i32_bytes(icons.ufo);
    let b4 = b3 + i32_bytes(icons.wave);
    let b5 = b4 + i32_bytes(icons.robot);
    let b6 = b5 + i32_bytes(icons.spider);
    let b7 = b6 + i32_bytes(icons.color1);
    lemma_i32_round_trip(icons.cube);
    lemma_i32_round_trip(icons.ship);
    lemma_i32_round_trip(icons.ball);
    lemma_i32_round_trip(icons.ufo);
    lemma_i32_round_trip(icons.wave);
    lemma_i32_round_trip(icons.robot);
    lemma_i32_round_trip(icons.spider);
    lemma_i32_round_trip(icons.color1);
    lemma_i32_round_trip(icons.color2);
    lemma_holds_split(data, pos, b7, i32_bytes(icons.color2));
    lemma_holds_split(data, pos, b6, i32_bytes(icons.color1));
    lemma_holds_split(data, pos, b5, i32_bytes(icons.spider));
    lemma_holds_split(data, pos, b4, i32_bytes(icons.robot));
    lemma_holds_split(data, pos, b3, i32_bytes(icons.wave));
    lemma_holds_split(data, pos, b2, i32_bytes(icons.ufo));
    lemma_holds_split(data, pos, b1, i32_bytes(icons.ball));
    lemma_holds_split(data, pos, b0, i32_bytes(icons.ship));
    lemma_parse_i32(data, pos, icons.cube);
    lemma_parse_i32(data, pos + 4, icons.ship);
    lemma_parse_i32(data, pos + 8, icons.ball);
    lemma_parse_i32(data, pos + 12, icons.ufo);
    lemma_parse_i32(data, pos + 16, icons.wave);
    lemma_parse_i32(data, pos + 20, icons.robot);
    lemma_parse_i32(data, pos + 24, icons.spider);
    lemma_parse_i32(data, pos + 28, icons.color1);
    lemma_parse_i32(data, pos + 32, icons.color2);
}

pub proof fn lemma_parse_profile(data: Seq<u8>, pos: int, profile: ProfileView)
    requires
        profile_fits(profile),
        holds_at(data, pos, ser_profile(profile)),
    ensures
        parse_profile(data, pos) == Some((profile, pos + ser_profile(profile).len())),
{
    let id = i32_bytes(profile.account_id);
    let name = ser_string(profile.name);
    let icons = ser_icons(profile.icons);
    lemma_i32_round_trip(profile.account_id);
    lemma_holds_split(data, pos, id + name, icons);
    lemma_holds_split(data, pos, id, name);
    lemma_parse_i32(data, pos, profile.account_id);
    lemma_parse_string(data, pos + 4, profile.name);
    lemma_parse_icons(data, pos + 4 + name.len(), profile.icons);
}

// ---------------------------------------------------------------------------
// Lists: a `u32` count, then the items one after another
// ---------------------------------------------------------------------------

/// The first `n` account ids from `pos` on, and the position after them.
pub open spec fn parse_ids(data: Seq<u8>, pos: int, n: nat) -> Option<(Seq<i32>, int)>
    decreases n,
{
    if n == 0 {
        Some((Seq::empty(), pos))
    } else {
        match parse_ids(data, pos, (n - 1) as nat) {
            None => None,
            Some((items, p)) => match parse_i32(data, p) {
                None => None,
                Some((item, q)) => Some((items.push(item), q)),
            },
        }
    }
}

/// The first `n` audio frames from `pos` on, and the position after them.
pub open spec fn parse_frames(data: Seq<u8>, pos: int, n: nat) -> Option<(Seq<Seq<u8>>, int)>
    decreases n,
{
    if n == 0 {
        Some((Seq::empty(), pos))
    } else {
        match parse_frames(data, pos, (n - 1) as nat) {
            None => None,
            Some((items, p)) => match parse_frame(data, p) {
                None => None,
                Some((item, q)) => Some((items.push(item), q)),
            },
        }
    }
}

/// The first `n` profiles from `pos` on, and the position after them.
pub open spec fn parse_profiles(data: Seq<u8>, pos: int, n: nat) -> Option<(Seq<ProfileView>, int)>
    decreases n,
{
    if n == 0 {
        Some((Seq::empty(), pos))
    } else {
        match parse_profiles(data, pos, (n - 1) as nat) {
            None => None,
            Some((items, p)) => match parse_profile(data, p) {
                None => None,
                Some((item, q)) => Some((items.push(item), q)),
            },
        }
    }
}

/// A list of account ids at `pos`.
pub open spec fn parse_id_list(data: Seq<u8>, pos: int) -> Option<(Seq<i32>, int)> {
    match parse_u32(data, pos) {
        None => None,
        Some((n, p)) => parse_ids(data, p, n as nat),
    }
}

/// A list of audio frames at `pos`.
pub open spec fn parse_frame_list(data: Seq<u8>, pos: int) -> Option<(Seq<Seq<u8>>, int)> {
    match parse_u32(data, pos) {
        None => None,
        Some((n, p)) => parse_frames(data, p, n as nat),
    }
}

/// A list of profiles at `pos`.
pub open spec fn parse_profile_list(data: Seq<u8>, pos: int) -> Option<(Seq<ProfileView>, int)> {
    match parse_u32(data, pos) {
        None => None,
        Some((n, p)) => parse_profiles(data, p, n as nat),
    }
}

/// The bytes of account ids, one after another.
pub open spec fn ser_ids(ids: Seq<i32>) -> Seq<u8>
    decreases ids.len(),
{
    if ids.len() == 0 {
        Seq::empty()
    } else {
        ser_ids(ids.drop_last()) + i32_bytes(ids.last())
    }
}

/// The bytes of audio frames, one after another.
pub open spec fn ser_frames(frames: Seq<Seq<u8>>) -> Seq<u8>
    decreases frames.len(),
{
    if frames.len() == 0 {
        Seq::empty()
    } else {
        ser_frames(frames.drop_last()) + ser_frame(frames.last())
    }
}

/// The bytes of profiles, one after another.
pub open spec fn ser_profiles(profiles: Seq<ProfileView>) -> Seq<u8>
    decreases profiles.len(),
{
    if profiles.len() == 0 {
        Seq::empty()
    } else {
        ser_profiles(profiles.drop_last()) + ser_profile(profiles.last())
    }
}

/// Whether a list of audio frames can be written: its count and every frame fit.
pub open spec fn frames_fit(frames: Seq<Seq<u8>>) -> bool {
    frames.len() <= u32::MAX && forall|i: int|
        0 <= i < frames.len() ==> frame_fits(#[trigger] frames[i])
}

/// Whether a list of profiles can be written: its count and every profile fit.
pub open spec fn profiles_fit(profiles: Seq<ProfileView>) -> bool {
    profiles.len() <= u32::MAX && forall|i: int|
        0 <= i < profiles.len() ==> profile_fits(#[trigger] profiles[i])
}

/// The bytes of a list of account ids.
pub open spec fn ser_id_list(ids: Seq<i32>) -> Seq<u8> {
    u32_bytes(ids.len() as u32) + ser_ids(ids)
}

/// The bytes of a list of audio frames.
pub open spec fn ser_frame_list(frames: Seq<Seq<u8>>) -> Seq<u8> {
    u32_bytes(frames.len() as u32) + ser_frames(frames)
}

/// The bytes of a list of profiles.
pub open spec fn ser_profile_list(profiles: Seq<ProfileView>) -> Seq<u8> {
    u32_bytes(profiles.len() as u32) + ser_profiles(profiles)
}

/// Once the first `n` items cannot be read, no longer run can.
pub proof fn lemma_parse_ids_stays_none(data: Seq<u8>, pos: int, n: nat, m: nat)
    requires
        parse_ids(data, pos, n) is None,
        n <= m,
    ensures
        parse_ids(data, pos, m) is None,
    decreases m,
{
    if n < m {
        lemma_parse_ids_stays_none(data, pos, n, (m - 1) as nat);
    }
}

/// Once the first `n` items cannot be read, no longer run can.
pub proof fn lemma_parse_frames_stays_none(data: Seq<u8>, pos: int, n: nat, m: nat)
    requires
        parse_frames(data, pos, n) is None,
        n <= m,
    ensures
        parse_frames(data, pos, m) is None,
    decreases m,
{
    if n < m {
        lemma_parse_frames_stays_none(data, pos, n, (m - 1) as nat);
    }
}

/// Once the first `n` items cannot be read, no longer run can.
pub proof fn lemma_parse_profiles_stays_none(data: Seq<u8>, pos: int, n: nat, m: nat)
    requires
        parse_profiles(data, pos, n) is None,
        n <= m,
    ensures
        parse_profiles(data, pos, m) is None,
    decreases m,
{
    if n < m {
        lemma_parse_profiles_stays_none(data, pos, n, (m - 1) as nat);
    }
}

pub proof fn lemma_parse_ids(data: Seq<u8>, pos: int, ids: Seq<i32>)
    requires
        holds_at(data, pos, ser_ids(ids)),
    ensures
        parse_ids(data, pos, ids.len()) == Some((ids, pos + ser_ids(ids).len())),
    decreases ids.len(),
{
    if ids.len() == 0 {
        assert(ids =~= Seq::<i32>::empty());
    } else {
        let front = ids.drop_last();
        lemma_holds_split(data, pos, ser_ids(front), i32_bytes(ids.last()));
        lemma_parse_ids(data, pos, front);
        lemma_i32_round_trip(ids.last());
        lemma_parse_i32(data, pos + ser_ids(front).len(), ids.last());
        assert(front.push(ids.last()) =~= ids);
    }
}

pub proof fn lemma_parse_frames(data: Seq<u8>, pos: int, frames: Seq<Seq<u8>>)
    requires
        forall|i: int| 0 <= i < frames.len() ==> frame_fits(#[trigger] frames[i]),
        holds_at(data, pos, ser_frames(frames)),
    ensures
        parse_frames(data, pos, frames.len()) == Some((frames, pos + ser_frames(frames).len())),
    decreases frames.len(),
{
    if frames.len() == 0 {
        assert(frames =~= Seq::<Seq<u8>>::empty());
    } else {
        let front = frames.drop_last();
        lemma_holds_split(data, pos, ser_frames(front), ser_frame(frames.last()));
        assert forall|i: int| 0 <= i < front.len() implies frame_fits(#[trigger] front[i]) by {
            assert(front[i] == frames[i]);
        }
        lemma_parse_frames(data, pos, front);
        lemma_parse_frame(data, pos + ser_frames(front).len(), frames.last());
        assert(front.push(frames.last()) =~= frames);
    }
}

pub proof fn lemma_parse_profiles(data: Seq<u8>, pos: int, profiles: Seq<ProfileView>)
    requires
        forall|i: int| 0 <= i < profiles.len() ==> profile_fits(#[trigger] profiles[i]),
        holds_at(data, pos, ser_profiles(profiles)),
    ensures
        parse_profiles(data, pos, profiles.len()) == Some(
            (profiles, pos + ser_profiles(profiles).len()),
        ),
    decreases profiles.len(),
{
    if profiles.len() == 0 {
        assert(profiles =~= Seq::<ProfileView>::empty());
    } else {
        let front = profiles.drop_last();
        lemma_holds_split(data, pos, ser_profiles(front), ser_profile(profiles.last()));
        assert forall|i: int| 0 <= i < front.len() implies profile_fits(#[trigger] front[i]) by {
            assert(front[i] == profiles[i]);
        }
        lemma_parse_profiles(data, pos, front);
        lemma_parse_profile(data, pos + ser_profiles(front).len(), profiles.last());
        assert(front.push(profiles.last()) =~= profiles);
    }
}

pub proof fn lemma_parse_id_list(data: Seq<u8>, pos: int, ids: Seq<i32>)
    requires
        ids.len() <= u32::MAX,
        holds_at(data, pos, ser_id_list(ids)),
    ensures
        parse_id_list(data, pos) == Some((ids, pos + ser_id_list(ids).len())),
{
    lemma_holds_split(data, pos, u32_bytes(ids.len() as u32), ser_ids(ids));
    lemma_u32_round_trip(ids.len() as u32);
    lemma_parse_u32(data, pos, ids.len() as u32);
    lemma_parse_ids(data, pos + 4, ids);
}

pub proof fn lemma_parse_frame_list(data: Seq<u8>, pos: int, frames: Seq<Seq<u8>>)
    requires
        frames_fit(frames),
        holds_at(data, pos, ser_frame_list(frames)),
    ensures
        parse_frame_list(data, pos) == Some((frames, pos + ser_frame_list(frames).len())),
{
    lemma_holds_split(data, pos, u32_bytes(frames.len() as u32), ser_frames(frames));
    lemma_u32_round_trip(frames.len() as u32);
    lemma_parse_u32(data, pos, frames.len() as u32);
    lemma_parse_frames(data, pos + 4, frames);
}

pub proof fn lemma_parse_profile_list(data: Seq<u8>, pos: int, profiles: Seq<ProfileView>)
    requires
        profiles_fit(profiles),
        holds_at(data, pos, ser_profile_list(profiles)),
    ensures
        parse_profile_list(data, pos) == Some(
            (profiles, pos + ser_profile_list(profiles).len()),
        ),
{
    lemma_holds_split(data, pos, u32_bytes(profiles.len() as u32), ser_profiles(profiles));
    lemma_u32_round_trip(profiles.len() as u32);
    lemma_parse_u32(data, pos, profiles.len() as u32);
    lemma_parse_profiles(data, pos + 4, profiles);
}

// ---------------------------------------------------------------------------
// Packet bodies
// ---------------------------------------------------------------------------

/// The body of a packet of type `kind` at `pos`, and the position after it.
/// Bytes behind the body are left unread.
pub open spec fn parse_body(kind: PacketKind, data: Seq<u8>, pos: int) -> Option<
    (PacketView, int),
> {
    match kind {
        PacketKind::Ping => match parse_u32(data, pos) {
            None => None,
            Some((id, p)) => Some((PacketView::Ping { id }, p)),
        },
        PacketKind::CryptoHandshakeStart => match parse_u16(data, pos) {
            None => None,
            Some((protocol, p)) => match parse_bytes(data, p, 32) {
                None => None,
                Some((key, q)) => Some((PacketView::CryptoHandshakeStart { protocol, key }, q)),
            },
        },
        PacketKind::Keepalive => Some((PacketView::Keepalive, pos)),
        PacketKind::Login => match parse_i32(data, pos) {
            None => None,
            Some((account_id, p)) => match parse_string(data, p) {
                None => None,
                Some((token, q)) => Some((PacketView::Login { account_id, token }, q)),
            },
        },
        PacketKind::Disconnect => Some((PacketView::Disconnect, pos)),
        PacketKind::SyncIcons => match parse_icons(data, pos) {
            None => None,
            Some((icons, p)) => Some((PacketView::SyncIcons { icons }, p)),
        },
        PacketKind::RequestProfiles => match parse_id_list(data, pos) {
            None => None,
            Some((ids, p)) => Some((PacketView::RequestProfiles { ids }, p)),
        },
        PacketKind::Voice => match parse_frame_list(data, pos) {
            None => None,
            Some((frames, p)) => Some((PacketView::Voice { frames }, p)),
        },
        PacketKind::PingResponse => match parse_u32(data, pos) {
            None => None,
            Some((id, p)) => match parse_u32(data, p) {
                None => None,
                Some((player_count, q)) => Some((PacketView::PingResponse { id, player_count }, q)),
            },
        },
        PacketKind::CryptoHandshakeResponse => match parse_bytes(data, pos, 32) {
            None => None,
            Some((key, p)) => Some((PacketView::CryptoHandshakeResponse { key }, p)),
        },
        PacketKind::KeepaliveResponse => match parse_u32(data, pos) {
            None => None,
            Some((player_count, p)) => Some((PacketView::KeepaliveResponse { player_count }, p)),
        },
        PacketKind::ServerDisconnect => match parse_string(data, pos) {
            None => None,
            Some((message, p)) => Some((PacketView::ServerDisconnect { message }, p)),
        },
        PacketKind::LoggedIn => Some((PacketView::LoggedIn, pos)),
        PacketKind::LoginFailed => match parse_string(data, pos) {
            None => None,
            Some((message, p)) => Some((PacketView::LoginFailed { message }, p)),
        },
        PacketKind::PlayerProfiles => match parse_profile_list(data, pos) {
            None => None,
            Some((profiles, p)) => Some((PacketView::PlayerProfiles { profiles }, p)),
        },
        PacketKind::VoiceBroadcast => match parse_i32(data, pos) {
            None => None,
            Some((player_id, p)) => match parse_frame_list(data, p) {
                None => None,
                Some((frames, q)) => Some((PacketView::VoiceBroadcast { player_id, frames }, q)),
            },
        },
    }
}

/// Whether a packet can be written: every count and length in it fits the
/// field that carries it, and a key has its 32 bytes.
pub open spec fn body_fits(packet: PacketView) -> bool {
    match packet {
        PacketView::CryptoHandshakeStart { key, .. } => key.len() == 32,
        PacketView::Login { token, .. } => string_fits(token),
        PacketView::RequestProfiles { ids } => ids.len() <= u32::MAX,
        PacketView::Voice { frames } => frames_fit(frames),
        PacketView::CryptoHandshakeResponse { key } => key.len() == 32,
        PacketView::ServerDisconnect { message } => string_fits(message),
        PacketView::LoginFailed { message } => string_fits(message),
        PacketView::PlayerProfiles { profiles } => profiles_fit(profiles),
        PacketView::VoiceBroadcast { frames, .. } => frames_fit(frames),
        _ => true,
    }
}

/// The bytes of a packet's body.
pub open spec fn ser_body(packet: PacketView) -> Seq<u8> {
    match packet {
        PacketView::Ping { id } => u32_bytes(id),
        PacketView::CryptoHandshakeStart { protocol, key } => u16_bytes(protocol) + key,
        PacketView::Keepalive => Seq::empty(),
        PacketView::Login { account_id, token } => i32_bytes(account_id) + ser_string(token),
        PacketView::Disconnect => Seq::empty(),
        PacketView::SyncIcons { icons } => ser_icons(icons),
        PacketView::RequestProfiles { ids } => ser_id_list(ids),
        PacketView::Voice { frames } => ser_frame_list(frames),
        PacketView::PingResponse { id, player_count } => u32_bytes(id) + u32_bytes(player_count),
        PacketView::CryptoHandshakeResponse { key } => key,
        PacketView::KeepaliveResponse { player_count } => u32_bytes(player_count),
        PacketView::ServerDisconnect { message } => ser_string(message),
        PacketView::LoggedIn => Seq::empty(),
        PacketView::LoginFailed { message } => ser_string(message),
        PacketView::PlayerProfiles { profiles } => ser_profile_list(profiles),
        PacketView::VoiceBroadcast { player_id, frames } => i32_bytes(player_id) + ser_frame_list(
            frames,
        ),
    }
}

proof fn lemma_parse_handshake_start(data: Seq<u8>, pos: int, protocol: u16, key: Seq<u8>)
    requires
        key.len() == 32,
        holds_at(data, pos, u16_bytes(protocol) + key),
    ensures
        parse_body(PacketKind::CryptoHandshakeStart, data, pos) == Some(
            (PacketView::CryptoHandshakeStart { protocol, key }, pos + 34),
        ),
{
    lemma_holds_split(data, pos, u16_bytes(protocol), key);
    lemma_u16_round_trip(protocol);
    lemma_parse_u16(data, pos, protocol);
    lemma_parse_bytes(data, pos + 2, key);
}

proof fn lemma_parse_login(data: Seq<u8>, pos: int, account_id: i32, token: Seq<char>)
    requires
        string_fits(token),
        holds_at(data, pos, i32_bytes(account_id) + ser_string(token)),
    ensures
        parse_body(PacketKind::Login, data, pos) == Some(
            (PacketView::Login { account_id, token }, pos + 4 + ser_string(token).len()),
        ),
{
    lemma_holds_split(data, pos, i32_bytes(account_id), ser_string(token));
    lemma_i32_round_trip(account_id);
    lemma_parse_i32(data, pos, account_id);
    lemma_parse_string(data, pos + 4, token);
}

proof fn lemma_parse_ping_response(data: Seq<u8>, pos: int, id: u32, player_count: u32)
    requires
        holds_at(data, pos, u32_bytes(id) + u32_bytes(player_count)),
    ensures
        parse_body(PacketKind::PingResponse, data, pos) == Some(
            (PacketView::PingResponse { id, player_count }, pos + 8),
        ),
{
    lemma_holds_split(data, pos, u32_bytes(id), u32_bytes(player_count));
    lemma_u32_round_trip(id);
    lemma_parse_u32(data, pos, id);
    lemma_parse_u32(data, pos + 4, player_count);
}

proof fn lemma_parse_voice_broadcast(data: Seq<u8>, pos: int, player_id: i32, frames: Seq<Seq<u8>>)
    requires
        frames_fit(frames),
        holds_at(data, pos, i32_bytes(player_id) + ser_frame_list(frames)),
    ensures
        parse_body(PacketKind::VoiceBroadcast, data, pos) == Some(
            (
                PacketView::VoiceBroadcast { player_id, frames },
                pos + 4 + ser_frame_list(frames).len(),
            ),
        ),
{
    lemma_holds_split(data, pos, i32_bytes(player_id), ser_frame_list(frames));
    lemma_i32_round_trip(player_id);
    lemma_parse_i32(data, pos, player_id);
    lemma_parse_frame_list(data, pos + 4, frames);
}

proof fn lemma_parse_sync_icons(data: Seq<u8>, pos: int, icons: PlayerIconData)
    requires
        holds_at(data, pos, ser_icons(icons)),
    ensures
        ser_icons(icons).len() == 36,
        parse_body(PacketKind::SyncIcons, data, pos) == Some(
            (PacketView::SyncIcons { icons }, pos + 36),
        ),
{
    lemma_parse_icons(data, pos, icons);
}

proof fn lemma_parse_plain_bodies(data: Seq<u8>, pos: int, packet: PacketView)
    requires
        packet is Ping || packet is Keepalive || packet is Disconnect
            || packet is CryptoHandshakeResponse || packet is KeepaliveResponse
            || packet is LoggedIn,
        body_fits(packet),
        holds_at(data, pos, ser_body(packet)),
    ensures
        parse_body(packet.kind(), data, pos) == Some((packet, pos + ser_body(packet).len())),
{
    match packet {
        PacketView::Ping { id } => {
            lemma_parse_u32(data, pos, id);
        },
        PacketView::CryptoHandshakeResponse { key } => {
            lemma_parse_bytes(data, pos, key);
        },
        PacketView::KeepaliveResponse { player_count } => {
            lemma_parse_u32(data, pos, player_count);
        },
        _ => {},
    }
}

proof fn lemma_parse_text_bodies(data: Seq<u8>, pos: int, packet: PacketView)
    requires
        packet is ServerDisconnect || packet is LoginFailed,
        body_fits(packet),
        holds_at(data, pos, ser_body(packet)),
    ensures
        parse_body(packet.kind(), data, pos) == Some((packet, pos + ser_body(packet).len())),
{
    match packet {
        PacketView::ServerDisconnect { message } => {
            lemma_parse_string(data, pos, message);
        },
        PacketView::LoginFailed { message } => {
            lemma_parse_string(data, pos, message);
        },
        _ => {},
    }
}

proof fn lemma_parse_list_bodies(data: Seq<u8>, pos: int, packet: PacketView)
    requires
        packet is RequestProfiles || packet is Voice || packet is PlayerProfiles,
        body_fits(packet),
        holds_at(data, pos, ser_body(packet)),
    ensures
        parse_body(packet.kind(), data, pos) == Some((packet, pos + ser_body(packet).len())),
{
    match packet {
        PacketView::RequestProfiles { ids } => {
            lemma_parse_id_list(data, pos, ids);
        },
        PacketView::Voice { frames } => {
            lemma_parse_frame_list(data, pos, frames);
        },
        PacketView::PlayerProfiles { profiles } => {
            lemma_parse_profile_list(data, pos, profiles);
        },
        _ => {},
    }
}

/// Reading a body where it was written gives the packet back, and ends
/// behind the last byte written.
pub proof fn lemma_parse_body(data: Seq<u8>, pos: int, packet: PacketView)
    requires
        body_fits(packet),
        holds_at(data, pos, ser_body(packet)),
    ensures
        parse_body(packet.kind(), data, pos) == Some((packet, pos + ser_body(packet).len())),
{
    match packet {
        PacketView::CryptoHandshakeStart { protocol, key } => {
            lemma_u16_round_trip(protocol);
            lemma_parse_handshake_start(data, pos, protocol, key);
        },
        PacketView::Login { account_id, token } => {
            lemma_i32_round_trip(account_id);
            lemma_parse_login(data, pos, account_id, token);
        },
        PacketView::PingResponse { id, player_count } => {
            lemma_u32_round_trip(id);
            lemma_u32_round_trip(player_count);
            lemma_parse_ping_response(data, pos, id, player_count);
        },
        PacketView::VoiceBroadcast { player_id, frames } => {
            lemma_i32_round_trip(player_id);
            lemma_parse_voice_broadcast(data, pos, player_id, frames);
        },
        PacketView::SyncIcons { icons } => {
            lemma_parse_sync_icons(data, pos, icons);
        },
        PacketView::ServerDisconnect { .. } | PacketView::LoginFailed { .. } => {
            lemma_parse_text_bodies(data, pos, packet);
        },
        PacketView::RequestProfiles { .. }
        | PacketView::Voice { .. }
        | PacketView::PlayerProfiles { .. } => {
            lemma_parse_list_bodies(data, pos, packet);
        },
        _ => {
            lemma_parse_plain_bodies(data, pos, packet);
        },
    }
}

} // verus!
