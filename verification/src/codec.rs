//! The packet envelope: a two-byte packet id, a one-byte encryption flag, then
//! the body in the clear or a 24-byte nonce and the sealed body.

use crate::body::{body_fits, holds_at, lemma_parse_body, parse_body, ser_body};
use crate::body_io::{read_body, write_body};
use crate::crypto::{bytes_of, CryptoSession, SessionKeys, MAX_SEALED_BODY, NONCE_SIZE};
use crate::packets::{
    lemma_kind_of_id, match_packet, Packet, PacketKind, PacketView, PACKET_HEADER_LEN,
};
use crate::wire::{
    buffer_data, buffer_into_vec, buffer_new, buffer_write_bytes, buffer_write_u16,
    buffer_write_u8, lemma_u16_round_trip, reader_len, reader_new, reader_position,
    reader_read_bytes, reader_read_u16, reader_read_u8, u16_bytes, u16_value,
};
use vstd::prelude::*;

verus! {

/// Why a message could not be decoded, or a packet not encoded.
#[derive(Clone, Copy, Debug, PartialEq, Eq, Structural)]
pub enum CodecError {
    /// The message is shorter than the packet header.
    ShortHeader,
    /// No packet type has this packet id.
    UnknownPacketId { id: u16 },
    /// The packet type must travel sealed, and the message came in the clear.
    CleartextViolation,
    /// The body does not follow the wire format of its packet type, or a
    /// packet holds a count or length that the wire format cannot carry.
    MalformedBody,
    /// The message is sealed, or the packet must be, and no session is established.
    NoSession,
    /// The sealed part is shorter than a nonce, longer than the cipher
    /// opens, or fails authentication.
    DecryptionFailed,
    /// The body is longer than the cipher seals.
    EncryptionFailed,
}

/// The session behind an optional reference.
pub open spec fn session_of(session: Option<&CryptoSession>) -> Option<SessionKeys> {
    match session {
        Some(s) => Some(s@),
        None => None,
    }
}

/// The encryption flag as a byte.
pub open spec fn flag_byte(encrypted: bool) -> u8 {
    if encrypted {
        1u8
    } else {
        0u8
    }
}

/// The header of a packet of type `kind`.
pub open spec fn header(kind: PacketKind) -> Seq<u8> {
    u16_bytes(kind.id()).push(flag_byte(kind.encrypted()))
}

/// The envelope of a sealed body.
pub open spec fn sealed_frame(kind: PacketKind, nonce: Seq<u8>, sealed: Seq<u8>) -> Seq<u8> {
    header(kind) + nonce + sealed
}

/// How many bytes stand round the body of a packet of type `kind`: the
/// header, and for a sealed packet the nonce and the tag as well.
pub open spec fn envelope_len(kind: PacketKind) -> int {
    if kind.encrypted() {
        43
    } else {
        3
    }
}

/// Whether a packet is encoded with this session: it fits the wire format,
/// and, where it travels sealed, there is a session and its body is no longer
/// than the cipher seals.
pub open spec fn can_encode(packet: PacketView, session: Option<SessionKeys>) -> bool {
    if !packet.kind().encrypted() {
        body_fits(packet)
    } else {
        session is Some && body_fits(packet) && ser_body(packet).len() <= MAX_SEALED_BODY
    }
}

/// What encoding a packet gives: the bytes, or the reason why there are none.
/// A packet that travels in the clear needs no session; one that travels
/// sealed is sealed under `session` with `nonce`, and a body longer than the
/// cipher seals gives `EncryptionFailed`.
pub open spec fn spec_encode(
    packet: PacketView,
    session: Option<SessionKeys>,
    nonce: Seq<u8>,
) -> Result<Seq<u8>, CodecError> {
    let kind = packet.kind();
    if !kind.encrypted() {
        if body_fits(packet) {
            Ok(header(kind) + ser_body(packet))
        } else {
            Err(CodecError::MalformedBody)
        }
    } else {
        match session {
            None => Err(CodecError::NoSession),
            Some(s) => if !body_fits(packet) {
                Err(CodecError::MalformedBody)
            } else {
                match s.sealed(nonce, ser_body(packet)) {
                    Some(sealed) => Ok(sealed_frame(kind, nonce, sealed)),
                    None => Err(CodecError::EncryptionFailed),
                }
            },
        }
    }
}

/// What the body of a sealed message decodes to, given what the cipher
/// opened it to.
pub open spec fn spec_decode_opened(kind: PacketKind, opened: Option<Seq<u8>>) -> Result<
    PacketView,
    CodecError,
> {
    match opened {
        None => Err(CodecError::DecryptionFailed),
        Some(plain) => match parse_body(kind, plain, 0) {
            Some((packet, _)) => Ok(packet),
            None => Err(CodecError::MalformedBody),
        },
    }
}

/// What decoding a message gives: the packet, or the reason why there is none.
pub open spec fn spec_decode(bytes: Seq<u8>, session: Option<SessionKeys>) -> Result<
    PacketView,
    CodecError,
> {
    if bytes.len() < 3 {
        Err(CodecError::ShortHeader)
    } else {
        let id = u16_value(bytes);
        let encrypted = bytes[2] != 0;
        match PacketKind::of_id(id) {
            None => Err(CodecError::UnknownPacketId { id }),
            Some(kind) => if kind.encrypted() && !encrypted {
                Err(CodecError::CleartextViolation)
            } else if !encrypted {
                match parse_body(kind, bytes, 3) {
                    Some((packet, _)) => Ok(packet),
                    None => Err(CodecError::MalformedBody),
                }
            } else {
                match session {
                    None => Err(CodecError::NoSession),
                    Some(s) => if bytes.len() < 27 {
                        Err(CodecError::DecryptionFailed)
                    } else {
                        spec_decode_opened(
                            kind,
                            s.opened(bytes.subrange(3, 27), bytes.subrange(27, bytes.len() as int)),
                        )
                    },
                }
            },
        }
    }
}

/// Whether an executable result stands for a specified one.
pub open spec fn decoded_as(
    out: Result<Packet, CodecError>,
    expected: Result<PacketView, CodecError>,
) -> bool {
    match out {
        Ok(packet) => expected == Ok::<PacketView, CodecError>(packet@),
        Err(e) => expected == Err::<PacketView, CodecError>(e),
    }
}

/// Whether an executable result stands for a specified one.
pub open spec fn encoded_as(
    out: Result<Vec<u8>, CodecError>,
    expected: Result<Seq<u8>, CodecError>,
) -> bool {
    match out {
        Ok(bytes) => expected == Ok::<Seq<u8>, CodecError>(bytes@),
        Err(e) => expected == Err::<Seq<u8>, CodecError>(e),
    }
}

/// A packet that travels in the clear, once encoded, decodes to itself,
/// whatever session the decoder has.
pub proof fn lemma_cleartext_round_trip(
    packet: PacketView,
    encoder: Option<SessionKeys>,
    nonce: Seq<u8>,
    decoder: Option<SessionKeys>,
)
    requires
        !packet.kind().encrypted(),
        body_fits(packet),
    ensures
        spec_encode(packet, encoder, nonce) == Ok::<Seq<u8>, CodecError>(
            header(packet.kind()) + ser_body(packet),
        ),
        spec_decode(header(packet.kind()) + ser_body(packet), decoder) == Ok::<
            PacketView,
            CodecError,
        >(packet),
{
    let kind = packet.kind();
    let bytes = header(kind) + ser_body(packet);
    lemma_u16_round_trip(kind.id());
    lemma_kind_of_id(kind);
    assert(bytes[0] == u16_bytes(kind.id())[0]);
    assert(bytes[1] == u16_bytes(kind.id())[1]);
    assert(bytes[2] == 0);
    assert(bytes.subrange(3, 3 + ser_body(packet).len() as int) =~= ser_body(packet));
    lemma_parse_body(bytes, 3, packet);
}

/// A sealed packet, once encoded, decodes to itself under a session that
/// opens what the encoder's session sealed.
pub proof fn lemma_sealed_round_trip(
    packet: PacketView,
    encoder: SessionKeys,
    nonce: Seq<u8>,
    decoder: SessionKeys,
)
    requires
        body_fits(packet),
        nonce.len() == 24,
        packet.kind().encrypted(),
        encoder.sealed(nonce, ser_body(packet)) matches Some(sealed) && decoder.opened(
            nonce,
            sealed,
        ) == Some(ser_body(packet)),
    ensures
        spec_encode(packet, Some(encoder), nonce) matches Ok(bytes) && spec_decode(
            bytes,
            Some(decoder),
        ) == Ok::<PacketView, CodecError>(packet),
{
    let kind = packet.kind();
    let sealed = encoder.sealed(nonce, ser_body(packet))->0;
    lemma_frame_opens(kind, nonce, sealed);
    assert(holds_at(ser_body(packet), 0, ser_body(packet))) by {
        assert(ser_body(packet).subrange(0, ser_body(packet).len() as int) =~= ser_body(packet));
    }
    lemma_parse_body(ser_body(packet), 0, packet);
}

/// A sealed frame that the decoder's session does not open decodes to
/// `DecryptionFailed`, whatever it holds.
pub proof fn lemma_unopened_frame_fails(
    kind: PacketKind,
    nonce: Seq<u8>,
    sealed: Seq<u8>,
    decoder: SessionKeys,
)
    requires
        nonce.len() == 24,
        kind.encrypted(),
        decoder.opened(nonce, sealed) is None,
    ensures
        spec_decode(sealed_frame(kind, nonce, sealed), Some(decoder)) == Err::<
            PacketView,
            CodecError,
        >(CodecError::DecryptionFailed),
{
    lemma_frame_opens(kind, nonce, sealed);
}

/// A sealed frame is read back as what it was made of: its packet type, its
/// nonce and its sealed body.
pub proof fn lemma_frame_opens(kind: PacketKind, nonce: Seq<u8>, sealed: Seq<u8>)
    requires
        nonce.len() == 24,
        kind.encrypted(),
    ensures
        forall|s: SessionKeys|
            #[trigger] spec_decode(sealed_frame(kind, nonce, sealed), Some(s))
                == spec_decode_opened(kind, s.opened(nonce, sealed)),
{
    let bytes = sealed_frame(kind, nonce, sealed);
    lemma_u16_round_trip(kind.id());
    lemma_kind_of_id(kind);
    assert(bytes[0] == u16_bytes(kind.id())[0]);
    assert(bytes[1] == u16_bytes(kind.id())[1]);
    assert(bytes[2] == 1);
    assert(bytes.subrange(3, 27) =~= nonce);
    assert(bytes.subrange(27, bytes.len() as int) =~= sealed);
}

/// Puts a sealed body into its envelope; `sealed` is what the cipher gave
/// for the body.
pub fn frame_sealed(kind: PacketKind, nonce: &[u8; 24], sealed: Option<Vec<u8>>) -> (out: Result<
    Vec<u8>,
    CodecError,
>)
    ensures
        match sealed {
            Some(body) => out matches Ok(bytes) && bytes@ == sealed_frame(kind, nonce@, body@),
            None => out == Err::<Vec<u8>, CodecError>(CodecError::EncryptionFailed),
        },
{
    match sealed {
        None => Err(CodecError::EncryptionFailed),
        Some(body) => {
            let mut buf = buffer_new();
            buffer_write_u16(&mut buf, kind.packet_id());
            buffer_write_u8(&mut buf, if kind.is_encrypted() {
                1u8
            } else {
                0u8
            });
            buffer_write_bytes(&mut buf, nonce.as_slice());
            buffer_write_bytes(&mut buf, body.as_slice());
            assert(buffer_data(buf) =~= sealed_frame(kind, nonce@, body@));
            Ok(buffer_into_vec(buf))
        },
    }
}

/// Encodes a packet: packet id, encryption flag, then the body, in the clear
/// or sealed under `session` with `nonce`, as the packet's type demands.
///
/// Fails with `NoSession` where the packet must be sealed and there is no
/// session, with `MalformedBody` where the packet does not fit the wire
/// format, and with `EncryptionFailed` where the body is longer than the
/// cipher seals; it succeeds on every other packet. A sealed packet comes out
/// 43 bytes longer than its body: header, nonce and tag. What comes out
/// decodes to the packet again under the same session.
pub fn encode(packet: &Packet, session: Option<&CryptoSession>, nonce: &[u8; 24]) -> (out: Result<
    Vec<u8>,
    CodecError,
>)
    ensures
        encoded_as(out, spec_encode(packet@, session_of(session), nonce@)),
        out is Ok <==> can_encode(packet@, session_of(session)),
        out matches Ok(bytes) ==> bytes@.len() == ser_body(packet@).len() + envelope_len(
            packet@.kind(),
        ),
        out matches Ok(bytes) ==> spec_decode(bytes@, session_of(session)) == Ok::<
            PacketView,
            CodecError,
        >(packet@),
{
    let kind = packet.kind();
    if !kind.is_encrypted() {
        let mut buf = buffer_new();
        buffer_write_u16(&mut buf, kind.packet_id());
        buffer_write_u8(&mut buf, 0u8);
        let ghost head = buffer_data(buf);
        if !write_body(&mut buf, packet) {
            return Err(CodecError::MalformedBody);
        }
        proof {
            assert(head =~= header(kind));
            lemma_cleartext_round_trip(packet@, session_of(session), nonce@, session_of(session));
        }
        return Ok(buffer_into_vec(buf));
    }
    let keys = match session {
        Some(s) => s,
        None => {
            return Err(CodecError::NoSession);
        },
    };
    let mut scratch = buffer_new();
    if !write_body(&mut scratch, packet) {
        return Err(CodecError::MalformedBody);
    }
    let body = buffer_into_vec(scratch);
    assert(body@ =~= ser_body(packet@));
    let sealed = keys.seal(nonce, body.as_slice());
    proof {
        if sealed is Some {
            lemma_sealed_round_trip(packet@, keys@, nonce@, keys@);
        }
    }
    frame_sealed(kind, nonce, sealed)
}

/// Decodes the body of a sealed message of type `kind`; `opened` is what the
/// cipher gave for the sealed bytes. Fails with `DecryptionFailed` where the
/// cipher gave nothing, and with `MalformedBody` where the plaintext is no
/// body of that type.
pub fn decode_opened(kind: PacketKind, opened: Option<Vec<u8>>) -> (out: Result<Packet, CodecError>)
    ensures
        decoded_as(out, spec_decode_opened(kind, bytes_of(opened))),
{
    match opened {
        None => Err(CodecError::DecryptionFailed),
        Some(plain) => {
            let mut r = reader_new(plain.as_slice());
            match read_body(kind, &mut r) {
                Some(packet) => Ok(packet),
                None => Err(CodecError::MalformedBody),
            }
        },
    }
}

/// The 24 bytes of a vector as a nonce.
fn nonce_from(bytes: &Vec<u8>) -> (nonce: [u8; 24])
    requires
        bytes@.len() == 24,
    ensures
        nonce@ == bytes@,
{
    let mut nonce: [u8; 24] = [0u8; 24];
    let mut i: usize = 0;
    while i < 24
        invariant
            i <= 24,
            bytes@.len() == 24,
            forall|j: int| 0 <= j < i ==> nonce@[j] == bytes@[j],
        decreases 24 - i,
    {
        nonce[i] = bytes[i];
        i += 1;
    }
    assert(nonce@ =~= bytes@);
    nonce
}

/// Decodes a message.
///
/// Fails with `ShortHeader` where the message has fewer than three bytes,
/// with `UnknownPacketId` where no packet type has its id, with
/// `CleartextViolation` where the type must be sealed and the flag says it is
/// not, with `MalformedBody` where the body is none of its type, with
/// `NoSession` where the message is sealed and there is no session, and with
/// `DecryptionFailed` where the sealed part is shorter than a nonce, longer
/// than the cipher opens, or does not open. Any flag byte but 0 means sealed.
pub fn decode(message: &[u8], session: Option<&CryptoSession>) -> (out: Result<Packet, CodecError>)
    ensures
        decoded_as(out, spec_decode(message@, session_of(session))),
{
    if message.len() < PACKET_HEADER_LEN {
        return Err(CodecError::ShortHeader);
    }
    let mut r = reader_new(message);
    assert(message@.skip(0) =~= message@);
    let id: u16 = match reader_read_u16(&mut r) {
        Some(v) => v,
        None => {
            return Err(CodecError::ShortHeader);
        },
    };
    let flag: u8 = match reader_read_u8(&mut r) {
        Some(v) => v,
        None => {
            return Err(CodecError::ShortHeader);
        },
    };
    let encrypted = flag != 0u8;
    let kind = match match_packet(id) {
        Some(k) => k,
        None => {
            return Err(CodecError::UnknownPacketId { id });
        },
    };
    if kind.is_encrypted() && !encrypted {
        return Err(CodecError::CleartextViolation);
    }
    if !encrypted {
        return match read_body(kind, &mut r) {
            Some(packet) => Ok(packet),
            None => Err(CodecError::MalformedBody),
        };
    }
    let keys = match session {
        Some(s) => s,
        None => {
            return Err(CodecError::NoSession);
        },
    };
    let remaining: usize = reader_len(&r) - reader_position(&r);
    if remaining < NONCE_SIZE {
        return Err(CodecError::DecryptionFailed);
    }
    let nonce_bytes = match reader_read_bytes(&mut r, NONCE_SIZE) {
        Some(v) => v,
        None => {
            return Err(CodecError::DecryptionFailed);
        },
    };
    let sealed = match reader_read_bytes(&mut r, remaining - NONCE_SIZE) {
        Some(v) => v,
        None => {
            return Err(CodecError::DecryptionFailed);
        },
    };
    let nonce = nonce_from(&nonce_bytes);
    let opened = keys.open(&nonce, sealed.as_slice());
    decode_opened(kind, opened)
}

} // verus!
