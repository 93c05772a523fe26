//! The identity service's answer to a request for boot data: a marker that
//! identifies the service, then the server-wide configuration.

use crate::body::{parse_bytes, parse_string, parse_u16, parse_u32};
use crate::body_io::read_string;
use crate::server_thread::PROTOCOL_VERSION;
use crate::wire::{
    reader_data, reader_new, reader_ok, reader_pos, reader_read_bytes, reader_read_u16,
    reader_read_u32, reader_read_u8,
};
use bytebuffer::ByteReader;
use vstd::prelude::*;

verus! {

/// The number of bytes in the marker.
pub const SERVER_MAGIC_LEN: usize = 10;

/// The marker that opens every answer of the identity service.
pub const SERVER_MAGIC: [u8; 10] = [0xdd, 0xee, 0x67, 0x6c, 0x6f, 0x62, 0x65, 0x64, 0xda, 0xee];

/// The marker as a sequence of bytes.
pub open spec fn server_magic() -> Seq<u8> {
    seq![0xdd, 0xee, 0x67, 0x6c, 0x6f, 0x62, 0x65, 0x64, 0xda, 0xee]
}

/// The configuration that the identity service hands to a game server.
#[derive(Clone, Debug, PartialEq, Eq)]
pub struct GameServerBootData {
    /// The protocol version that the identity service speaks.
    pub protocol: u16,
    /// Ticks in a second.
    pub tps: u32,
    /// Whether the service is under maintenance.
    pub maintenance: bool,
    /// The key that login tokens are signed with.
    pub secret_key2: String,
    /// How many seconds a login token stays valid.
    pub token_expiry: u64,
    /// The key that administrators authenticate with.
    pub admin_key: String,
}

/// The mathematical value of a [`GameServerBootData`].
pub struct BootDataView {
    pub protocol: u16,
    pub tps: u32,
    pub maintenance: bool,
    pub secret_key2: Seq<char>,
    pub token_expiry: u64,
    pub admin_key: Seq<char>,
}

impl View for GameServerBootData {
    type V = BootDataView;

    open spec fn view(&self) -> BootDataView {
        BootDataView {
            protocol: self.protocol,
            tps: self.tps,
            maintenance: self.maintenance,
            secret_key2: self.secret_key2@,
            token_expiry: self.token_expiry,
            admin_key: self.admin_key@,
        }
    }
}

impl Default for GameServerBootData {
    /// The configuration of a server that runs without an identity service.
    fn default() -> (data: Self)
        ensures
            data@ == (BootDataView {
                protocol: PROTOCOL_VERSION,
                tps: 30,
                maintenance: false,
                secret_key2: Seq::empty(),
                token_expiry: 0,
                admin_key: Seq::empty(),
            }),
    {
        GameServerBootData {
            protocol: PROTOCOL_VERSION,
            tps: 30,
            maintenance: false,
            secret_key2: String::new(),
            token_expiry: 0,
            admin_key: String::new(),
        }
    }
}

/// Why an answer of the identity service gives no boot data.
#[derive(Clone, Copy, Debug, PartialEq, Eq, Structural)]
pub enum BootError {
    /// The service answered with a status that is no success.
    CentralError { status: u16 },
    /// The answer does not open with the marker.
    InvalidMagic,
    /// The answer opens with the marker, and what follows is no boot data.
    MalformedData,
    /// The service speaks another protocol version than this server.
    ProtocolMismatch { protocol: u16 },
}

/// The big-endian `u64` at `pos`, and the position after it.
pub open spec fn parse_u64(data: Seq<u8>, pos: int) -> Option<(u64, int)> {
    match parse_u32(data, pos) {
        None => None,
        Some((high, p)) => match parse_u32(data, p) {
            None => None,
            Some((low, q)) => Some(((high as int * 0x1_0000_0000 + low as int) as u64, q)),
        },
    }
}

/// The configuration behind the protocol version, from `pos` on: ticks in a
/// second, maintenance flag, token key, token expiry, administrator key.
pub open spec fn parse_settings(protocol: u16, data: Seq<u8>, pos: int) -> Option<BootDataView> {
    match parse_u32(data, pos) {
        None => None,
        Some((tps, after_tps)) => match parse_bytes(data, after_tps, 1) {
            None => None,
            Some((flag, after_flag)) => match parse_string(data, after_flag) {
                None => None,
                Some((secret_key2, after_key)) => match parse_u64(data, after_key) {
                    None => None,
                    Some((token_expiry, after_expiry)) => match parse_string(data, after_expiry) {
                        None => None,
                        Some((admin_key, _)) => Some(
                            BootDataView {
                                protocol,
                                tps,
                                maintenance: flag[0] != 0,
                                secret_key2,
                                token_expiry,
                                admin_key,
                            },
                        ),
                    },
                },
            },
        }
    }
}

/// Whether a status of the identity service reports success.
pub open spec fn is_success(status: u16) -> bool {
    200 <= status < 300
}

/// What an answer of the identity service says: the boot data, or the reason
/// why there is none. A status that is no success comes first; then the
/// marker; then the protocol version, which must be this server's; then the
/// configuration.
pub open spec fn boot_response(status: u16, body: Seq<u8>) -> Result<BootDataView, BootError> {
    if !is_success(status) {
        Err(BootError::CentralError { status })
    } else if !server_magic().is_prefix_of(body) {
        Err(BootError::InvalidMagic)
    } else {
        match parse_u16(body, 10) {
            None => Err(BootError::MalformedData),
            Some((protocol, p)) => if protocol != PROTOCOL_VERSION {
                Err(BootError::ProtocolMismatch { protocol })
            } else {
                match parse_settings(protocol, body, p) {
                    None => Err(BootError::MalformedData),
                    Some(data) => Ok(data),
                }
            },
        }
    }
}

/// Whether the answer opens with the marker.
fn has_magic(body: &[u8]) -> (b: bool)
    ensures
        b == server_magic().is_prefix_of(body@),
{
    if body.len() < SERVER_MAGIC_LEN {
        return false;
    }
    let mut i: usize = 0;
    while i < SERVER_MAGIC_LEN
        invariant
            i <= 10,
            body@.len() >= 10,
            SERVER_MAGIC@ == server_magic(),
            forall|j: int| 0 <= j < i ==> body@[j] == server_magic()[j],
        decreases 10 - i,
    {
        if body[i] != SERVER_MAGIC[i] {
            proof {
                if server_magic().is_prefix_of(body@) {
                    assert(body@.subrange(0, 10)[i as int] == server_magic()[i as int]);
                }
            }
            return false;
        }
        i += 1;
    }
    assert(body@.subrange(0, 10) =~= server_magic());
    true
}

/// Reads a `u64`.
fn read_u64(r: &mut ByteReader<'_>) -> (out: Option<u64>)
    requires
        reader_ok(*old(r)),
    ensures
        reader_ok(*final(r)),
        reader_data(*final(r)) == reader_data(*old(r)),
        match out {
            Some(v) => parse_u64(reader_data(*old(r)), reader_pos(*old(r)) as int) == Some(
                (v, reader_pos(*final(r)) as int),
            ),
            None => parse_u64(reader_data(*old(r)), reader_pos(*old(r)) as int) is None,
        },
{
    let high: u32 = match reader_read_u32(r) {
        Some(v) => v,
        None => {
            return None;
        },
    };
    let low: u32 = match reader_read_u32(r) {
        Some(v) => v,
        None => {
            return None;
        },
    };
    Some(high as u64 * 0x1_0000_0000 + low as u64)
}

/// Reads the configuration behind the protocol version.
fn read_settings(protocol: u16, r: &mut ByteReader<'_>) -> (out: Option<GameServerBootData>)
    requires
        reader_ok(*old(r)),
    ensures
        match out {
            Some(data) => parse_settings(protocol, reader_data(*old(r)), reader_pos(*old(r)) as int)
                == Some(data@),
            None => parse_settings(protocol, reader_data(*old(r)), reader_pos(*old(r)) as int)
                is None,
        },
{
    let tps: u32 = match reader_read_u32(r) {
        Some(v) => v,
        None => {
            return None;
        },
    };
    let flag: u8 = match reader_read_u8(r) {
        Some(v) => v,
        None => {
            return None;
        },
    };
    let secret_key2 = match read_string(r) {
        Some(v) => v,
        None => {
            return None;
        },
    };
    let token_expiry: u64 = match read_u64(r) {
        Some(v) => v,
        None => {
            return None;
        },
    };
    let admin_key = match read_string(r) {
        Some(v) => v,
        None => {
            return None;
        },
    };
    Some(
        GameServerBootData {
            protocol,
            tps,
            maintenance: flag != 0u8,
            secret_key2,
            token_expiry,
            admin_key,
        },
    )
}

/// Reads the identity service's answer to a request for boot data, given
/// its status and its body.
pub fn read_boot_response(status: u16, body: &[u8]) -> (out: Result<GameServerBootData, BootError>)
    ensures
        match out {
            Ok(data) => boot_response(status, body@) == Ok::<BootDataView, BootError>(data@),
            Err(e) => boot_response(status, body@) == Err::<BootDataView, BootError>(e),
        },
{
    if status < 200 || status >= 300 {
        return Err(BootError::CentralError { status });
    }
    if !has_magic(body) {
        return Err(BootError::InvalidMagic);
    }
    let mut r = reader_new(body);
    match reader_read_bytes(&mut r, SERVER_MAGIC_LEN) {
        Some(_) => {},
        None => {
            return Err(BootError::InvalidMagic);
        },
    }
    let protocol: u16 = match reader_read_u16(&mut r) {
        Some(v) => v,
        None => {
            return Err(BootError::MalformedData);
        },
    };
    if protocol != PROTOCOL_VERSION {
        return Err(BootError::ProtocolMismatch { protocol });
    }
    match read_settings(protocol, &mut r) {
        Some(data) => Ok(data),
        None => Err(BootError::MalformedData),
    }
}

} // verus!
