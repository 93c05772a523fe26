//! The protocol's packets: a closed set of variants, each with a fixed packet
//! id and a fixed encryption requirement, and their mathematical views.

use vstd::prelude::*;

verus! {

/// Length of the packet header: two bytes of packet id, one byte of encryption flag.
pub const PACKET_HEADER_LEN: usize = 3;

pub const PING_ID: u16 = 10000;

pub const CRYPTO_HANDSHAKE_START_ID: u16 = 10001;

pub const KEEPALIVE_ID: u16 = 10002;

pub const LOGIN_ID: u16 = 10003;

pub const DISCONNECT_ID: u16 = 10004;

pub const SYNC_ICONS_ID: u16 = 11000;

pub const REQUEST_PROFILES_ID: u16 = 11001;

pub const VOICE_ID: u16 = 11010;

pub const PING_RESPONSE_ID: u16 = 20000;

pub const CRYPTO_HANDSHAKE_RESPONSE_ID: u16 = 20001;

pub const KEEPALIVE_RESPONSE_ID: u16 = 20002;

pub const SERVER_DISCONNECT_ID: u16 = 20003;

pub const LOGGED_IN_ID: u16 = 20004;

pub const LOGIN_FAILED_ID: u16 = 20005;

pub const PLAYER_PROFILES_ID: u16 = 21000;

pub const VOICE_BROADCAST_ID: u16 = 21010;

/// The icons and colours that a player has selected.
#[derive(Clone, Copy, Debug, PartialEq, Eq, Structural)]
pub struct PlayerIconData {
    pub cube: i32,
    pub ship: i32,
    pub ball: i32,
    pub ufo: i32,
    pub wave: i32,
    pub robot: i32,
    pub spider: i32,
    pub color1: i32,
    pub color2: i32,
}

impl Default for PlayerIconData {
    fn default() -> (icons: Self)
        ensures
            icons == PlayerIconData::initial(),
    {
        PlayerIconData {
            cube: 1,
            ship: 1,
            ball: 1,
            ufo: 1,
            wave: 1,
            robot: 1,
            spider: 1,
            color1: 0,
            color2: 0,
        }
    }
}

impl PlayerIconData {
    /// The selection of a player who has chosen nothing yet.
    pub open spec fn initial() -> Self {
        PlayerIconData {
            cube: 1,
            ship: 1,
            ball: 1,
            ufo: 1,
            wave: 1,
            robot: 1,
            spider: 1,
            color1: 0,
            color2: 0,
        }
    }
}

/// What the server knows of a logged-in player.
#[derive(Clone, Debug, PartialEq, Eq)]
pub struct PlayerAccountData {
    pub account_id: i32,
    pub name: String,
    pub icons: PlayerIconData,
}

/// The mathematical value of a [`PlayerAccountData`].
pub struct ProfileView {
    pub account_id: i32,
    pub name: Seq<char>,
    pub icons: PlayerIconData,
}

impl View for PlayerAccountData {
    type V = ProfileView;

    open spec fn view(&self) -> ProfileView {
        ProfileView { account_id: self.account_id, name: self.name@, icons: self.icons }
    }
}

impl Default for PlayerAccountData {
    fn default() -> (data: Self)
        ensures
            data@ == ProfileView::initial(),
    {
        PlayerAccountData { account_id: 0, name: String::new(), icons: PlayerIconData::default() }
    }
}

impl ProfileView {
    /// The account data of a connection that has not logged in.
    pub open spec fn initial() -> Self {
        ProfileView { account_id: 0, name: Seq::empty(), icons: PlayerIconData::initial() }
    }
}

/// The views of a vector of profiles, in order.
pub open spec fn profile_views(profiles: Seq<PlayerAccountData>) -> Seq<ProfileView> {
    Seq::new(profiles.len(), |i: int| profiles[i]@)
}

/// The contents of a vector of byte vectors, in order.
pub open spec fn frame_views(frames: Seq<Vec<u8>>) -> Seq<Seq<u8>> {
    Seq::new(frames.len(), |i: int| frames[i]@)
}

/// One voice message: a run of encoded audio frames.
#[derive(Clone, Debug, PartialEq, Eq)]
pub struct EncodedAudioFrame {
    pub opus_frames: Vec<Vec<u8>>,
}

impl View for EncodedAudioFrame {
    type V = Seq<Seq<u8>>;

    open spec fn view(&self) -> Seq<Seq<u8>> {
        frame_views(self.opus_frames@)
    }
}

/// A voice message on its way to the other peers, tagged with its sender.
#[derive(Clone, Debug, PartialEq, Eq)]
pub struct VoiceBroadcastPacket {
    pub player_id: i32,
    pub data: EncodedAudioFrame,
}

/// A decoded protocol message.
#[derive(Clone, Debug, PartialEq, Eq)]
pub enum Packet {
    Ping { id: u32 },
    CryptoHandshakeStart { protocol: u16, key: [u8; 32] },
    Keepalive,
    Login { account_id: i32, token: String },
    Disconnect,
    SyncIcons { icons: PlayerIconData },
    RequestProfiles { ids: Vec<i32> },
    Voice { data: EncodedAudioFrame },
    PingResponse { id: u32, player_count: u32 },
    CryptoHandshakeResponse { key: [u8; 32] },
    KeepaliveResponse { player_count: u32 },
    ServerDisconnect { message: String },
    LoggedIn,
    LoginFailed { message: String },
    PlayerProfiles { profiles: Vec<PlayerAccountData> },
    VoiceBroadcast(VoiceBroadcastPacket),
}

/// The mathematical value of a [`Packet`].
pub enum PacketView {
    Ping { id: u32 },
    CryptoHandshakeStart { protocol: u16, key: Seq<u8> },
    Keepalive,
    Login { account_id: i32, token: Seq<char> },
    Disconnect,
    SyncIcons { icons: PlayerIconData },
    RequestProfiles { ids: Seq<i32> },
    Voice { frames: Seq<Seq<u8>> },
    PingResponse { id: u32, player_count: u32 },
    CryptoHandshakeResponse { key: Seq<u8> },
    KeepaliveResponse { player_count: u32 },
    ServerDisconnect { message: Seq<char> },
    LoggedIn,
    LoginFailed { message: Seq<char> },
    PlayerProfiles { profiles: Seq<ProfileView> },
    VoiceBroadcast { player_id: i32, frames: Seq<Seq<u8>> },
}

impl View for Packet {
    type V = PacketView;

    open spec fn view(&self) -> PacketView {
        match self {
            Packet::Ping { id } => PacketView::Ping { id: *id },
            Packet::CryptoHandshakeStart { protocol, key } => PacketView::CryptoHandshakeStart {
                protocol: *protocol,
                key: key@,
            },
            Packet::Keepalive => PacketView::Keepalive,
            Packet::Login { account_id, token } => PacketView::Login {
                account_id: *account_id,
                token: token@,
            },
            Packet::Disconnect => PacketView::Disconnect,
            Packet::SyncIcons { icons } => PacketView::SyncIcons { icons: *icons },
            Packet::RequestProfiles { ids } => PacketView::RequestProfiles { ids: ids@ },
            Packet::Voice { data } => PacketView::Voice { frames: data@ },
            Packet::PingResponse { id, player_count } => PacketView::PingResponse {
                id: *id,
                player_count: *player_count,
            },
            Packet::CryptoHandshakeResponse { key } => PacketView::CryptoHandshakeResponse {
                key: key@,
            },
            Packet::KeepaliveResponse { player_count } => PacketView::KeepaliveResponse {
                player_count: *player_count,
            },
            Packet::ServerDisconnect { message } => PacketView::ServerDisconnect {
                message: message@,
            },
            Packet::LoggedIn => PacketView::LoggedIn,
            Packet::LoginFailed { message } => PacketView::LoginFailed { message: message@ },
            Packet::PlayerProfiles { profiles } => PacketView::PlayerProfiles {
                profiles: profile_views(profiles@),
            },
            Packet::VoiceBroadcast(packet) => PacketView::VoiceBroadcast {
                player_id: packet.player_id,
                frames: packet.data@,
            },
        }
    }
}

/// The packet types that the codec knows, one for each packet id.
#[derive(Clone, Copy, Debug, PartialEq, Eq, Structural)]
pub enum PacketKind {
    Ping,
    CryptoHandshakeStart,
    Keepalive,
    Login,
    Disconnect,
    SyncIcons,
    RequestProfiles,
    Voice,
    PingResponse,
    CryptoHandshakeResponse,
    KeepaliveResponse,
    ServerDisconnect,
    LoggedIn,
    LoginFailed,
    PlayerProfiles,
    VoiceBroadcast,
}

impl PacketKind {
    /// The packet id that stands for this type on the wire.
    pub open spec fn id(self) -> u16 {
        match self {
            PacketKind::Ping => PING_ID,
            PacketKind::CryptoHandshakeStart => CRYPTO_HANDSHAKE_START_ID,
            PacketKind::Keepalive => KEEPALIVE_ID,
            PacketKind::Login => LOGIN_ID,
            PacketKind::Disconnect => DISCONNECT_ID,
            PacketKind::SyncIcons => SYNC_ICONS_ID,
            PacketKind::RequestProfiles => REQUEST_PROFILES_ID,
            PacketKind::Voice => VOICE_ID,
            PacketKind::PingResponse => PING_RESPONSE_ID,
            PacketKind::CryptoHandshakeResponse => CRYPTO_HANDSHAKE_RESPONSE_ID,
            PacketKind::KeepaliveResponse => KEEPALIVE_RESPONSE_ID,
            PacketKind::ServerDisconnect => SERVER_DISCONNECT_ID,
            PacketKind::LoggedIn => LOGGED_IN_ID,
            PacketKind::LoginFailed => LOGIN_FAILED_ID,
            PacketKind::PlayerProfiles => PLAYER_PROFILES_ID,
            PacketKind::VoiceBroadcast => VOICE_BROADCAST_ID,
        }
    }

    /// Whether packets of this type travel sealed. Fixed for the type, not
    /// chosen for each packet.
    pub open spec fn encrypted(self) -> bool {
        self == PacketKind::Login || self == PacketKind::Voice || self
            == PacketKind::VoiceBroadcast
    }

    /// Whether the server handles packets of this type only from a peer that
    /// has logged in.
    pub open spec fn requires_auth(self) -> bool {
        self == PacketKind::Keepalive || self == PacketKind::SyncIcons || self
            == PacketKind::RequestProfiles || self == PacketKind::Voice
    }

    /// The packet type for a packet id, if there is one.
    pub open spec fn of_id(id: u16) -> Option<PacketKind> {
        if id == PING_ID {
            Some(PacketKind::Ping)
        } else if id == CRYPTO_HANDSHAKE_START_ID {
            Some(PacketKind::CryptoHandshakeStart)
        } else if id == KEEPALIVE_ID {
            Some(PacketKind::Keepalive)
        } else if id == LOGIN_ID {
            Some(PacketKind::Login)
        } else if id == DISCONNECT_ID {
            Some(PacketKind::Disconnect)
        } else if id == SYNC_ICONS_ID {
            Some(PacketKind::SyncIcons)
        } else if id == REQUEST_PROFILES_ID {
            Some(PacketKind::RequestProfiles)
        } else if id == VOICE_ID {
            Some(PacketKind::Voice)
        } else if id == PING_RESPONSE_ID {
            Some(PacketKind::PingResponse)
        } else if id == CRYPTO_HANDSHAKE_RESPONSE_ID {
            Some(PacketKind::CryptoHandshakeResponse)
        } else if id == KEEPALIVE_RESPONSE_ID {
            Some(PacketKind::KeepaliveResponse)
        } else if id == SERVER_DISCONNECT_ID {
            Some(PacketKind::ServerDisconnect)
        } else if id == LOGGED_IN_ID {
            Some(PacketKind::LoggedIn)
        } else if id == LOGIN_FAILED_ID {
            Some(PacketKind::LoginFailed)
        } else if id == PLAYER_PROFILES_ID {
            Some(PacketKind::PlayerProfiles)
        } else if id == VOICE_BROADCAST_ID {
            Some(PacketKind::VoiceBroadcast)
        } else {
            None
        }
    }

    /// The packet id of this type.
    pub fn packet_id(self) -> (id: u16)
        ensures
            id == self.id(),
    {
        match self {
            PacketKind::Ping => PING_ID,
            PacketKind::CryptoHandshakeStart => CRYPTO_HANDSHAKE_START_ID,
            PacketKind::Keepalive => KEEPALIVE_ID,
            PacketKind::Login => LOGIN_ID,
            PacketKind::Disconnect => DISCONNECT_ID,
            PacketKind::SyncIcons => SYNC_ICONS_ID,
            PacketKind::RequestProfiles => REQUEST_PROFILES_ID,
            PacketKind::Voice => VOICE_ID,
            PacketKind::PingResponse => PING_RESPONSE_ID,
            PacketKind::CryptoHandshakeResponse => CRYPTO_HANDSHAKE_RESPONSE_ID,
            PacketKind::KeepaliveResponse => KEEPALIVE_RESPONSE_ID,
            PacketKind::ServerDisconnect => SERVER_DISCONNECT_ID,
            PacketKind::LoggedIn => LOGGED_IN_ID,
            PacketKind::LoginFailed => LOGIN_FAILED_ID,
            PacketKind::PlayerProfiles => PLAYER_PROFILES_ID,
            PacketKind::VoiceBroadcast => VOICE_BROADCAST_ID,
        }
    }

    /// Whether packets of this type must travel sealed.
    pub fn is_encrypted(self) -> (b: bool)
        ensures
            b == self.encrypted(),
    {
        match self {
            PacketKind::Login | PacketKind::Voice | PacketKind::VoiceBroadcast => true,
            _ => false,
        }
    }

    /// Whether a peer must have logged in before the server handles packets
    /// of this type.
    pub fn needs_auth(self) -> (b: bool)
        ensures
            b == self.requires_auth(),
    {
        match self {
            PacketKind::Keepalive
            | PacketKind::SyncIcons
            | PacketKind::RequestProfiles
            | PacketKind::Voice => true,
            _ => false,
        }
    }
}

/// Resolves a packet id to its packet type; `None` for an id that no type has.
pub fn match_packet(id: u16) -> (kind: Option<PacketKind>)
    ensures
        kind == PacketKind::of_id(id),
{
    if id == PING_ID {
        Some(PacketKind::Ping)
    } else if id == CRYPTO_HANDSHAKE_START_ID {
        Some(PacketKind::CryptoHandshakeStart)
    } else if id == KEEPALIVE_ID {
        Some(PacketKind::Keepalive)
    } else if id == LOGIN_ID {
        Some(PacketKind::Login)
    } else if id == DISCONNECT_ID {
        Some(PacketKind::Disconnect)
    } else if id == SYNC_ICONS_ID {
        Some(PacketKind::SyncIcons)
    } else if id == REQUEST_PROFILES_ID {
        Some(PacketKind::RequestProfiles)
    } else if id == VOICE_ID {
        Some(PacketKind::Voice)
    } else if id == PING_RESPONSE_ID {
        Some(PacketKind::PingResponse)
    } else if id == CRYPTO_HANDSHAKE_RESPONSE_ID {
        Some(PacketKind::CryptoHandshakeResponse)
    } else if id == KEEPALIVE_RESPONSE_ID {
        Some(PacketKind::KeepaliveResponse)
    } else if id == SERVER_DISCONNECT_ID {
        Some(PacketKind::ServerDisconnect)
    } else if id == LOGGED_IN_ID {
        Some(PacketKind::LoggedIn)
    } else if id == LOGIN_FAILED_ID {
        Some(PacketKind::LoginFailed)
    } else if id == PLAYER_PROFILES_ID {
        Some(PacketKind::PlayerProfiles)
    } else if id == VOICE_BROADCAST_ID {
        Some(PacketKind::VoiceBroadcast)
    } else {
        None
    }
}

impl PacketView {
    /// The type of this packet.
    pub open spec fn kind(self) -> PacketKind {
        match self {
            PacketView::Ping { .. } => PacketKind::Ping,
            PacketView::CryptoHandshakeStart { .. } => PacketKind::CryptoHandshakeStart,
            PacketView::Keepalive => PacketKind::Keepalive,
            PacketView::Login { .. } => PacketKind::Login,
            PacketView::Disconnect => PacketKind::Disconnect,
            PacketView::SyncIcons { .. } => PacketKind::SyncIcons,
            PacketView::RequestProfiles { .. } => PacketKind::RequestProfiles,
            PacketView::Voice { .. } => PacketKind::Voice,
            PacketView::PingResponse { .. } => PacketKind::PingResponse,
            PacketView::CryptoHandshakeResponse { .. } => PacketKind::CryptoHandshakeResponse,
            PacketView::KeepaliveResponse { .. } => PacketKind::KeepaliveResponse,
            PacketView::ServerDisconnect { .. } => PacketKind::ServerDisconnect,
            PacketView::LoggedIn => PacketKind::LoggedIn,
            PacketView::LoginFailed { .. } => PacketKind::LoginFailed,
            PacketView::PlayerProfiles { .. } => PacketKind::PlayerProfiles,
            PacketView::VoiceBroadcast { .. } => PacketKind::VoiceBroadcast,
        }
    }
}

impl Packet {
    /// The type of this packet.
    pub fn kind(&self) -> (kind: PacketKind)
        ensures
            kind == self@.kind(),
    {
        match self {
            Packet::Ping { .. } => PacketKind::Ping,
            Packet::CryptoHandshakeStart { .. } => PacketKind::CryptoHandshakeStart,
            Packet::Keepalive => PacketKind::Keepalive,
            Packet::Login { .. } => PacketKind::Login,
            Packet::Disconnect => PacketKind::Disconnect,
            Packet::SyncIcons { .. } => PacketKind::SyncIcons,
            Packet::RequestProfiles { .. } => PacketKind::RequestProfiles,
            Packet::Voice { .. } => PacketKind::Voice,
            Packet::PingResponse { .. } => PacketKind::PingResponse,
            Packet::CryptoHandshakeResponse { .. } => PacketKind::CryptoHandshakeResponse,
            Packet::KeepaliveResponse { .. } => PacketKind::KeepaliveResponse,
            Packet::ServerDisconnect { .. } => PacketKind::ServerDisconnect,
            Packet::LoggedIn => PacketKind::LoggedIn,
            Packet::LoginFailed { .. } => PacketKind::LoginFailed,
            Packet::PlayerProfiles { .. } => PacketKind::PlayerProfiles,
            Packet::VoiceBroadcast(_) => PacketKind::VoiceBroadcast,
        }
    }

    /// The packet id of this packet.
    pub fn get_packet_id(&self) -> (id: u16)
        ensures
            id == self@.kind().id(),
    {
        self.kind().packet_id()
    }

    /// Whether this packet must travel sealed.
    pub fn get_encrypted(&self) -> (b: bool)
        ensures
            b == self@.kind().encrypted(),
    {
        self.kind().is_encrypted()
    }
}

/// Every packet type is found again from its packet id.
pub proof fn lemma_kind_of_id(kind: PacketKind)
    ensures
        PacketKind::of_id(kind.id()) == Some(kind),
{
}

} // verus!
