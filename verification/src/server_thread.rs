//! The connection actor: the state of one peer's connection and what it does
//! with each message. The actor decides; the server around it waits on the
//! queue, talks to the network and the identity service, and reports back.

use crate::body::ser_body;
use crate::codec::{
    can_encode, decode, decoded_as, encode, encoded_as, envelope_len, sealed_frame, session_of,
    spec_decode, spec_encode, CodecError,
};
use crate::crypto::{box_public_key, public_key_of, random_nonce, CryptoSession, SessionKeys};
use crate::limiter::{
    elapsed_millis, frame_bytes, millis_between, total_len, voice_allowed, within_limit,
};
use crate::packets::{
    EncodedAudioFrame, Packet, PacketView, PlayerAccountData, PlayerIconData, ProfileView,
    VoiceBroadcastPacket,
};
use crate::text::{
    accepts_login, login_failed_message, login_failed_text, not_logged_in_message,
    not_logged_in_text, outdated_client_message, outdated_client_text, outdated_server_message,
    outdated_server_text, read_login_response, verified_name, LoginVerdict,
};
use vstd::prelude::*;

verus! {

/// The protocol version that this server speaks.
pub const PROTOCOL_VERSION: u16 = 1;

/// How many seconds a connection may stay silent before its actor ends.
pub const IDLE_TIMEOUT_SECS: u64 = 60;

/// How many undelivered messages the queue of one actor holds.
pub const QUEUE_CAPACITY: usize = 8;

/// The network address of a peer.
#[derive(Clone, Copy, Debug, PartialEq, Eq)]
pub struct PeerAddress {
    pub ip: [u8; 4],
    pub port: u16,
}

/// Where an actor stands in its life. It only ever moves forward.
#[derive(Clone, Copy, Debug, PartialEq, Eq, Structural)]
pub enum ThreadState {
    Running,
    Terminating,
    Terminated,
}

/// What the queue of an actor carries.
#[derive(Clone, Debug, PartialEq, Eq)]
pub enum ServerThreadMessage {
    /// Bytes that came from the peer, to be decoded and handled.
    Packet(Vec<u8>),
    /// A voice packet of another peer, to be sent to this one as it is.
    BroadcastVoice(VoiceBroadcastPacket),
}

/// The mathematical value of a [`ServerThreadMessage`].
pub enum MessageView {
    Packet(Seq<u8>),
    BroadcastVoice { player_id: i32, frames: Seq<Seq<u8>> },
}

impl View for ServerThreadMessage {
    type V = MessageView;

    open spec fn view(&self) -> MessageView {
        match self {
            ServerThreadMessage::Packet(bytes) => MessageView::Packet(bytes@),
            ServerThreadMessage::BroadcastVoice(packet) => MessageView::BroadcastVoice {
                player_id: packet.player_id,
                frames: packet.data@,
            },
        }
    }
}

/// What the server knows at the moment it hands a message to an actor.
#[derive(Clone, Copy, Debug)]
pub struct ServerContext {
    /// The number of players logged in on the whole server.
    pub player_count: u32,
    /// The server's static secret key.
    pub secret_key: [u8; 32],
    /// The time, in nanoseconds since the epoch.
    pub now: u128,
    /// Whether the peer's account is barred from voice chat.
    pub chat_blocked: bool,
}

/// Work that an actor asks the server to do for it.
#[derive(Clone, Debug, PartialEq, Eq)]
pub enum Request {
    /// Nothing.
    Nothing,
    /// Ask the identity service whether the token belongs to the account,
    /// and hand its answer to [`GameServerThread::complete_login`].
    VerifyLogin { account_id: i32, token: String },
    /// Look up the profiles of these accounts and send them to the peer.
    GatherProfiles { ids: Vec<i32> },
    /// Relay this voice packet to the other peers.
    BroadcastVoice(VoiceBroadcastPacket),
    /// Count one more player as logged in.
    PlayerJoined,
}

/// The mathematical value of a [`Request`].
pub enum RequestView {
    Nothing,
    VerifyLogin { account_id: i32, token: Seq<char> },
    GatherProfiles { ids: Seq<i32> },
    BroadcastVoice { player_id: i32, frames: Seq<Seq<u8>> },
    PlayerJoined,
}

impl View for Request {
    type V = RequestView;

    open spec fn view(&self) -> RequestView {
        match self {
            Request::Nothing => RequestView::Nothing,
            Request::VerifyLogin { account_id, token } => RequestView::VerifyLogin {
                account_id: *account_id,
                token: token@,
            },
            Request::GatherProfiles { ids } => RequestView::GatherProfiles { ids: ids@ },
            Request::BroadcastVoice(packet) => RequestView::BroadcastVoice {
                player_id: packet.player_id,
                frames: packet.data@,
            },
            Request::PlayerJoined => RequestView::PlayerJoined,
        }
    }
}

/// What an actor answers to a message: a packet for the peer, and work for
/// the server.
#[derive(Clone, Debug, PartialEq, Eq)]
pub struct Response {
    pub reply: Option<Packet>,
    pub request: Request,
}

/// The mathematical value of a [`Response`].
pub struct ResponseView {
    pub reply: Option<PacketView>,
    pub request: RequestView,
}

impl View for Response {
    type V = ResponseView;

    open spec fn view(&self) -> ResponseView {
        ResponseView {
            reply: match self.reply {
                Some(packet) => Some(packet@),
                None => None,
            },
            request: self.request@,
        }
    }
}

impl ResponseView {
    /// No packet for the peer and no work for the server.
    pub open spec fn nothing() -> Self {
        ResponseView { reply: None, request: RequestView::Nothing }
    }

    /// A packet for the peer and no work for the server.
    pub open spec fn reply(packet: PacketView) -> Self {
        ResponseView { reply: Some(packet), request: RequestView::Nothing }
    }

    /// No packet for the peer, and work for the server.
    pub open spec fn request(request: RequestView) -> Self {
        ResponseView { reply: None, request }
    }

    /// The reply to a peer that asks for a protected service before it has
    /// logged in.
    pub open spec fn not_logged_in() -> Self {
        ResponseView::reply(PacketView::ServerDisconnect { message: not_logged_in_text() })
    }
}

/// Why a packet could not be handled.
#[derive(Clone, Copy, Debug, PartialEq, Eq, Structural)]
pub enum HandlerError {
    /// The peer started a handshake on a connection that has a session.
    DuplicateHandshake,
    /// The server handles no packets of this type.
    NoHandler { id: u16 },
    /// The time given lies before the previous voice packet.
    ClockWentBackwards,
}

/// Why a message came to nothing.
#[derive(Clone, Copy, Debug, PartialEq, Eq, Structural)]
pub enum ThreadError {
    /// The bytes are no packet.
    Parse(CodecError),
    /// The packet could not be handled.
    Handle(HandlerError),
}

/// What the message loop does next.
#[derive(Clone, Copy, Debug, PartialEq, Eq, Structural)]
pub enum LoopStep {
    /// Wait for the next message, this many seconds at most.
    Wait { timeout_secs: u64 },
    /// Leave the loop: the actor has ended.
    Exit,
}

/// What a wait on the queue ended with.
#[derive(Clone, Debug, PartialEq, Eq)]
pub enum QueueEvent {
    /// A message arrived.
    Message(ServerThreadMessage),
    /// Every sender is gone.
    Closed,
    /// The wait ran out.
    TimedOut,
}

/// The mathematical value of an actor.
pub struct ThreadView {
    pub peer: PeerAddress,
    pub state: ThreadState,
    pub authenticated: bool,
    pub account_id: i32,
    pub account_data: ProfileView,
    pub session: Option<SessionKeys>,
    pub last_voice_packet: nat,
}

/// An actor's next state, and its answer or the reason why there is none.
pub struct Reaction {
    pub state: ThreadView,
    pub result: Result<ResponseView, HandlerError>,
}

impl ThreadView {
    /// An actor as it is created: running, not logged in, without a session.
    pub open spec fn initial(peer: PeerAddress, now: nat) -> Self {
        ThreadView {
            peer,
            state: ThreadState::Running,
            authenticated: false,
            account_id: 0,
            account_data: ProfileView::initial(),
            session: None,
            last_voice_packet: now,
        }
    }

    /// What holds of every actor: the account data carries the actor's
    /// account id, and an actor whose peer has not logged in has no account
    /// id and no account data but the initial.
    pub open spec fn well_formed(self) -> bool {
        &&& self.account_data.account_id == self.account_id
        &&& !self.authenticated ==> self.account_id == 0 && self.account_data
            == ProfileView::initial()
    }

    /// This actor after a request to end: a running actor is ending, any
    /// other is as it was.
    pub open spec fn ending(self) -> Self {
        ThreadView {
            state: if self.state == ThreadState::Running {
                ThreadState::Terminating
            } else {
                self.state
            },
            ..self
        }
    }

    /// This actor after its loop has exited.
    pub open spec fn ended(self) -> Self {
        ThreadView { state: ThreadState::Terminated, ..self }
    }

    /// How far an actor has come in its life.
    pub open spec fn age(self) -> int {
        match self.state {
            ThreadState::Running => 0,
            ThreadState::Terminating => 1,
            ThreadState::Terminated => 2,
        }
    }

    /// Whether `self` can be a later state of `earlier`: the peer is the
    /// same, life has not gone backwards, a login is not undone, an account
    /// id once set is kept, and a session once established is kept.
    pub open spec fn follows(self, earlier: ThreadView) -> bool {
        &&& self.peer == earlier.peer
        &&& earlier.age() <= self.age()
        &&& earlier.authenticated ==> self.authenticated
        &&& earlier.account_id != 0 ==> self.account_id == earlier.account_id
        &&& earlier.session is Some ==> self.session == earlier.session
    }

    /// The answer to a ping: the id given, and the number of players.
    pub open spec fn on_ping(self, id: u32, ctx: ServerContext) -> Reaction {
        Reaction {
            state: self,
            result: Ok(
                ResponseView::reply(
                    PacketView::PingResponse { id, player_count: ctx.player_count },
                ),
            ),
        }
    }

    /// The handshake. A peer with another protocol version is told so and the
    /// actor is ending. With the same version, a first handshake establishes
    /// the session and is answered with the server's public key; a later one
    /// is an error and changes nothing.
    pub open spec fn on_handshake(
        self,
        protocol: u16,
        key: Seq<u8>,
        ctx: ServerContext,
    ) -> Reaction {
        if protocol > PROTOCOL_VERSION {
            Reaction {
                state: self.ending(),
                result: Ok(
                    ResponseView::reply(
                        PacketView::ServerDisconnect {
                            message: outdated_server_text(protocol, PROTOCOL_VERSION),
                        },
                    ),
                ),
            }
        } else if protocol < PROTOCOL_VERSION {
            Reaction {
                state: self.ending(),
                result: Ok(
                    ResponseView::reply(
                        PacketView::ServerDisconnect {
                            message: outdated_client_text(protocol, PROTOCOL_VERSION),
                        },
                    ),
                ),
            }
        } else if self.session is Some {
            Reaction { state: self, result: Err(HandlerError::DuplicateHandshake) }
        } else {
            Reaction {
                state: ThreadView {
                    session: Some(
                        SessionKeys { peer_public_key: key, server_secret_key: ctx.secret_key@ },
                    ),
                    ..self
                },
                result: Ok(
                    ResponseView::reply(
                        PacketView::CryptoHandshakeResponse {
                            key: box_public_key(ctx.secret_key@),
                        },
                    ),
                ),
            }
        }
    }

    /// The answer to a keepalive: the number of players.
    pub open spec fn on_keepalive(self, ctx: ServerContext) -> Reaction {
        if !self.authenticated {
            Reaction { state: self, result: Ok(ResponseView::not_logged_in()) }
        } else {
            Reaction {
                state: self,
                result: Ok(
                    ResponseView::reply(
                        PacketView::KeepaliveResponse { player_count: ctx.player_count },
                    ),
                ),
            }
        }
    }

    /// A login changes nothing by itself: the identity service is to be asked.
    pub open spec fn on_login(self, account_id: i32, token: Seq<char>) -> Reaction {
        Reaction {
            state: self,
            result: Ok(ResponseView::request(RequestView::VerifyLogin { account_id, token })),
        }
    }

    /// The identity service's answer to a login. An answer that accepts logs
    /// the peer in under the name given, sets the account id if none is set,
    /// and counts one more player; any other answer is passed on to the peer
    /// and the actor is ending.
    pub open spec fn on_login_response(self, account_id: i32, response: Seq<char>) -> (
        ThreadView,
        ResponseView,
    ) {
        if !accepts_login(response) {
            (
                self.ending(),
                ResponseView::reply(
                    PacketView::LoginFailed { message: login_failed_text(response) },
                ),
            )
        } else {
            let kept_id = if self.account_id == 0 {
                account_id
            } else {
                self.account_id
            };
            (
                ThreadView {
                    authenticated: true,
                    account_id: kept_id,
                    account_data: ProfileView {
                        account_id: kept_id,
                        name: verified_name(response),
                        icons: self.account_data.icons,
                    },
                    ..self
                },
                ResponseView {
                    reply: Some(PacketView::LoggedIn),
                    request: RequestView::PlayerJoined,
                },
            )
        }
    }

    /// A disconnect: the actor is ending, and nothing is answered.
    pub open spec fn on_disconnect(self) -> Reaction {
        Reaction { state: self.ending(), result: Ok(ResponseView::nothing()) }
    }

    /// New icons replace the stored ones; nothing is answered.
    pub open spec fn on_sync_icons(self, icons: PlayerIconData) -> Reaction {
        if !self.authenticated {
            Reaction { state: self, result: Ok(ResponseView::not_logged_in()) }
        } else {
            Reaction {
                state: ThreadView {
                    account_data: ProfileView { icons, ..self.account_data },
                    ..self
                },
                result: Ok(ResponseView::nothing()),
            }
        }
    }

    /// A request for profiles is passed on to the server.
    pub open spec fn on_request_profiles(self, ids: Seq<i32>) -> Reaction {
        if !self.authenticated {
            Reaction { state: self, result: Ok(ResponseView::not_logged_in()) }
        } else {
            Reaction {
                state: self,
                result: Ok(ResponseView::request(RequestView::GatherProfiles { ids })),
            }
        }
    }

    /// A voice packet. From an account barred from voice chat it is dropped
    /// and nothing changes. Otherwise the time of the last voice packet
    /// becomes now, and the packet is relayed under the sender's account id
    /// if it stays within the limit, and dropped if not. Nothing is answered
    /// either way.
    pub open spec fn on_voice(self, frames: Seq<Seq<u8>>, ctx: ServerContext) -> Reaction {
        if !self.authenticated {
            Reaction { state: self, result: Ok(ResponseView::not_logged_in()) }
        } else if ctx.chat_blocked {
            Reaction { state: self, result: Ok(ResponseView::nothing()) }
        } else if ctx.now < self.last_voice_packet {
            Reaction { state: self, result: Err(HandlerError::ClockWentBackwards) }
        } else {
            let state = ThreadView { last_voice_packet: ctx.now as nat, ..self };
            if within_limit(
                total_len(frames),
                elapsed_millis(self.last_voice_packet, ctx.now as nat),
            ) {
                Reaction {
                    state,
                    result: Ok(
                        ResponseView::request(
                            RequestView::BroadcastVoice { player_id: self.account_id, frames },
                        ),
                    ),
                }
            } else {
                Reaction { state, result: Ok(ResponseView::nothing()) }
            }
        }
    }

    /// What an actor does with a packet.
    pub open spec fn on_packet(self, packet: PacketView, ctx: ServerContext) -> Reaction {
        match packet {
            PacketView::Ping { id } => self.on_ping(id, ctx),
            PacketView::CryptoHandshakeStart { protocol, key } => self.on_handshake(
                protocol,
                key,
                ctx,
            ),
            PacketView::Keepalive => self.on_keepalive(ctx),
            PacketView::Login { account_id, token } => self.on_login(account_id, token),
            PacketView::Disconnect => self.on_disconnect(),
            PacketView::SyncIcons { icons } => self.on_sync_icons(icons),
            PacketView::RequestProfiles { ids } => self.on_request_profiles(ids),
            PacketView::Voice { frames } => self.on_voice(frames, ctx),
            _ => Reaction {
                state: self,
                result: Err(HandlerError::NoHandler { id: packet.kind().id() }),
            },
        }
    }

    /// What an actor does with a message from its queue: bytes from the peer
    /// are decoded and handled; a voice packet of another peer is the reply.
    pub open spec fn on_message(self, message: MessageView, ctx: ServerContext) -> (
        ThreadView,
        Result<ResponseView, ThreadError>,
    ) {
        match message {
            MessageView::Packet(bytes) => match spec_decode(bytes, self.session) {
                Err(e) => (self, Err(ThreadError::Parse(e))),
                Ok(packet) => {
                    let reaction = self.on_packet(packet, ctx);
                    (
                        reaction.state,
                        match reaction.result {
                            Ok(response) => Ok(response),
                            Err(e) => Err(ThreadError::Handle(e)),
                        },
                    )
                },
            },
            MessageView::BroadcastVoice { player_id, frames } => (
                self,
                Ok(ResponseView::reply(PacketView::VoiceBroadcast { player_id, frames })),
            ),
        }
    }
}

/// Whether an executable answer stands for a specified one.
pub open spec fn answered_as(
    out: Result<Response, HandlerError>,
    expected: Result<ResponseView, HandlerError>,
) -> bool {
    match out {
        Ok(response) => expected == Ok::<ResponseView, HandlerError>(response@),
        Err(e) => expected == Err::<ResponseView, HandlerError>(e),
    }
}

/// Whether an executable answer stands for a specified one.
pub open spec fn handled_as(
    out: Result<Response, ThreadError>,
    expected: Result<ResponseView, ThreadError>,
) -> bool {
    match out {
        Ok(response) => expected == Ok::<ResponseView, ThreadError>(response@),
        Err(e) => expected == Err::<ResponseView, ThreadError>(e),
    }
}

/// The actor of one connection.
pub struct GameServerThread {
    peer: PeerAddress,
    state: ThreadState,
    authenticated: bool,
    account_id: i32,
    account_data: PlayerAccountData,
    crypto_box: Option<CryptoSession>,
    last_voice_packet: u128,
}

impl View for GameServerThread {
    type V = ThreadView;

    closed spec fn view(&self) -> ThreadView {
        ThreadView {
            peer: self.peer,
            state: self.state,
            authenticated: self.authenticated,
            account_id: self.account_id,
            account_data: self.account_data@,
            session: match self.crypto_box {
                Some(session) => Some(session@),
                None => None,
            },
            last_voice_packet: self.last_voice_packet as nat,
        }
    }
}

impl GameServerThread {
    /// Every actor is well-formed, at every moment of its life.
    #[verifier::type_invariant]
    spec fn always_well_formed(self) -> bool {
        self@.well_formed()
    }
}

/// The reply to a peer that has not logged in, and nothing else.
fn not_logged_in() -> (response: Response)
    ensures
        response@ == ResponseView::not_logged_in(),
{
    Response {
        reply: Some(Packet::ServerDisconnect { message: not_logged_in_message() }),
        request: Request::Nothing,
    }
}

/// Neither a reply nor a request.
fn nothing() -> (response: Response)
    ensures
        response@ == ResponseView::nothing(),
{
    Response { reply: None, request: Request::Nothing }
}

impl GameServerThread {
    /// The actor for a peer first seen at the time `now`, in nanoseconds
    /// since the epoch.
    pub fn new(peer: PeerAddress, now: u128) -> (thread: Self)
        ensures
            thread@ == ThreadView::initial(peer, now as nat),
            thread@.well_formed(),
    {
        GameServerThread {
            peer,
            state: ThreadState::Running,
            authenticated: false,
            account_id: 0,
            account_data: PlayerAccountData::default(),
            crypto_box: None,
            last_voice_packet: now,
        }
    }

    /// Asks the actor to end. Its loop sees the request when it next comes
    /// round; a wait that is under way goes on.
    pub fn terminate(&mut self)
        ensures
            final(self)@ == old(self)@.ending(),
            final(self)@.follows(old(self)@),
            final(self)@.well_formed(),
    {
        proof {
            use_type_invariant(&*self);
        }
        if self.state == ThreadState::Running {
            self.state = ThreadState::Terminating;
        }
    }

    /// The peer that this actor serves.
    pub fn peer(&self) -> (peer: PeerAddress)
        ensures
            peer == self@.peer,
    {
        self.peer
    }

    /// Where the actor stands in its life.
    pub fn state(&self) -> (state: ThreadState)
        ensures
            state == self@.state,
    {
        self.state
    }

    /// Whether the peer has logged in.
    pub fn authenticated(&self) -> (b: bool)
        ensures
            b == self@.authenticated,
            self@.well_formed(),
    {
        proof {
            use_type_invariant(self);
        }
        self.authenticated
    }

    /// The peer's account id; 0 while none is set.
    pub fn account_id(&self) -> (id: i32)
        ensures
            id == self@.account_id,
            self@.well_formed(),
    {
        proof {
            use_type_invariant(self);
        }
        self.account_id
    }

    /// What is known of the peer's account.
    pub fn account_data(&self) -> (data: &PlayerAccountData)
        ensures
            data@ == self@.account_data,
            self@.well_formed(),
    {
        proof {
            use_type_invariant(self);
        }
        &self.account_data
    }

    /// The crypto session, once the handshake has established it.
    pub fn session(&self) -> (session: Option<&CryptoSession>)
        ensures
            session_of(session) == self@.session,
    {
        self.crypto_box.as_ref()
    }

    /// The time of the peer's last voice packet, in nanoseconds since the
    /// epoch; the time of creation while there was none.
    pub fn last_voice_packet(&self) -> (at: u128)
        ensures
            at == self@.last_voice_packet,
    {
        self.last_voice_packet
    }

    /// Decodes a message from the peer, with this connection's session.
    pub fn parse_packet(&self, message: &[u8]) -> (out: Result<Packet, CodecError>)
        ensures
            decoded_as(out, spec_decode(message@, self@.session)),
    {
        decode(message, self.crypto_box.as_ref())
    }

    /// Encodes a packet for the peer. A packet that must be sealed is sealed
    /// with this connection's session and a nonce drawn for this one packet.
    /// It succeeds on every packet that fits the wire format, given a session
    /// where the packet must be sealed and a body that the cipher seals. A
    /// sealed packet comes out 43 bytes longer than its body. What comes out
    /// decodes to the packet again under the same session.
    pub fn serialize_packet(&self, packet: &Packet) -> (out: Result<Vec<u8>, CodecError>)
        ensures
            exists|nonce: Seq<u8>|
                nonce.len() == 24 && encoded_as(
                    out,
                    #[trigger] spec_encode(packet@, self@.session, nonce),
                ),
            out is Ok <==> can_encode(packet@, self@.session),
            out matches Ok(bytes) ==> bytes@.len() == ser_body(packet@).len() + envelope_len(
                packet@.kind(),
            ),
            out matches Ok(bytes) ==> spec_decode(bytes@, self@.session) == Ok::<
                PacketView,
                CodecError,
            >(packet@),
    {
        let nonce = random_nonce();
        let out = encode(packet, self.crypto_box.as_ref(), &nonce);
        assert(nonce@.len() == 24);
        assert(encoded_as(out, spec_encode(packet@, self@.session, nonce@)));
        out
    }

    fn handle_ping(&mut self, id: u32, ctx: &ServerContext) -> (out: Result<Response, HandlerError>)
        ensures
            final(self)@ == old(self)@.on_ping(id, *ctx).state,
            answered_as(out, old(self)@.on_ping(id, *ctx).result),
    {
        proof {
            use_type_invariant(&*self);
        }
        Ok(
            Response {
                reply: Some(Packet::PingResponse { id, player_count: ctx.player_count }),
                request: Request::Nothing,
            },
        )
    }

    fn handle_crypto_handshake(
        &mut self,
        protocol: u16,
        key: [u8; 32],
        ctx: &ServerContext,
    ) -> (out: Result<Response, HandlerError>)
        ensures
            final(self)@ == old(self)@.on_handshake(protocol, key@, *ctx).state,
            answered_as(out, old(self)@.on_handshake(protocol, key@, *ctx).result),
    {
        proof {
            use_type_invariant(&*self);
        }
        if protocol > PROTOCOL_VERSION {
            self.terminate();
            return Ok(
                Response {
                    reply: Some(
                        Packet::ServerDisconnect {
                            message: outdated_server_message(protocol, PROTOCOL_VERSION),
                        },
                    ),
                    request: Request::Nothing,
                },
            );
        }
        if protocol < PROTOCOL_VERSION {
            self.terminate();
            return Ok(
                Response {
                    reply: Some(
                        Packet::ServerDisconnect {
                            message: outdated_client_message(protocol, PROTOCOL_VERSION),
                        },
                    ),
                    request: Request::Nothing,
                },
            );
        }
        if self.crypto_box.is_some() {
            return Err(HandlerError::DuplicateHandshake);
        }
        self.crypto_box = Some(CryptoSession::establish(key, ctx.secret_key));
        Ok(
            Response {
                reply: Some(
                    Packet::CryptoHandshakeResponse { key: public_key_of(&ctx.secret_key) },
                ),
                request: Request::Nothing,
            },
        )
    }

    fn handle_keepalive(&mut self, ctx: &ServerContext) -> (out: Result<Response, HandlerError>)
        ensures
            final(self)@ == old(self)@.on_keepalive(*ctx).state,
            answered_as(out, old(self)@.on_keepalive(*ctx).result),
    {
        proof {
            use_type_invariant(&*self);
        }
        if !self.authenticated {
            return Ok(not_logged_in());
        }
        Ok(
            Response {
                reply: Some(Packet::KeepaliveResponse { player_count: ctx.player_count }),
                request: Request::Nothing,
            },
        )
    }

    fn handle_login(&mut self, account_id: i32, token: String) -> (out: Result<
        Response,
        HandlerError,
    >)
        ensures
            final(self)@ == old(self)@.on_login(account_id, token@).state,
            answered_as(out, old(self)@.on_login(account_id, token@).result),
    {
        proof {
            use_type_invariant(&*self);
        }
        Ok(Response { reply: None, request: Request::VerifyLogin { account_id, token } })
    }

    /// Takes the identity service's answer to the login of `account_id`.
    ///
    /// An answer that begins with `status_ok:` logs the peer in: the name is
    /// what follows the first colon, the account id is set unless one is set
    /// already, the server is asked to count one more player, and the reply
    /// is `LoggedIn`. On any other answer the actor is ending, and the reply
    /// is `LoginFailed` with the answer in its message.
    pub fn complete_login(&mut self, account_id: i32, response: &str) -> (out: Response)
        ensures
            final(self)@ == old(self)@.on_login_response(account_id, response@).0,
            out@ == old(self)@.on_login_response(account_id, response@).1,
            final(self)@.follows(old(self)@),
            final(self)@.well_formed(),
    {
        proof {
            use_type_invariant(&*self);
        }
        match read_login_response(response) {
            LoginVerdict::Rejected => {
                self.terminate();
                Response {
                    reply: Some(Packet::LoginFailed { message: login_failed_message(response) }),
                    request: Request::Nothing,
                }
            },
            LoginVerdict::Accepted { name } => {
                let kept_id: i32 = if self.account_id == 0 {
                    account_id
                } else {
                    self.account_id
                };
                *self = GameServerThread {
                    peer: self.peer,
                    state: self.state,
                    authenticated: true,
                    account_id: kept_id,
                    account_data: PlayerAccountData {
                        account_id: kept_id,
                        name,
                        icons: self.account_data.icons,
                    },
                    crypto_box: self.crypto_box,
                    last_voice_packet: self.last_voice_packet,
                };
                Response { reply: Some(Packet::LoggedIn), request: Request::PlayerJoined }
            },
        }
    }

    fn handle_disconnect(&mut self) -> (out: Result<Response, HandlerError>)
        ensures
            final(self)@ == old(self)@.on_disconnect().state,
            answered_as(out, old(self)@.on_disconnect().result),
    {
        proof {
            use_type_invariant(&*self);
        }
        self.terminate();
        Ok(nothing())
    }

    fn handle_sync_icons(&mut self, icons: PlayerIconData) -> (out: Result<Response, HandlerError>)
        ensures
            final(self)@ == old(self)@.on_sync_icons(icons).state,
            answered_as(out, old(self)@.on_sync_icons(icons).result),
    {
        proof {
            use_type_invariant(&*self);
        }
        if !self.authenticated {
            return Ok(not_logged_in());
        }
        self.account_data.icons = icons;
        Ok(nothing())
    }

    fn handle_request_profiles(&mut self, ids: Vec<i32>) -> (out: Result<Response, HandlerError>)
        ensures
            final(self)@ == old(self)@.on_request_profiles(ids@).state,
            answered_as(out, old(self)@.on_request_profiles(ids@).result),
    {
        proof {
            use_type_invariant(&*self);
        }
        if !self.authenticated {
            return Ok(not_logged_in());
        }
        Ok(Response { reply: None, request: Request::GatherProfiles { ids } })
    }

    fn handle_voice(&mut self, data: EncodedAudioFrame, ctx: &ServerContext) -> (out: Result<
        Response,
        HandlerError,
    >)
        ensures
            final(self)@ == old(self)@.on_voice(data@, *ctx).state,
            answered_as(out, old(self)@.on_voice(data@, *ctx).result),
    {
        proof {
            use_type_invariant(&*self);
        }
        if !self.authenticated {
            return Ok(not_logged_in());
        }
        if ctx.chat_blocked {
            return Ok(nothing());
        }
        let elapsed: u128 = match millis_between(self.last_voice_packet, ctx.now) {
            Some(e) => e,
            None => {
                return Err(HandlerError::ClockWentBackwards);
            },
        };
        self.last_voice_packet = ctx.now;
        let size: u128 = frame_bytes(&data.opus_frames);
        if !voice_allowed(size, elapsed) {
            return Ok(nothing());
        }
        Ok(
            Response {
                reply: None,
                request: Request::BroadcastVoice(
                    VoiceBroadcastPacket { player_id: self.account_id, data },
                ),
            },
        )
    }

    /// Handles a packet from the peer: changes the actor's state as the
    /// packet's type says, and gives the reply for the peer and the work for
    /// the server. A packet of a type that the server does not handle is an
    /// error and changes nothing.
    pub fn handle_packet(&mut self, packet: Packet, ctx: &ServerContext) -> (out: Result<
        Response,
        HandlerError,
    >)
        ensures
            final(self)@ == old(self)@.on_packet(packet@, *ctx).state,
            answered_as(out, old(self)@.on_packet(packet@, *ctx).result),
            final(self)@.follows(old(self)@),
            final(self)@.well_formed(),
    {
        proof {
            use_type_invariant(&*self);
        }
        proof {
            lemma_on_packet_follows(self@, packet@, *ctx);
        }
        let id: u16 = packet.get_packet_id();
        match packet {
            Packet::Ping { id } => self.handle_ping(id, ctx),
            Packet::CryptoHandshakeStart { protocol, key } => self.handle_crypto_handshake(
                protocol,
                key,
                ctx,
            ),
            Packet::Keepalive => self.handle_keepalive(ctx),
            Packet::Login { account_id, token } => self.handle_login(account_id, token),
            Packet::Disconnect => self.handle_disconnect(),
            Packet::SyncIcons { icons } => self.handle_sync_icons(icons),
            Packet::RequestProfiles { ids } => self.handle_request_profiles(ids),
            Packet::Voice { data } => self.handle_voice(data, ctx),
            _ => Err(HandlerError::NoHandler { id }),
        }
    }

    /// Handles a message from the queue. Bytes from the peer are decoded and
    /// the packet is handled; bytes that are no packet are an error and
    /// change nothing. A voice packet of another peer becomes the reply, as
    /// it is.
    pub fn handle_message(&mut self, message: ServerThreadMessage, ctx: &ServerContext) -> (out:
        Result<Response, ThreadError>)
        ensures
            final(self)@ == old(self)@.on_message(message@, *ctx).0,
            handled_as(out, old(self)@.on_message(message@, *ctx).1),
            final(self)@.follows(old(self)@),
            final(self)@.well_formed(),
    {
        proof {
            use_type_invariant(&*self);
        }
        match message {
            ServerThreadMessage::Packet(bytes) => match self.parse_packet(bytes.as_slice()) {
                Err(e) => Err(ThreadError::Parse(e)),
                Ok(packet) => match self.handle_packet(packet, ctx) {
                    Ok(response) => Ok(response),
                    Err(e) => Err(ThreadError::Handle(e)),
                },
            },
            ServerThreadMessage::BroadcastVoice(packet) => Ok(
                Response { reply: Some(Packet::VoiceBroadcast(packet)), request: Request::Nothing },
            ),
        }
    }

    /// What the message loop does when it comes round: a running actor waits
    /// for the next message, for the idle timeout at most; an actor that was
    /// asked to end has ended, and the loop exits.
    pub fn next_step(&mut self) -> (step: LoopStep)
        ensures
            old(self)@.state == ThreadState::Running ==> step == (LoopStep::Wait {
                timeout_secs: IDLE_TIMEOUT_SECS,
            }) && final(self)@ == old(self)@,
            old(self)@.state != ThreadState::Running ==> step == LoopStep::Exit && final(self)@
                == old(self)@.ended(),
            final(self)@.follows(old(self)@),
            final(self)@.well_formed(),
    {
        proof {
            use_type_invariant(&*self);
        }
        if self.state == ThreadState::Running {
            LoopStep::Wait { timeout_secs: IDLE_TIMEOUT_SECS }
        } else {
            self.state = ThreadState::Terminated;
            LoopStep::Exit
        }
    }

    /// Takes what a wait on the queue ended with. A message is handled, and
    /// an error in it does not end the actor. Where the wait ran out, or
    /// every sender is gone, the actor has ended.
    pub fn handle_event(&mut self, event: QueueEvent, ctx: &ServerContext) -> (out: Result<
        Response,
        ThreadError,
    >)
        ensures
            match event {
                QueueEvent::Message(message) => final(self)@ == old(self)@.on_message(
                    message@,
                    *ctx,
                ).0 && handled_as(out, old(self)@.on_message(message@, *ctx).1),
                _ => final(self)@ == old(self)@.ended() && handled_as(
                    out,
                    Ok(ResponseView::nothing()),
                ),
            },
            final(self)@.follows(old(self)@),
            final(self)@.well_formed(),
    {
        proof {
            use_type_invariant(&*self);
        }
        match event {
            QueueEvent::Message(message) => self.handle_message(message, ctx),
            _ => {
                self.state = ThreadState::Terminated;
                Ok(nothing())
            },
        }
    }
}

/// Handling a packet never undoes what is settled: the actor's life does not
/// go backwards, a login stays, an account id once set stays, and a session
/// once established stays.
pub proof fn lemma_on_packet_follows(v: ThreadView, packet: PacketView, ctx: ServerContext)
    ensures
        v.on_packet(packet, ctx).state.follows(v),
{
}

/// The answer to a login never undoes what is settled either.
pub proof fn lemma_on_login_response_follows(v: ThreadView, account_id: i32, response: Seq<char>)
    ensures
        v.on_login_response(account_id, response).0.follows(v),
{
}

/// Whatever an actor does with a message, it stays well-formed, and what is
/// settled stays settled.
pub proof fn lemma_on_message_keeps(v: ThreadView, message: MessageView, ctx: ServerContext)
    requires
        v.well_formed(),
    ensures
        v.on_message(message, ctx).0.well_formed(),
        v.on_message(message, ctx).0.follows(v),
{
    match message {
        MessageView::Packet(bytes) => match spec_decode(bytes, v.session) {
            Ok(packet) => {
                lemma_on_packet_follows(v, packet, ctx);
            },
            Err(_) => {},
        },
        MessageView::BroadcastVoice { .. } => {},
    }
}

/// A sealed message that the actor's session does not open is an error,
/// `DecryptionFailed`, and leaves the actor as it was, its session included.
pub proof fn lemma_unopened_message_changes_nothing(
    v: ThreadView,
    kind: crate::packets::PacketKind,
    nonce: Seq<u8>,
    sealed: Seq<u8>,
    ctx: ServerContext,
)
    requires
        nonce.len() == 24,
        kind.encrypted(),
        v.session matches Some(session) && session.opened(nonce, sealed) is None,
    ensures
        v.on_message(MessageView::Packet(sealed_frame(kind, nonce, sealed)), ctx) == (
            v,
            Err::<ResponseView, ThreadError>(ThreadError::Parse(CodecError::DecryptionFailed)),
        ),
{
    crate::codec::lemma_unopened_frame_fails(kind, nonce, sealed, v.session->0);
}

/// A message that is no packet, or a packet that is an error, leaves the
/// actor as it was.
pub proof fn lemma_errors_change_nothing(v: ThreadView, message: MessageView, ctx: ServerContext)
    requires
        v.on_message(message, ctx).1 is Err,
    ensures
        v.on_message(message, ctx).0 == v,
{
}

/// A peer that is not logged in stays so, with no account id, whatever
/// packets it sends: only the identity service's answer logs it in.
pub proof fn lemma_only_the_service_logs_in(v: ThreadView, message: MessageView, ctx: ServerContext)
    requires
        !v.authenticated,
    ensures
        !v.on_message(message, ctx).0.authenticated,
        v.on_message(message, ctx).0.account_id == v.account_id,
{
}

/// What follows a state that follows another, follows that one too.
pub proof fn lemma_follows_transitive(a: ThreadView, b: ThreadView, c: ThreadView)
    requires
        b.follows(a),
        c.follows(b),
    ensures
        c.follows(a),
{
}

/// A packet for a protected service from a peer that has not logged in is
/// answered with a disconnect message and changes nothing: the peer is still
/// not logged in, and the account id is as it was.
pub proof fn lemma_auth_gate(v: ThreadView, packet: PacketView, ctx: ServerContext)
    requires
        !v.authenticated,
        packet.kind().requires_auth(),
    ensures
        v.on_packet(packet, ctx).state == v,
        v.on_packet(packet, ctx).result == Ok::<ResponseView, HandlerError>(
            ResponseView::not_logged_in(),
        ),
{
}

/// A handshake with the server's protocol version on a connection without a
/// session establishes one and is answered with the server's public key. A
/// second handshake after it is rejected and leaves the session as it is.
pub proof fn lemma_first_handshake_wins(
    v: ThreadView,
    key: Seq<u8>,
    second_key: Seq<u8>,
    ctx: ServerContext,
    later: ServerContext,
)
    requires
        v.session is None,
    ensures
        ({
            let first = v.on_handshake(PROTOCOL_VERSION, key, ctx);
            let second = first.state.on_handshake(PROTOCOL_VERSION, second_key, later);
            &&& first.state.session == Some(
                SessionKeys { peer_public_key: key, server_secret_key: ctx.secret_key@ },
            )
            &&& first.state.state == v.state
            &&& first.result == Ok::<ResponseView, HandlerError>(
                ResponseView::reply(
                    PacketView::CryptoHandshakeResponse { key: box_public_key(ctx.secret_key@) },
                ),
            )
            &&& second.state == first.state
            &&& second.result == Err::<ResponseView, HandlerError>(
                HandlerError::DuplicateHandshake,
            )
        }),
{
}

/// A handshake with any other protocol version leaves the actor not running,
/// establishes no session, and is answered with a message that names both
/// versions.
pub proof fn lemma_version_mismatch_ends(
    v: ThreadView,
    protocol: u16,
    key: Seq<u8>,
    ctx: ServerContext,
)
    requires
        protocol != PROTOCOL_VERSION,
    ensures
        ({
            let reaction = v.on_handshake(protocol, key, ctx);
            &&& reaction.state == v.ending()
            &&& reaction.state.state != ThreadState::Running
            &&& reaction.result matches Ok(response)
            &&& response.request == RequestView::Nothing
            &&& response.reply matches Some(PacketView::ServerDisconnect { message })
            &&& crate::text::occurs_in(crate::text::decimal(protocol as nat), message)
            &&& crate::text::occurs_in(crate::text::decimal(PROTOCOL_VERSION as nat), message)
        }),
{
    crate::text::lemma_mismatch_texts_name_both_versions(protocol, PROTOCOL_VERSION);
}

} // verus!
