//! Per-connection protocol engine of a real-time multiplayer relay server:
//! packet framing and encryption, the handshake and login state machine,
//! message dispatch, and the voice rate limiter.
//!
//! The modules, leaves first:
//!
//! - [`wire`]: big-endian numbers, and the byte cursors of the `bytebuffer`
//!   crate that packets are written to and read from.
//! - [`crypto`]: the crypto session of a connection, sealed and opened by the
//!   `crypto_box` crate.
//! - [`packets`]: the packets, their ids and their encryption requirement.
//! - [`body`] and [`body_io`]: the wire format of packet bodies, as
//!   specification and as executable writers and readers.
//! - [`codec`]: the envelope round a body, in the clear or sealed.
//! - [`text`]: the messages that go to a peer, and how the identity
//!   service's answer to a login is read.
//! - [`limiter`]: the throughput limit on relayed voice.
//! - [`server_thread`]: the connection actor, a state machine from message
//!   to next state, reply and work for the server.
//! - [`boot`]: the identity service's answer to a request for boot data.
//! - [`config`]: what the command line and the environment ask for.
//!
//! Everything here is verified against the contracts it carries, with three
//! things taken on trust and marked as such where they stand: what the
//! `bytebuffer` cursors do with bytes ([`wire`]), what `crypto_box` seals and
//! opens ([`crypto`]), and what `String::from_utf8` accepts ([`wire`]).
//! Nothing here waits, sleeps, reads a clock or touches a socket: the server
//! around the library does, and hands over what it found.

pub mod body;
pub mod body_io;
pub mod boot;
pub mod codec;
pub mod config;
pub mod crypto;
pub mod limiter;
pub mod packets;
pub mod server_thread;
pub mod text;
pub mod wire;
