//! The per-connection crypto session: public-key authenticated encryption
//! between the server's static key pair and a peer's ephemeral public key,
//! carried out by the `crypto_box` crate.

use crypto_box::aead::generic_array::GenericArray;
use crypto_box::aead::{Aead, AeadCore, OsRng};
use crypto_box::{ChaChaBox, PublicKey, SecretKey};
use vstd::prelude::*;

verus! {

/// Length in bytes of a public or secret key.
pub const KEY_SIZE: usize = 32;

/// Length in bytes of the nonce that precedes every sealed body.
pub const NONCE_SIZE: usize = 24;

/// Length in bytes of the authentication tag that sealing adds.
pub const TAG_SIZE: usize = 16;

/// The longest body that is sealed. The cipher's keystream ends after
/// 256 GiB and the cipher panics beyond it; this bound lies far below, and
/// low enough that body and tag together fit a vector on a 32-bit machine.
pub const MAX_SEALED_BODY: usize = 0x7fff_ffef;

/// The longest sealed input that is opened: the longest body and its tag.
pub const MAX_SEALED_LEN: usize = 0x7fff_ffff;

/// What sealing `plaintext` gives under the key that `peer_key` and
/// `secret_key` agree on, with `nonce`: the authentication tag and the
/// enciphered bytes. The cipher is asked only for a plaintext of at most
/// [`MAX_SEALED_BODY`] bytes, and for such it always gives a result.
pub uninterp spec fn box_seal(
    peer_key: Seq<u8>,
    secret_key: Seq<u8>,
    nonce: Seq<u8>,
    plaintext: Seq<u8>,
) -> Option<Seq<u8>>;

/// What opening `sealed` gives under the key that `peer_key` and `secret_key`
/// agree on, with `nonce`: the plaintext, or nothing where the tag does not
/// match or the input is too short to hold one.
pub uninterp spec fn box_open(
    peer_key: Seq<u8>,
    secret_key: Seq<u8>,
    nonce: Seq<u8>,
    sealed: Seq<u8>,
) -> Option<Seq<u8>>;

/// The public key that belongs to `secret_key`.
pub uninterp spec fn box_public_key(secret_key: Seq<u8>) -> Seq<u8>;

/// The contents of an optional byte vector.
pub open spec fn bytes_of(v: Option<Vec<u8>>) -> Option<Seq<u8>> {
    match v {
        Some(b) => Some(b@),
        None => None,
    }
}

/// `ChaChaBox::new` on the two keys, then `Aead::encrypt` with `nonce` and no
/// associated data. The plaintext must not be longer than the bound, beyond
/// which the cipher's keystream runs out and the call panics. The call then
/// succeeds: it fails only for associated data, and none is given. The result
/// is a function of the four arguments and is 16 bytes longer than the
/// plaintext, the tag standing in front; what was sealed opens again under
/// the same keys and nonce.
#[verifier::external_body]
pub(crate) fn seal_with(
    peer_key: &[u8; 32],
    secret_key: &[u8; 32],
    nonce: &[u8; 24],
    plaintext: &[u8],
) -> (out: Option<Vec<u8>>)
    requires
        plaintext@.len() <= MAX_SEALED_BODY,
    ensures
        out is Some,
        bytes_of(out) == box_seal(peer_key@, secret_key@, nonce@, plaintext@),
        out matches Some(sealed) ==> sealed@.len() == plaintext@.len() + 16,
        out matches Some(sealed) ==> box_open(peer_key@, secret_key@, nonce@, sealed@) == Some(
            plaintext@,
        ),
{
    let cipher = ChaChaBox::new(&PublicKey::from(*peer_key), &SecretKey::from(*secret_key));
    match cipher.encrypt(GenericArray::from_slice(&nonce[..]), plaintext) {
        Ok(sealed) => Some(sealed),
        Err(_) => None,
    }
}

/// `ChaChaBox::new` on the two keys, then `Aead::decrypt` with `nonce` and no
/// associated data. The sealed input must not be longer than the bound,
/// beyond which the cipher's keystream runs out and the call panics where the
/// tag matches. The result is a function of the four arguments; a plaintext
/// is 16 bytes shorter than what was sealed.
#[verifier::external_body]
pub(crate) fn open_with(
    peer_key: &[u8; 32],
    secret_key: &[u8; 32],
    nonce: &[u8; 24],
    sealed: &[u8],
) -> (out: Option<Vec<u8>>)
    requires
        sealed@.len() <= MAX_SEALED_LEN,
    ensures
        bytes_of(out) == box_open(peer_key@, secret_key@, nonce@, sealed@),
        out matches Some(plaintext) ==> plaintext@.len() + 16 == sealed@.len(),
{
    let cipher = ChaChaBox::new(&PublicKey::from(*peer_key), &SecretKey::from(*secret_key));
    match cipher.decrypt(GenericArray::from_slice(&nonce[..]), sealed) {
        Ok(plaintext) => Some(plaintext),
        Err(_) => None,
    }
}

/// `SecretKey::public_key`: the public key of a secret key, a function of the
/// secret key alone.
#[verifier::external_body]
pub(crate) fn public_key_of(secret_key: &[u8; 32]) -> (out: [u8; 32])
    ensures
        out@ == box_public_key(secret_key@),
{
    SecretKey::from(*secret_key).public_key().to_bytes()
}

/// `AeadCore::generate_nonce` with the operating system's random number
/// generator: 24 random bytes, of which nothing is known.
#[verifier::external_body]
pub(crate) fn random_nonce() -> (out: [u8; 24]) {
    ChaChaBox::generate_nonce(&mut OsRng).into()
}

/// The keys of an established session, as plain bytes.
#[derive(Clone, Copy, PartialEq, Eq)]
pub struct CryptoSession {
    pub peer_public_key: [u8; 32],
    pub server_secret_key: [u8; 32],
}

/// The mathematical value of a [`CryptoSession`].
pub struct SessionKeys {
    pub peer_public_key: Seq<u8>,
    pub server_secret_key: Seq<u8>,
}

impl View for CryptoSession {
    type V = SessionKeys;

    open spec fn view(&self) -> SessionKeys {
        SessionKeys {
            peer_public_key: self.peer_public_key@,
            server_secret_key: self.server_secret_key@,
        }
    }
}

impl SessionKeys {
    /// What a session with these keys seals `plaintext` to, with `nonce`:
    /// nothing for a plaintext longer than [`MAX_SEALED_BODY`], else what
    /// the cipher gives.
    pub open spec fn sealed(self, nonce: Seq<u8>, plaintext: Seq<u8>) -> Option<Seq<u8>> {
        if plaintext.len() <= MAX_SEALED_BODY {
            box_seal(self.peer_public_key, self.server_secret_key, nonce, plaintext)
        } else {
            None
        }
    }

    /// What a session with these keys opens `sealed` to, with `nonce`:
    /// nothing for an input longer than [`MAX_SEALED_LEN`], else what the
    /// cipher gives.
    pub open spec fn opened(self, nonce: Seq<u8>, sealed: Seq<u8>) -> Option<Seq<u8>> {
        if sealed.len() <= MAX_SEALED_LEN {
            box_open(self.peer_public_key, self.server_secret_key, nonce, sealed)
        } else {
            None
        }
    }
}

impl CryptoSession {
    /// The session between the server's secret key and a peer's public key.
    pub fn establish(peer_public_key: [u8; 32], server_secret_key: [u8; 32]) -> (session: Self)
        ensures
            session.peer_public_key == peer_public_key,
            session.server_secret_key == server_secret_key,
    {
        CryptoSession { peer_public_key, server_secret_key }
    }

    /// Seals `plaintext`: `None` for one longer than [`MAX_SEALED_BODY`],
    /// else the tag and the enciphered bytes, 16 bytes more than the
    /// plaintext. Whatever comes out opens again to `plaintext` under this
    /// session and the same nonce.
    pub fn seal(&self, nonce: &[u8; 24], plaintext: &[u8]) -> (out: Option<Vec<u8>>)
        ensures
            bytes_of(out) == self@.sealed(nonce@, plaintext@),
            out is Some <==> plaintext@.len() <= MAX_SEALED_BODY,
            out matches Some(sealed) ==> sealed@.len() == plaintext@.len() + 16,
            out matches Some(sealed) ==> self@.opened(nonce@, sealed@) == Some(plaintext@),
    {
        if plaintext.len() > MAX_SEALED_BODY {
            return None;
        }
        seal_with(&self.peer_public_key, &self.server_secret_key, nonce, plaintext)
    }

    /// Opens `sealed`: the plaintext, 16 bytes less than the input, or `None`
    /// where the input is longer than [`MAX_SEALED_LEN`] or authentication
    /// fails.
    pub fn open(&self, nonce: &[u8; 24], sealed: &[u8]) -> (out: Option<Vec<u8>>)
        ensures
            bytes_of(out) == self@.opened(nonce@, sealed@),
            out matches Some(plaintext) ==> plaintext@.len() + 16 == sealed@.len(),
    {
        if sealed.len() > MAX_SEALED_LEN {
            return None;
        }
        open_with(&self.peer_public_key, &self.server_secret_key, nonce, sealed)
    }
}

} // verus!
