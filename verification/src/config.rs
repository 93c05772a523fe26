//! Startup configuration: what the command line and the environment ask for,
//! before any address is parsed or any socket bound.

use vstd::prelude::*;
use vstd::string::*;
use vstd::utf8::{decode_utf8, is_char_boundary};

verus! {

/// The port that the server binds where none is given.
pub const DEFAULT_PORT: u16 = 41001;

/// The address that the server binds where none is given.
pub const DEFAULT_BIND_ADDRESS: &'static str = "0.0.0.0:41001";

/// What the process was started with: the arguments behind the program's
/// name, and the three environment variables that override them.
pub struct StartupInputs {
    pub first_arg: Option<String>,
    pub second_arg: Option<String>,
    pub third_arg: Option<String>,
    pub env_address: Option<String>,
    pub env_central_url: Option<String>,
    pub env_central_password: Option<String>,
}

/// How the server relates to the identity service.
#[derive(Clone, Debug, PartialEq, Eq)]
pub enum CentralData {
    /// No identity service: the server runs alone.
    Standalone,
    /// The identity service at `url`, which ends in a slash, with the
    /// password that the two share.
    Central { url: String, password: String },
    /// An identity service was named and no password given; `from_env` says
    /// whether the environment was asked for it, or the command line.
    MissingPassword { from_env: bool },
}

/// The mathematical value of a [`CentralData`].
pub enum CentralView {
    Standalone,
    Central { url: Seq<char>, password: Seq<char> },
    MissingPassword { from_env: bool },
}

impl View for CentralData {
    type V = CentralView;

    open spec fn view(&self) -> CentralView {
        match self {
            CentralData::Standalone => CentralView::Standalone,
            CentralData::Central { url, password } => CentralView::Central {
                url: url@,
                password: password@,
            },
            CentralData::MissingPassword { from_env } => CentralView::MissingPassword {
                from_env: *from_env,
            },
        }
    }
}

/// What the server is to start with. The address is still text: `None`
/// stands for the default address.
#[derive(Clone, Debug, PartialEq, Eq)]
pub struct StartupConfiguration {
    pub bind_address: Option<String>,
    pub central_data: CentralData,
}

/// The mathematical value of a [`StartupConfiguration`].
pub struct ConfigurationView {
    pub bind_address: Option<Seq<char>>,
    pub central_data: CentralView,
}

/// The text in an optional string.
pub open spec fn text_of(s: Option<String>) -> Option<Seq<char>> {
    match s {
        Some(text) => Some(text@),
        None => None,
    }
}

impl View for StartupConfiguration {
    type V = ConfigurationView;

    open spec fn view(&self) -> ConfigurationView {
        ConfigurationView {
            bind_address: text_of(self.bind_address),
            central_data: self.central_data@,
        }
    }
}

/// The port to bind, given what parsing the address text found: the port of
/// a socket address, where the text is one; the default port, where the text
/// is a bare IPv4 address; and none, where it is neither, which is a
/// misconfiguration.
pub open spec fn port_for(socket_port: Option<u16>, is_ipv4: bool) -> Option<u16> {
    match socket_port {
        Some(port) => Some(port),
        None => if is_ipv4 {
            Some(DEFAULT_PORT)
        } else {
            None
        },
    }
}

/// Decides the port to bind. `socket_port` is the port in the address text
/// if the text is a socket address; `is_ipv4` says whether the text is a
/// bare IPv4 address.
pub fn bind_port(socket_port: Option<u16>, is_ipv4: bool) -> (port: Option<u16>)
    ensures
        port == port_for(socket_port, is_ipv4),
{
    match socket_port {
        Some(port) => Some(port),
        None => if is_ipv4 {
            Some(DEFAULT_PORT)
        } else {
            None
        },
    }
}

/// A URL with a slash at its end: the URL itself if it has one, else the
/// URL and a slash.
pub open spec fn with_trailing_slash(url: Seq<char>) -> Seq<char> {
    if url.len() > 0 && url.last() == '/' {
        url
    } else {
        url.push('/')
    }
}

/// The configuration that the inputs ask for.
///
/// The address variable of the environment, where it is set, takes the place
/// of the whole command line. With neither it nor a first argument, the
/// server runs alone on the default address. The second value names the
/// identity service, and without it the server runs alone; the third is the
/// password, and must be there where the second is.
pub open spec fn configuration_for(
    first_arg: Option<Seq<char>>,
    second_arg: Option<Seq<char>>,
    third_arg: Option<Seq<char>>,
    env_address: Option<Seq<char>>,
    env_central_url: Option<Seq<char>>,
    env_central_password: Option<Seq<char>>,
) -> ConfigurationView {
    let from_env = env_address is Some;
    if first_arg is None && !from_env {
        ConfigurationView { bind_address: None, central_data: CentralView::Standalone }
    } else {
        let bind_address = if from_env {
            env_address
        } else {
            first_arg
        };
        let url = if from_env {
            env_central_url
        } else {
            second_arg
        };
        let password = if from_env {
            env_central_password
        } else {
            third_arg
        };
        ConfigurationView {
            bind_address,
            central_data: match url {
                None => CentralView::Standalone,
                Some(u) => match password {
                    None => CentralView::MissingPassword { from_env },
                    Some(p) => CentralView::Central { url: with_trailing_slash(u), password: p },
                },
            },
        }
    }
}

/// Puts a slash at the end of a URL that has none.
pub fn ensure_trailing_slash(url: String) -> (out: String)
    ensures
        out@ == with_trailing_slash(url@),
{
    let len: usize = url.as_str().unicode_len();
    proof {
        reveal_strlit("/");
    }
    if len > 0 && url.as_str().get_char(len - 1) == '/' {
        url
    } else {
        let mut out = url;
        let ghost before = out@;
        out.append("/");
        assert(out@ =~= before.push('/'));
        out
    }
}

/// Works out the startup configuration from the command line and the
/// environment.
pub fn parse_configuration(inputs: StartupInputs) -> (config: StartupConfiguration)
    ensures
        config@ == configuration_for(
            text_of(inputs.first_arg),
            text_of(inputs.second_arg),
            text_of(inputs.third_arg),
            text_of(inputs.env_address),
            text_of(inputs.env_central_url),
            text_of(inputs.env_central_password),
        ),
{
    let StartupInputs {
        first_arg,
        second_arg,
        third_arg,
        env_address,
        env_central_url,
        env_central_password,
    } = inputs;
    let from_env = env_address.is_some();
    if first_arg.is_none() && !from_env {
        return StartupConfiguration { bind_address: None, central_data: CentralData::Standalone };
    }
    let bind_address = if from_env {
        env_address
    } else {
        first_arg
    };
    let url = if from_env {
        env_central_url
    } else {
        second_arg
    };
    let password = if from_env {
        env_central_password
    } else {
        third_arg
    };
    let central_data = match url {
        None => CentralData::Standalone,
        Some(u) => match password {
            None => CentralData::MissingPassword { from_env },
            Some(p) => CentralData::Central { url: ensure_trailing_slash(u), password: p },
        },
    };
    StartupConfiguration { bind_address, central_data }
}

/// `n` asterisks.
pub open spec fn stars(n: nat) -> Seq<char> {
    Seq::new(n, |i: int| '*')
}

/// A key with all but its first `keep` bytes replaced by asterisks, one for
/// each byte; all of it where it is no longer than `keep` bytes.
pub open spec fn censored(key: Seq<char>, keep: nat) -> Seq<char> {
    let bytes = vstd::utf8::encode_utf8(key);
    if bytes.len() <= keep {
        stars(bytes.len())
    } else {
        decode_utf8(bytes.subrange(0, keep as int)) + stars((bytes.len() - keep) as nat)
    }
}

/// `n` asterisks behind `text`.
fn push_stars(text: String, n: usize) -> (out: String)
    ensures
        out@ == text@ + stars(n as nat),
{
    let mut out = text;
    let ghost start = out@;
    let mut i: usize = 0;
    proof {
        reveal_strlit("*");
        assert(out@ =~= start + stars(0));
    }
    while i < n
        invariant
            i <= n,
            out@ == start + stars(i as nat),
            "*"@ == seq!['*'],
        decreases n - i,
    {
        out.append("*");
        i += 1;
        assert(out@ =~= start + stars(i as nat));
    }
    out
}

/// Hides a key for the log: its first `keep_first_n_chars` bytes stay, an
/// asterisk stands for each of the others. A key longer than that must have
/// a character boundary there.
pub fn censor_key(key: &str, keep_first_n_chars: usize) -> (out: String)
    requires
        key.spec_bytes().len() <= keep_first_n_chars || is_char_boundary(
            key.spec_bytes(),
            keep_first_n_chars as int,
        ),
    ensures
        out@ == censored(key@, keep_first_n_chars as nat),
{
    let len: usize = key.as_bytes().len();
    if len <= keep_first_n_chars {
        let out = push_stars(String::new(), len);
        assert(out@ =~= stars(len as nat));
        return out;
    }
    let (shown, _hidden) = key.split_at(keep_first_n_chars);
    proof {
        vstd::utf8::encode_utf8_decode_utf8(shown@);
        assert(shown.spec_bytes() == key.spec_bytes().subrange(0, keep_first_n_chars as int));
    }
    push_stars(String::from_str(shown), len - keep_first_n_chars)
}

} // verus!
