//! The texts of the protocol: the messages that the server sends on a version
//! mismatch or a rejected login, and how the identity service's answer to a
//! login is read.

use vstd::prelude::*;
use vstd::string::*;

verus! {

/// The character of a decimal digit.
pub open spec fn digit_char(d: nat) -> char {
    if d == 0 {
        '0'
    } else if d == 1 {
        '1'
    } else if d == 2 {
        '2'
    } else if d == 3 {
        '3'
    } else if d == 4 {
        '4'
    } else if d == 5 {
        '5'
    } else if d == 6 {
        '6'
    } else if d == 7 {
        '7'
    } else if d == 8 {
        '8'
    } else {
        '9'
    }
}

/// The decimal numeral of `n`, without leading zeros.
pub open spec fn decimal(n: nat) -> Seq<char>
    decreases n,
{
    if n < 10 {
        seq![digit_char(n)]
    } else {
        decimal(n / 10).push(digit_char(n % 10))
    }
}

/// The text of one decimal digit.
fn digit_str(d: u16) -> (s: &'static str)
    requires
        d < 10,
    ensures
        s@ == seq![digit_char(d as nat)],
{
    proof {
        reveal_strlit("0");
        reveal_strlit("1");
        reveal_strlit("2");
        reveal_strlit("3");
        reveal_strlit("4");
        reveal_strlit("5");
        reveal_strlit("6");
        reveal_strlit("7");
        reveal_strlit("8");
        reveal_strlit("9");
    }
    let s = if d == 0 {
        "0"
    } else if d == 1 {
        "1"
    } else if d == 2 {
        "2"
    } else if d == 3 {
        "3"
    } else if d == 4 {
        "4"
    } else if d == 5 {
        "5"
    } else if d == 6 {
        "6"
    } else if d == 7 {
        "7"
    } else if d == 8 {
        "8"
    } else {
        "9"
    };
    assert(s@ =~= seq![digit_char(d as nat)]);
    s
}

/// The decimal numeral of a protocol version.
pub fn decimal_string(n: u16) -> (s: String)
    ensures
        s@ == decimal(n as nat),
    decreases n,
{
    if n < 10 {
        String::from_str(digit_str(n))
    } else {
        let mut s = decimal_string(n / 10);
        let ghost front = s@;
        s.append(digit_str(n % 10));
        assert(s@ =~= front.push(digit_char((n % 10) as nat)));
        s
    }
}

/// What the server tells a peer whose protocol version is newer than its own.
pub open spec fn outdated_server_text(client: u16, server: u16) -> Seq<char> {
    "Outdated server! You are running protocol v"@ + decimal(client as nat)
        + " while the server is still on v"@ + decimal(server as nat) + "."@
}

/// What the server tells a peer whose protocol version is older than its own.
pub open spec fn outdated_client_text(client: u16, server: u16) -> Seq<char> {
    "Outdated client! Please update the mod in order to connect to the server. Client protocol version: v"@
        + decimal(client as nat) + ", server: v"@ + decimal(server as nat)
}

/// What the server tells a peer that asks for a protected service before it
/// has logged in.
pub open spec fn not_logged_in_text() -> Seq<char> {
    "not logged in"@
}

/// What the server tells a peer whose login the identity service rejected:
/// a fixed opening, then the service's answer as it came.
pub open spec fn login_failed_text(response: Seq<char>) -> Seq<char> {
    "authentication failed: "@ + response
}

/// Whether `part` occurs in `text` as a run of consecutive characters.
pub open spec fn occurs_in(part: Seq<char>, text: Seq<char>) -> bool {
    exists|i: int| 0 <= i && i + part.len() <= text.len() && #[trigger] text.subrange(i, i + part.len()) == part
}

/// Where `text` is `before + part + after`, `part` occurs in it.
pub proof fn lemma_occurs_between(before: Seq<char>, part: Seq<char>, after: Seq<char>)
    ensures
        occurs_in(part, before + part + after),
{
    let text = before + part + after;
    let i = before.len() as int;
    assert(text.subrange(i, i + part.len()) =~= part);
}

/// Both messages for a version mismatch name the peer's version and the
/// server's.
pub proof fn lemma_mismatch_texts_name_both_versions(client: u16, server: u16)
    ensures
        occurs_in(decimal(client as nat), outdated_server_text(client, server)),
        occurs_in(decimal(server as nat), outdated_server_text(client, server)),
        occurs_in(decimal(client as nat), outdated_client_text(client, server)),
        occurs_in(decimal(server as nat), outdated_client_text(client, server)),
{
    let c = decimal(client as nat);
    let s = decimal(server as nat);
    let a1 = "Outdated server! You are running protocol v"@;
    let a2 = " while the server is still on v"@;
    let a3 = "."@;
    lemma_occurs_between(a1, c, a2 + s + a3);
    assert(a1 + c + (a2 + s + a3) =~= outdated_server_text(client, server));
    lemma_occurs_between(a1 + c + a2, s, a3);
    let b1 =
        "Outdated client! Please update the mod in order to connect to the server. Client protocol version: v"@;
    let b2 = ", server: v"@;
    lemma_occurs_between(b1, c, b2 + s);
    assert(b1 + c + (b2 + s) =~= outdated_client_text(client, server));
    lemma_occurs_between(b1 + c + b2, s, Seq::empty());
    assert(b1 + c + b2 + s + Seq::<char>::empty() =~= outdated_client_text(client, server));
}

/// The message for a rejected login holds the service's whole answer.
pub proof fn lemma_login_failed_text_holds_response(response: Seq<char>)
    ensures
        occurs_in(response, login_failed_text(response)),
{
    lemma_occurs_between("authentication failed: "@, response, Seq::empty());
    assert("authentication failed: "@ + response + Seq::<char>::empty() =~= login_failed_text(
        response,
    ));
}

/// The message for a peer whose protocol version is newer than the server's.
pub fn outdated_server_message(client: u16, server: u16) -> (s: String)
    ensures
        s@ == outdated_server_text(client, server),
{
    let mut s = String::from_str("Outdated server! You are running protocol v");
    let c = decimal_string(client);
    s.append(c.as_str());
    s.append(" while the server is still on v");
    let v = decimal_string(server);
    s.append(v.as_str());
    s.append(".");
    s
}

/// The message for a peer whose protocol version is older than the server's.
pub fn outdated_client_message(client: u16, server: u16) -> (s: String)
    ensures
        s@ == outdated_client_text(client, server),
{
    let mut s = String::from_str(
        "Outdated client! Please update the mod in order to connect to the server. Client protocol version: v",
    );
    let c = decimal_string(client);
    s.append(c.as_str());
    s.append(", server: v");
    let v = decimal_string(server);
    s.append(v.as_str());
    s
}

/// The message for a peer that has not logged in.
pub fn not_logged_in_message() -> (s: String)
    ensures
        s@ == not_logged_in_text(),
{
    String::from_str("not logged in")
}

/// The message for a rejected login.
pub fn login_failed_message(response: &str) -> (s: String)
    ensures
        s@ == login_failed_text(response@),
{
    let mut s = String::from_str("authentication failed: ");
    s.append(response);
    s
}

/// The opening of an answer that accepts a login.
pub open spec fn accepted_prefix() -> Seq<char> {
    seq!['s', 't', 'a', 't', 'u', 's', '_', 'o', 'k', ':']
}

/// Whether the identity service's answer accepts the login: it begins with
/// `status_ok:`.
pub open spec fn accepts_login(response: Seq<char>) -> bool {
    accepted_prefix().is_prefix_of(response)
}

/// The display name in an answer that accepts a login: what follows the
/// first colon.
pub open spec fn verified_name(response: Seq<char>) -> Seq<char> {
    response.skip(10)
}

/// In an answer that accepts a login, the first colon is the one that ends
/// the opening, so the name is all that follows the first colon.
pub proof fn lemma_name_follows_first_colon(response: Seq<char>)
    requires
        accepts_login(response),
    ensures
        response.len() >= 10,
        response[9] == ':',
        forall|i: int| 0 <= i < 9 ==> response[i] != ':',
        verified_name(response) == response.subrange(10, response.len() as int),
{
    let prefix = accepted_prefix();
    assert(prefix.len() == 10);
    assert forall|i: int| 0 <= i < 10 implies response[i] == prefix[i] by {
        assert(response.subrange(0, 10)[i] == prefix[i]);
    }
}

/// What the identity service's answer to a login says.
#[derive(Clone, Debug, PartialEq, Eq)]
pub enum LoginVerdict {
    /// The login is accepted, under this display name.
    Accepted { name: String },
    /// The login is rejected.
    Rejected,
}

/// Reads the identity service's answer to a login.
pub fn read_login_response(response: &str) -> (verdict: LoginVerdict)
    ensures
        match verdict {
            LoginVerdict::Accepted { name } => accepts_login(response@) && name@ == verified_name(
                response@,
            ),
            LoginVerdict::Rejected => !accepts_login(response@),
        },
{
    let prefix = "status_ok:";
    proof {
        reveal_strlit("status_ok:");
        assert(prefix@ =~= accepted_prefix());
    }
    let len: usize = response.unicode_len();
    if len < 10 {
        return LoginVerdict::Rejected;
    }
    let mut i: usize = 0;
    while i < 10
        invariant
            i <= 10,
            len == response@.len(),
            len >= 10,
            prefix@ == accepted_prefix(),
            forall|j: int| 0 <= j < i ==> response@[j] == accepted_prefix()[j],
        decreases 10 - i,
    {
        if response.get_char(i) != prefix.get_char(i) {
            proof {
                if accepts_login(response@) {
                    assert(response@.subrange(0, 10)[i as int] == accepted_prefix()[i as int]);
                }
            }
            return LoginVerdict::Rejected;
        }
        i += 1;
    }
    assert(response@.subrange(0, 10) =~= accepted_prefix());
    let name = response.substring_char(10, len);
    assert(name@ =~= verified_name(response@));
    LoginVerdict::Accepted { name: String::from_str(name) }
}

} // verus!
