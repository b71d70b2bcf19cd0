use vstd::prelude::*;
use url::{ParseError, Url};
use crate::error::{Error, ErrorKind};

verus! {

/// `url::Url`, carried through opaquely as the parsed endpoint.
#[verifier::external_type_specification]
#[verifier::external_body]
pub struct ExUrl(Url);

/// `url::ParseError`, the error of `url::Url::parse`.
#[verifier::external_type_specification]
#[verifier::external_body]
pub struct ExParseError(ParseError);

/// The port on which a regtest node serves RPC inside its container.
pub const RPC_PORT: u16 = 18443;

/// The character of a single decimal digit.
pub open spec fn digit_char(d: nat) -> char
    recommends
        d < 10,
{
    if d == 0 { '0' }
    else if d == 1 { '1' }
    else if d == 2 { '2' }
    else if d == 3 { '3' }
    else if d == 4 { '4' }
    else if d == 5 { '5' }
    else if d == 6 { '6' }
    else if d == 7 { '7' }
    else if d == 8 { '8' }
    else { '9' }
}

/// The decimal notation of `n`, without leading zeros.
pub open spec fn decimal(n: nat) -> Seq<char>
    decreases n,
{
    if n < 10 {
        seq![digit_char(n)]
    } else {
        decimal(n / 10) + seq![digit_char(n % 10)]
    }
}

/// The locator of a node on this host: basic-auth credentials, then the port.
pub open spec fn locator_of(username: Seq<char>, password: Seq<char>, port: u16) -> Seq<char> {
    "http://"@ + username + ":"@ + password + "@localhost:"@ + decimal(port as nat)
}

/// Whether `url::Url::parse` accepts a string.
pub uninterp spec fn url_accepts(s: Seq<char>) -> bool;

/// Relies on `url::Url::parse`: it succeeds or fails according to the input
/// string alone.
#[verifier::external_body]
fn parse_url(s: &str) -> (r: core::result::Result<Url, ParseError>)
    ensures
        r.is_ok() == url_accepts(s@),
{
    Url::parse(s)
}

fn digit_str(d: u16) -> (r: &'static str)
    requires
        d < 10,
    ensures
        r@ == seq![digit_char(d as nat)],
{
    proof {
        reveal_strlit("0");
        reveal_strlit("1");
        reveal_strlit("2");
        reveal_strlit("3");
        reveal_strlit("4");
        reveal_strlit("5");
        reveal_strlit("6");
        reveal_strlit("7");
        reveal_strlit("8");
        reveal_strlit("9");
    }
    if d == 0 { "0" }
    else if d == 1 { "1" }
    else if d == 2 { "2" }
    else if d == 3 { "3" }
    else if d == 4 { "4" }
    else if d == 5 { "5" }
    else if d == 6 { "6" }
    else if d == 7 { "7" }
    else if d == 8 { "8" }
    else { "9" }
}

fn append_decimal(out: &mut String, n: u16)
    ensures
        final(out)@ == old(out)@ + decimal(n as nat),
    decreases n,
{
    if n >= 10 {
        append_decimal(out, n / 10);
    }
    out.append(digit_str(n % 10));
    proof {
        if n < 10 {
            assert(n % 10 == n);
        }
        assert(final(out)@ =~= old(out)@ + decimal(n as nat));
    }
}

/// The locator string of a node reachable on `port` of this host with the
/// given basic-auth credentials.
pub fn endpoint_locator(username: &str, password: &str, port: u16) -> (r: String)
    ensures
        r@ == locator_of(username@, password@, port),
{
    let mut s = String::from_str("http://");
    s.append(username);
    s.append(":");
    s.append(password);
    s.append("@localhost:");
    append_decimal(&mut s, port);
    s
}

/// Derives the URL of a started node from its credentials and the host port
/// mapped to its RPC port. A missing port mapping, or a locator that does not
/// parse as a URL, is a configuration error.
pub fn resolve_endpoint(username: &str, password: &str, port: Option<u16>) -> (r: crate::error::Result<Url>)
    ensures
        port is None ==> r == Err::<Url, Error>(Error { kind: ErrorKind::Configuration }),
        port is Some ==> (r.is_ok() <==> url_accepts(locator_of(username@, password@, port->0))),
        port is Some && r.is_err() ==> r == Err::<Url, Error>(Error { kind: ErrorKind::Configuration }),
{
    match port {
        None => Err(Error::new(ErrorKind::Configuration)),
        Some(p) => {
            let locator = endpoint_locator(username, password, p);
            match parse_url(locator.as_str()) {
                Ok(url) => Ok(url),
                Err(_) => Err(Error::new(ErrorKind::Configuration)),
            }
        }
    }
}

} // verus!
