//! The local addresses under which the agent server is reached.

use vstd::prelude::*;
use vstd::string::StringExecFns;

verus! {

/// The decimal digit for `d`.
pub open spec fn digit_char(d: nat) -> char {
    if d == 0 {
        '0'
    } else if d == 1 {
        '1'
    } else if d == 2 {
        '2'
    } else if d == 3 {
        '3'
    } else if d == 4 {
        '4'
    } else if d == 5 {
        '5'
    } else if d == 6 {
        '6'
    } else if d == 7 {
        '7'
    } else if d == 8 {
        '8'
    } else {
        '9'
    }
}

/// `n` written in decimal, without leading zeros.
pub open spec fn decimal(n: nat) -> Seq<char>
    decreases n,
{
    if n < 10 {
        seq![digit_char(n)]
    } else {
        decimal(n / 10).push(digit_char(n % 10))
    }
}

/// The loopback address the server binds: `127.0.0.1:<port>`.
pub open spec fn server_address_of(port: u16) -> Seq<char> {
    "127.0.0.1:"@ + decimal(port as nat)
}

/// The base URL of the server at `address`.
pub open spec fn base_url_of(address: Seq<char>) -> Seq<char> {
    "http://"@ + address
}

/// The agent card URL, probed for readiness, of the server at `base`.
pub open spec fn card_url_of(base: Seq<char>) -> Seq<char> {
    base + "/.well-known/agent-card.json"@
}

fn digit_str(d: u16) -> (r: &'static str)
    requires
        d < 10,
    ensures
        r@ == seq![digit_char(d as nat)],
{
    proof {
        reveal_strlit("0");
        reveal_strlit("1");
        reveal_strlit("2");
        reveal_strlit("3");
        reveal_strlit("4");
        reveal_strlit("5");
        reveal_strlit("6");
        reveal_strlit("7");
        reveal_strlit("8");
        reveal_strlit("9");
    }
    let r = if d == 0 {
        "0"
    } else if d == 1 {
        "1"
    } else if d == 2 {
        "2"
    } else if d == 3 {
        "3"
    } else if d == 4 {
        "4"
    } else if d == 5 {
        "5"
    } else if d == 6 {
        "6"
    } else if d == 7 {
        "7"
    } else if d == 8 {
        "8"
    } else {
        "9"
    };
    assert(r@ =~= seq![digit_char(d as nat)]);
    r
}

fn push_decimal(out: &mut String, n: u16)
    ensures
        final(out)@ == old(out)@ + decimal(n as nat),
    decreases n,
{
    if n >= 10 {
        push_decimal(out, n / 10);
    }
    out.append(digit_str(n % 10));
    assert(out@ =~= old(out)@ + decimal(n as nat));
}

/// The loopback address for `port`.
pub fn server_address(port: u16) -> (r: String)
    ensures
        r@ == server_address_of(port),
{
    let mut r = String::from_str("127.0.0.1:");
    push_decimal(&mut r, port);
    r
}

/// The base URL of the server at `address`.
pub fn base_url(address: &str) -> (r: String)
    ensures
        r@ == base_url_of(address@),
{
    let mut r = String::from_str("http://");
    r.append(address);
    r
}

/// The agent card URL of the server at `base`.
pub fn card_url(base: &str) -> (r: String)
    ensures
        r@ == card_url_of(base@),
{
    let mut r = String::from_str(base);
    r.append("/.well-known/agent-card.json");
    r
}

} // verus!
