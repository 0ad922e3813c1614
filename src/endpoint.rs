//! Addresses: the bootstrap lookup of the gateway endpoint, and the query that
//! selects the protocol version and JSON encoding when connecting.
use vstd::prelude::*;
use crate::json::{Json, member, find_member};
use crate::codec::text_of;

verus! {

/// The REST API root, followed by the protocol version.
pub const API_BASE: &'static str = "https://discord.com/api/v";
pub const GET_GATEWAY_ENDPOINT: &'static str = "/gateway";
pub const GET_GATEWAY_BOT_ENDPOINT: &'static str = "/gateway/bot";

/// Why the endpoint lookup failed.
#[derive(Debug, Clone, Copy, PartialEq, Eq, Structural)]
pub enum ApiClientError {
    /// The HTTP request failed or its body was not JSON.
    Request,
    /// The response has no string member `url`.
    MissingUrl,
    /// The `url` member is not an absolute URL.
    InvalidUrl,
}

pub open spec fn digit(d: nat) -> char {
    if d == 0 { '0' }
    else if d == 1 { '1' }
    else if d == 2 { '2' }
    else if d == 3 { '3' }
    else if d == 4 { '4' }
    else if d == 5 { '5' }
    else if d == 6 { '6' }
    else if d == 7 { '7' }
    else if d == 8 { '8' }
    else { '9' }
}

/// The decimal digits of `n`, without leading zeros.
pub open spec fn decimal(n: nat) -> Seq<char>
    decreases n,
{
    if n < 10 {
        seq![digit(n)]
    } else {
        decimal(n / 10) + seq![digit(n % 10)]
    }
}

fn push_digit(s: &mut String, d: u8)
    requires
        d < 10,
    ensures
        final(s)@ == old(s)@ + seq![digit(d as nat)],
{
    let t: &str = match d {
        0 => "0",
        1 => "1",
        2 => "2",
        3 => "3",
        4 => "4",
        5 => "5",
        6 => "6",
        7 => "7",
        8 => "8",
        _ => "9",
    };
    proof {
        reveal_strlit("0");
        reveal_strlit("1");
        reveal_strlit("2");
        reveal_strlit("3");
        reveal_strlit("4");
        reveal_strlit("5");
        reveal_strlit("6");
        reveal_strlit("7");
        reveal_strlit("8");
        reveal_strlit("9");
        assert(t@ =~= seq![digit(d as nat)]);
    }
    s.append(t);
}

fn push_decimal(s: &mut String, n: u8)
    ensures
        final(s)@ == old(s)@ + decimal(n as nat),
{
    let ghost n0 = n as nat;
    if n >= 100 {
        push_digit(s, n / 100);
        push_digit(s, (n / 10) % 10);
        push_digit(s, n % 10);
        assert(decimal(n0 / 10) == decimal(n0 / 100) + seq![digit((n0 / 10) % 10)]);
        assert(decimal(n0) =~= seq![digit(n0 / 100), digit((n0 / 10) % 10), digit(n0 % 10)]);
    } else if n >= 10 {
        push_digit(s, n / 10);
        push_digit(s, n % 10);
        assert(n0 / 10 < 10);
        assert(decimal(n0 / 10) == seq![digit(n0 / 10)]);
        assert(decimal(n0) =~= seq![digit(n0 / 10), digit(n0 % 10)]);
    } else {
        push_digit(s, n);
    }
    assert(s@ =~= old(s)@ + decimal(n0));
}

/// The address of the endpoint lookup: the bot variant asks for sharding details too.
pub fn gateway_lookup_url(bot: bool, api_version: u8) -> (r: String)
    ensures
        r@ == API_BASE@ + decimal(api_version as nat) + (if bot {
            GET_GATEWAY_BOT_ENDPOINT@
        } else {
            GET_GATEWAY_ENDPOINT@
        }),
{
    let mut s = String::from_str(API_BASE);
    push_decimal(&mut s, api_version);
    if bot {
        s.append(GET_GATEWAY_BOT_ENDPOINT);
    } else {
        s.append(GET_GATEWAY_ENDPOINT);
    }
    s
}

/// The query string that selects the protocol version and JSON frames.
pub fn connect_query(api_version: u8) -> (r: String)
    ensures
        r@ == "v="@ + decimal(api_version as nat) + "&encoding=json"@,
{
    let mut s = String::from_str("v=");
    push_decimal(&mut s, api_version);
    s.append("&encoding=json");
    s
}

/// The endpoint address out of the lookup's JSON response `{"url": ...}`.
pub fn gateway_url_from(response: &Json) -> (r: Result<String, ApiClientError>)
    ensures
        match r {
            Ok(u) => response is Object && text_of(member(response->Object_0@, "url"@)) == Some(u@),
            Err(e) => e == ApiClientError::MissingUrl && !(response is Object && text_of(
                member(response->Object_0@, "url"@),
            ) is Some),
        },
{
    match response {
        Json::Object(ms) => match find_member(ms, "url") {
            Some(i) => match &ms[i].1 {
                Json::Str(u) => Ok(u.clone()),
                _ => Err(ApiClientError::MissingUrl),
            },
            None => Err(ApiClientError::MissingUrl),
        },
        _ => Err(ApiClientError::MissingUrl),
    }
}

} // verus!
