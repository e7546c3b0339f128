//! The address of the event stream: its scheme, host and port come from the
//! server's base URL, the applications and the credentials go in the query.

use vstd::prelude::*;
use vstd::utf8::encode_utf8;
use crate::errors::{EndpointFault, Error};
use crate::json::{opt_str_view, strs_view};

verus! {

pub open spec fn starts_with(s: Seq<char>, p: Seq<char>) -> bool {
    s.len() >= p.len() && s.subrange(0, p.len() as int) == p
}

/// Whether `s` begins with `p`.
pub fn has_prefix(s: &str, p: &str) -> (r: bool)
    ensures
        r == starts_with(s@, p@),
{
    let n = p.unicode_len();
    if s.unicode_len() < n {
        return false;
    }
    let mut i: usize = 0;
    while i < n
        invariant
            n == p@.len(),
            n <= s@.len(),
            i <= n,
            forall|x: int| 0 <= x < i ==> s@[x] == p@[x],
        decreases n - i,
    {
        if s.get_char(i) != p.get_char(i) {
            assert(s@.subrange(0, n as int)[i as int] != p@[i as int]);
            return false;
        }
        i += 1;
    }
    assert(s@.subrange(0, n as int) =~= p@);
    true
}

pub open spec fn digit_char(d: nat) -> char {
    ('0' as u8 + d as u8) as char
}

/// The decimal digits of `n`, without leading zeros.
pub open spec fn decimal(n: nat) -> Seq<char>
    decreases n,
{
    if n < 10 {
        seq![digit_char(n)]
    } else {
        decimal(n / 10) + seq![digit_char(n % 10)]
    }
}

fn digit_str(d: u64) -> (r: &'static str)
    requires
        d < 10,
    ensures
        r@ == seq![digit_char(d as nat)],
{
    proof {
        reveal_strlit("0");
        reveal_strlit("1");
        reveal_strlit("2");
        reveal_strlit("3");
        reveal_strlit("4");
        reveal_strlit("5");
        reveal_strlit("6");
        reveal_strlit("7");
        reveal_strlit("8");
        reveal_strlit("9");
    }
    let r = if d == 0 {
        "0"
    } else if d == 1 {
        "1"
    } else if d == 2 {
        "2"
    } else if d == 3 {
        "3"
    } else if d == 4 {
        "4"
    } else if d == 5 {
        "5"
    } else if d == 6 {
        "6"
    } else if d == 7 {
        "7"
    } else if d == 8 {
        "8"
    } else {
        "9"
    };
    assert(r@ =~= seq![digit_char(d as nat)]);
    r
}

/// The decimal text of a number.
pub fn decimal_string(n: u64) -> (r: String)
    ensures
        r@ == decimal(n as nat),
    decreases n,
{
    if n < 10 {
        String::from_str(digit_str(n))
    } else {
        let mut s = decimal_string(n / 10);
        s.append(digit_str(n % 10));
        s
    }
}

/// The parts joined into one text, with `sep` between each two.
pub open spec fn join_with(parts: Seq<Seq<char>>, sep: Seq<char>) -> Seq<char>
    decreases parts.len(),
{
    if parts.len() == 0 {
        Seq::empty()
    } else if parts.len() == 1 {
        parts[0]
    } else {
        join_with(parts.drop_last(), sep) + sep + parts.last()
    }
}

pub fn join(parts: &Vec<String>, sep: &str) -> (r: String)
    ensures
        r@ == join_with(strs_view(*parts), sep@),
{
    let ghost ps = strs_view(*parts);
    let mut out = String::new();
    let mut i: usize = 0;
    while i < parts.len()
        invariant
            i <= parts.len(),
            ps == strs_view(*parts),
            out@ == join_with(ps.take(i as int), sep@),
        decreases parts.len() - i,
    {
        if i > 0 {
            out.append(sep);
        }
        out.append(parts[i].as_str());
        assert(ps.take(i + 1).drop_last() =~= ps.take(i as int));
        if i == 0 {
            assert(out@ =~= ps.take(1)[0]);
        }
        i += 1;
    }
    assert(ps.take(parts.len() as int) =~= ps);
    out
}

pub open spec fn ascii_alphanumeric(b: u8) -> bool {
    (0x30 <= b <= 0x39) || (0x41 <= b <= 0x5a) || (0x61 <= b <= 0x7a)
}

/// The bytes that percent-encoding keeps as they are: ASCII letters and
/// digits, and where `marks` holds, `-`, `.`, `_`, `~` too.
pub open spec fn kept_byte(b: u8, marks: bool) -> bool {
    ascii_alphanumeric(b) || (marks && (b == 0x2d || b == 0x2e || b == 0x5f || b == 0x7e))
}

/// An upper-case hexadecimal digit.
pub open spec fn hex_digit(d: u8) -> char {
    if d < 10 {
        ('0' as u8 + d) as char
    } else {
        ('A' as u8 - 10 + d) as char
    }
}

/// Bytes percent-encoded: each byte that `kept_byte` does not keep becomes
/// `%` and its two hexadecimal digits.
pub open spec fn percent_encoded(bytes: Seq<u8>, marks: bool) -> Seq<char>
    decreases bytes.len(),
{
    if bytes.len() == 0 {
        Seq::empty()
    } else {
        let b = bytes.last();
        percent_encoded(bytes.drop_last(), marks) + if kept_byte(b, marks) {
            seq![b as char]
        } else {
            seq!['%', hex_digit(b / 16), hex_digit(b % 16)]
        }
    }
}

/// Relies on urlencoding::encode: every byte of the text's UTF-8 form but
/// ASCII letters, digits and `-` `.` `_` `~` is written `%XX`, in upper case.
#[verifier::external_body]
fn encode_component(s: &str) -> (r: String)
    ensures
        r@ == percent_encoded(encode_utf8(s@), true),
{
    urlencoding::encode(s).into_owned()
}

#[verifier::external_type_specification]
#[verifier::external_body]
pub struct ExUrlParseError(url::ParseError);

/// What the event stream needs of a URL: its host and its explicit port.
#[derive(Clone, Debug, PartialEq)]
pub struct UrlParts {
    pub host: Option<String>,
    pub port: Option<u16>,
}

/// What the url crate reads from a text: `None` where it is no URL, else the
/// host and the port written in it.
pub uninterp spec fn url_parts(s: Seq<char>) -> Option<(Option<Seq<char>>, Option<u16>)>;

/// Relies on url::Url::parse, and on Url::host_str and Url::port to read the
/// host and the port that the text gives.
#[verifier::external_body]
fn parse_url(s: &str) -> (r: Result<UrlParts, url::ParseError>)
    ensures
        match r {
            Ok(p) => url_parts(s@) == Some((opt_str_view(p.host), p.port)),
            Err(_) => url_parts(s@) is None,
        },
{
    let u = url::Url::parse(s)?;
    Ok(UrlParts { host: u.host_str().map(|h| h.to_string()), port: u.port() })
}

/// The address of the event stream of host `host` and port `port`, for the
/// applications `apps`, with the credentials in the query, percent-encoded.
pub open spec fn events_url_text(
    secure: bool,
    host: Seq<char>,
    port: u16,
    apps: Seq<Seq<char>>,
    user: Seq<char>,
    password: Seq<char>,
) -> Seq<char> {
    (if secure {
        "wss"@
    } else {
        "ws"@
    }) + "://"@ + host + ":"@ + decimal(port as nat) + "/ari/events?app="@ + join_with(apps, ","@)
        + "&api_key="@ + percent_encoded(encode_utf8(user), true) + ":"@ + percent_encoded(
        encode_utf8(password),
        true,
    )
}

/// The address of the event stream, from the parts of the base URL.
pub fn events_url(
    secure: bool,
    host: &str,
    port: u16,
    apps: &Vec<String>,
    user: &str,
    password: &str,
) -> (r: String)
    ensures
        r@ == events_url_text(secure, host@, port, strs_view(*apps), user@, password@),
{
    let mut s = String::from_str(
        if secure {
            "wss"
        } else {
            "ws"
        },
    );
    s.append("://");
    s.append(host);
    s.append(":");
    s.append(decimal_string(port as u64).as_str());
    s.append("/ari/events?app=");
    s.append(join(apps, ",").as_str());
    s.append("&api_key=");
    s.append(encode_component(user).as_str());
    s.append(":");
    s.append(encode_component(password).as_str());
    s
}

/// Whether the event stream of a server at `base` is secure: it is where the
/// server is reached over https.
pub open spec fn secure_base(base: Seq<char>) -> bool {
    starts_with(base, "https://"@)
}

/// What `stream_url` returns for a base URL: the error, or the address.
pub open spec fn stream_url_result(
    base: Seq<char>,
    apps: Seq<Seq<char>>,
    user: Seq<char>,
    password: Seq<char>,
) -> Result<Seq<char>, Error> {
    match url_parts(base) {
        None => Err(Error::UrlParse),
        Some((None, _)) => Err(Error::InvalidEndpoint(EndpointFault::MissingHost)),
        Some((Some(_), None)) => Err(Error::InvalidEndpoint(EndpointFault::MissingPort)),
        Some((Some(h), Some(p))) => {
            let u = events_url_text(secure_base(base), h, p, apps, user, password);
            if url_parts(u) is Some {
                Ok(u)
            } else {
                Err(Error::UrlParse)
            }
        },
    }
}

/// The address of the event stream of the server at `base`, for the
/// applications `apps`. It fails before any network traffic where `base` is
/// no URL or lacks an explicit host or port.
pub fn stream_url(base: &str, apps: &Vec<String>, user: &str, password: &str) -> (r: Result<
    String,
    Error,
>)
    ensures
        match r {
            Ok(u) => stream_url_result(base@, strs_view(*apps), user@, password@) == Ok::<
                Seq<char>,
                Error,
            >(u@),
            Err(e) => stream_url_result(base@, strs_view(*apps), user@, password@) == Err::<
                Seq<char>,
                Error,
            >(e),
        },
{
    let secure = has_prefix(base, "https://");
    let parts = match parse_url(base) {
        Ok(p) => p,
        Err(_) => {
            return Err(Error::UrlParse);
        },
    };
    let host = match parts.host {
        Some(h) => h,
        None => {
            return Err(Error::InvalidEndpoint(EndpointFault::MissingHost));
        },
    };
    let port = match parts.port {
        Some(p) => p,
        None => {
            return Err(Error::InvalidEndpoint(EndpointFault::MissingPort));
        },
    };
    let u = events_url(secure, host.as_str(), port, apps, user, password);
    match parse_url(u.as_str()) {
        Ok(_) => Ok(u),
        Err(_) => Err(Error::UrlParse),
    }
}

} // verus!
