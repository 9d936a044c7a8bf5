//! The forwarder: where a request is sent, and what of the backend's answer is
//! handed back to the caller.
use vstd::prelude::*;
use vstd::string::*;

verus! {

/// The fixed backend origin. `port` is `None` when the scheme's default port
/// is meant, which the origin's text then leaves out.
pub struct ForwardTarget {
    pub scheme: String,
    pub host: String,
    pub port: Option<u16>,
}

/// Why a forwarded call produced no relayed response.
#[derive(Debug, Clone, Copy, PartialEq, Eq, Structural)]
pub enum ForwardError {
    /// The backend could not be reached, timed out or did not answer.
    Upstream,
    /// The backend's body is longer than the configured ceiling.
    PayloadTooLarge,
}

/// HTTP status of every forwarding failure.
pub const BAD_GATEWAY: u16 = 502;

impl ForwardError {
    /// The status with which the caller is answered: one gateway error for
    /// every forwarding failure.
    pub fn status(&self) -> (r: u16)
        ensures
            r == BAD_GATEWAY,
    {
        BAD_GATEWAY
    }
}

/// What goes back to the caller: the backend's status, the relayed headers in
/// order (names as text, values as the bytes the backend sent), and the body
/// bytes.
pub struct RelayedResponse {
    pub status: u16,
    pub headers: Vec<(String, Vec<u8>)>,
    pub body: Vec<u8>,
}

/// The character of a decimal digit.
pub open spec fn digit_char(d: nat) -> char {
    if d == 0 { '0' }
    else if d == 1 { '1' }
    else if d == 2 { '2' }
    else if d == 3 { '3' }
    else if d == 4 { '4' }
    else if d == 5 { '5' }
    else if d == 6 { '6' }
    else if d == 7 { '7' }
    else if d == 8 { '8' }
    else { '9' }
}

/// The decimal numeral of `n`, without leading zeros.
pub open spec fn decimal(n: nat) -> Seq<char>
    decreases n,
{
    if n < 10 {
        seq![digit_char(n)]
    } else {
        decimal(n / 10) + seq![digit_char(n % 10)]
    }
}

/// The text of a backend origin: `scheme://host`, then `:port` when a port
/// is given.
pub open spec fn origin_text(scheme: Seq<char>, host: Seq<char>, port: Option<u16>) -> Seq<char> {
    let base = scheme + "://"@ + host;
    match port {
        Some(p) => base + ":"@ + decimal(p as nat),
        None => base,
    }
}

/// The outbound URL: the origin followed verbatim by the inbound path and,
/// when the inbound request has one, `?` and its query.
pub open spec fn rewritten_url(
    scheme: Seq<char>,
    host: Seq<char>,
    port: Option<u16>,
    path: Seq<char>,
    query: Option<Seq<char>>,
) -> Seq<char> {
    let head = origin_text(scheme, host, port) + path;
    match query {
        Some(q) => head + "?"@ + q,
        None => head,
    }
}

fn push_digit(s: &mut String, d: u16)
    requires
        d < 10,
    ensures
        final(s)@ == old(s)@ + seq![digit_char(d as nat)],
{
    proof {
        reveal_strlit("0");
        reveal_strlit("1");
        reveal_strlit("2");
        reveal_strlit("3");
        reveal_strlit("4");
        reveal_strlit("5");
        reveal_strlit("6");
        reveal_strlit("7");
        reveal_strlit("8");
        reveal_strlit("9");
    }
    let t = match d {
        0 => "0",
        1 => "1",
        2 => "2",
        3 => "3",
        4 => "4",
        5 => "5",
        6 => "6",
        7 => "7",
        8 => "8",
        _ => "9",
    };
    assert(t@ =~= seq![digit_char(d as nat)]);
    s.append(t);
}

fn push_decimal(s: &mut String, n: u16)
    ensures
        final(s)@ == old(s)@ + decimal(n as nat),
    decreases n,
{
    if n >= 10 {
        push_decimal(s, n / 10);
    }
    push_digit(s, n % 10);
    assert(final(s)@ =~= old(s)@ + decimal(n as nat));
}

/// Builds the outbound URL for an inbound request by putting its path and
/// query onto the backend origin; nothing in the path is rewritten.
pub fn rewrite_url(target: &ForwardTarget, path: &str, query: Option<&str>) -> (r: String)
    ensures
        r@ == rewritten_url(
            target.scheme@,
            target.host@,
            target.port,
            path@,
            match query {
                Some(q) => Some(q@),
                None => None,
            },
        ),
{
    let mut url = target.scheme.clone();
    url.append("://");
    url.append(target.host.as_str());
    match target.port {
        Some(p) => {
            url.append(":");
            push_decimal(&mut url, p);
        },
        None => {},
    }
    url.append(path);
    match query {
        Some(q) => {
            url.append("?");
            url.append(q);
        },
        None => {},
    }
    url
}

/// The header name `content-type`, in lower and in upper case.
pub open spec fn content_type_lower() -> Seq<char> {
    "content-type"@
}

pub open spec fn content_type_upper() -> Seq<char> {
    "CONTENT-TYPE"@
}

/// Whether a header name is `Content-Type`, compared without regard to ASCII
/// case.
pub open spec fn is_content_type(name: Seq<char>) -> bool {
    &&& name.len() == 12
    &&& forall|i: int|
        0 <= i < 12 ==> #[trigger] name[i] == content_type_lower()[i] || name[i]
            == content_type_upper()[i]
}

pub open spec fn header_view(h: (String, Vec<u8>)) -> (Seq<char>, Seq<u8>) {
    (h.0@, h.1@)
}

pub open spec fn headers_view(hs: Seq<(String, Vec<u8>)>) -> Seq<(Seq<char>, Seq<u8>)> {
    hs.map_values(|h: (String, Vec<u8>)| header_view(h))
}

/// The bytes of `application/json`.
pub open spec fn json_media_type() -> Seq<u8> {
    seq![97u8, 112, 112, 108, 105, 99, 97, 116, 105, 111, 110, 47, 106, 115, 111, 110]
}

/// The backend's headers other than `Content-Type`, in their order, duplicates
/// kept.
pub open spec fn kept_headers(hs: Seq<(Seq<char>, Seq<u8>)>) -> Seq<(Seq<char>, Seq<u8>)>
    decreases hs.len(),
{
    if hs.len() == 0 {
        seq![]
    } else {
        let prev = kept_headers(hs.drop_last());
        if is_content_type(hs.last().0) {
            prev
        } else {
            prev.push(hs.last())
        }
    }
}

/// The headers relayed to the caller: the backend's, with every
/// `Content-Type` replaced by one `content-type: application/json` at the end.
pub open spec fn relayed_headers(hs: Seq<(Seq<char>, Seq<u8>)>) -> Seq<(Seq<char>, Seq<u8>)> {
    kept_headers(hs).push(("content-type"@, json_media_type()))
}

/// Tells whether a header name is `Content-Type`, in any ASCII case.
pub fn header_is_content_type(name: &str) -> (r: bool)
    ensures
        r == is_content_type(name@),
{
    proof {
        reveal_strlit("content-type");
        reveal_strlit("CONTENT-TYPE");
    }
    let lower = "content-type";
    let upper = "CONTENT-TYPE";
    let n = name.unicode_len();
    if n != 12 {
        return false;
    }
    let mut i: usize = 0;
    while i < 12
        invariant
            n == name@.len() == 12,
            lower@ == content_type_lower(),
            upper@ == content_type_upper(),
            lower@.len() == 12,
            upper@.len() == 12,
            forall|j: int|
                0 <= j < i ==> #[trigger] name@[j] == content_type_lower()[j] || name@[j]
                    == content_type_upper()[j],
        decreases 12 - i,
    {
        let c = name.get_char(i);
        if c != lower.get_char(i) && c != upper.get_char(i) {
            return false;
        }
        i = i + 1;
    }
    true
}

/// A byte-for-byte copy of a header value.
fn copy_bytes(v: &Vec<u8>) -> (r: Vec<u8>)
    ensures
        r@ == v@,
{
    let mut out: Vec<u8> = Vec::new();
    let mut i: usize = 0;
    while i < v.len()
        invariant
            i <= v@.len(),
            out@ == v@.subrange(0, i as int),
        decreases v@.len() - i,
    {
        out.push(v[i]);
        i = i + 1;
        assert(out@ =~= v@.subrange(0, i as int));
    }
    assert(v@.subrange(0, v@.len() as int) =~= v@);
    out
}

/// Copies the backend's headers for the caller: every header but
/// `Content-Type` is kept, in order and with its duplicates, and the content
/// type is forced to `application/json`.
pub fn relay_headers(backend: &Vec<(String, Vec<u8>)>) -> (r: Vec<(String, Vec<u8>)>)
    ensures
        headers_view(r@) == relayed_headers(headers_view(backend@)),
{
    let mut out: Vec<(String, Vec<u8>)> = Vec::new();
    let mut i: usize = 0;
    while i < backend.len()
        invariant
            i <= backend@.len(),
            headers_view(out@) == kept_headers(headers_view(backend@.subrange(0, i as int))),
        decreases backend@.len() - i,
    {
        let name = &backend[i].0;
        let value = &backend[i].1;
        assert(headers_view(backend@.subrange(0, i + 1)).drop_last() =~= headers_view(
            backend@.subrange(0, i as int),
        ));
        if !header_is_content_type(name.as_str()) {
            out.push((name.clone(), copy_bytes(value)));
            assert(headers_view(out@) =~= kept_headers(
                headers_view(backend@.subrange(0, i as int)),
            ).push(header_view(backend@[i as int])));
        }
        i = i + 1;
    }
    assert(backend@.subrange(0, backend@.len() as int) =~= backend@);
    let json: Vec<u8> = vec![97u8, 112, 112, 108, 105, 99, 97, 116, 105, 111, 110, 47, 106, 115, 111, 110];
    assert(json@ =~= json_media_type());
    out.push((String::from_str("content-type"), json));
    assert(headers_view(out@) =~= relayed_headers(headers_view(backend@)));
    out
}

/// Hands the backend's body on when it fits under `limit` bytes; a longer one
/// is an explicit error, never a truncated body.
pub fn limit_body(body: Vec<u8>, limit: usize) -> (r: Result<Vec<u8>, ForwardError>)
    ensures
        body@.len() <= limit ==> (r matches Ok(b) && b@ == body@),
        body@.len() > limit ==> r == Err::<Vec<u8>, ForwardError>(ForwardError::PayloadTooLarge),
{
    if body.len() <= limit {
        Ok(body)
    } else {
        Err(ForwardError::PayloadTooLarge)
    }
}

/// Assembles the response relayed for a backend answer: the backend's status,
/// its headers with the content type forced to `application/json`, and its
/// body unchanged, unless the body is longer than `limit` bytes.
pub fn forward(status: u16, headers: &Vec<(String, Vec<u8>)>, body: Vec<u8>, limit: usize) -> (r:
    Result<RelayedResponse, ForwardError>)
    ensures
        body@.len() <= limit ==> (r matches Ok(resp) && resp.status == status && resp.body@
            == body@ && headers_view(resp.headers@) == relayed_headers(headers_view(headers@))),
        body@.len() > limit ==> (r matches Err(e) && e == ForwardError::PayloadTooLarge),
{
    let body = match limit_body(body, limit) {
        Ok(b) => b,
        Err(e) => return Err(e),
    };
    Ok(RelayedResponse { status, headers: relay_headers(headers), body })
}

} // verus!
