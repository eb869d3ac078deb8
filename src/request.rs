//! Request decoder: raw bytes to a structured request or a typed failure.

use vstd::prelude::*;
use vstd::string::StringSliceAdditionalSpecFns;
use vstd::utf8::{decode_utf8, encode_utf8_decode_utf8, valid_utf8};
use crate::exception::Exception;
use crate::param::{HttpEncoding, HttpRequestMethod, HttpVersion};
use crate::text::{
    chars_of, contains, contains_exec, find_char, find_char_exec, find_pair,
    find_pair_exec, parse_u64, parse_u64_exec, rfind_char, rfind_char_exec, starts_with,
    starts_with_ci, starts_with_ci_exec, starts_with_exec, str_eq, string_of, sub_vec,
};

verus! {

/// Relies on `std::str::from_utf8`: it succeeds exactly on valid UTF-8, and the
/// text it returns is made of the same bytes.
#[verifier::external_body]
fn utf8_text(b: &[u8]) -> (r: Option<&str>)
    ensures
        r is Some <==> valid_utf8(b@),
        r matches Some(s) ==> s.spec_bytes() == b@,
{
    std::str::from_utf8(b).ok()
}

/// A decoded request. Method and version always hold supported values.
#[derive(Debug, Clone)]
pub struct Request {
    pub method: HttpRequestMethod,
    /// Raw request target, query string included, not decoded.
    pub path: String,
    pub version: HttpVersion,
    pub user_agent: String,
    /// Recognized encodings, in the fixed order gzip, deflate, br.
    pub accept_encoding: Vec<HttpEncoding>,
    /// Raw `Accept` header value.
    pub accept: Option<String>,
    /// Requested byte range: start offset and optional inclusive end offset.
    pub range: Option<(u64, Option<u64>)>,
}

/// The abstract content of a [`Request`].
pub struct RequestView {
    pub method: HttpRequestMethod,
    pub path: Seq<char>,
    pub version: HttpVersion,
    pub user_agent: Seq<char>,
    pub accept_encoding: Seq<HttpEncoding>,
    pub accept: Option<Seq<char>>,
    pub range: Option<(u64, Option<u64>)>,
}

pub open spec fn opt_string_view(s: Option<String>) -> Option<Seq<char>> {
    match s {
        Some(x) => Some(x@),
        None => None,
    }
}

impl View for Request {
    type V = RequestView;

    open spec fn view(&self) -> RequestView {
        RequestView {
            method: self.method,
            path: self.path@,
            version: self.version,
            user_agent: self.user_agent@,
            accept_encoding: self.accept_encoding@,
            accept: opt_string_view(self.accept),
            range: self.range,
        }
    }
}

/// The Unicode upper-case form of `s`, as `str::to_uppercase` returns it.
pub uninterp spec fn upper_of(s: Seq<char>) -> Seq<char>;

/// Relies on `str::to_uppercase`: the result depends on the characters alone.
#[verifier::external_body]
fn uppercase(s: &str) -> (r: String)
    ensures
        r@ == upper_of(s@),
{
    s.to_uppercase()
}

/// The method named by an already upper-cased request-line token.
pub open spec fn method_named(upper: Seq<char>) -> Option<HttpRequestMethod> {
    if upper == "GET"@ {
        Some(HttpRequestMethod::Get)
    } else if upper == "HEAD"@ {
        Some(HttpRequestMethod::Head)
    } else if upper == "OPTIONS"@ {
        Some(HttpRequestMethod::Options)
    } else if upper == "POST"@ {
        Some(HttpRequestMethod::Post)
    } else {
        None
    }
}

/// The method that a request-line token names once upper-cased.
pub open spec fn method_of(tok: Seq<char>) -> Option<HttpRequestMethod> {
    method_named(upper_of(tok))
}

/// Matches an upper-cased method token against the supported methods.
pub fn method_from_upper(upper: &str) -> (r: Option<HttpRequestMethod>)
    ensures
        r == method_named(upper@),
{
    if str_eq(upper, "GET") {
        Some(HttpRequestMethod::Get)
    } else if str_eq(upper, "HEAD") {
        Some(HttpRequestMethod::Head)
    } else if str_eq(upper, "OPTIONS") {
        Some(HttpRequestMethod::Options)
    } else if str_eq(upper, "POST") {
        Some(HttpRequestMethod::Post)
    } else {
        None
    }
}

/// Whether an already upper-cased token names the supported protocol.
pub fn is_supported_version(upper: &str) -> (r: bool)
    ensures
        r == (upper@ == "HTTP/1.1"@),
{
    str_eq(upper, "HTTP/1.1")
}

/// The first CRLF-delimited line, at or after the line that starts at
/// `start`, that begins with `prefix` without regard to ASCII case.
pub open spec fn header_line(cs: Seq<char>, start: int, prefix: Seq<char>) -> Option<Seq<char>>
    decreases cs.len() - start,
{
    if start < 0 || start > cs.len() {
        None
    } else {
        let end = find_pair(cs, start, '\r', '\n');
        let line = cs.subrange(start, end);
        if starts_with_ci(line, prefix) {
            Some(line)
        } else if end + 2 > cs.len() || end < start {
            None
        } else {
            header_line(cs, end + 2, prefix)
        }
    }
}

/// What follows the first `": "` of a header line, up to the next `": "`.
pub open spec fn field_value(line: Seq<char>) -> Option<Seq<char>> {
    let i = find_pair(line, 0, ':', ' ');
    if i >= line.len() {
        None
    } else {
        let rest = line.subrange(i + 2, line.len() as int);
        Some(rest.subrange(0, find_pair(rest, 0, ':', ' ')))
    }
}

/// The value of the first header line that starts with `prefix`.
pub open spec fn header_value(cs: Seq<char>, prefix: Seq<char>) -> Option<Seq<char>> {
    match header_line(cs, 0, prefix) {
        Some(line) => field_value(line),
        None => None,
    }
}

/// Encodings named in an `Accept-Encoding` value, by substring, in the fixed
/// order gzip, deflate, br.
pub open spec fn encodings_in(v: Seq<char>) -> Seq<HttpEncoding> {
    (if contains(v, "gzip"@) { seq![HttpEncoding::Gzip] } else { Seq::empty() })
        + (if contains(v, "deflate"@) { seq![HttpEncoding::Deflate] } else { Seq::empty() })
        + (if contains(v, "br"@) { seq![HttpEncoding::Br] } else { Seq::empty() })
}

/// A `Range` value `bytes=<start>-[<end>]`. A start that does not parse means
/// no range; an end that is empty or does not parse means "to the end".
pub open spec fn parse_range(v: Seq<char>) -> Option<(u64, Option<u64>)> {
    if !starts_with(v, "bytes="@) {
        None
    } else {
        let rest = v.subrange("bytes="@.len() as int, v.len() as int);
        let dash = find_char(rest, 0, '-');
        if dash >= rest.len() || find_char(rest, dash + 1, '-') < rest.len() {
            None
        } else {
            match parse_u64(rest.subrange(0, dash)) {
                None => None,
                Some(s) => Some(
                    (
                        s,
                        if dash + 1 == rest.len() {
                            None
                        } else {
                            parse_u64(rest.subrange(dash + 1, rest.len() as int))
                        },
                    ),
                ),
            }
        }
    }
}

/// Decoding of request text.
pub open spec fn parse_request(cs: Seq<char>) -> Result<RequestView, Exception> {
    let line = cs.subrange(0, find_pair(cs, 0, '\r', '\n'));
    let first = find_char(line, 0, ' ');
    let last = rfind_char(line, line.len() as int, ' ');
    if first >= line.len() || last <= first {
        Err(Exception::UnSupportedRequestMethod)
    } else if method_of(line.subrange(0, first)) is None {
        Err(Exception::UnSupportedRequestMethod)
    } else if upper_of(line.subrange(last + 1, line.len() as int)) != "HTTP/1.1"@ {
        Err(Exception::UnsupportedHttpVersion)
    } else {
        Ok(
            RequestView {
                method: method_of(line.subrange(0, first))->0,
                path: line.subrange(first + 1, last),
                version: HttpVersion::V1_1,
                user_agent: match header_value(cs, "user-agent"@) {
                    Some(v) => v,
                    None => Seq::empty(),
                },
                accept_encoding: match header_value(cs, "accept-encoding"@) {
                    Some(v) => encodings_in(v),
                    None => Seq::empty(),
                },
                accept: header_value(cs, "accept:"@),
                range: match header_value(cs, "range:"@) {
                    Some(v) => parse_range(v),
                    None => None,
                },
            },
        )
    }
}

/// Decoding of raw request bytes.
pub open spec fn decode_spec(b: Seq<u8>) -> Result<RequestView, Exception> {
    if !valid_utf8(b) {
        Err(Exception::RequestIsNotUtf8)
    } else {
        parse_request(decode_utf8(b))
    }
}

pub open spec fn result_view(r: Result<Request, Exception>) -> Result<RequestView, Exception> {
    match r {
        Ok(q) => Ok(q@),
        Err(e) => Err(e),
    }
}

pub open spec fn opt_vec_view(r: Option<Vec<char>>) -> Option<Seq<char>> {
    match r {
        Some(v) => Some(v@),
        None => None,
    }
}

fn find_header(cs: &Vec<char>, prefix: &Vec<char>) -> (r: Option<Vec<char>>)
    ensures
        opt_vec_view(r) == header_line(cs@, 0, prefix@),
{
    let mut start: usize = 0;
    loop
        invariant
            start <= cs@.len(),
            header_line(cs@, 0, prefix@) == header_line(cs@, start as int, prefix@),
        decreases cs@.len() - start,
    {
        let end = find_pair_exec(cs, start, '\r', '\n');
        let line = sub_vec(cs, start, end);
        if starts_with_ci_exec(&line, prefix) {
            return Some(line);
        }
        if end >= cs.len() || cs.len() - end < 2 {
            return None;
        }
        start = end + 2;
    }
}

fn field_value_exec(line: &Vec<char>) -> (r: Option<Vec<char>>)
    ensures
        opt_vec_view(r) == field_value(line@),
{
    let i = find_pair_exec(line, 0, ':', ' ');
    if i >= line.len() {
        return None;
    }
    let rest = sub_vec(line, i + 2, line.len());
    let j = find_pair_exec(&rest, 0, ':', ' ');
    Some(sub_vec(&rest, 0, j))
}

fn header_value_exec(cs: &Vec<char>, prefix: &str) -> (r: Option<Vec<char>>)
    ensures
        opt_vec_view(r) == header_value(cs@, prefix@),
{
    let p = chars_of(prefix);
    match find_header(cs, &p) {
        Some(line) => field_value_exec(&line),
        None => None,
    }
}

fn encodings_exec(v: &Vec<char>) -> (r: Vec<HttpEncoding>)
    ensures
        r@ == encodings_in(v@),
{
    let mut r: Vec<HttpEncoding> = Vec::new();
    if contains_exec(v, &chars_of("gzip")) {
        r.push(HttpEncoding::Gzip);
    }
    if contains_exec(v, &chars_of("deflate")) {
        r.push(HttpEncoding::Deflate);
    }
    if contains_exec(v, &chars_of("br")) {
        r.push(HttpEncoding::Br);
    }
    assert(r@ =~= encodings_in(v@));
    r
}

fn parse_range_exec(v: &Vec<char>) -> (r: Option<(u64, Option<u64>)>)
    ensures
        r == parse_range(v@),
{
    let p = chars_of("bytes=");
    if !starts_with_exec(v, &p) {
        return None;
    }
    let rest = sub_vec(v, p.len(), v.len());
    let dash = find_char_exec(&rest, 0, '-');
    if dash >= rest.len() {
        return None;
    }
    if find_char_exec(&rest, dash + 1, '-') < rest.len() {
        return None;
    }
    match parse_u64_exec(&rest, 0, dash) {
        None => None,
        Some(s) => {
            let end = if dash + 1 == rest.len() {
                None
            } else {
                parse_u64_exec(&rest, dash + 1, rest.len())
            };
            Some((s, end))
        },
    }
}

/// Decodes request text that is already known to be valid characters.
fn parse_chars(cs: &Vec<char>) -> (r: Result<Request, Exception>)
    ensures
        result_view(r) == parse_request(cs@),
{
    let e0 = find_pair_exec(cs, 0, '\r', '\n');
    let line = sub_vec(cs, 0, e0);
    let first = find_char_exec(&line, 0, ' ');
    let last = match rfind_char_exec(&line, ' ') {
        Some(l) => l,
        None => {
            return Err(Exception::UnSupportedRequestMethod);
        },
    };
    if first >= line.len() || last <= first {
        return Err(Exception::UnSupportedRequestMethod);
    }
    let method = match method_from_upper(uppercase(string_of(&line, 0, first).as_str()).as_str()) {
        Some(m) => m,
        None => {
            return Err(Exception::UnSupportedRequestMethod);
        },
    };
    if !is_supported_version(uppercase(string_of(&line, last + 1, line.len()).as_str()).as_str()) {
        return Err(Exception::UnsupportedHttpVersion);
    }
    let path = string_of(&line, first + 1, last);
    let user_agent = match header_value_exec(cs, "user-agent") {
        Some(v) => string_of(&v, 0, v.len()),
        None => String::new(),
    };
    let accept_encoding = match header_value_exec(cs, "accept-encoding") {
        Some(v) => encodings_exec(&v),
        None => Vec::new(),
    };
    let accept = match header_value_exec(cs, "accept:") {
        Some(v) => Some(string_of(&v, 0, v.len())),
        None => None,
    };
    let range = match header_value_exec(cs, "range:") {
        Some(v) => parse_range_exec(&v),
        None => None,
    };
    let r = Request {
        method,
        path,
        version: HttpVersion::V1_1,
        user_agent,
        accept_encoding,
        accept,
        range,
    };
    assert(parse_request(cs@) is Ok);
    assert(r@.method == parse_request(cs@)->Ok_0.method);
    assert(r@.path == parse_request(cs@)->Ok_0.path);
    assert(r@.accept == parse_request(cs@)->Ok_0.accept);
    assert(r@.range == parse_request(cs@)->Ok_0.range);
    assert(r@.accept_encoding =~= parse_request(cs@)->Ok_0.accept_encoding);
    assert(r@.user_agent =~= parse_request(cs@)->Ok_0.user_agent);
    Ok(r)
}

impl Request {
    /// Decodes a raw request buffer. `id` identifies the connection for
    /// diagnostics and does not affect the result.
    pub fn try_from(buffer: &Vec<u8>, id: u128) -> (r: Result<Self, Exception>)
        ensures
            result_view(r) == decode_spec(buffer@),
    {
        let text = match utf8_text(buffer.as_slice()) {
            Some(t) => t,
            None => {
                return Err(Exception::RequestIsNotUtf8);
            },
        };
        proof {
            encode_utf8_decode_utf8(text@);
        }
        let cs = chars_of(text);
        parse_chars(&cs)
    }

    pub fn version(&self) -> (r: &HttpVersion)
        ensures
            *r == self.version,
    {
        &self.version
    }

    pub fn path(&self) -> (r: &str)
        ensures
            r@ == self.path@,
    {
        self.path.as_str()
    }

    pub fn method(&self) -> (r: HttpRequestMethod)
        ensures
            r == self.method,
    {
        self.method
    }

    pub fn user_agent(&self) -> (r: &str)
        ensures
            r@ == self.user_agent@,
    {
        self.user_agent.as_str()
    }

    pub fn accept_encoding(&self) -> (r: &Vec<HttpEncoding>)
        ensures
            r@ == self.accept_encoding@,
    {
        &self.accept_encoding
    }

    pub fn accept(&self) -> (r: Option<&String>)
        ensures
            match r {
                Some(s) => self.accept == Some(*s),
                None => self.accept is None,
            },
    {
        self.accept.as_ref()
    }

    pub fn range(&self) -> (r: Option<(u64, Option<u64>)>)
        ensures
            r == self.range,
    {
        self.range
    }
}

} // verus!
