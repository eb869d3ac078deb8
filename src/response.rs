//! Structured responses, their wire serialization, and the response builder.

use vstd::prelude::*;
use vstd::string::StrSliceExecFns;
use vstd::utf8::encode_utf8;
use crate::param::{
    allowed_methods, allowed_methods_spec, encoding_text, method_text, reason_phrase,
    reason_phrase_spec, version_text, HttpEncoding, HttpRequestMethod, HttpVersion, SERVER_NAME,
};
use crate::cache::{bytes_from_vec, bytes_to_vec, find_model, find_result, put_model, FileCache};
use crate::config::Config;
use crate::encoding::{decide_encoding, decide_spec, encode_body, encoded_body, should_skip_compression, skips_compression};
use crate::exception::Exception;
use crate::param::{get_mime, mime_spec};
use crate::request::{opt_string_view, Request, RequestView};
use crate::text::{
    chars_of, contains, contains_exec, decimal, push_decimal, rfind_char, rfind_char_exec,
    string_of,
};
use crate::util::{page_text, status_body, status_css, HtmlBuilder, HtmlView};

verus! {

/// Shape of an RFC 2822 date in UTC such as `Mon, 2 Jan 2006 15:04:05 +0000`:
/// 30 or 31 characters (one- or two-digit day), ending in ` +0000`, on one
/// line.
pub open spec fn http_date_shape(s: Seq<char>) -> bool {
    &&& (s.len() == 30 || s.len() == 31)
    &&& s.subrange(s.len() - 6, s.len() as int) == " +0000"@
    &&& forall|i: int| 0 <= i < s.len() ==> #[trigger] s[i] != '\r' && s[i] != '\n'
}

/// Relies on `chrono::Utc::now` and `DateTime::to_rfc2822`: the current time
/// as an RFC 2822 date, whose writer puts a weekday, an unpadded day, a
/// month name, a four-digit year, `hh:mm:ss` and the zero offset `+0000`.
/// Both panic only for a clock before 1970 or after the year 9999.
#[verifier::external_body]
fn http_date_now() -> (r: String)
    ensures
        http_date_shape(r@),
{
    chrono::Utc::now().to_rfc2822()
}

/// The current time, as the value of a `Date` header.
pub fn http_date() -> (r: String)
    ensures
        http_date_shape(r@),
{
    http_date_now()
}

/// A response: status line, headers and an optional in-memory body. A
/// missing body with a positive length and a content type means the caller
/// streams the body itself.
#[derive(Debug, Clone)]
pub struct Response {
    pub version: HttpVersion,
    pub status_code: u16,
    pub information: String,
    pub content_type: Option<String>,
    pub content_length: u64,
    /// Value of the `Date` header.
    pub date: String,
    pub content_encoding: Option<HttpEncoding>,
    pub server_name: String,
    pub allow: Option<Vec<HttpRequestMethod>>,
    pub content: Option<Vec<u8>>,
    pub content_range: Option<String>,
    pub accept_ranges: Option<String>,
}

/// Abstract content of a [`Response`].
pub struct ResponseView {
    pub version: HttpVersion,
    pub status_code: u16,
    pub information: Seq<char>,
    pub content_type: Option<Seq<char>>,
    pub content_length: u64,
    pub date: Seq<char>,
    pub content_encoding: Option<HttpEncoding>,
    pub server_name: Seq<char>,
    pub allow: Option<Seq<HttpRequestMethod>>,
    pub content: Option<Seq<u8>>,
    pub content_range: Option<Seq<char>>,
    pub accept_ranges: Option<Seq<char>>,
}

pub open spec fn opt_methods(a: Option<Vec<HttpRequestMethod>>) -> Option<Seq<HttpRequestMethod>> {
    match a {
        Some(v) => Some(v@),
        None => None,
    }
}

pub open spec fn opt_content(c: Option<Vec<u8>>) -> Option<Seq<u8>> {
    match c {
        Some(v) => Some(v@),
        None => None,
    }
}

impl View for Response {
    type V = ResponseView;

    open spec fn view(&self) -> ResponseView {
        ResponseView {
            version: self.version,
            status_code: self.status_code,
            information: self.information@,
            content_type: opt_string_view(self.content_type),
            content_length: self.content_length,
            date: self.date@,
            content_encoding: self.content_encoding,
            server_name: self.server_name@,
            allow: opt_methods(self.allow),
            content: opt_content(self.content),
            content_range: opt_string_view(self.content_range),
            accept_ranges: opt_string_view(self.accept_ranges),
        }
    }
}

/// A fresh `200 OK` response stamped with `date`, advertising the allowed
/// methods and carrying no body.
pub open spec fn base_view(date: Seq<char>) -> ResponseView {
    ResponseView {
        version: HttpVersion::V1_1,
        status_code: 200,
        information: "OK"@,
        content_type: None,
        content_length: 0,
        date: date,
        content_encoding: None,
        server_name: SERVER_NAME@,
        allow: Some(allowed_methods_spec()),
        content: None,
        content_range: None,
        accept_ranges: None,
    }
}

/// `methods` joined with `", "`.
pub open spec fn join_methods(ms: Seq<HttpRequestMethod>) -> Seq<char>
    decreases ms.len(),
{
    if ms.len() == 0 {
        Seq::empty()
    } else if ms.len() == 1 {
        method_text(ms[0])
    } else {
        join_methods(ms.drop_last()) + ", "@ + method_text(ms.last())
    }
}

pub open spec fn opt_header(name: Seq<char>, value: Option<Seq<char>>) -> Seq<char> {
    match value {
        Some(v) => name + v + "\r\n"@,
        None => Seq::empty(),
    }
}

pub open spec fn status_line(v: ResponseView) -> Seq<char> {
    "HTTP/"@ + version_text(v.version) + " "@ + decimal(v.status_code as nat) + " "@ + v.information + "\r\n"@
}

pub open spec fn entity_headers(v: ResponseView) -> Seq<char> {
    opt_header("Content-Type: "@, v.content_type)
        + opt_header("Content-encoding: "@, match v.content_encoding {
            Some(e) => Some(encoding_text(e)),
            None => None,
        })
        + "Content-Length: "@ + decimal(v.content_length as nat) + "\r\n"@
}

pub open spec fn general_headers(v: ResponseView) -> Seq<char> {
    "Date: "@ + v.date + "\r\n"@
        + "Server: "@ + v.server_name + "\r\n"@
        + opt_header("Allow: "@, match v.allow {
            Some(a) => Some(join_methods(a)),
            None => None,
        })
}

pub open spec fn range_headers(v: ResponseView) -> Seq<char> {
    opt_header("Accept-Ranges: "@, v.accept_ranges) + opt_header("Content-Range: "@, v.content_range)
}

/// The header block, in the fixed field order, ending with the blank line.
pub open spec fn header_text(v: ResponseView) -> Seq<char> {
    status_line(v) + entity_headers(v) + general_headers(v) + range_headers(v) + "\r\n"@
}

/// The wire bytes: UTF-8 header block, then the body if there is one.
pub open spec fn wire(v: ResponseView) -> Seq<u8> {
    encode_utf8(header_text(v)) + match v.content {
        Some(c) => c,
        None => Seq::empty(),
    }
}

fn append_opt_header(s: &mut String, name: &str, value: &Option<String>)
    ensures
        final(s)@ == old(s)@ + opt_header(name@, opt_string_view(*value)),
{
    match value {
        Some(v) => {
            s.append(name);
            s.append(v.as_str());
            s.append("\r\n");
        },
        None => {},
    }
    assert(final(s)@ =~= old(s)@ + opt_header(name@, opt_string_view(*value)));
}

fn append_methods(s: &mut String, ms: &Vec<HttpRequestMethod>)
    ensures
        final(s)@ == old(s)@ + join_methods(ms@),
{
    let ghost s0 = s@;
    let mut i: usize = 0;
    while i < ms.len()
        invariant
            i <= ms@.len(),
            s@ == s0 + join_methods(ms@.take(i as int)),
        decreases ms.len() - i,
    {
        let ghost before = s@;
        if i > 0 {
            s.append(", ");
        }
        s.append(ms[i].as_str());
        proof {
            let t = ms@.take(i + 1);
            assert(t.drop_last() =~= ms@.take(i as int));
            assert(t.last() == ms@[i as int]);
            if i == 0 {
                assert(ms@.take(0) =~= Seq::<HttpRequestMethod>::empty());
            }
        }
        i = i + 1;
        assert(s@ =~= s0 + join_methods(ms@.take(i as int)));
    }
    assert(ms@.take(ms@.len() as int) =~= ms@);
}

impl Response {
    /// A `200 OK` response stamped with the current time.
    pub fn new() -> (r: Self)
        ensures
            r@ == base_view(r@.date),
            http_date_shape(r@.date),
    {
        let date = http_date_now();
        Self::dated(date)
    }

    /// A `200 OK` response stamped with `date`.
    pub fn dated(date: String) -> (r: Self)
        ensures
            r@ == base_view(date@),
    {
        let r = Response {
            version: HttpVersion::V1_1,
            status_code: 200,
            information: String::from_str("OK"),
            content_type: None,
            content_length: 0,
            date,
            content_encoding: None,
            server_name: String::from_str(SERVER_NAME),
            allow: Some(allowed_methods()),
            content: None,
            content_range: None,
            accept_ranges: None,
        };
        r
    }

    /// Sets the status code and its reason phrase. The code must be in the
    /// reason-phrase table.
    pub fn set_code(&mut self, code: u16)
        requires
            reason_phrase_spec(code) is Some,
        ensures
            final(self)@ == (ResponseView {
                status_code: code,
                information: reason_phrase_spec(code)->0,
                ..old(self)@
            }),
    {
        self.status_code = code;
        match reason_phrase(code) {
            Some(p) => {
                self.information = String::from_str(p);
            },
            None => {},
        }
    }

    fn append_status_line(&self, h: &mut String)
        ensures
            final(h)@ == old(h)@ + status_line(self@),
    {
        h.append("HTTP/");
        h.append(self.version.as_str());
        h.append(" ");
        push_decimal(h, self.status_code as u64);
        h.append(" ");
        h.append(self.information.as_str());
        h.append("\r\n");
        assert(final(h)@ =~= old(h)@ + status_line(self@));
    }

    fn append_entity_headers(&self, h: &mut String)
        ensures
            final(h)@ == old(h)@ + entity_headers(self@),
    {
        append_opt_header(h, "Content-Type: ", &self.content_type);
        match self.content_encoding {
            Some(e) => {
                h.append("Content-encoding: ");
                h.append(e.as_str());
                h.append("\r\n");
            },
            None => {},
        }
        h.append("Content-Length: ");
        push_decimal(h, self.content_length);
        h.append("\r\n");
        assert(final(h)@ =~= old(h)@ + entity_headers(self@));
    }

    fn append_general_headers(&self, h: &mut String)
        ensures
            final(h)@ == old(h)@ + general_headers(self@),
    {
        h.append("Date: ");
        h.append(self.date.as_str());
        h.append("\r\n");
        h.append("Server: ");
        h.append(self.server_name.as_str());
        h.append("\r\n");
        match &self.allow {
            Some(a) => {
                h.append("Allow: ");
                append_methods(h, a);
                h.append("\r\n");
            },
            None => {},
        }
        assert(final(h)@ =~= old(h)@ + general_headers(self@));
    }

    /// Serializes the response: the header block in fixed field order, then
    /// the body bytes if the response holds them.
    pub fn as_bytes(&self) -> (r: Vec<u8>)
        ensures
            r@ == wire(self@),
    {
        let mut h = String::new();
        self.append_status_line(&mut h);
        self.append_entity_headers(&mut h);
        self.append_general_headers(&mut h);
        append_opt_header(&mut h, "Accept-Ranges: ", &self.accept_ranges);
        append_opt_header(&mut h, "Content-Range: ", &self.content_range);
        h.append("\r\n");
        assert(h@ =~= header_text(self@));
        let mut out = h.as_str().as_bytes_vec();
        match &self.content {
            Some(c) => {
                let ghost o0 = out@;
                let mut i: usize = 0;
                while i < c.len()
                    invariant
                        i <= c@.len(),
                        out@ == o0 + c@.take(i as int),
                    decreases c.len() - i,
                {
                    out.push(c[i]);
                    i = i + 1;
                    assert(out@ =~= o0 + c@.take(i as int));
                }
                assert(c@.take(c@.len() as int) =~= c@);
            },
            None => {
                assert(out@ =~= wire(self@));
            },
        }
        out
    }

    pub fn status_code(&self) -> (r: u16)
        ensures
            r == self.status_code,
    {
        self.status_code
    }

    pub fn information(&self) -> (r: &str)
        ensures
            r@ == self.information@,
    {
        self.information.as_str()
    }

    /// The body is left to the caller: none held, a content type set and a
    /// positive length.
    pub fn is_streaming(&self) -> (r: bool)
        ensures
            r == (self.content is None && self.content_type is Some && self.content_length > 0),
    {
        self.content.is_none() && self.content_type.is_some() && self.content_length > 0
    }

    /// Whether the caller must send the file body after the headers: a
    /// streaming response to anything but a HEAD request.
    pub fn streams_body(&self, method: HttpRequestMethod) -> (r: bool)
        ensures
            r == (self.content is None && self.content_type is Some && self.content_length > 0
                && method != HttpRequestMethod::Head),
    {
        self.is_streaming() && method != HttpRequestMethod::Head
    }

    pub fn get_content_length(&self) -> (r: u64)
        ensures
            r == self.content_length,
    {
        self.content_length
    }
}

/// Serialization is a function of the response's value alone: serializing
/// the same response (or an equal copy) again gives the same bytes.
pub proof fn law_serialization_is_deterministic(a: ResponseView, b: ResponseView)
    requires
        a == b,
    ensures
        wire(a) == wire(b),
{
}

/// Content type of generated HTML.
pub const HTML_TYPE: &'static str = "text/html;charset=utf-8";

/// Content type of JSON directory listings.
pub const JSON_TYPE: &'static str = "application/json";

pub const NOTE_404: &'static str = "<h2>噢！</h2><p>你指定的网页无法找到。</p>";

pub const NOTE_405: &'static str = "<h2>噢！</h2><p>你的浏览器发出了一个非GET方法的HTTP请求。本服务器目前仅支持GET方法。</p>";

pub const NOTE_500: &'static str = "<h2>噢！</h2><p>服务器出现了一个内部错误。</p>";

/// The canned note shown on the page of a status code, if it has one.
pub open spec fn note_for(code: u16) -> Option<Seq<char>> {
    if code == 404 {
        Some(NOTE_404@)
    } else if code == 405 {
        Some(NOTE_405@)
    } else if code == 500 {
        Some(NOTE_500@)
    } else {
        None
    }
}

/// The HTML page bytes for a status code.
pub open spec fn status_page_bytes(code: u16) -> Seq<u8> {
    encode_utf8(
        page_text(
            HtmlView {
                title: decimal(code as nat),
                css: status_css(),
                script: Seq::empty(),
                body: status_body(
                    code,
                    match note_for(code) {
                        Some(n) => n,
                        None => reason_phrase_spec(code)->0,
                    },
                ),
            },
        ),
    )
}

/// A status response: 204 carries no body and keeps `Allow`; any other code
/// carries its HTML page, compressed per negotiation, and only 405 keeps
/// `Allow`.
pub open spec fn status_page_spec(code: u16, accepted: Seq<HttpEncoding>, date: Seq<char>) -> ResponseView {
    let b = base_view(date);
    if code == 204 {
        ResponseView { status_code: 204, information: reason_phrase_spec(204)->0, ..b }
    } else {
        let e = encoded_body(status_page_bytes(code), decide_spec(accepted));
        ResponseView {
            status_code: code,
            information: reason_phrase_spec(code)->0,
            content_type: Some(HTML_TYPE@),
            content_length: e.0.len() as u64,
            content_encoding: e.1,
            allow: if code == 405 { Some(allowed_methods_spec()) } else { None },
            content: Some(e.0),
            ..b
        }
    }
}

/// What is sent for request method `m`: a HEAD request gets the same status
/// and headers, without the body.
pub open spec fn for_method(v: ResponseView, m: HttpRequestMethod) -> ResponseView {
    if m == HttpRequestMethod::Head {
        ResponseView { content: None, ..v }
    } else {
        v
    }
}

/// Extension of the last path component, as `Path::extension` gives it: the
/// text after the last dot, unless the name has no dot, starts with its only
/// dot, or is `..`.
pub open spec fn path_extension(p: Seq<char>) -> Option<Seq<char>> {
    let name = p.subrange(rfind_char(p, p.len() as int, '/') + 1, p.len() as int);
    let dot = rfind_char(name, name.len() as int, '.');
    if name == ".."@ || dot < 1 {
        None
    } else {
        Some(name.subrange(dot + 1, name.len() as int))
    }
}

/// The extension of the file that `path` names, if any.
pub fn file_extension(path: &str) -> (r: Option<String>)
    ensures
        opt_string_view(r) == path_extension(path@),
{
    let p = chars_of(path);
    let len: usize = p.len();
    let start: usize = match rfind_char_exec(&p, '/') {
        Some(i) => {
            assert(i < len);
            i + 1
        },
        None => 0,
    };
    let name = string_of(&p, start, p.len());
    let n = chars_of(name.as_str());
    if crate::text::str_eq(name.as_str(), "..") {
        return None;
    }
    match rfind_char_exec(&n, '.') {
        Some(d) => {
            if d < 1 {
                None
            } else {
                Some(string_of(&n, d + 1, n.len()))
            }
        },
        None => None,
    }
}

/// Filesystem facts about a resolved path, gathered by the caller.
#[derive(Debug, Clone, Copy, PartialEq, Eq, Structural)]
pub enum Entity {
    /// Metadata could not be read.
    Missing,
    /// A directory and its modification time.
    Directory { modified: i128 },
    /// A regular file, its size in bytes and its modification time.
    File { size: u64, modified: i128 },
}

/// What the cache stage of a response needs: the key and timestamp to check,
/// and how the body is to be sent.
#[derive(Debug, Clone)]
pub struct Target {
    pub key: String,
    pub modified: i128,
    pub content_type: String,
    pub encoding: Option<HttpEncoding>,
    /// HEAD request: headers as for GET, no body.
    pub head: bool,
    /// Whether a freshly read body is stored in the cache.
    pub cacheable: bool,
    pub accept_ranges: bool,
}

pub struct TargetView {
    pub key: Seq<char>,
    pub modified: i128,
    pub content_type: Seq<char>,
    pub encoding: Option<HttpEncoding>,
    pub head: bool,
    pub cacheable: bool,
    pub accept_ranges: bool,
}

impl View for Target {
    type V = TargetView;

    open spec fn view(&self) -> TargetView {
        TargetView {
            key: self.key@,
            modified: self.modified,
            content_type: self.content_type@,
            encoding: self.encoding,
            head: self.head,
            cacheable: self.cacheable,
            accept_ranges: self.accept_ranges,
        }
    }
}

/// The next step of building a response.
pub enum Plan {
    /// The response is complete.
    Respond(Response),
    /// Read `len` bytes of the file from offset `start` into the body.
    ReadRange { response: Response, start: u64, len: u64 },
    /// Run the external interpreter on the path and pass its outcome on.
    RunScript,
    /// Consult the cache, and on a miss supply the body bytes.
    Lookup(Target),
}

pub enum PlanView {
    Respond(ResponseView),
    ReadRange(ResponseView, u64, u64),
    RunScript,
    Lookup(TargetView),
}

pub open spec fn plan_view(p: Plan) -> PlanView {
    match p {
        Plan::Respond(r) => PlanView::Respond(r@),
        Plan::ReadRange { response, start, len } => PlanView::ReadRange(response@, start, len),
        Plan::RunScript => PlanView::RunScript,
        Plan::Lookup(t) => PlanView::Lookup(t@),
    }
}

/// Base of a file response: no `Allow`, `Accept-Ranges` when advertised.
pub open spec fn file_base(date: Seq<char>, ranges: bool) -> ResponseView {
    ResponseView {
        allow: None,
        accept_ranges: if ranges { Some("bytes"@) } else { None },
        ..base_view(date)
    }
}

/// A range is satisfiable when `start <= end < size`, the end defaulting to
/// the last byte.
pub open spec fn range_ok(size: u64, start: u64, end: Option<u64>) -> bool {
    size > 0 && start < size && match end {
        Some(e) => start <= e && e < size,
        None => true,
    }
}

pub open spec fn range_end(size: u64, end: Option<u64>) -> u64 {
    match end {
        Some(e) => e,
        None => (size - 1) as u64,
    }
}

pub open spec fn range_416(size: u64, date: Seq<char>, ranges: bool) -> ResponseView {
    ResponseView {
        status_code: 416,
        information: reason_phrase_spec(416)->0,
        content_range: Some("bytes */"@ + decimal(size as nat)),
        content_length: 0,
        ..file_base(date, ranges)
    }
}

pub open spec fn range_206(size: u64, start: u64, end: u64, mime: Seq<char>, date: Seq<char>, ranges: bool) -> ResponseView {
    ResponseView {
        status_code: 206,
        information: reason_phrase_spec(206)->0,
        content_range: Some("bytes "@ + decimal(start as nat) + "-"@ + decimal(end as nat) + "/"@ + decimal(size as nat)),
        content_type: Some(mime),
        content_length: (end - start + 1) as u64,
        ..file_base(date, ranges)
    }
}

/// Plan for a regular file with a known media type.
pub open spec fn file_plan(
    path: Seq<char>,
    q: RequestView,
    size: u64,
    modified: i128,
    mime: Seq<char>,
    threshold: u64,
    ranges: bool,
    date: Seq<char>,
) -> PlanView {
    let head = q.method == HttpRequestMethod::Head;
    match q.range {
        Some((start, end)) => if !range_ok(size, start, end) {
            PlanView::Respond(range_416(size, date, ranges))
        } else {
            let e = range_end(size, end);
            let v = range_206(size, start, e, mime, date, ranges);
            if head {
                PlanView::Respond(v)
            } else {
                PlanView::ReadRange(v, start, (e - start + 1) as u64)
            }
        },
        None => if size > threshold {
            PlanView::Respond(ResponseView { content_type: Some(mime), content_length: size, ..file_base(date, ranges) })
        } else {
            PlanView::Lookup(
                TargetView {
                    key: path,
                    modified,
                    content_type: mime,
                    encoding: if skips_compression(mime) { None } else { decide_spec(q.accept_encoding) },
                    head,
                    cacheable: size <= threshold,
                    accept_ranges: ranges,
                },
            )
        },
    }
}

/// Whether a directory request asks for the JSON rendering.
pub open spec fn wants_json(q: RequestView) -> bool {
    match q.accept {
        Some(a) => contains(a, JSON_TYPE@),
        None => false,
    }
}

pub open spec fn dir_target(path: Seq<char>, q: RequestView, modified: i128) -> TargetView {
    TargetView {
        key: if wants_json(q) { path + ":json"@ } else { path },
        modified,
        content_type: if wants_json(q) { JSON_TYPE@ } else { HTML_TYPE@ },
        encoding: decide_spec(q.accept_encoding),
        head: q.method == HttpRequestMethod::Head,
        cacheable: true,
        accept_ranges: false,
    }
}

/// The first step of answering request `q` for `path`, whose filesystem
/// facts are `entity`.
pub open spec fn plan_spec(
    path: Seq<char>,
    q: RequestView,
    entity: Entity,
    threshold: u64,
    ranges: bool,
    date: Seq<char>,
) -> PlanView {
    if q.method == HttpRequestMethod::Post {
        PlanView::Respond(status_page_spec(405, q.accept_encoding, date))
    } else if q.method == HttpRequestMethod::Options {
        PlanView::Respond(status_page_spec(204, q.accept_encoding, date))
    } else {
        match entity {
            Entity::Missing => PlanView::Respond(for_method(status_page_spec(500, q.accept_encoding, date), q.method)),
            Entity::Directory { modified } => PlanView::Lookup(dir_target(path, q, modified)),
            Entity::File { size, modified } => match path_extension(path) {
                None => PlanView::Respond(for_method(status_page_spec(404, q.accept_encoding, date), q.method)),
                Some(ext) => if ext == "php"@ {
                    PlanView::RunScript
                } else {
                    file_plan(path, q, size, modified, mime_spec(ext), threshold, ranges, date)
                },
            },
        }
    }
}

/// The response for a cache target whose raw body is `contents`.
pub open spec fn content_spec(t: TargetView, contents: Seq<u8>, date: Seq<char>) -> ResponseView {
    let e = encoded_body(contents, t.encoding);
    ResponseView {
        content_type: Some(t.content_type),
        content_length: e.0.len() as u64,
        content_encoding: e.1,
        allow: None,
        content: if t.head { None } else { Some(e.0) },
        accept_ranges: if t.accept_ranges { Some("bytes"@) } else { None },
        ..base_view(date)
    }
}

/// The response for an interpreter outcome.
pub open spec fn script_spec(output: Result<Seq<char>, Exception>, q: RequestView, date: Seq<char>) -> ResponseView {
    match output {
        Ok(html) => {
            let e = encoded_body(encode_utf8(html), decide_spec(q.accept_encoding));
            ResponseView {
                content_type: Some(HTML_TYPE@),
                content_length: e.0.len() as u64,
                content_encoding: e.1,
                allow: None,
                content: if q.method == HttpRequestMethod::Head { None } else { Some(e.0) },
                ..base_view(date)
            }
        },
        Err(_) => for_method(status_page_spec(500, q.accept_encoding, date), q.method),
    }
}

fn status_note(code: u16) -> (r: Option<&'static str>)
    ensures
        match r {
            Some(n) => note_for(code) == Some(n@),
            None => note_for(code) is None,
        },
{
    if code == 404 {
        Some(NOTE_404)
    } else if code == 405 {
        Some(NOTE_405)
    } else if code == 500 {
        Some(NOTE_500)
    } else {
        None
    }
}

fn no_range_text(size: u64) -> (r: String)
    ensures
        r@ == "bytes */"@ + decimal(size as nat),
{
    let mut s = String::from_str("bytes */");
    push_decimal(&mut s, size);
    s
}

fn range_text(start: u64, end: u64, size: u64) -> (r: String)
    ensures
        r@ == "bytes "@ + decimal(start as nat) + "-"@ + decimal(end as nat) + "/"@ + decimal(size as nat),
{
    let mut s = String::from_str("bytes ");
    push_decimal(&mut s, start);
    s.append("-");
    push_decimal(&mut s, end);
    s.append("/");
    push_decimal(&mut s, size);
    assert(s@ =~= "bytes "@ + decimal(start as nat) + "-"@ + decimal(end as nat) + "/"@ + decimal(size as nat));
    s
}

impl Response {
    /// Drops the body when answering a HEAD request.
    pub fn for_method(self, method: HttpRequestMethod) -> (r: Self)
        ensures
            r@ == for_method(self@, method),
    {
        let mut r = self;
        if method == HttpRequestMethod::Head {
            r.content = None;
        }
        r
    }

    /// A status response for `code` (which must have a reason phrase),
    /// stamped with `date`.
    pub fn from_status_code(code: u16, accept_encoding: &Vec<HttpEncoding>, date: String) -> (r: Self)
        requires
            reason_phrase_spec(code) is Some,
        ensures
            r@ == status_page_spec(code, accept_encoding@, date@),
    {
        let mut response = Self::dated(date);
        if code == 204 {
            response.set_code(code);
            return response;
        }
        let page = HtmlBuilder::from_status_code(code, status_note(code)).build();
        let (body, enc) = encode_body(page.as_str().as_bytes_vec(), decide_encoding(accept_encoding));
        response.content_length = body.len() as u64;
        response.content_encoding = enc;
        response.content = Some(body);
        response.content_type = Some(String::from_str(HTML_TYPE));
        if code != 405 {
            response.allow = None;
        }
        response.set_code(code);
        response
    }

    /// `404 Not Found`, stamped with the current time.
    pub fn response_404(request: &Request, id: u128) -> (r: Self)
        ensures
            r@ == for_method(status_page_spec(404, request@.accept_encoding, r@.date), request@.method),
            http_date_shape(r@.date),
    {
        Self::from_status_code(404, &request.accept_encoding, http_date_now()).for_method(request.method)
    }

    /// `500 Internal Server Error`, stamped with the current time.
    pub fn response_500(request: &Request, id: u128) -> (r: Self)
        ensures
            r@ == for_method(status_page_spec(500, request@.accept_encoding, r@.date), request@.method),
            http_date_shape(r@.date),
    {
        Self::from_status_code(500, &request.accept_encoding, http_date_now()).for_method(request.method)
    }

    /// `400 Bad Request`, stamped with the current time.
    pub fn response_400(request: &Request, id: u128) -> (r: Self)
        ensures
            r@ == for_method(status_page_spec(400, request@.accept_encoding, r@.date), request@.method),
            http_date_shape(r@.date),
    {
        Self::from_status_code(400, &request.accept_encoding, http_date_now()).for_method(request.method)
    }
}

/// The fixed reply to a request that could not be decoded.
pub const BAD_REQUEST_WIRE: &'static str = "HTTP/1.1 400 Bad Request\r\nContent-Length: 11\r\n\r\nBad Request";

pub open spec fn script_output_view(o: Result<String, Exception>) -> Result<Seq<char>, Exception> {
    match o {
        Ok(s) => Ok(s@),
        Err(e) => Err(e),
    }
}

impl Response {
    fn file_base(date: String, ranges: bool) -> (r: Self)
        ensures
            r@ == file_base(date@, ranges),
    {
        let mut r = Self::dated(date);
        r.allow = None;
        if ranges {
            r.accept_ranges = Some(String::from_str("bytes"));
        }
        r
    }

    fn plan_file(
        path: &str,
        request: &Request,
        size: u64,
        modified: i128,
        mime: &str,
        config: &Config,
        date: String,
    ) -> (r: Plan)
        ensures
            plan_view(r) == file_plan(
                path@,
                request@,
                size,
                modified,
                mime@,
                config.streaming_threshold,
                config.enable_range_requests,
                date@,
            ),
    {
        let ranges = config.enable_range_requests;
        let head = request.method == HttpRequestMethod::Head;
        match request.range {
            Some((start, end)) => {
                let ok = size > 0 && start < size && match end {
                    Some(e) => start <= e && e < size,
                    None => true,
                };
                if !ok {
                    let mut r = Self::file_base(date, ranges);
                    r.set_code(416);
                    r.content_range = Some(no_range_text(size));
                    r.content_length = 0;
                    return Plan::Respond(r);
                }
                let e: u64 = match end {
                    Some(e) => e,
                    None => size - 1,
                };
                let mut r = Self::file_base(date, ranges);
                r.set_code(206);
                r.content_range = Some(range_text(start, e, size));
                r.content_type = Some(String::from_str(mime));
                r.content_length = e - start + 1;
                if head {
                    Plan::Respond(r)
                } else {
                    Plan::ReadRange { response: r, start, len: e - start + 1 }
                }
            },
            None => {
                if size > config.streaming_threshold {
                    let mut r = Self::file_base(date, ranges);
                    r.content_type = Some(String::from_str(mime));
                    r.content_length = size;
                    Plan::Respond(r)
                } else {
                    let encoding = if should_skip_compression(mime) {
                        None
                    } else {
                        decide_encoding(&request.accept_encoding)
                    };
                    Plan::Lookup(
                        Target {
                            key: String::from_str(path),
                            modified,
                            content_type: String::from_str(mime),
                            encoding,
                            head,
                            cacheable: size <= config.streaming_threshold,
                            accept_ranges: ranges,
                        },
                    )
                }
            },
        }
    }

    fn plan_dir(path: &str, request: &Request, modified: i128) -> (r: Target)
        ensures
            r@ == dir_target(path@, request@, modified),
    {
        let json = match &request.accept {
            Some(a) => contains_exec(&chars_of(a.as_str()), &chars_of(JSON_TYPE)),
            None => false,
        };
        let mut key = String::from_str(path);
        if json {
            key.append(":json");
        }
        Target {
            key,
            modified,
            content_type: String::from_str(if json { JSON_TYPE } else { HTML_TYPE }),
            encoding: decide_encoding(&request.accept_encoding),
            head: request.method == HttpRequestMethod::Head,
            cacheable: true,
            accept_ranges: false,
        }
    }

    /// First step of answering `request` for the resolved `path`: the method
    /// gate (405 for POST, 204 for OPTIONS), 500 when metadata is missing, a
    /// cache target for a directory, and for a file: 404 without an
    /// extension, the interpreter for `.php`, 416/206 for a byte range,
    /// streaming above the threshold, else a cache target. Every response is
    /// stamped with `date`.
    pub fn from(path: &str, request: &Request, entity: Entity, config: &Config, date: String) -> (r: Plan)
        ensures
            plan_view(r) == plan_spec(
                path@,
                request@,
                entity,
                config.streaming_threshold,
                config.enable_range_requests,
                date@,
            ),
    {
        if request.method == HttpRequestMethod::Post {
            return Plan::Respond(Self::from_status_code(405, &request.accept_encoding, date));
        }
        if request.method == HttpRequestMethod::Options {
            return Plan::Respond(Self::from_status_code(204, &request.accept_encoding, date));
        }
        match entity {
            Entity::Missing => Plan::Respond(
                Self::from_status_code(500, &request.accept_encoding, date).for_method(request.method),
            ),
            Entity::Directory { modified } => Plan::Lookup(Self::plan_dir(path, request, modified)),
            Entity::File { size, modified } => match file_extension(path) {
                None => Plan::Respond(
                    Self::from_status_code(404, &request.accept_encoding, date).for_method(request.method),
                ),
                Some(ext) => {
                    if crate::text::str_eq(ext.as_str(), "php") {
                        Plan::RunScript
                    } else {
                        Self::plan_file(path, request, size, modified, get_mime(ext.as_str()), config, date)
                    }
                },
            },
        }
    }

    /// The response for `target` with raw body `contents`, compressed on
    /// this call per the target's encoding.
    pub fn from_contents(target: &Target, contents: Vec<u8>, date: String) -> (r: Self)
        ensures
            r@ == content_spec(target@, contents@, date@),
    {
        let mut r = Self::dated(date);
        let (body, enc) = encode_body(contents, target.encoding);
        r.content_type = Some(target.content_type.clone());
        r.content_length = body.len() as u64;
        r.content_encoding = enc;
        r.allow = None;
        if !target.head {
            r.content = Some(body);
        }
        if target.accept_ranges {
            r.accept_ranges = Some(String::from_str("bytes"));
        }
        r
    }

    /// Cache stage: on a hit (key present, timestamp equal) the cached bytes
    /// are compressed anew and returned as a response; on a miss, `None`.
    pub fn lookup(target: &Target, cache: &mut FileCache, date: String) -> (r: Option<Self>)
        requires
            old(cache).wf(),
        ensures
            final(cache).wf(),
            final(cache).cap() == old(cache).cap(),
            final(cache)@ == find_model(old(cache)@, target.key@),
            match r {
                Some(resp) => find_result(old(cache)@, target.key@, target.modified) matches Some(c)
                    && resp@ == content_spec(target@, c, date@),
                None => find_result(old(cache)@, target.key@, target.modified) is None,
            },
    {
        match cache.find(target.key.as_str(), target.modified) {
            Some(b) => {
                let contents = bytes_to_vec(&b);
                Some(Self::from_contents(target, contents, date))
            },
            None => None,
        }
    }

    /// Miss stage: answers with freshly produced `contents` and, when the
    /// target is cacheable, stores the uncompressed bytes under its key and
    /// timestamp.
    pub fn fill(target: &Target, contents: Vec<u8>, cache: &mut FileCache, date: String) -> (r: Self)
        requires
            old(cache).wf(),
        ensures
            final(cache).wf(),
            final(cache).cap() == old(cache).cap(),
            final(cache)@ == if target.cacheable {
                put_model(old(cache)@, target.key@, contents@, target.modified, old(cache).cap())
            } else {
                old(cache)@
            },
            r@ == content_spec(target@, contents@, date@),
    {
        let kept = contents.clone();
        assert(kept@ == contents@);
        let r = Self::from_contents(target, kept, date);
        if target.cacheable {
            cache.push(target.key.as_str(), bytes_from_vec(contents), target.modified);
        }
        r
    }

    /// Completes a range response with the bytes read from the file.
    pub fn with_body(self, bytes: Vec<u8>) -> (r: Self)
        ensures
            r@ == (ResponseView { content: Some(bytes@), ..self@ }),
    {
        let mut r = self;
        r.content = Some(bytes);
        r
    }

    /// The response for the outcome of the external interpreter: its output
    /// as an HTML page, compressed per negotiation and never cached, or 500.
    pub fn from_script(output: Result<String, Exception>, request: &Request, date: String) -> (r: Self)
        ensures
            r@ == script_spec(script_output_view(output), request@, date@),
    {
        match output {
            Ok(html) => {
                let mut r = Self::dated(date);
                let (body, enc) = encode_body(html.as_str().as_bytes_vec(), decide_encoding(&request.accept_encoding));
                r.content_type = Some(String::from_str(HTML_TYPE));
                r.content_length = body.len() as u64;
                r.content_encoding = enc;
                r.allow = None;
                if request.method != HttpRequestMethod::Head {
                    r.content = Some(body);
                }
                r
            },
            Err(_) => Self::from_status_code(500, &request.accept_encoding, date).for_method(request.method),
        }
    }
}

/// A HEAD request gets exactly the status and headers that GET gets for the
/// same target and bytes (Content-Length included); only the body is
/// withheld.
pub proof fn law_head_mirrors_get(t: TargetView, contents: Seq<u8>, date: Seq<char>)
    requires
        !t.head,
    ensures
        content_spec(TargetView { head: true, ..t }, contents, date) == (ResponseView {
            content: None,
            ..content_spec(t, contents, date)
        }),
{
}

/// The same holds of interpreter output, success or failure.
pub proof fn law_head_mirrors_get_script(output: Result<Seq<char>, Exception>, q: RequestView, date: Seq<char>)
    requires
        q.method == HttpRequestMethod::Get,
    ensures
        script_spec(output, RequestView { method: HttpRequestMethod::Head, ..q }, date) == (ResponseView {
            content: None,
            ..script_spec(output, q, date)
        }),
{
}

/// The same holds of every first step: for a HEAD request that the GET
/// request would answer at once, the answer is the GET answer without its
/// body; where GET reads a range, HEAD answers at once with the same
/// headers; a cache target differs only in being marked HEAD.
pub proof fn law_head_mirrors_get_plan(
    path: Seq<char>,
    q: RequestView,
    entity: Entity,
    threshold: u64,
    ranges: bool,
    date: Seq<char>,
)
    requires
        q.method == HttpRequestMethod::Get,
    ensures
        ({
            let h = plan_spec(path, RequestView { method: HttpRequestMethod::Head, ..q }, entity, threshold, ranges, date);
            match plan_spec(path, q, entity, threshold, ranges, date) {
                PlanView::Respond(v) => h == PlanView::Respond(ResponseView { content: None, ..v }),
                PlanView::ReadRange(v, _, _) => h == PlanView::Respond(v),
                PlanView::RunScript => h == PlanView::RunScript,
                PlanView::Lookup(t) => h == PlanView::Lookup(TargetView { head: true, ..t }),
            }
        }),
{
    let hq = RequestView { method: HttpRequestMethod::Head, ..q };
    assert(wants_json(hq) == wants_json(q));
}

} // verus!
