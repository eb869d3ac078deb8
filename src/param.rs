//! Protocol vocabulary: methods, versions, content encodings, the status
//! reason-phrase table and the file-extension media-type table.

use vstd::prelude::*;
use crate::text::str_eq;

verus! {

/// Default index page served for the root path.
pub const HTML_INDEX: &'static str = "static/index.html";

/// Value of the `Server` header.
pub const SERVER_NAME: &'static str = "shaneyale-webserver";

/// Line terminator of HTTP/1.1 framing.
pub const CRLF: &'static str = "\r\n";

/// Media type of anything whose extension is not in the table.
pub const DEFAULT_MIME: &'static str = "application/octet-stream";

/// Supported protocol version.
#[derive(Debug, Clone, Copy, PartialEq, Eq, Structural)]
pub enum HttpVersion {
    V1_1,
}

/// Request methods that the decoder accepts.
#[derive(Debug, Clone, Copy, PartialEq, Eq, Structural)]
pub enum HttpRequestMethod {
    Get,
    Head,
    Options,
    Post,
}

/// Content encodings that a client may accept.
#[derive(Debug, Clone, Copy, PartialEq, Eq, Structural)]
pub enum HttpEncoding {
    Gzip,
    Deflate,
    Br,
}

pub open spec fn version_text(v: HttpVersion) -> Seq<char> {
    match v {
        HttpVersion::V1_1 => "1.1"@,
    }
}

pub open spec fn method_text(m: HttpRequestMethod) -> Seq<char> {
    match m {
        HttpRequestMethod::Get => "GET"@,
        HttpRequestMethod::Head => "HEAD"@,
        HttpRequestMethod::Options => "OPTIONS"@,
        HttpRequestMethod::Post => "POST"@,
    }
}

pub open spec fn encoding_text(e: HttpEncoding) -> Seq<char> {
    match e {
        HttpEncoding::Gzip => "gzip"@,
        HttpEncoding::Deflate => "deflate"@,
        HttpEncoding::Br => "br"@,
    }
}

impl HttpVersion {
    /// The version number as written after `HTTP/`.
    pub fn as_str(&self) -> (r: &'static str)
        ensures
            r@ == version_text(*self),
    {
        match self {
            HttpVersion::V1_1 => "1.1",
        }
    }
}

impl HttpRequestMethod {
    /// The upper-case method token.
    pub fn as_str(&self) -> (r: &'static str)
        ensures
            r@ == method_text(*self),
    {
        match self {
            HttpRequestMethod::Get => "GET",
            HttpRequestMethod::Head => "HEAD",
            HttpRequestMethod::Options => "OPTIONS",
            HttpRequestMethod::Post => "POST",
        }
    }
}

impl HttpEncoding {
    /// The token used in `Content-Encoding`.
    pub fn as_str(&self) -> (r: &'static str)
        ensures
            r@ == encoding_text(*self),
    {
        match self {
            HttpEncoding::Gzip => "gzip",
            HttpEncoding::Deflate => "deflate",
            HttpEncoding::Br => "br",
        }
    }
}

/// Methods that the server serves, in declaration order.
pub open spec fn allowed_methods_spec() -> Seq<HttpRequestMethod> {
    seq![HttpRequestMethod::Get, HttpRequestMethod::Head, HttpRequestMethod::Options]
}

pub fn allowed_methods() -> (r: Vec<HttpRequestMethod>)
    ensures
        r@ == allowed_methods_spec(),
{
    let r = vec![HttpRequestMethod::Get, HttpRequestMethod::Head, HttpRequestMethod::Options];
    assert(r@ =~= allowed_methods_spec());
    r
}

/// The standard reason phrase of a status code, if the table has one.
pub open spec fn reason_phrase_spec(code: u16) -> Option<Seq<char>> {
    if code == 100 {
        Some("Continue"@)
    } else if code == 101 {
        Some("Switching Protocols"@)
    } else if code == 200 {
        Some("OK"@)
    } else if code == 201 {
        Some("Created"@)
    } else if code == 202 {
        Some("Accepted"@)
    } else if code == 203 {
        Some("Non-Authoritative Information"@)
    } else if code == 204 {
        Some("No Content"@)
    } else if code == 205 {
        Some("Reset Content"@)
    } else if code == 206 {
        Some("Partial Content"@)
    } else if code == 300 {
        Some("Multiple Choices"@)
    } else if code == 301 {
        Some("Moved Permanently"@)
    } else if code == 302 {
        Some("Found"@)
    } else if code == 303 {
        Some("See Other"@)
    } else if code == 304 {
        Some("Not Modified"@)
    } else if code == 305 {
        Some("Use Proxy"@)
    } else if code == 307 {
        Some("Temporary Redirect"@)
    } else if code == 308 {
        Some("Permanent Redirect"@)
    } else if code == 400 {
        Some("Bad Request"@)
    } else if code == 401 {
        Some("Unauthorized"@)
    } else if code == 402 {
        Some("Payment Required"@)
    } else if code == 403 {
        Some("Forbidden"@)
    } else if code == 404 {
        Some("Not Found"@)
    } else if code == 405 {
        Some("Method Not Allowed"@)
    } else if code == 406 {
        Some("Not Acceptable"@)
    } else if code == 407 {
        Some("Proxy Authentication Required"@)
    } else if code == 408 {
        Some("Request Timeout"@)
    } else if code == 409 {
        Some("Conflict"@)
    } else if code == 410 {
        Some("Gone"@)
    } else if code == 411 {
        Some("Length Required"@)
    } else if code == 412 {
        Some("Precondition Failed"@)
    } else if code == 413 {
        Some("Content Too Large"@)
    } else if code == 414 {
        Some("URI Too Long"@)
    } else if code == 415 {
        Some("Unsupported Media Type"@)
    } else if code == 416 {
        Some("Range Not Satisfiable"@)
    } else if code == 417 {
        Some("Expectation Failed"@)
    } else if code == 418 {
        Some("I'm a teapot"@)
    } else if code == 421 {
        Some("Misdirected Request"@)
    } else if code == 422 {
        Some("Unprocessable Content"@)
    } else if code == 426 {
        Some("Upgrade Required"@)
    } else if code == 500 {
        Some("Internal Server Error"@)
    } else if code == 501 {
        Some("Not Implemented"@)
    } else if code == 502 {
        Some("Bad Gateway"@)
    } else if code == 503 {
        Some("Service Unavailable"@)
    } else if code == 504 {
        Some("Gateway Timeout"@)
    } else if code == 505 {
        Some("HTTP Version Not Supported"@)
    } else {
        None
    }
}

/// Looks a status code up in the reason-phrase table.
pub fn reason_phrase(code: u16) -> (r: Option<&'static str>)
    ensures
        match r {
            Some(s) => reason_phrase_spec(code) == Some(s@),
            None => reason_phrase_spec(code) is None,
        },
{
    if code == 100 {
        Some("Continue")
    } else if code == 101 {
        Some("Switching Protocols")
    } else if code == 200 {
        Some("OK")
    } else if code == 201 {
        Some("Created")
    } else if code == 202 {
        Some("Accepted")
    } else if code == 203 {
        Some("Non-Authoritative Information")
    } else if code == 204 {
        Some("No Content")
    } else if code == 205 {
        Some("Reset Content")
    } else if code == 206 {
        Some("Partial Content")
    } else if code == 300 {
        Some("Multiple Choices")
    } else if code == 301 {
        Some("Moved Permanently")
    } else if code == 302 {
        Some("Found")
    } else if code == 303 {
        Some("See Other")
    } else if code == 304 {
        Some("Not Modified")
    } else if code == 305 {
        Some("Use Proxy")
    } else if code == 307 {
        Some("Temporary Redirect")
    } else if code == 308 {
        Some("Permanent Redirect")
    } else if code == 400 {
        Some("Bad Request")
    } else if code == 401 {
        Some("Unauthorized")
    } else if code == 402 {
        Some("Payment Required")
    } else if code == 403 {
        Some("Forbidden")
    } else if code == 404 {
        Some("Not Found")
    } else if code == 405 {
        Some("Method Not Allowed")
    } else if code == 406 {
        Some("Not Acceptable")
    } else if code == 407 {
        Some("Proxy Authentication Required")
    } else if code == 408 {
        Some("Request Timeout")
    } else if code == 409 {
        Some("Conflict")
    } else if code == 410 {
        Some("Gone")
    } else if code == 411 {
        Some("Length Required")
    } else if code == 412 {
        Some("Precondition Failed")
    } else if code == 413 {
        Some("Content Too Large")
    } else if code == 414 {
        Some("URI Too Long")
    } else if code == 415 {
        Some("Unsupported Media Type")
    } else if code == 416 {
        Some("Range Not Satisfiable")
    } else if code == 417 {
        Some("Expectation Failed")
    } else if code == 418 {
        Some("I'm a teapot")
    } else if code == 421 {
        Some("Misdirected Request")
    } else if code == 422 {
        Some("Unprocessable Content")
    } else if code == 426 {
        Some("Upgrade Required")
    } else if code == 500 {
        Some("Internal Server Error")
    } else if code == 501 {
        Some("Not Implemented")
    } else if code == 502 {
        Some("Bad Gateway")
    } else if code == 503 {
        Some("Service Unavailable")
    } else if code == 504 {
        Some("Gateway Timeout")
    } else if code == 505 {
        Some("HTTP Version Not Supported")
    } else {
        None
    }
}

/// The media type registered for a file extension (case-sensitive).
pub open spec fn mime_spec(ext: Seq<char>) -> Seq<char> {
    if ext == "aac"@ {
        "audio/aac"@
    } else if ext == "abw"@ {
        "application/x-abiword"@
    } else if ext == "apk"@ {
        "application/vnd.android.package-archive"@
    } else if ext == "arc"@ {
        "application/x-freearc"@
    } else if ext == "avi"@ {
        "video/x-msvideo"@
    } else if ext == "avif"@ {
        "image/avif"@
    } else if ext == "azw"@ {
        "application/vnd.amazon.ebook"@
    } else if ext == "bin"@ {
        "application/octet-stream"@
    } else if ext == "bmp"@ {
        "image/bmp"@
    } else if ext == "bz"@ {
        "application/x-bzip"@
    } else if ext == "bz2"@ {
        "application/x-bzip2"@
    } else if ext == "cab"@ {
        "application/vnd.ms-cab-compressed"@
    } else if ext == "cda"@ {
        "application/x-cdf"@
    } else if ext == "csh"@ {
        "application/x-csh"@
    } else if ext == "css"@ {
        "text/css;charset=utf-8"@
    } else if ext == "csv"@ {
        "text/csv"@
    } else if ext == "crx"@ {
        "application/x-chrome-extension"@
    } else if ext == "deb"@ {
        "application/x-deb"@
    } else if ext == "doc"@ {
        "application/msword"@
    } else if ext == "docx"@ {
        "application/vnd.openxmlformats-officedocument.wordprocessingml.document"@
    } else if ext == "eot"@ {
        "application/vnd.ms-fontobject"@
    } else if ext == "epub"@ {
        "application/epub+zip"@
    } else if ext == "exe"@ {
        "application/x-msdownload"@
    } else if ext == "gif"@ {
        "image/gif"@
    } else if ext == "gz"@ {
        "application/gzip"@
    } else if ext == "htm"@ {
        "text/html;charset=utf-8"@
    } else if ext == "html"@ {
        "text/html;charset=utf-8"@
    } else if ext == "img"@ {
        "application/x-iso9660-image"@
    } else if ext == "ico"@ {
        "image/x-icon"@
    } else if ext == "ics"@ {
        "text/calendar"@
    } else if ext == "iso"@ {
        "application/x-iso9660-image"@
    } else if ext == "jar"@ {
        "application/java-archive"@
    } else if ext == "js"@ {
        "text/javascript;charset=utf-8"@
    } else if ext == "json"@ {
        "application/json"@
    } else if ext == "jsonld"@ {
        "application/ld+json"@
    } else if ext == "jpg"@ {
        "image/jpeg"@
    } else if ext == "jpeg"@ {
        "image/jpeg"@
    } else if ext == "mid"@ {
        "audio/x-midi"@
    } else if ext == "midi"@ {
        "audio/x-midi"@
    } else if ext == "mjs"@ {
        "text/javascript"@
    } else if ext == "mkv"@ {
        "video/x-matroska"@
    } else if ext == "mp3"@ {
        "audio/mpeg"@
    } else if ext == "mp4"@ {
        "video/mp4"@
    } else if ext == "mpeg"@ {
        "video/mpeg"@
    } else if ext == "mpkg"@ {
        "application/vnd.apple.installer+xml"@
    } else if ext == "msi"@ {
        "application/x-msdownload"@
    } else if ext == "odp"@ {
        "application/vnd.oasis.opendocument.presentation"@
    } else if ext == "ods"@ {
        "application/vnd.oasis.opendocument.spreadsheet"@
    } else if ext == "odt"@ {
        "application/vnd.oasis.opendocument.text"@
    } else if ext == "oga"@ {
        "audio/ogg"@
    } else if ext == "ogv"@ {
        "video/ogg"@
    } else if ext == "ogx"@ {
        "application/ogg"@
    } else if ext == "opus"@ {
        "audio/opus"@
    } else if ext == "otf"@ {
        "font/otf"@
    } else if ext == "pdf"@ {
        "application/pdf"@
    } else if ext == "png"@ {
        "image/png"@
    } else if ext == "php"@ {
        "application/x-httpd-php"@
    } else if ext == "ppt"@ {
        "application/vnd.ms-powerpoint"@
    } else if ext == "pptx"@ {
        "application/vnd.openxmlformats-officedocument.presentationml.presentation"@
    } else if ext == "rar"@ {
        "application/x-rar-compressed"@
    } else if ext == "rtf"@ {
        "application/rtf"@
    } else if ext == "rpm"@ {
        "application/x-rpm"@
    } else if ext == "sh"@ {
        "application/x-sh"@
    } else if ext == "svg"@ {
        "image/svg+xml"@
    } else if ext == "swf"@ {
        "application/x-shockwave-flash"@
    } else if ext == "tar"@ {
        "application/x-tar"@
    } else if ext == "tif"@ {
        "image/tiff"@
    } else if ext == "tiff"@ {
        "image/tiff"@
    } else if ext == "ts"@ {
        "video/mp2t"@
    } else if ext == "txt"@ {
        "text/plain"@
    } else if ext == "ttf"@ {
        "font/ttf"@
    } else if ext == "vsd"@ {
        "application/vnd.visio"@
    } else if ext == "wav"@ {
        "audio/wav"@
    } else if ext == "wasm"@ {
        "application/wasm"@
    } else if ext == "weba"@ {
        "audio/webm"@
    } else if ext == "webm"@ {
        "video/webm"@
    } else if ext == "webp"@ {
        "image/webp"@
    } else if ext == "woff"@ {
        "font/woff"@
    } else if ext == "woff2"@ {
        "font/woff2"@
    } else if ext == "xhtml"@ {
        "application/xhtml+xml"@
    } else if ext == "xls"@ {
        "application/vnd.ms-excel"@
    } else if ext == "xlsx"@ {
        "application/vnd.openxmlformats-officedocument.spreadsheetml.sheet"@
    } else if ext == "xml"@ {
        "text/xml"@
    } else if ext == "xpi"@ {
        "application/x-xpinstall"@
    } else if ext == "xul"@ {
        "application/vnd.mozilla.xul+xml"@
    } else if ext == "zip"@ {
        "application/zip"@
    } else if ext == "7z"@ {
        "application/x-7z-compressed"@
    } else {
        DEFAULT_MIME@
    }
}

/// Looks a file extension up in the media-type table; unknown extensions
/// map to `application/octet-stream`.
pub fn get_mime(ext: &str) -> (r: &'static str)
    ensures
        r@ == mime_spec(ext@),
{
    if str_eq(ext, "aac") {
        "audio/aac"
    } else if str_eq(ext, "abw") {
        "application/x-abiword"
    } else if str_eq(ext, "apk") {
        "application/vnd.android.package-archive"
    } else if str_eq(ext, "arc") {
        "application/x-freearc"
    } else if str_eq(ext, "avi") {
        "video/x-msvideo"
    } else if str_eq(ext, "avif") {
        "image/avif"
    } else if str_eq(ext, "azw") {
        "application/vnd.amazon.ebook"
    } else if str_eq(ext, "bin") {
        "application/octet-stream"
    } else if str_eq(ext, "bmp") {
        "image/bmp"
    } else if str_eq(ext, "bz") {
        "application/x-bzip"
    } else if str_eq(ext, "bz2") {
        "application/x-bzip2"
    } else if str_eq(ext, "cab") {
        "application/vnd.ms-cab-compressed"
    } else if str_eq(ext, "cda") {
        "application/x-cdf"
    } else if str_eq(ext, "csh") {
        "application/x-csh"
    } else if str_eq(ext, "css") {
        "text/css;charset=utf-8"
    } else if str_eq(ext, "csv") {
        "text/csv"
    } else if str_eq(ext, "crx") {
        "application/x-chrome-extension"
    } else if str_eq(ext, "deb") {
        "application/x-deb"
    } else if str_eq(ext, "doc") {
        "application/msword"
    } else if str_eq(ext, "docx") {
        "application/vnd.openxmlformats-officedocument.wordprocessingml.document"
    } else if str_eq(ext, "eot") {
        "application/vnd.ms-fontobject"
    } else if str_eq(ext, "epub") {
        "application/epub+zip"
    } else if str_eq(ext, "exe") {
        "application/x-msdownload"
    } else if str_eq(ext, "gif") {
        "image/gif"
    } else if str_eq(ext, "gz") {
        "application/gzip"
    } else if str_eq(ext, "htm") {
        "text/html;charset=utf-8"
    } else if str_eq(ext, "html") {
        "text/html;charset=utf-8"
    } else if str_eq(ext, "img") {
        "application/x-iso9660-image"
    } else if str_eq(ext, "ico") {
        "image/x-icon"
    } else if str_eq(ext, "ics") {
        "text/calendar"
    } else if str_eq(ext, "iso") {
        "application/x-iso9660-image"
    } else if str_eq(ext, "jar") {
        "application/java-archive"
    } else if str_eq(ext, "js") {
        "text/javascript;charset=utf-8"
    } else if str_eq(ext, "json") {
        "application/json"
    } else if str_eq(ext, "jsonld") {
        "application/ld+json"
    } else if str_eq(ext, "jpg") {
        "image/jpeg"
    } else if str_eq(ext, "jpeg") {
        "image/jpeg"
    } else if str_eq(ext, "mid") {
        "audio/x-midi"
    } else if str_eq(ext, "midi") {
        "audio/x-midi"
    } else if str_eq(ext, "mjs") {
        "text/javascript"
    } else if str_eq(ext, "mkv") {
        "video/x-matroska"
    } else if str_eq(ext, "mp3") {
        "audio/mpeg"
    } else if str_eq(ext, "mp4") {
        "video/mp4"
    } else if str_eq(ext, "mpeg") {
        "video/mpeg"
    } else if str_eq(ext, "mpkg") {
        "application/vnd.apple.installer+xml"
    } else if str_eq(ext, "msi") {
        "application/x-msdownload"
    } else if str_eq(ext, "odp") {
        "application/vnd.oasis.opendocument.presentation"
    } else if str_eq(ext, "ods") {
        "application/vnd.oasis.opendocument.spreadsheet"
    } else if str_eq(ext, "odt") {
        "application/vnd.oasis.opendocument.text"
    } else if str_eq(ext, "oga") {
        "audio/ogg"
    } else if str_eq(ext, "ogv") {
        "video/ogg"
    } else if str_eq(ext, "ogx") {
        "application/ogg"
    } else if str_eq(ext, "opus") {
        "audio/opus"
    } else if str_eq(ext, "otf") {
        "font/otf"
    } else if str_eq(ext, "pdf") {
        "application/pdf"
    } else if str_eq(ext, "png") {
        "image/png"
    } else if str_eq(ext, "php") {
        "application/x-httpd-php"
    } else if str_eq(ext, "ppt") {
        "application/vnd.ms-powerpoint"
    } else if str_eq(ext, "pptx") {
        "application/vnd.openxmlformats-officedocument.presentationml.presentation"
    } else if str_eq(ext, "rar") {
        "application/x-rar-compressed"
    } else if str_eq(ext, "rtf") {
        "application/rtf"
    } else if str_eq(ext, "rpm") {
        "application/x-rpm"
    } else if str_eq(ext, "sh") {
        "application/x-sh"
    } else if str_eq(ext, "svg") {
        "image/svg+xml"
    } else if str_eq(ext, "swf") {
        "application/x-shockwave-flash"
    } else if str_eq(ext, "tar") {
        "application/x-tar"
    } else if str_eq(ext, "tif") {
        "image/tiff"
    } else if str_eq(ext, "tiff") {
        "image/tiff"
    } else if str_eq(ext, "ts") {
        "video/mp2t"
    } else if str_eq(ext, "txt") {
        "text/plain"
    } else if str_eq(ext, "ttf") {
        "font/ttf"
    } else if str_eq(ext, "vsd") {
        "application/vnd.visio"
    } else if str_eq(ext, "wav") {
        "audio/wav"
    } else if str_eq(ext, "wasm") {
        "application/wasm"
    } else if str_eq(ext, "weba") {
        "audio/webm"
    } else if str_eq(ext, "webm") {
        "video/webm"
    } else if str_eq(ext, "webp") {
        "image/webp"
    } else if str_eq(ext, "woff") {
        "font/woff"
    } else if str_eq(ext, "woff2") {
        "font/woff2"
    } else if str_eq(ext, "xhtml") {
        "application/xhtml+xml"
    } else if str_eq(ext, "xls") {
        "application/vnd.ms-excel"
    } else if str_eq(ext, "xlsx") {
        "application/vnd.openxmlformats-officedocument.spreadsheetml.sheet"
    } else if str_eq(ext, "xml") {
        "text/xml"
    } else if str_eq(ext, "xpi") {
        "application/x-xpinstall"
    } else if str_eq(ext, "xul") {
        "application/vnd.mozilla.xul+xml"
    } else if str_eq(ext, "zip") {
        "application/zip"
    } else if str_eq(ext, "7z") {
        "application/x-7z-compressed"
    } else {
        DEFAULT_MIME
    }
}

} // verus!
