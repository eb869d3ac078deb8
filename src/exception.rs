//! Failures that request handling can report.

use vstd::prelude::*;

verus! {

/// Why a request could not be handled.
#[derive(Debug, Clone, Copy, PartialEq, Eq, Structural)]
pub enum Exception {
    /// The request bytes are not valid UTF-8.
    RequestIsNotUtf8,
    /// The request line is malformed or names a method other than GET, HEAD, OPTIONS, POST.
    UnSupportedRequestMethod,
    /// The request line names a protocol other than HTTP/1.1.
    UnsupportedHttpVersion,
    /// The requested resource does not exist (404).
    FileNotFound,
    /// The requested path cannot be mapped to a file (400).
    InvalidPath,
    /// The external interpreter could not be started (500).
    PHPExecuteFailed,
    /// The external interpreter ran and reported an error (500).
    PHPCodeError,
}

pub open spec fn exception_text(e: Exception) -> Seq<char> {
    match e {
        Exception::RequestIsNotUtf8 => "Request bytes can't be parsed in UTF-8"@,
        Exception::UnSupportedRequestMethod => "Unsupported request method"@,
        Exception::UnsupportedHttpVersion => "Unsupported HTTP version"@,
        Exception::FileNotFound => "File not found (404)"@,
        Exception::InvalidPath => "Invalid path (400)"@,
        Exception::PHPExecuteFailed => "Couldn't invoke PHP interpreter"@,
        Exception::PHPCodeError => "An error happened in php code"@,
    }
}

impl Exception {
    /// A human-readable description, for logs and debugging pages.
    pub fn message(&self) -> (r: &'static str)
        ensures
            r@ == exception_text(*self),
    {
        match self {
            Exception::RequestIsNotUtf8 => "Request bytes can't be parsed in UTF-8",
            Exception::UnSupportedRequestMethod => "Unsupported request method",
            Exception::UnsupportedHttpVersion => "Unsupported HTTP version",
            Exception::FileNotFound => "File not found (404)",
            Exception::InvalidPath => "Invalid path (400)",
            Exception::PHPExecuteFailed => "Couldn't invoke PHP interpreter",
            Exception::PHPCodeError => "An error happened in php code",
        }
    }
}

} // verus!
