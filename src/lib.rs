//! Content delivery core of a static-file HTTP/1.1 server: request decoding,
//! a staleness-aware LRU content cache, encoding negotiation, response
//! construction and serialization.

pub mod cache;
pub mod config;
pub mod encoding;
pub mod exception;
pub mod param;
pub mod request;
pub mod response;
pub mod text;
pub mod util;

pub use cache::FileCache;
pub use exception::Exception;
pub use param::{HttpEncoding, HttpRequestMethod, HttpVersion};
pub use request::Request;
pub use response::Response;
pub use util::HtmlBuilder;
