//! Server settings and their defaults.

use vstd::prelude::*;

verus! {

/// Files larger than this many bytes are streamed (10 MiB); also the ceiling
/// for caching.
pub fn default_streaming_threshold() -> (r: u64)
    ensures
        r == 10485760,
{
    10485760
}

/// Size of each streamed chunk (256 KiB).
pub fn default_chunk_size() -> (r: usize)
    ensures
        r == 262144,
{
    262144
}

/// Range requests are advertised unless configured otherwise.
pub fn default_enable_range_requests() -> (r: bool)
    ensures
        r,
{
    true
}

/// Relies on `num_cpus::get`: the number of logical CPUs, at least one.
#[verifier::external_body]
fn cpu_count() -> (r: usize)
    ensures
        r >= 1,
{
    num_cpus::get()
}

/// Cache capacity used when a configuration asks for zero.
pub const FALLBACK_CACHE_SIZE: usize = 5;

/// Runtime settings of the server.
#[derive(Debug, Clone)]
pub struct Config {
    /// Directory that request paths are resolved against.
    pub www_root: String,
    pub port: u16,
    /// Worker threads; zero means one per CPU.
    pub worker_threads: usize,
    /// Capacity of the content cache, in entries.
    pub cache_size: usize,
    /// Listen on the loopback address only.
    pub local: bool,
    /// Size above which file bodies are streamed and not cached.
    pub streaming_threshold: u64,
    /// Bytes per streamed chunk.
    pub chunk_size: usize,
    /// Whether responses advertise `Accept-Ranges: bytes`.
    pub enable_range_requests: bool,
}

impl Config {
    /// The built-in configuration.
    pub fn new() -> (r: Self)
        ensures
            r.www_root@ == "."@,
            r.port == 7878,
            r.worker_threads == 0,
            r.cache_size == 5,
            r.local,
            r.streaming_threshold == 10485760,
            r.chunk_size == 262144,
            r.enable_range_requests,
    {
        Config {
            www_root: ".".to_owned(),
            port: 7878,
            worker_threads: 0,
            cache_size: 5,
            local: true,
            streaming_threshold: default_streaming_threshold(),
            chunk_size: default_chunk_size(),
            enable_range_requests: default_enable_range_requests(),
        }
    }

    /// Resolves the automatic settings of a loaded configuration: zero worker
    /// threads become one per CPU, and a zero cache size becomes
    /// [`FALLBACK_CACHE_SIZE`], since caching cannot be disabled.
    pub fn normalize(self) -> (r: Self)
        ensures
            r.www_root == self.www_root,
            r.port == self.port,
            self.worker_threads != 0 ==> r.worker_threads == self.worker_threads,
            r.worker_threads >= 1,
            r.cache_size == (if self.cache_size == 0 { FALLBACK_CACHE_SIZE } else { self.cache_size }),
            r.local == self.local,
            r.streaming_threshold == self.streaming_threshold,
            r.chunk_size == self.chunk_size,
            r.enable_range_requests == self.enable_range_requests,
    {
        let mut c = self;
        if c.worker_threads == 0 {
            c.worker_threads = cpu_count();
        }
        if c.cache_size == 0 {
            c.cache_size = FALLBACK_CACHE_SIZE;
        }
        c
    }

    pub fn www_root(&self) -> (r: &str)
        ensures
            r@ == self.www_root@,
    {
        self.www_root.as_str()
    }

    pub fn port(&self) -> (r: u16)
        ensures
            r == self.port,
    {
        self.port
    }

    pub fn worker_threads(&self) -> (r: usize)
        ensures
            r == self.worker_threads,
    {
        self.worker_threads
    }

    pub fn cache_size(&self) -> (r: usize)
        ensures
            r == self.cache_size,
    {
        self.cache_size
    }

    pub fn local(&self) -> (r: bool)
        ensures
            r == self.local,
    {
        self.local
    }

    pub fn streaming_threshold(&self) -> (r: u64)
        ensures
            r == self.streaming_threshold,
    {
        self.streaming_threshold
    }

    pub fn chunk_size(&self) -> (r: usize)
        ensures
            r == self.chunk_size,
    {
        self.chunk_size
    }

    pub fn enable_range_requests(&self) -> (r: bool)
        ensures
            r == self.enable_range_requests,
    {
        self.enable_range_requests
    }
}

} // verus!
