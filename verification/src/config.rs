//! The settings that the stages are built from.

use vstd::prelude::*;
use crate::compression::Compressor;
use crate::filtering::RIFM;
use crate::http::ClientAddr;
use crate::limiting::Quota;
use crate::security::SecurityHeaders;

verus! {

/// The key that callers present where no other is configured.
pub const API_KEY: &'static str = "xBIM-api-key-2025";

/// The settings of the server's request handling, fixed at start.
pub struct Config {
    /// The secret that a caller presents to reach a guarded route.
    pub api_key: String,
    /// The requests that one client may make, and within what span.
    pub quota: Quota,
    /// The clients that are served at all.
    pub filter: RIFM,
    /// The protective headers that every response gets.
    pub security_headers: SecurityHeaders,
    /// From what length on, and at what level, bodies are compressed.
    pub compression: Compressor,
}

impl Config {
    /// The default settings: the built-in key, one request per second and
    /// client, every client served, the default protective headers, and
    /// every body compressed at level 6.
    pub fn new() -> (r: Config)
        ensures
            r.api_key@ == API_KEY@,
            r.quota == (Quota { max_requests: 1, window_secs: 1 }),
            r.filter.allowed_ips@ == Set::<ClientAddr>::empty(),
            r.filter.denied_ips@ == Set::<ClientAddr>::empty(),
            r.filter.allow_all_by_default,
            r.security_headers == SecurityHeaders::default_headers(),
            r.compression.threshold() == 0,
            r.compression.level() == 6,
    {
        Config {
            api_key: API_KEY.to_owned(),
            quota: Quota::per_second(1),
            filter: RIFM::default(),
            security_headers: SecurityHeaders::default(),
            compression: Compressor::new(),
        }
    }
}

impl Config {
    /// The settings made of the given parts. A quota with a zero in it
    /// gives way to the default quota, and a compression level above 9 to
    /// the default compression.
    pub fn from_parts(
        api_key: String,
        max_requests: u32,
        window_secs: u64,
        filter: RIFM,
        security_headers: SecurityHeaders,
        compression_threshold: usize,
        compression_level: u32,
    ) -> (r: Config)
        ensures
            r.api_key == api_key,
            r.quota == if max_requests > 0 && window_secs > 0 {
                Quota { max_requests, window_secs }
            } else {
                Quota { max_requests: 1, window_secs: 1 }
            },
            r.filter == filter,
            r.security_headers == security_headers,
            r.compression.threshold() == if compression_level <= 9 {
                compression_threshold as nat
            } else {
                0
            },
            r.compression.level() == if compression_level <= 9 {
                compression_level
            } else {
                6
            },
    {
        let quota = match Quota::new(max_requests, window_secs) {
            Some(quota) => quota,
            None => Quota::per_second(1),
        };
        let compression = match Compressor::with_settings(compression_threshold, compression_level) {
            Some(compression) => compression,
            None => Compressor::new(),
        };
        Config { api_key, quota, filter, security_headers, compression }
    }
}

impl Default for Config {
    fn default() -> (r: Config)
        ensures
            r.api_key@ == API_KEY@,
            r.quota == (Quota { max_requests: 1, window_secs: 1 }),
            r.filter.allowed_ips@ == Set::<ClientAddr>::empty(),
            r.filter.denied_ips@ == Set::<ClientAddr>::empty(),
            r.filter.allow_all_by_default,
            r.security_headers == SecurityHeaders::default_headers(),
            r.compression.threshold() == 0,
            r.compression.level() == 6,
    {
        Config::new()
    }
}

} // verus!
