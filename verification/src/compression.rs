//! Response compression: bodies that carry no encoding yet are sent as gzip.

use vstd::prelude::*;
use flate2::write::GzEncoder;
use flate2::Compression;
use crate::fairing::{Info, Kind};
use crate::http::{declares, Response};

verus! {

/// What `flate2` makes of `data` at a compression level: the gzip stream
/// that it writes, or nothing where the encoder reports an error.
pub uninterp spec fn gzip_stream(data: Seq<u8>, level: u32) -> Option<Seq<u8>>;

/// `flate2::write::GzEncoder` over a `Vec<u8>`: `new` at the given level,
/// the data copied in with `std::io::copy`, then `finish`. The encoder
/// writes into memory and its header holds neither a time nor the name of
/// a system, so what it hands back, error or stream, is the same for the
/// same data and level. Levels above 9 are left out: the encoder is not
/// built for them.
#[verifier::external_body]
fn gzip(data: &[u8], level: u32) -> (r: Option<Vec<u8>>)
    requires
        level <= 9,
    ensures
        match r {
            Some(bytes) => gzip_stream(data@, level) == Some(bytes@),
            None => gzip_stream(data@, level) is None,
        },
{
    let mut encoder = GzEncoder::new(Vec::new(), Compression::new(level));
    let mut input = data;
    if std::io::copy(&mut input, &mut encoder).is_err() {
        return None;
    }
    match encoder.finish() {
        Ok(bytes) => Some(bytes),
        Err(_) => None,
    }
}

/// The header that names the encoding of a body.
pub open spec fn encoding_header() -> Seq<char> {
    "Content-Encoding"@
}

/// The stage that compresses response bodies.
#[derive(Clone, Copy, Debug)]
pub struct Compressor {
    threshold: usize,
    level: u32,
}

impl Compressor {
    #[verifier::type_invariant]
    spec fn level_in_range(self) -> bool {
        self.level <= 9
    }

    /// The length from which on a body is compressed.
    pub closed spec fn threshold(&self) -> nat {
        self.threshold as nat
    }

    /// The compression level, from 0 to 9.
    pub closed spec fn level(&self) -> u32 {
        self.level
    }

    /// Whether a response is to be compressed: it declares no encoding, and
    /// its body is at least as long as the threshold.
    pub open spec fn is_due(&self, response: &Response) -> bool {
        !declares(response.headers@, encoding_header()) && response.body@.len() >= self.threshold()
    }

    /// The compressor for bodies of every length, at level 6.
    pub fn new() -> (r: Compressor)
        ensures
            r.threshold() == 0,
            r.level() == 6,
    {
        Compressor { threshold: 0, level: 6 }
    }

    /// The compressor for bodies of at least `threshold` bytes at the given
    /// level, unless the level is above 9.
    pub fn with_settings(threshold: usize, level: u32) -> (r: Option<Compressor>)
        ensures
            r is Some <==> level <= 9,
            r matches Some(c) ==> c.threshold() == threshold && c.level() == level,
    {
        if level <= 9 {
            Some(Compressor { threshold, level })
        } else {
            None
        }
    }

    /// The name of the stage and its phases.

    pub fn info(&self) -> (r: Info)
        ensures
            r.name@ == "Response Compression"@,
            r.kind == (Kind { request: false, response: true }),
    {
        Info { name: "Response Compression", kind: Kind::response() }
    }

    /// Puts an encoded body in place. Where the response is due and there
    /// is an encoded body, the body becomes the encoded one and the
    /// encoding is declared as gzip. Otherwise the response stays as it is.
    pub fn apply(&self, response: &mut Response, encoded: Option<Vec<u8>>)
        ensures
            self.is_due(old(response)) && encoded is Some ==> {
                &&& final(response).status == old(response).status
                &&& final(response).headers@ == old(response).headers@.push(
                    (encoding_header(), "gzip"@),
                )
                &&& final(response).body == encoded->0
            },
            !(self.is_due(old(response)) && encoded is Some) ==> *final(response) == *old(response),
    {
        if response.headers.contains("Content-Encoding") || response.body.len() < self.threshold {
            return ;
        }
        match encoded {
            Some(bytes) => {
                response.headers.add("Content-Encoding", "gzip");
                response.body = bytes;
            },
            None => {},
        }
    }

    /// The response phase. A response that declares an encoding, or whose
    /// body is shorter than the threshold, stays as it is, byte for byte.
    /// Any other is sent as the gzip stream of its body with the encoding
    /// declared, unless the encoder reports an error on that body: then it
    /// stays as it is.
    pub fn on_response(&self, response: &mut Response)
        ensures
            declares(old(response).headers@, encoding_header()) ==> *final(response) == *old(
                response,
            ),
            !self.is_due(old(response)) ==> *final(response) == *old(response),
            self.is_due(old(response)) ==> match gzip_stream(
                old(response).body@,
                self.level(),
            ) {
                Some(stream) => {
                    &&& final(response).status == old(response).status
                    &&& final(response).headers@ == old(response).headers@.push(
                        (encoding_header(), "gzip"@),
                    )
                    &&& final(response).body@ == stream
                },
                None => *final(response) == *old(response),
            },
    {
        proof {
            use_type_invariant(self);
        }
        if response.headers.contains("Content-Encoding") || response.body.len() < self.threshold {
            return ;
        }
        let encoded = gzip(response.body.as_slice(), self.level);
        self.apply(response, encoded);
    }
}

impl Default for Compressor {
    fn default() -> (r: Compressor)
        ensures
            r.threshold() == 0,
            r.level() == 6,
    {
        Compressor::new()
    }
}

} // verus!
