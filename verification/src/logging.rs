//! Request logging: one record when a request starts, one when its response
//! is complete.

use vstd::prelude::*;
use crate::fairing::{Info, Kind};
use crate::http::{ClientAddr, Method, Request, Response, Status};

verus! {

/// What is written down of one end of an exchange.
#[derive(Clone, Debug)]
pub enum LogRecord {
    /// A request has come in.
    Incoming { timestamp: String, method: Method, uri: String, client: Option<ClientAddr> },
    /// A response goes out.
    Outgoing { timestamp: String, method: Method, uri: String, status: Status },
}

/// The text that `chrono` gives for the time in UTC that lies `secs`
/// seconds and `nanos` nanoseconds after the start of 1970, where it can
/// hold that time.
pub uninterp spec fn utc_text(secs: i64, nanos: u32) -> Option<Seq<char>>;

/// `SystemTime::elapsed` of the standard library, on `UNIX_EPOCH`: the
/// whole seconds and the nanoseconds that have passed since the start of
/// 1970, or nothing where the system clock stands before it. Nothing is
/// claimed of the numbers.
#[verifier::external_body]
fn since_epoch() -> Option<(u64, u32)> {
    match std::time::UNIX_EPOCH.elapsed() {
        Ok(passed) => Some((passed.as_secs(), passed.subsec_nanos())),
        Err(_) => None,
    }
}

/// `chrono::DateTime::from_timestamp` and the `Display` of
/// `chrono::DateTime<Utc>`: a time in UTC as text, or nothing where the
/// time is out of the range that `chrono` holds.
#[verifier::external_body]
fn utc_at(secs: i64, nanos: u32) -> (r: Option<String>)
    ensures
        match r {
            Some(text) => utc_text(secs, nanos) == Some(text@),
            None => utc_text(secs, nanos) is None,
        },
{
    match chrono::DateTime::from_timestamp(secs, nanos) {
        Some(time) => Some(time.to_string()),
        None => None,
    }
}

/// The timestamp of a record for a reading of the system clock, in seconds
/// and nanoseconds since the start of 1970: the time in UTC as text, or the
/// empty text where the clock gave no reading or one that cannot be
/// written.
pub open spec fn timestamp_of(reading: Option<(u64, u32)>) -> Seq<char> {
    match reading {
        Some((secs, nanos)) => if secs <= i64::MAX {
            match utc_text(secs as i64, nanos) {
                Some(text) => text,
                None => Seq::empty(),
            }
        } else {
            Seq::empty()
        },
        None => Seq::empty(),
    }
}

/// Whether a record is the one of a request that came in at the time `time`.
pub open spec fn is_incoming(record: LogRecord, request: &Request, time: Seq<char>) -> bool {
    &&& record matches LogRecord::Incoming { timestamp, method, uri, client }
    &&& timestamp@ == time
    &&& method == request.method
    &&& uri@ == request.uri@
    &&& client == request.client_ip
}

/// Whether a record is the one of a response that went out at the time
/// `time`.
pub open spec fn is_outgoing(
    record: LogRecord,
    request: &Request,
    response: &Response,
    time: Seq<char>,
) -> bool {
    &&& record matches LogRecord::Outgoing { timestamp, method, uri, status }
    &&& timestamp@ == time
    &&& method == request.method
    &&& uri@ == request.uri@
    &&& status == response.status
}

/// The stage that keeps a record of requests and responses.
#[derive(Clone, Copy, Debug)]
pub struct Logger;

impl Logger {
    /// The name of the stage and its phases.
    pub fn info(&self) -> (r: Info)
        ensures
            r.name@ == "Request and Response Logging"@,
            r.kind == (Kind { request: true, response: true }),
    {
        Info { name: "Request and Response Logging", kind: Kind::request().or(Kind::response()) }
    }

    /// The timestamp for a reading of the system clock. A clock that gives
    /// no reading does not keep a request from being served: its record is
    /// written without a time.
    pub fn timestamp(&self, reading: Option<(u64, u32)>) -> (r: String)
        ensures
            r@ == timestamp_of(reading),
    {
        match reading {
            Some((secs, nanos)) => {
                if secs <= i64::MAX as u64 {
                    match utc_at(secs as i64, nanos) {
                        Some(text) => text,
                        None => String::new(),
                    }
                } else {
                    String::new()
                }
            },
            None => String::new(),
        }
    }

    /// The record of a request that came in at `timestamp`.
    pub fn incoming(&self, request: &Request, timestamp: String) -> (r: LogRecord)
        ensures
            is_incoming(r, request, timestamp@),
    {
        LogRecord::Incoming {
            timestamp,
            method: request.method,
            uri: request.uri.clone(),
            client: request.client_ip,
        }
    }

    /// The record of a response that went out at `timestamp`.
    pub fn outgoing(&self, request: &Request, response: &Response, timestamp: String) -> (r:
        LogRecord)
        ensures
            is_outgoing(r, request, response, timestamp@),
    {
        LogRecord::Outgoing {
            timestamp,
            method: request.method,
            uri: request.uri.clone(),
            status: response.status,
        }
    }

    /// The request phase: the record of the request, with the timestamp of
    /// a reading of the system clock.
    pub fn on_request(&self, request: &Request) -> (r: LogRecord)
        ensures
            exists|reading: Option<(u64, u32)>|
                is_incoming(r, request, #[trigger] timestamp_of(reading)),
    {
        let reading = since_epoch();
        let r = self.incoming(request, self.timestamp(reading));
        assert(is_incoming(r, request, timestamp_of(reading)));
        r
    }

    /// The response phase: the record of the response, with the timestamp
    /// of a reading of the system clock.
    pub fn on_response(&self, request: &Request, response: &Response) -> (r: LogRecord)
        ensures
            exists|reading: Option<(u64, u32)>|
                is_outgoing(r, request, response, #[trigger] timestamp_of(reading)),
    {
        let reading = since_epoch();
        let r = self.outgoing(request, response, self.timestamp(reading));
        assert(is_outgoing(r, request, response, timestamp_of(reading)));
        r
    }
}

/// The stage that keeps a record of requests and responses, under its
/// shorter name.
#[derive(Clone, Copy, Debug)]
pub struct RequestLogger;

impl RequestLogger {
    /// The name of the stage and its phases.
    pub fn info(&self) -> (r: Info)
        ensures
            r.name@ == "Request Logger"@,
            r.kind == (Kind { request: true, response: true }),
    {
        Info { name: "Request Logger", kind: Kind::request().or(Kind::response()) }
    }

    /// The request phase: the record of the request, with the timestamp of
    /// a reading of the system clock.
    pub fn on_request(&self, request: &Request) -> (r: LogRecord)
        ensures
            exists|reading: Option<(u64, u32)>|
                is_incoming(r, request, #[trigger] timestamp_of(reading)),
    {
        Logger.on_request(request)
    }

    /// The response phase: the record of the response, with the timestamp
    /// of a reading of the system clock.
    pub fn on_response(&self, request: &Request, response: &Response) -> (r: LogRecord)
        ensures
            exists|reading: Option<(u64, u32)>|
                is_outgoing(r, request, response, #[trigger] timestamp_of(reading)),
    {
        Logger.on_response(request, response)
    }
}

} // verus!
