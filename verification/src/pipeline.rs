//! The stages in their one fixed order, around the handlers of the routes.

use vstd::prelude::*;
use crate::compression::{encoding_header, gzip_stream, Compressor};
use crate::config::Config;
use crate::filtering::RIFM;
use crate::http::{lookup, without, ClientAddr, Lines, Request, Response, Status};
use crate::identification::{current_id, id_header, is_request_id, RRIM};
use crate::limiting::{admits, after_call, RateLimiter, NANOS_PER_SEC};
use crate::logging::{is_incoming, is_outgoing, LogRecord, Logger};
use crate::security::SecurityHeaders;

verus! {

/// The headers of a response once the response phase is through: the
/// protective lines are added after the headers it had, and the identifier
/// of the request becomes the one value of the identifier header.
pub open spec fn closing(headers: Lines, protective: Lines, id: Seq<char>) -> Lines {
    without(headers + protective, id_header()).push((id_header(), id))
}

/// The stages of request handling. The request phase runs the address
/// filter, the rate limiter, the identifier and the logger, in this order;
/// the response phase runs the compressor, the protective headers, the
/// identifier and the logger, in this order.
pub struct Pipeline {
    pub filter: RIFM,
    pub limiter: RateLimiter,
    pub identifier: RRIM,
    pub logger: Logger,
    pub compressor: Compressor,
    pub security: SecurityHeaders,
}

/// One exchange as the pipeline served it.
pub struct Exchange {
    /// The response to send.
    pub response: Response,
    /// The record of the request, where the request phase ran to its end.
    pub started: Option<LogRecord>,
    /// The record of the response.
    pub finished: LogRecord,
}

impl Pipeline {
    /// The stages for the given settings, with nothing recorded.
    pub fn new(config: Config) -> (r: Pipeline)
        ensures
            r.filter == config.filter,
            r.limiter.limit() == config.quota.max_requests,
            r.limiter.span() == config.quota.window_secs * NANOS_PER_SEC,
            forall|client: Option<ClientAddr>|
                #[trigger] r.limiter.record(client) == Seq::<u128>::empty(),
            r.compressor == config.compression,
            r.security == config.security_headers,
    {
        Pipeline {
            filter: config.filter,
            limiter: RateLimiter::with_quota(config.quota),
            identifier: RRIM,
            logger: Logger,
            compressor: config.compression,
            security: config.security_headers,
        }
    }

    /// The status with which the request phase turns a request away at
    /// `now`, if it does: 403 where the filter does not let the client
    /// through, else 429 where the client is over its quota.
    pub open spec fn rejection(&self, request: &Request, now: u128) -> Option<u16> {
        if !self.filter.lets_through(request.client_ip) {
            Some(403)
        } else if !admits(
            self.limiter.record(request.client_ip),
            now,
            self.limiter.span(),
            self.limiter.limit(),
        ) {
            Some(429)
        } else {
            None
        }
    }

    /// Whether `sent` is what the response phase makes of the response
    /// `served` for a request with the identifier `id`. The status stays.
    /// Where compression is due and the encoder makes a stream of the
    /// body, the body becomes that stream and the encoding is declared;
    /// otherwise the body stays. Then the headers are closed.
    pub open spec fn completes(&self, served: &Response, id: Seq<char>, sent: &Response) -> bool {
        &&& sent.status == served.status
        &&& if self.compressor.is_due(served) && gzip_stream(
            served.body@,
            self.compressor.level(),
        ) is Some {
            &&& sent.body@ == gzip_stream(served.body@, self.compressor.level())->0
            &&& sent.headers@ == closing(
                served.headers@.push((encoding_header(), "gzip"@)),
                self.security.lines(),
                id,
            )
        } else {
            &&& sent.body == served.body
            &&& sent.headers@ == closing(served.headers@, self.security.lines(), id)
        }
    }

    /// Whether `sent` is what the response phase makes of a response
    /// `served` whose body could not be read, for a request with the
    /// identifier `id`: status and body stay, and the headers are closed.
    pub open spec fn completes_unread(
        &self,
        served: &Response,
        id: Seq<char>,
        sent: &Response,
    ) -> bool {
        &&& sent.status == served.status
        &&& sent.body == served.body
        &&& sent.headers@ == closing(served.headers@, self.security.lines(), id)
    }

    /// The request phase at `now`, in nanoseconds on a clock of the
    /// caller's choice. A request that is turned away is left as it is, and
    /// the stages after the one that turned it away do not see it: a client
    /// that the filter stops is not counted by the limiter. A request that
    /// passes has an identifier afterwards, and its record is returned.
    pub fn on_request_at(&mut self, request: &mut Request, now: u128) -> (r: Result<
        LogRecord,
        Status,
    >)
        ensures
            match old(self).rejection(old(request), now) {
                Some(code) => {
                    &&& r matches Err(status)
                    &&& status.code == code
                    &&& *final(request) == *old(request)
                },
                None => {
                    &&& r matches Ok(record)
                    &&& exists|time: Seq<char>| is_incoming(record, final(request), time)
                    &&& final(request).request_id is Some
                    &&& old(request).request_id is Some ==> *final(request) == *old(request)
                    &&& old(request).request_id is None ==> is_request_id(
                        current_id(final(request)),
                    )
                    &&& *final(request) == (Request {
                        request_id: final(request).request_id,
                        ..*old(request)
                    })
                },
            },
            final(self).limiter.record(old(request).client_ip) == if old(self).filter.lets_through(
                old(request).client_ip,
            ) {
                after_call(
                    old(self).limiter.record(old(request).client_ip),
                    now,
                    old(self).limiter.span(),
                    old(self).limiter.limit(),
                )
            } else {
                old(self).limiter.record(old(request).client_ip)
            },
            forall|other: Option<ClientAddr>|
                other != old(request).client_ip ==> #[trigger] final(self).limiter.record(other)
                    == old(self).limiter.record(other),
            final(self).limiter.limit() == old(self).limiter.limit(),
            final(self).limiter.span() == old(self).limiter.span(),
            final(self).filter == old(self).filter,
            final(self).compressor == old(self).compressor,
            final(self).security == old(self).security,
    {
        match self.filter.on_request(request) {
            Err(status) => {
                return Err(status);
            },
            Ok(()) => {},
        }
        match self.limiter.on_request_at(request, now) {
            Err(status) => {
                return Err(status);
            },
            Ok(()) => {},
        }
        self.identifier.on_request(request);
        Ok(self.logger.on_request(request))
    }

    /// The response phase, for rejections as for the responses of
    /// handlers. A request that has no identifier yet gets one, so that
    /// every response carries one. Then the response is completed, and its
    /// record is returned.
    pub fn on_response(&self, request: &mut Request, response: &mut Response) -> (record:
        LogRecord)
        ensures
            final(request).request_id is Some,
            old(request).request_id is Some ==> *final(request) == *old(request),
            old(request).request_id is None ==> is_request_id(current_id(final(request))),
            *final(request) == (Request {
                request_id: final(request).request_id,
                ..*old(request)
            }),
            self.completes(old(response), current_id(final(request)), final(response)),
            lookup(final(response).headers@, id_header()) == Some(current_id(final(request))),
            exists|time: Seq<char>| is_outgoing(record, final(request), final(response), time),
    {
        self.compressor.on_response(response);
        self.on_unread_response(request, response)
    }

    /// The response phase for a response whose body could not be read: the
    /// compressor leaves such a response as it is, and every other stage
    /// of the phase runs as on any response.
    pub fn on_unread_response(&self, request: &mut Request, response: &mut Response) -> (record:
        LogRecord)
        ensures
            final(request).request_id is Some,
            old(request).request_id is Some ==> *final(request) == *old(request),
            old(request).request_id is None ==> is_request_id(current_id(final(request))),
            *final(request) == (Request {
                request_id: final(request).request_id,
                ..*old(request)
            }),
            self.completes_unread(old(response), current_id(final(request)), final(response)),
            lookup(final(response).headers@, id_header()) == Some(current_id(final(request))),
            exists|time: Seq<char>| is_outgoing(record, final(request), final(response), time),
    {
        self.security.on_response(response);
        self.identifier.on_request(request);
        self.identifier.on_response(request, response);
        self.logger.on_response(request, response)
    }

    /// The request phase at the present reading of the limiter's clock.
    pub fn on_request(&mut self, request: &mut Request) -> (r: Result<LogRecord, Status>)
        ensures
            exists|now: u128|
                {
                    &&& match #[trigger] old(self).rejection(old(request), now) {
                        Some(code) => {
                            &&& r matches Err(status)
                            &&& status.code == code
                            &&& *final(request) == *old(request)
                        },
                        None => {
                            &&& r matches Ok(record)
                            &&& exists|time: Seq<char>| is_incoming(record, final(request), time)
                            &&& final(request).request_id is Some
                            &&& old(request).request_id is Some ==> *final(request) == *old(
                                request,
                            )
                            &&& old(request).request_id is None ==> is_request_id(
                                current_id(final(request)),
                            )
                            &&& *final(request) == (Request {
                                request_id: final(request).request_id,
                                ..*old(request)
                            })
                        },
                    }
                    &&& final(self).limiter.record(old(request).client_ip) == if old(
                        self,
                    ).filter.lets_through(old(request).client_ip) {
                        after_call(
                            old(self).limiter.record(old(request).client_ip),
                            now,
                            old(self).limiter.span(),
                            old(self).limiter.limit(),
                        )
                    } else {
                        old(self).limiter.record(old(request).client_ip)
                    }
                },
            forall|other: Option<ClientAddr>|
                other != old(request).client_ip ==> #[trigger] final(self).limiter.record(other)
                    == old(self).limiter.record(other),
            final(self).limiter.limit() == old(self).limiter.limit(),
            final(self).limiter.span() == old(self).limiter.span(),
            final(self).filter == old(self).filter,
            final(self).compressor == old(self).compressor,
            final(self).security == old(self).security,
    {
        let now = self.limiter.now();
        self.on_request_at(request, now)
    }

    /// One exchange at `now`: the request phase, then the handler unless
    /// the request was turned away, then the response phase. A request that
    /// is turned away gets the empty response of that status, and the
    /// handler is not asked.
    pub fn run_at<F: Fn(&Request) -> Response>(
        &mut self,
        request: &mut Request,
        now: u128,
        handler: F,
    ) -> (r: Exchange)
        requires
            forall|seen: &Request| handler.requires((seen,)),
        ensures
            match old(self).rejection(old(request), now) {
                Some(code) => {
                    &&& r.started is None
                    &&& exists|turned: Response|
                        {
                            &&& turned.status.code == code
                            &&& turned.headers@.len() == 0
                            &&& turned.body@.len() == 0
                            &&& #[trigger] final(self).completes(
                                &turned,
                                current_id(final(request)),
                                &r.response,
                            )
                        }
                },
                None => {
                    &&& r.started matches Some(record)
                    &&& exists|time: Seq<char>| is_incoming(record, final(request), time)
                    &&& exists|served: Response|
                        {
                            &&& handler.ensures((final(request),), served)
                            &&& #[trigger] final(self).completes(
                                &served,
                                current_id(final(request)),
                                &r.response,
                            )
                        }
                },
            },
            final(request).request_id is Some,
            old(request).request_id is Some ==> *final(request) == *old(request),
            old(request).request_id is None ==> is_request_id(current_id(final(request))),
            *final(request) == (Request {
                request_id: final(request).request_id,
                ..*old(request)
            }),
            lookup(r.response.headers@, id_header()) == Some(current_id(final(request))),
            exists|time: Seq<char>| is_outgoing(r.finished, final(request), &r.response, time),
            final(self).limiter.record(old(request).client_ip) == if old(self).filter.lets_through(
                old(request).client_ip,
            ) {
                after_call(
                    old(self).limiter.record(old(request).client_ip),
                    now,
                    old(self).limiter.span(),
                    old(self).limiter.limit(),
                )
            } else {
                old(self).limiter.record(old(request).client_ip)
            },
            forall|other: Option<ClientAddr>|
                other != old(request).client_ip ==> #[trigger] final(self).limiter.record(other)
                    == old(self).limiter.record(other),
            final(self).limiter.limit() == old(self).limiter.limit(),
            final(self).limiter.span() == old(self).limiter.span(),
            final(self).filter == old(self).filter,
            final(self).compressor == old(self).compressor,
            final(self).security == old(self).security,
    {
        match self.on_request_at(request, now) {
            Ok(record) => {
                let mut response = handler(&*request);
                let ghost served = response;
                let finished = self.on_response(request, &mut response);
                assert(self.completes(&served, current_id(request), &response));
                Exchange { response, started: Some(record), finished }
            },
            Err(status) => {
                let mut response = Response::new(status);
                let ghost turned = response;
                let finished = self.on_response(request, &mut response);
                assert(self.completes(&turned, current_id(request), &response));
                Exchange { response, started: None, finished }
            },
        }
    }

    /// One exchange at the present reading of the limiter's clock.
    pub fn run<F: Fn(&Request) -> Response>(&mut self, request: &mut Request, handler: F) -> (r:
        Exchange)
        requires
            forall|seen: &Request| handler.requires((seen,)),
        ensures
            exists|now: u128|
                {
                    &&& match #[trigger] old(self).rejection(old(request), now) {
                        Some(code) => {
                            &&& r.started is None
                            &&& exists|turned: Response|
                                {
                                    &&& turned.status.code == code
                                    &&& turned.headers@.len() == 0
                                    &&& turned.body@.len() == 0
                                    &&& #[trigger] final(self).completes(
                                        &turned,
                                        current_id(final(request)),
                                        &r.response,
                                    )
                                }
                        },
                        None => {
                            &&& r.started matches Some(record)
                            &&& exists|time: Seq<char>| is_incoming(record, final(request), time)
                            &&& exists|served: Response|
                                {
                                    &&& handler.ensures((final(request),), served)
                                    &&& #[trigger] final(self).completes(
                                        &served,
                                        current_id(final(request)),
                                        &r.response,
                                    )
                                }
                        },
                    }
                    &&& final(self).limiter.record(old(request).client_ip) == if old(
                        self,
                    ).filter.lets_through(old(request).client_ip) {
                        after_call(
                            old(self).limiter.record(old(request).client_ip),
                            now,
                            old(self).limiter.span(),
                            old(self).limiter.limit(),
                        )
                    } else {
                        old(self).limiter.record(old(request).client_ip)
                    }
                },
            final(request).request_id is Some,
            old(request).request_id is Some ==> *final(request) == *old(request),
            old(request).request_id is None ==> is_request_id(current_id(final(request))),
            *final(request) == (Request {
                request_id: final(request).request_id,
                ..*old(request)
            }),
            lookup(r.response.headers@, id_header()) == Some(current_id(final(request))),
            exists|time: Seq<char>| is_outgoing(r.finished, final(request), &r.response, time),
            forall|other: Option<ClientAddr>|
                other != old(request).client_ip ==> #[trigger] final(self).limiter.record(other)
                    == old(self).limiter.record(other),
            final(self).limiter.limit() == old(self).limiter.limit(),
            final(self).limiter.span() == old(self).limiter.span(),
            final(self).filter == old(self).filter,
            final(self).compressor == old(self).compressor,
            final(self).security == old(self).security,
    {
        let now = self.limiter.now();
        self.run_at(request, now, handler)
    }
}

} // verus!
