//! The sliding-window rate limiter.

use vstd::prelude::*;
use std::collections::HashMap;
use std::time::{Duration, Instant};
use crate::fairing::{Info, Kind};
use crate::http::{ClientAddr, Method, Request, Status};

verus! {

/// Nanoseconds in one second.
pub const NANOS_PER_SEC: u128 = 1_000_000_000;

/// Whether an admission recorded at `stamp` still counts at `now`: it is not
/// older than `now - span`.
pub open spec fn in_window(stamp: u128, now: u128, span: u128) -> bool {
    stamp + span >= now
}

/// The recorded admissions that still count at `now`, in their order.
pub open spec fn live(stamps: Seq<u128>, now: u128, span: u128) -> Seq<u128> {
    stamps.filter(|stamp: u128| in_window(stamp, now, span))
}

/// Whether a request at `now` is admitted: fewer than `limit` recorded
/// admissions still count.
pub open spec fn admits(stamps: Seq<u128>, now: u128, span: u128, limit: nat) -> bool {
    live(stamps, now, span).len() < limit
}

/// The record of a client after a request at `now`: what no longer counts is
/// gone, and `now` is recorded if the request was admitted.
pub open spec fn after_call(stamps: Seq<u128>, now: u128, span: u128, limit: nat) -> Seq<u128> {
    if admits(stamps, now, span, limit) {
        live(stamps, now, span).push(now)
    } else {
        live(stamps, now, span)
    }
}

/// The record of a client after requests at each of `times`, in order.
pub open spec fn replay(stamps: Seq<u128>, times: Seq<u128>, span: u128, limit: nat) -> Seq<u128>
    decreases times.len(),
{
    if times.len() == 0 {
        stamps
    } else {
        after_call(replay(stamps, times.drop_last(), span, limit), times.last(), span, limit)
    }
}

/// Whether any two of `times` lie less than `span` apart.
pub open spec fn within_span(times: Seq<u128>, span: u128) -> bool {
    forall|i: int, j: int|
        0 <= i < times.len() && 0 <= j < times.len() ==> #[trigger] times[i] < #[trigger] times[j]
            + span
}

/// Where every recorded admission still counts, none is dropped.
pub proof fn lemma_live_all(stamps: Seq<u128>, now: u128, span: u128)
    requires
        forall|i: int| 0 <= i < stamps.len() ==> in_window(#[trigger] stamps[i], now, span),
    ensures
        live(stamps, now, span) == stamps,
    decreases stamps.len(),
{
    reveal(Seq::filter);
    if stamps.len() > 0 {
        lemma_live_all(stamps.drop_last(), now, span);
        assert(stamps.drop_last().push(stamps.last()) =~= stamps);
    }
}

/// Where some recorded admission no longer counts, fewer count than are
/// recorded.
pub proof fn lemma_live_drops(stamps: Seq<u128>, now: u128, span: u128, i: int)
    requires
        0 <= i < stamps.len(),
        !in_window(stamps[i], now, span),
    ensures
        live(stamps, now, span).len() < stamps.len(),
    decreases stamps.len(),
{
    let counts = |stamp: u128| in_window(stamp, now, span);
    reveal(Seq::filter);
    if i == stamps.len() - 1 {
        stamps.drop_last().lemma_filter_len(counts);
    } else {
        lemma_live_drops(stamps.drop_last(), now, span, i);
    }
}

/// After a request at `now`, every admission on record lies in the window
/// that ends at `now`, and the record holds no more than the quota unless it
/// held more before.
pub proof fn lemma_record_after_call(stamps: Seq<u128>, now: u128, span: u128, limit: nat)
    ensures
        forall|i: int|
            0 <= i < after_call(stamps, now, span, limit).len() ==> in_window(
                #[trigger] after_call(stamps, now, span, limit)[i],
                now,
                span,
            ),
        after_call(stamps, now, span, limit).len() <= if stamps.len() <= limit {
            limit
        } else {
            stamps.len()
        },
{
    let counts = |stamp: u128| in_window(stamp, now, span);
    let kept = live(stamps, now, span);
    stamps.lemma_filter_len(counts);
    assert forall|i: int| 0 <= i < kept.len() implies in_window(#[trigger] kept[i], now, span) by {
        stamps.lemma_filter_pred(counts, i);
    }
}

/// Sliding window, first part: a client with nothing on record makes no more
/// requests than the quota, any two of them less than one span apart. Then
/// each of them is admitted, and all of them are on record afterwards.
pub proof fn lemma_quota_is_admitted(times: Seq<u128>, span: u128, limit: nat)
    requires
        times.len() <= limit,
        within_span(times, span),
    ensures
        forall|k: int|
            0 <= k < times.len() ==> admits(
                replay(Seq::empty(), #[trigger] times.take(k), span, limit),
                times[k],
                span,
                limit,
            ),
        replay(Seq::empty(), times, span, limit) == times,
    decreases times.len(),
{
    if times.len() > 0 {
        let n = times.len() - 1;
        let earlier = times.drop_last();
        assert forall|i: int, j: int| 0 <= i < earlier.len() && 0 <= j < earlier.len() implies
            #[trigger] earlier[i] < #[trigger] earlier[j] + span by {
            assert(times[i] < times[j] + span);
        }
        lemma_quota_is_admitted(earlier, span, limit);
        assert forall|i: int| 0 <= i < earlier.len() implies in_window(
            #[trigger] earlier[i],
            times[n],
            span,
        ) by {
            assert(times[n] < times[i] + span);
        }
        lemma_live_all(earlier, times[n], span);
        assert(earlier.push(times[n]) =~= times);
        assert forall|k: int| 0 <= k < times.len() implies admits(
            replay(Seq::empty(), #[trigger] times.take(k), span, limit),
            times[k],
            span,
            limit,
        ) by {
            if k < n {
                assert(times.take(k) =~= earlier.take(k));
            } else {
                assert(times.take(k) =~= earlier);
            }
        }
    }
}

/// Sliding window, second part: with the quota on record and every recorded
/// admission still in the window, the next request is rejected and leaves
/// the record as it was.
pub proof fn lemma_over_quota_is_rejected(stamps: Seq<u128>, now: u128, span: u128, limit: nat)
    requires
        stamps.len() >= limit,
        forall|i: int| 0 <= i < stamps.len() ==> in_window(#[trigger] stamps[i], now, span),
    ensures
        !admits(stamps, now, span, limit),
        after_call(stamps, now, span, limit) == stamps,
{
    lemma_live_all(stamps, now, span);
}

/// Sliding window, third part: once a recorded admission has aged past the
/// span, a client with no more than the quota on record is admitted again.
pub proof fn lemma_aged_out_is_admitted(
    stamps: Seq<u128>,
    now: u128,
    span: u128,
    limit: nat,
    oldest: int,
)
    requires
        stamps.len() <= limit,
        0 <= oldest < stamps.len(),
        stamps[oldest] + span < now,
    ensures
        admits(stamps, now, span, limit),
{
    lemma_live_drops(stamps, now, span, oldest);
}

/// The sliding window as a whole. A client with nothing on record makes as
/// many requests as the quota allows, then one more, all less than one span
/// apart, and another after one of the recorded admissions has aged past
/// the span. The first are admitted and recorded, the one more is rejected
/// and not recorded, and the last is admitted.
pub proof fn lemma_sliding_window(
    times: Seq<u128>,
    extra: u128,
    later: u128,
    span: u128,
    limit: nat,
    oldest: int,
)
    requires
        times.len() == limit,
        within_span(times.push(extra), span),
        0 <= oldest < times.len(),
        times[oldest] + span < later,
    ensures
        forall|k: int|
            0 <= k < times.len() ==> admits(
                replay(Seq::empty(), #[trigger] times.take(k), span, limit),
                times[k],
                span,
                limit,
            ),
        replay(Seq::empty(), times, span, limit) == times,
        !admits(times, extra, span, limit),
        after_call(times, extra, span, limit) == times,
        admits(times, later, span, limit),
{
    let all = times.push(extra);
    assert forall|i: int, j: int| 0 <= i < times.len() && 0 <= j < times.len() implies
        #[trigger] times[i] < #[trigger] times[j] + span by {
        assert(all[i] < all[j] + span);
    }
    lemma_quota_is_admitted(times, span, limit);
    assert forall|i: int| 0 <= i < times.len() implies in_window(
        #[trigger] times[i],
        extra,
        span,
    ) by {
        assert(all[times.len() as int] < all[i] + span);
    }
    lemma_over_quota_is_rejected(times, extra, span, limit);
    lemma_aged_out_is_admitted(times, later, span, limit, oldest);
}

/// The records of all clients after a request of `client` at `now`: the
/// record of that client changes, every other record stays.
pub open spec fn served(
    records: spec_fn(Option<ClientAddr>) -> Seq<u128>,
    client: Option<ClientAddr>,
    now: u128,
    span: u128,
    limit: nat,
) -> spec_fn(Option<ClientAddr>) -> Seq<u128> {
    |other: Option<ClientAddr>|
        if other == client {
            after_call(records(client), now, span, limit)
        } else {
            records(other)
        }
}

/// The records of all clients after the requests `calls`, each by a client
/// at a time, in order.
pub open spec fn served_all(
    records: spec_fn(Option<ClientAddr>) -> Seq<u128>,
    calls: Seq<(Option<ClientAddr>, u128)>,
    span: u128,
    limit: nat,
) -> spec_fn(Option<ClientAddr>) -> Seq<u128>
    decreases calls.len(),
{
    if calls.len() == 0 {
        records
    } else {
        served(
            served_all(records, calls.drop_last(), span, limit),
            calls.last().0,
            calls.last().1,
            span,
            limit,
        )
    }
}

/// The times of the requests of one client among `calls`, in order.
pub open spec fn times_of(calls: Seq<(Option<ClientAddr>, u128)>, client: Option<ClientAddr>) -> Seq<
    u128,
> {
    calls.filter(|call: (Option<ClientAddr>, u128)| call.0 == client).map_values(
        |call: (Option<ClientAddr>, u128)| call.1,
    )
}

/// Clients are independent: however the requests of a client are mixed with
/// those of others, its record is what its own requests alone would have
/// left. So no client can use up, or win back, the quota of another.
pub proof fn lemma_clients_are_independent(
    records: spec_fn(Option<ClientAddr>) -> Seq<u128>,
    calls: Seq<(Option<ClientAddr>, u128)>,
    client: Option<ClientAddr>,
    span: u128,
    limit: nat,
)
    ensures
        served_all(records, calls, span, limit)(client) == replay(
            records(client),
            times_of(calls, client),
            span,
            limit,
        ),
    decreases calls.len(),
{
    reveal(Seq::filter);
    if calls.len() > 0 {
        let front = calls.drop_last();
        let last = calls.last();
        lemma_clients_are_independent(records, front, client, span, limit);
        if last.0 == client {
            let times = times_of(front, client);
            assert(times_of(calls, client) =~= times.push(last.1));
            assert(times.push(last.1).drop_last() =~= times);
        }
    } else {
        assert(times_of(calls, client) =~= Seq::<u128>::empty());
    }
}

/// Whether a record is in time order.
pub open spec fn in_time_order(stamps: Seq<u128>) -> bool {
    forall|i: int, j: int| 0 <= i <= j < stamps.len() ==> stamps[i] <= stamps[j]
}

/// In a record in time order, what no longer counts stands at the front:
/// what still counts is the record without its first `k` admissions.
pub proof fn lemma_live_is_a_tail(stamps: Seq<u128>, now: u128, span: u128) -> (k: int)
    requires
        in_time_order(stamps),
    ensures
        0 <= k <= stamps.len(),
        live(stamps, now, span) == stamps.skip(k),
        forall|i: int| 0 <= i < k ==> !in_window(#[trigger] stamps[i], now, span),
        forall|i: int| k <= i < stamps.len() ==> in_window(#[trigger] stamps[i], now, span),
    decreases stamps.len(),
{
    reveal(Seq::filter);
    if stamps.len() == 0 {
        assert(stamps.skip(0) =~= stamps);
        0
    } else {
        let front = stamps.drop_last();
        let last = stamps.last();
        assert forall|i: int, j: int| 0 <= i <= j < front.len() implies front[i] <= front[j] by {
            assert(stamps[i] <= stamps[j]);
        }
        let k = lemma_live_is_a_tail(front, now, span);
        if in_window(last, now, span) {
            assert(front.skip(k).push(last) =~= stamps.skip(k));
            assert forall|i: int| 0 <= i < k implies !in_window(#[trigger] stamps[i], now, span) by {
                assert(stamps[i] == front[i]);
            }
            assert forall|i: int| k <= i < stamps.len() implies in_window(
                #[trigger] stamps[i],
                now,
                span,
            ) by {
                if i < front.len() {
                    assert(stamps[i] == front[i]);
                }
            }
            k
        } else {
            assert forall|i: int| 0 <= i < stamps.len() implies !in_window(
                #[trigger] stamps[i],
                now,
                span,
            ) by {
                assert(stamps[i] <= stamps[stamps.len() - 1]);
            }
            if k < front.len() {
                assert(in_window(front[k], now, span));
                assert(front[k] == stamps[k]);
            }
            assert(front.skip(k) =~= stamps.skip(stamps.len() as int));
            stamps.len() as int
        }
    }
}

/// A record in time order stays in time order through a request that is
/// not earlier than the last admission on record.
pub proof fn lemma_time_order_is_kept(stamps: Seq<u128>, now: u128, span: u128, limit: nat)
    requires
        in_time_order(stamps),
        stamps.len() > 0 ==> stamps.last() <= now,
    ensures
        in_time_order(after_call(stamps, now, span, limit)),
        after_call(stamps, now, span, limit).len() > 0 ==> after_call(
            stamps,
            now,
            span,
            limit,
        ).last() <= now,
{
    let k = lemma_live_is_a_tail(stamps, now, span);
    let kept = live(stamps, now, span);
    assert forall|i: int| 0 <= i < kept.len() implies #[trigger] kept[i] <= now by {
        assert(stamps[k + i] <= stamps[stamps.len() - 1]);
    }
    assert forall|i: int, j: int| 0 <= i <= j < kept.len() implies kept[i] <= kept[j] by {
        assert(stamps[k + i] <= stamps[k + j]);
    }
}

/// `std::time::Instant`: a reading of the monotonic clock.
#[verifier::external_type_specification]
#[verifier::external_body]
pub struct ExInstant(Instant);

/// `Instant::now` of the standard library: the present reading of the
/// clock. Nothing is claimed of it.
pub assume_specification[ Instant::now ]() -> Instant;

/// `Instant::elapsed` of the standard library: the time that has passed
/// since a reading. Nothing is claimed of it.
pub assume_specification[ Instant::elapsed ](since: &Instant) -> Duration;

/// `Duration::as_nanos` of the standard library: a length of time in
/// nanoseconds. Nothing is claimed of the number.
pub assume_specification[ Duration::as_nanos ](length: &Duration) -> u128;

/// The recorded admissions in `stamps` that still count at `now`.
fn prune(stamps: &Vec<u128>, now: u128, span: u128) -> (kept: Vec<u128>)
    ensures
        kept@ == live(stamps@, now, span),
{
    let ghost counts = |stamp: u128| in_window(stamp, now, span);
    let mut kept: Vec<u128> = Vec::new();
    let mut i: usize = 0;
    proof {
        reveal(Seq::filter);
        assert(stamps@.take(0).filter(counts) =~= Seq::<u128>::empty());
    }
    while i < stamps.len()
        invariant
            i <= stamps.len(),
            counts == |stamp: u128| in_window(stamp, now, span),
            kept@ == stamps@.take(i as int).filter(counts),
        decreases stamps.len() - i,
    {
        let stamp = stamps[i];
        assert(stamps@.take(i + 1).filter(counts) == if counts(stamp) {
            kept@.push(stamp)
        } else {
            kept@
        }) by {
            assert(stamps@.take(i + 1).drop_last() =~= stamps@.take(i as int));
            reveal(Seq::filter);
        }
        if stamp >= now || now - stamp <= span {
            kept.push(stamp);
        }
        i += 1;
    }
    assert(stamps@.take(i as int) =~= stamps@);
    kept
}

/// A fixed quota of requests per time span and per client, counted over the
/// span that ends at each request.
///
/// Deciding takes the limiter by exclusive reference, so that the decisions
/// on one client follow one another; a server that serves requests side by
/// side keeps the limiter behind a lock. A client once seen keeps its
/// record for as long as the limiter lives: nothing sweeps the records of
/// clients that have gone quiet.
pub struct RateLimiter {
    v4: HashMap<u32, Vec<u128>>,
    v6: HashMap<u128, Vec<u128>>,
    unknown: Vec<u128>,
    limit: usize,
    window: u128,
    started: Instant,
}

impl RateLimiter {
    /// The number of requests that a client may make within one span.
    pub closed spec fn limit(&self) -> nat {
        self.limit as nat
    }

    /// The length of the span, in nanoseconds.
    pub closed spec fn span(&self) -> u128 {
        self.window
    }

    /// The admissions recorded for a client, in the order in which they
    /// were admitted, as nanoseconds on the clock by which the requests were
    /// decided. A request without an address belongs to the client `None`.
    pub closed spec fn record(&self, client: Option<ClientAddr>) -> Seq<u128> {
        match client {
            None => self.unknown@,
            Some(ClientAddr::V4(bits)) => if self.v4@.contains_key(bits) {
                self.v4@[bits]@
            } else {
                Seq::empty()
            },
            Some(ClientAddr::V6(bits)) => if self.v6@.contains_key(bits) {
                self.v6@[bits]@
            } else {
                Seq::empty()
            },
        }
    }

    /// The admissions recorded for every client.
    pub open spec fn records(&self) -> spec_fn(Option<ClientAddr>) -> Seq<u128> {
        |client: Option<ClientAddr>| self.record(client)
    }

    /// A limiter that admits `limit` requests per client within any
    /// `seconds` seconds, with nothing recorded.
    pub fn new(limit: usize, seconds: u64) -> (r: RateLimiter)
        ensures
            r.limit() == limit,
            r.span() == seconds * NANOS_PER_SEC,
            forall|client: Option<ClientAddr>| #[trigger] r.record(client) == Seq::<u128>::empty(),
    {
        RateLimiter {
            v4: HashMap::new(),
            v6: HashMap::new(),
            unknown: Vec::new(),
            limit,
            window: seconds as u128 * NANOS_PER_SEC,
            started: Instant::now(),
        }
    }

    /// Decides on a request of `client` at `now`, in nanoseconds on a clock
    /// of the caller's choice, and records it if it is admitted. Returns
    /// whether the request is over the quota.
    pub fn is_rate_limited_at(&mut self, client: Option<ClientAddr>, now: u128) -> (limited: bool)
        ensures
            limited == !admits(old(self).record(client), now, old(self).span(), old(self).limit()),
            final(self).record(client) == after_call(
                old(self).record(client),
                now,
                old(self).span(),
                old(self).limit(),
            ),
            forall|other: Option<ClientAddr>|
                other != client ==> #[trigger] final(self).record(other) == old(self).record(other),
            final(self).records() == served(
                old(self).records(),
                client,
                now,
                old(self).span(),
                old(self).limit(),
            ),
            final(self).limit() == old(self).limit(),
            final(self).span() == old(self).span(),
    {
        broadcast use vstd::std_specs::hash::group_hash_axioms;

        let mut kept = match client {
            None => prune(&self.unknown, now, self.window),
            Some(ClientAddr::V4(bits)) => match self.v4.get(&bits) {
                Some(stamps) => prune(stamps, now, self.window),
                None => {
                    proof {
                        reveal(Seq::filter);
                    }
                    Vec::new()
                },
            },
            Some(ClientAddr::V6(bits)) => match self.v6.get(&bits) {
                Some(stamps) => prune(stamps, now, self.window),
                None => {
                    proof {
                        reveal(Seq::filter);
                    }
                    Vec::new()
                },
            },
        };
        assert(kept@ == live(old(self).record(client), now, self.window));
        let limited = kept.len() >= self.limit;
        if !limited {
            kept.push(now);
        }
        match client {
            None => {
                self.unknown = kept;
            },
            Some(ClientAddr::V4(bits)) => {
                self.v4.insert(bits, kept);
            },
            Some(ClientAddr::V6(bits)) => {
                self.v6.insert(bits, kept);
            },
        }
        assert forall|other: Option<ClientAddr>| other != client implies #[trigger] self.record(
            other,
        ) == old(self).record(other) by {}
        assert(self.records() =~= served(
            old(self).records(),
            client,
            now,
            old(self).span(),
            old(self).limit(),
        ));
        limited
    }

    /// The present reading of the limiter's clock: the nanoseconds since
    /// the limiter was made.
    pub fn now(&self) -> u128 {
        self.started.elapsed().as_nanos()
    }

    /// Decides on a request of `client` at the present reading of the
    /// limiter's clock, and records it if it is admitted. Returns whether the
    /// request is over the quota.
    pub fn is_rate_limited(&mut self, client: Option<ClientAddr>) -> (limited: bool)
        ensures
            exists|now: u128|
                {
                    &&& limited == !#[trigger] admits(
                        old(self).record(client),
                        now,
                        old(self).span(),
                        old(self).limit(),
                    )
                    &&& final(self).record(client) == after_call(
                        old(self).record(client),
                        now,
                        old(self).span(),
                        old(self).limit(),
                    )
                },
            forall|other: Option<ClientAddr>|
                other != client ==> #[trigger] final(self).record(other) == old(self).record(other),
            final(self).limit() == old(self).limit(),
            final(self).span() == old(self).span(),
    {
        let now = self.now();
        self.is_rate_limited_at(client, now)
    }

    /// The name of the stage and its phases.

    pub fn info(&self) -> (r: Info)
        ensures
            r.name@ == "Rate Limiter"@,
            r.kind == (Kind { request: true, response: false }),
    {
        Info { name: "Rate Limiter", kind: Kind::request() }
    }

    /// The request phase at `now`: too many requests where the client of
    /// the request is over the quota.
    pub fn on_request_at(&mut self, request: &Request, now: u128) -> (r: Result<(), Status>)
        ensures
            r is Ok <==> admits(
                old(self).record(request.client_ip),
                now,
                old(self).span(),
                old(self).limit(),
            ),
            r matches Err(status) ==> status.code == 429,
            final(self).record(request.client_ip) == after_call(
                old(self).record(request.client_ip),
                now,
                old(self).span(),
                old(self).limit(),
            ),
            forall|other: Option<ClientAddr>|
                other != request.client_ip ==> #[trigger] final(self).record(other) == old(
                    self,
                ).record(other),
            final(self).limit() == old(self).limit(),
            final(self).span() == old(self).span(),
    {
        if self.is_rate_limited_at(request.client_ip, now) {
            Err(Status::too_many_requests())
        } else {
            Ok(())
        }
    }

    /// The request phase at the present reading of the limiter's clock.
    pub fn on_request(&mut self, request: &Request) -> (r: Result<(), Status>)
        ensures
            exists|now: u128|
                {
                    &&& r is Ok <==> #[trigger] admits(
                        old(self).record(request.client_ip),
                        now,
                        old(self).span(),
                        old(self).limit(),
                    )
                    &&& final(self).record(request.client_ip) == after_call(
                        old(self).record(request.client_ip),
                        now,
                        old(self).span(),
                        old(self).limit(),
                    )
                },
            r matches Err(status) ==> status.code == 429,
            forall|other: Option<ClientAddr>|
                other != request.client_ip ==> #[trigger] final(self).record(other) == old(
                    self,
                ).record(other),
            final(self).limit() == old(self).limit(),
            final(self).span() == old(self).span(),
    {
        let now = self.now();
        self.on_request_at(request, now)
    }
}

/// The quota of a limiter: a number of requests and the span, in seconds,
/// within which a client may make them.
#[derive(Clone, Copy, Debug, PartialEq, Eq, Structural)]
pub struct Quota {
    pub max_requests: u32,
    pub window_secs: u64,
}

impl Quota {
    /// Whether both parts are positive.
    pub open spec fn wf(self) -> bool {
        self.max_requests > 0 && self.window_secs > 0
    }

    /// The quota of `max_requests` requests within `window_secs` seconds,
    /// unless one of the two is zero.
    pub fn new(max_requests: u32, window_secs: u64) -> (r: Option<Quota>)
        ensures
            r == if max_requests > 0 && window_secs > 0 {
                Some(Quota { max_requests, window_secs })
            } else {
                None
            },
    {
        if max_requests > 0 && window_secs > 0 {
            Some(Quota { max_requests, window_secs })
        } else {
            None
        }
    }

    /// The quota of `max_requests` requests within one second.
    pub fn per_second(max_requests: u32) -> (r: Quota)
        requires
            max_requests > 0,
        ensures
            r == (Quota { max_requests, window_secs: 1 }),
            r.wf(),
    {
        Quota { max_requests, window_secs: 1 }
    }
}

impl RateLimiter {
    /// A limiter for the given quota, with nothing recorded.
    pub fn with_quota(quota: Quota) -> (r: RateLimiter)
        ensures
            r.limit() == quota.max_requests,
            r.span() == quota.window_secs * NANOS_PER_SEC,
            forall|client: Option<ClientAddr>| #[trigger] r.record(client) == Seq::<u128>::empty(),
    {
        RateLimiter::new(quota.max_requests as usize, quota.window_secs)
    }
}

/// The quota that guards single routes: one request per second, whatever
/// the method and the route.
pub struct RateLimitGuard;

impl RateLimitGuard {
    /// A count of at least one: zero becomes one.
    pub fn nonzero(n: u32) -> (r: u32)
        ensures
            r == if n == 0 { 1u32 } else { n },
    {
        if n == 0 { 1 } else { n }
    }

    /// The quota of a route.
    pub fn quota(method: Method, route_name: &str) -> (r: Quota)
        ensures
            r == (Quota { max_requests: 1, window_secs: 1 }),
    {
        Quota::per_second(RateLimitGuard::nonzero(1))
    }
}

} // verus!
