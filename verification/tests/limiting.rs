use xbim::http::{ClientAddr, Method, Request, Status};
use xbim::limiting::{Quota, RateLimitGuard, RateLimiter, NANOS_PER_SEC};

const SECOND: u128 = NANOS_PER_SEC;

#[test]
fn test_rate_limit_quota_get() {
    let quota = RateLimitGuard::quota(Method::Get, "test_route");
    let expected = Quota::per_second(std::num::NonZeroU32::new(1).unwrap().get());

    assert_eq!(quota, expected);
}

#[test]
fn test_rate_limit_quota_different_methods() {
    let get_quota = RateLimitGuard::quota(Method::Get, "test_route");
    let post_quota = RateLimitGuard::quota(Method::Post, "test_route");
    let put_quota = RateLimitGuard::quota(Method::Put, "test_route");

    assert_eq!(get_quota, post_quota);
    assert_eq!(post_quota, put_quota);
}

#[test]
fn test_rate_limit_quota_different_routes() {
    let route1_quota = RateLimitGuard::quota(Method::Get, "route1");
    let route2_quota = RateLimitGuard::quota(Method::Get, "route2");

    assert_eq!(route1_quota, route2_quota);
}

#[test]
fn test_nonzero_conversion() {
    assert_eq!(RateLimitGuard::nonzero(5u32), std::num::NonZeroU32::new(5).unwrap().get());
    assert_eq!(RateLimitGuard::nonzero(1u32), std::num::NonZeroU32::new(1).unwrap().get());
}

#[test]
fn nonzero_turns_zero_into_one() {
    assert_eq!(RateLimitGuard::nonzero(0), 1);
    assert_eq!(RateLimitGuard::nonzero(u32::MAX), u32::MAX);
}

#[test]
fn quota_needs_both_parts_positive() {
    assert_eq!(Quota::new(0, 1), None);
    assert_eq!(Quota::new(1, 0), None);
    assert_eq!(Quota::new(3, 7), Some(Quota { max_requests: 3, window_secs: 7 }));
    assert_eq!(Quota::per_second(4), Quota { max_requests: 4, window_secs: 1 });
}

#[test]
fn quota_is_admitted_then_the_next_is_rejected() {
    let client = Some(ClientAddr::v4(10, 0, 0, 1));
    let mut limiter = RateLimiter::new(3, 10);
    assert!(!limiter.is_rate_limited_at(client, 5 * SECOND));
    assert!(!limiter.is_rate_limited_at(client, 6 * SECOND));
    assert!(!limiter.is_rate_limited_at(client, 14 * SECOND));
    assert!(limiter.is_rate_limited_at(client, 14 * SECOND + 999_999_999));
}

#[test]
fn oldest_admission_ages_out() {
    let client = Some(ClientAddr::v4(10, 0, 0, 1));
    let mut limiter = RateLimiter::new(2, 10);
    assert!(!limiter.is_rate_limited_at(client, 1 * SECOND));
    assert!(!limiter.is_rate_limited_at(client, 5 * SECOND));
    // Exactly one span after the oldest admission it still counts.
    assert!(limiter.is_rate_limited_at(client, 11 * SECOND));
    // One nanosecond later it does not.
    assert!(!limiter.is_rate_limited_at(client, 11 * SECOND + 1));
    // Now the admissions at 5 s and at 11 s + 1 ns count.
    assert!(limiter.is_rate_limited_at(client, 15 * SECOND));
    assert!(!limiter.is_rate_limited_at(client, 15 * SECOND + 1));
}

#[test]
fn rejected_requests_do_not_count() {
    let mut limiter = RateLimiter::new(1, 1);
    assert!(!limiter.is_rate_limited_at(None, 0));
    assert!(limiter.is_rate_limited_at(None, SECOND / 2));
    assert!(limiter.is_rate_limited_at(None, SECOND));
    // Only the admission at 0 is on record: it is gone just after one second.
    assert!(!limiter.is_rate_limited_at(None, SECOND + 1));
}

#[test]
fn clients_do_not_share_a_quota() {
    let a = Some(ClientAddr::v4(192, 168, 1, 1));
    let b = Some(ClientAddr::v4(192, 168, 1, 2));
    let c = Some(ClientAddr::v6(0, 0, 0, 0, 0, 0xffff, 0xc0a8, 0x0101));
    let mut limiter = RateLimiter::new(2, 60);
    assert!(!limiter.is_rate_limited_at(a, 0));
    assert!(!limiter.is_rate_limited_at(a, 1));
    assert!(limiter.is_rate_limited_at(a, 2));
    assert!(limiter.is_rate_limited_at(a, 3));
    assert!(!limiter.is_rate_limited_at(b, 4));
    assert!(!limiter.is_rate_limited_at(c, 4));
    assert!(!limiter.is_rate_limited_at(None, 4));
    assert!(!limiter.is_rate_limited_at(b, 5));
    assert!(limiter.is_rate_limited_at(b, 6));
    assert!(!limiter.is_rate_limited_at(c, 6));
    assert!(limiter.is_rate_limited_at(c, 6));
}

#[test]
fn a_quota_of_zero_admits_nothing() {
    let mut limiter = RateLimiter::new(0, 1);
    assert!(limiter.is_rate_limited_at(None, 0));
    assert!(limiter.is_rate_limited_at(None, 10 * SECOND));
}

#[test]
fn a_span_of_zero_counts_only_the_same_instant() {
    let mut limiter = RateLimiter::new(1, 0);
    assert!(!limiter.is_rate_limited_at(None, 7));
    assert!(limiter.is_rate_limited_at(None, 7));
    assert!(!limiter.is_rate_limited_at(None, 8));
}

#[test]
fn times_near_the_end_of_the_range_do_not_overflow() {
    let mut limiter = RateLimiter::new(1, u64::MAX);
    assert!(!limiter.is_rate_limited_at(None, u128::MAX - 1));
    assert!(limiter.is_rate_limited_at(None, u128::MAX));
    assert!(limiter.is_rate_limited_at(None, 0));
}

#[test]
fn limiter_for_a_quota() {
    let mut limiter = RateLimiter::with_quota(Quota::per_second(2));
    assert!(!limiter.is_rate_limited_at(None, 0));
    assert!(!limiter.is_rate_limited_at(None, 0));
    assert!(limiter.is_rate_limited_at(None, SECOND));
    assert!(!limiter.is_rate_limited_at(None, SECOND + 1));
}

#[test]
fn request_phase_answers_too_many_requests() {
    let request = Request::get("/").remote(ClientAddr::v4(127, 0, 0, 1));
    let mut limiter = RateLimiter::new(1, 1);
    assert_eq!(limiter.on_request_at(&request, 0), Ok(()));
    assert_eq!(limiter.on_request_at(&request, 1), Err(Status::too_many_requests()));
    assert_eq!(Status::too_many_requests().code, 429);
    let info = limiter.info();
    assert_eq!(info.name, "Rate Limiter");
    assert!(info.kind.request && !info.kind.response);
}

#[test]
fn the_clock_of_the_limiter_runs() {
    let mut limiter = RateLimiter::new(2, 1);
    let request = Request::get("/");
    assert!(!limiter.is_rate_limited(None));
    assert_eq!(limiter.on_request(&request), Ok(()));
    assert!(limiter.is_rate_limited(None));
    let start = limiter.now();
    while limiter.now() < start + SECOND + SECOND / 10 {
        std::hint::spin_loop();
    }
    assert!(!limiter.is_rate_limited(None));
}
