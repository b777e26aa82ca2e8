use house_finder::limiter::{BetweenCalls, CallsPerMinute, Limiter, Limiters, Provider, MINUTE_MS};

#[test]
fn spacing_first_call_does_not_wait() {
    let mut b = BetweenCalls::new(1000);
    assert_eq!(b.limit(5), 0);
    assert_eq!(b.last_call_time, Some(5));
}

#[test]
fn spacing_waits_for_the_remaining_delta() {
    let mut b = BetweenCalls::new(1000);
    assert_eq!(b.limit(0), 0);
    assert_eq!(b.limit(200), 800);
    assert_eq!(b.last_call_time, Some(1000));
    assert_eq!(b.limit(2500), 0);
    assert_eq!(b.last_call_time, Some(2500));
}

#[test]
fn spacing_sequential_calls_are_at_least_the_duration_apart() {
    let mut b = BetweenCalls::new(5000);
    let mut now: u64 = 0;
    let mut last_grant: Option<u64> = None;
    for step in [0u64, 1, 10, 4999, 5000, 7000] {
        now += step;
        let grant = now + b.limit(now);
        if let Some(previous) = last_grant {
            assert!(grant >= previous + 5000);
        }
        last_grant = Some(grant);
        now = grant;
    }
}

#[test]
fn window_grants_up_to_the_ceiling_then_waits_for_the_window() {
    let mut w = CallsPerMinute::new(2);
    assert_eq!(w.limit(0), 0);
    assert_eq!(w.limit(10), 0);
    assert_eq!(w.limit(20), MINUTE_MS - 20);
    assert_eq!(w.recent, vec![10, MINUTE_MS]);
}

#[test]
fn window_slides_with_the_oldest_grant() {
    let mut w = CallsPerMinute::new(2);
    assert_eq!(w.limit(0), 0);
    assert_eq!(w.limit(10), 0);
    assert_eq!(w.limit(MINUTE_MS), 0);
    assert_eq!(w.recent, vec![10, MINUTE_MS]);
    assert_eq!(w.limit(MINUTE_MS), 10);
}

#[test]
fn window_grants_no_burst_across_a_boundary() {
    let mut w = CallsPerMinute::new(2);
    let mut grants = Vec::new();
    for now in [0u64, 59_999, 60_000, 60_000] {
        let start = grants.last().copied().unwrap_or(0).max(now);
        grants.push(start + w.limit(start));
    }
    assert_eq!(grants, vec![0, 59_999, 60_000, 119_999]);
}

#[test]
fn window_ceiling_of_zero_counts_as_one() {
    let mut w = CallsPerMinute::new(0);
    assert_eq!(w.limit(0), 0);
    assert_eq!(w.limit(5), MINUTE_MS - 5);
}

#[test]
fn window_never_grants_more_than_the_ceiling_in_a_window() {
    let max: u8 = 3;
    let mut w = CallsPerMinute::new(max);
    let mut grants: Vec<u64> = Vec::new();
    let mut now: u64 = 0;
    for _ in 0..20 {
        let grant = now + w.limit(now);
        grants.push(grant);
        now = grant + 7;
    }
    for start in 0..(grants.last().copied().unwrap_or(0) + 1) {
        let inside = grants.iter().filter(|t| **t >= start && **t < start + MINUTE_MS).count();
        assert!(inside <= max as usize);
    }
}

#[test]
fn limiter_applies_spacing_then_window() {
    let mut l = Limiter {
        spacing: Some(BetweenCalls::new(1000)),
        window: Some(CallsPerMinute::new(1)),
    };
    assert_eq!(l.acquire(0), 0);
    // spacing lets it through at 1000, the full window holds it until 60000
    assert_eq!(l.acquire(100), MINUTE_MS - 100);
    assert_eq!(l.spacing.unwrap().last_call_time, Some(MINUTE_MS));
}

#[test]
fn registry_creates_limiters_lazily_per_provider() {
    let mut r = Limiters::new();
    assert!(r.elisa.is_none());
    assert_eq!(r.acquire(Provider::Elisa, 0), 0);
    assert_eq!(r.acquire(Provider::Elisa, 1000), 4000);
    assert!(r.etuovi_listing.is_none());
    assert_eq!(r.acquire(Provider::EtuoviListing, 1000), 0);
    assert_eq!(r.acquire(Provider::EtuoviSearch, 0), 0);
    assert_eq!(r.acquire(Provider::EtuoviSearch, 10), 990);
}

#[test]
fn registry_routing_provider_allows_forty_a_minute() {
    let mut r = Limiters::new();
    for i in 0..40u64 {
        assert_eq!(r.acquire(Provider::OpenRouteService, i), 0);
    }
    assert_eq!(r.acquire(Provider::OpenRouteService, 40), MINUTE_MS - 40);
}

#[test]
fn limiter_for_provider_policies() {
    let l = Limiter::for_provider(Provider::OpenRouteService);
    assert!(l.spacing.is_none());
    assert_eq!(l.window.unwrap().max, 40);
    let e = Limiter::for_provider(Provider::Elisa);
    assert_eq!(e.spacing.unwrap().duration_ms, 5000);
    assert!(e.window.is_none());
}
