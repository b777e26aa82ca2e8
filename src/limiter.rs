//! Per-provider rate limiting over a monotonic clock counted in milliseconds.
//!
//! Each decision takes the current instant and answers how long the caller
//! must sleep before its request may start; the state records the instant
//! at which the call was granted.
//!
//! Boundaries: a spacing of `d` lets the next call start at the last grant
//! plus `d`, inclusive. The window ceiling is a sliding window: the limiter
//! keeps the instants of the last `max` grants, and a call starts no earlier
//! than the oldest of them plus the window length, inclusive. So no
//! half-open interval one window long holds more than `max` grants (a
//! ceiling of zero counts as one).
use vstd::prelude::*;

verus! {

/// Length of the calls-per-window policy's window, in milliseconds.
pub const MINUTE_MS: u64 = 60000;

/// Abstract state of the fixed-spacing policy.
pub struct SpacingModel {
    pub duration: int,
    pub last: Option<int>,
}

/// Abstract state of the windowed-ceiling policy: the ceiling, the window
/// length and the instants of the most recent grants, oldest first.
pub struct WindowModel {
    pub max: int,
    pub length: int,
    pub recent: Seq<int>,
}

/// Abstract state of a provider's limiter.
pub struct LimiterModel {
    pub spacing: Option<SpacingModel>,
    pub window: Option<WindowModel>,
}

/// Instant at which the spacing policy lets a call that arrives at `now` start.
pub open spec fn spacing_grant(s: SpacingModel, now: int) -> int {
    match s.last {
        Some(last) => if now < last + s.duration { last + s.duration } else { now },
        None => now,
    }
}

/// The number of grants a window may hold: the ceiling, and at least one.
pub open spec fn window_cap(w: WindowModel) -> int {
    if w.max < 1 {
        1
    } else {
        w.max
    }
}

/// Instant at which the window policy lets a call that arrives at `now`
/// start: once the window holds its ceiling of grants, no earlier than the
/// oldest of them plus the window length.
pub open spec fn window_grant(w: WindowModel, now: int) -> int {
    if w.recent.len() >= window_cap(w) && now < w.recent[0] + w.length {
        w.recent[0] + w.length
    } else {
        now
    }
}

/// Window state after granting a call that arrives at `now`: the oldest
/// instant leaves once the ceiling is held, and the new grant is kept.
pub open spec fn window_next(w: WindowModel, now: int) -> WindowModel {
    let kept = if w.recent.len() >= window_cap(w) {
        w.recent.drop_first()
    } else {
        w.recent
    };
    WindowModel { recent: kept.push(window_grant(w, now)), ..w }
}

/// Instant after the spacing policy (applied first) has let the call through.
pub open spec fn limiter_spaced(l: LimiterModel, now: int) -> int {
    match l.spacing {
        Some(s) => spacing_grant(s, now),
        None => now,
    }
}

/// Instant at which a limiter lets a call that arrives at `now` start:
/// spacing first, then the window ceiling.
pub open spec fn limiter_grant(l: LimiterModel, now: int) -> int {
    match l.window {
        Some(w) => window_grant(w, limiter_spaced(l, now)),
        None => limiter_spaced(l, now),
    }
}

/// Limiter state after granting a call that arrives at `now`.
pub open spec fn limiter_next(l: LimiterModel, now: int) -> LimiterModel {
    LimiterModel {
        spacing: match l.spacing {
            Some(s) => Some(SpacingModel { last: Some(limiter_grant(l, now)), ..s }),
            None => None,
        },
        window: match l.window {
            Some(w) => Some(window_next(w, limiter_spaced(l, now))),
            None => None,
        },
    }
}

/// Limiter state after the first `k` calls of a run whose calls arrive at `nows`.
pub open spec fn limiter_after(l: LimiterModel, nows: Seq<int>, k: nat) -> LimiterModel
    decreases k,
{
    if k == 0 {
        l
    } else {
        limiter_next(limiter_after(l, nows, (k - 1) as nat), nows[k - 1])
    }
}

/// Instant at which call `k` of a run is granted.
pub open spec fn run_grant(l: LimiterModel, nows: Seq<int>, k: nat) -> int {
    limiter_grant(limiter_after(l, nows, k), nows[k as int])
}

/// The calls of a run are made one after another: each arrives no earlier
/// than the previous one was granted.
pub open spec fn sequential(l: LimiterModel, nows: Seq<int>) -> bool {
    forall|k: nat| k + 1 < nows.len() ==> nows[k + 1 as int] >= #[trigger] run_grant(l, nows, k)
}

/// Window state of the limiter after the first `k` calls of a run.
pub open spec fn run_window(l: LimiterModel, nows: Seq<int>, k: nat) -> WindowModel {
    limiter_after(l, nows, k).window.unwrap()
}

/// A spacing policy that keeps at least `duration_ms` between granted calls.
#[derive(Clone, Copy, Debug)]
pub struct BetweenCalls {
    pub duration_ms: u64,
    pub last_call_time: Option<u64>,
}

impl View for BetweenCalls {
    type V = SpacingModel;

    open spec fn view(&self) -> SpacingModel {
        SpacingModel {
            duration: self.duration_ms as int,
            last: match self.last_call_time {
                Some(t) => Some(t as int),
                None => None,
            },
        }
    }
}

impl BetweenCalls {
    /// A spacing policy of `ms` milliseconds that has granted no call yet.
    pub fn new(ms: u16) -> (r: Self)
        ensures
            r@ == (SpacingModel { duration: ms as int, last: None }),
    {
        BetweenCalls { duration_ms: ms as u64, last_call_time: None }
    }

    /// Grants a call that arrives at `now`, and returns how long the caller
    /// sleeps before it starts.
    pub fn limit(&mut self, now: u64) -> (wait: u64)
        requires
            now + old(self).duration_ms <= u64::MAX,
            old(self).last_call_time matches Some(last) ==> last <= now,
        ensures
            wait == spacing_grant(old(self)@, now as int) - now,
            final(self)@ == (SpacingModel { last: Some(now + wait), ..old(self)@ }),
    {
        let wait: u64 = match self.last_call_time {
            Some(last) => if now - last < self.duration_ms {
                self.duration_ms - (now - last)
            } else {
                0
            },
            None => 0,
        };
        self.last_call_time = Some(now + wait);
        wait
    }

    /// Records `at` as the instant of the last granted call.
    pub fn record(&mut self, at: u64)
        ensures
            final(self)@ == (SpacingModel { last: Some(at as int), ..old(self)@ }),
    {
        self.last_call_time = Some(at);
    }
}

/// A ceiling of `max` calls in any `window_ms` milliseconds, kept by the
/// instants of the most recent grants.
#[derive(Debug)]
pub struct CallsPerMinute {
    pub max: u8,
    pub window_ms: u64,
    pub recent: Vec<u64>,
}

impl View for CallsPerMinute {
    type V = WindowModel;

    open spec fn view(&self) -> WindowModel {
        WindowModel {
            max: self.max as int,
            length: self.window_ms as int,
            recent: self.recent@.map_values(|t: u64| t as int),
        }
    }
}

impl CallsPerMinute {
    /// A ceiling of `max` calls a minute that has granted no call yet.
    pub fn new(max: u8) -> (r: Self)
        ensures
            r@ == (WindowModel { max: max as int, length: MINUTE_MS as int, recent: Seq::empty() }),
            r.recent@.len() == 0,
    {
        let r = CallsPerMinute { max, window_ms: MINUTE_MS, recent: Vec::new() };
        assert(r@.recent =~= Seq::<int>::empty());
        r
    }

    /// Grants a call that arrives at `now`, and returns how long the caller
    /// sleeps before it starts: once the last `max` grants are kept, until
    /// the oldest of them is a window length old.
    pub fn limit(&mut self, now: u64) -> (wait: u64)
        requires
            now + old(self).window_ms <= u64::MAX,
            forall|i: int| 0 <= i < old(self).recent@.len() ==> old(self).recent@[i] <= now,
        ensures
            wait == window_grant(old(self)@, now as int) - now,
            final(self)@ == window_next(old(self)@, now as int),
            forall|i: int| 0 <= i < final(self).recent@.len() ==> final(self).recent@[i] <= now + wait,
    {
        let ghost before = self@;
        let cap: usize = if self.max == 0 {
            1
        } else {
            self.max as usize
        };
        let full: bool = self.recent.len() >= cap;
        let granted: u64 = if full && now < self.recent[0] + self.window_ms {
            self.recent[0] + self.window_ms
        } else {
            now
        };
        assert(granted == window_grant(before, now as int));
        let ghost old_recent = self.recent@;
        if full {
            self.recent.remove(0);
            assert(self.recent@.map_values(|t: u64| t as int) =~= before.recent.drop_first());
        }
        self.recent.push(granted);
        assert(self@.recent =~= window_next(before, now as int).recent);
        assert forall|i: int| 0 <= i < self.recent@.len() implies self.recent@[i] <= granted by {
            if i < self.recent@.len() - 1 {
                if full {
                    assert(self.recent@[i] == old_recent[i + 1]);
                } else {
                    assert(self.recent@[i] == old_recent[i]);
                }
            }
        }
        granted - now
    }
}

/// The limiter of one provider: an optional spacing policy, applied first,
/// and an optional window ceiling.
#[derive(Debug)]
pub struct Limiter {
    pub spacing: Option<BetweenCalls>,
    pub window: Option<CallsPerMinute>,
}

impl View for Limiter {
    type V = LimiterModel;

    open spec fn view(&self) -> LimiterModel {
        LimiterModel {
            spacing: match self.spacing {
                Some(s) => Some(s@),
                None => None,
            },
            window: match self.window {
                Some(w) => Some(w@),
                None => None,
            },
        }
    }
}

impl Limiter {
    /// The spacing and the window length are at most a minute, as in every
    /// provider's policy.
    pub open spec fn bounded(self) -> bool {
        &&& self.spacing matches Some(s) ==> s.duration_ms <= MINUTE_MS
        &&& self.window matches Some(w) ==> w.window_ms <= MINUTE_MS
    }

    /// Every instant the limiter has recorded is at or before `now`.
    pub open spec fn recorded_by(self, now: u64) -> bool {
        &&& self.spacing matches Some(s) ==> (s.last_call_time matches Some(t) ==> t <= now)
        &&& self.window matches Some(w) ==> forall|i: int| 0 <= i < w.recent@.len() ==> w.recent@[i] <= now
    }

    /// `now` plus the spacing and the window length fits in a `u64`.
    pub open spec fn fits(self, now: u64) -> bool {
        now as int + match self.spacing {
            Some(s) => s.duration_ms as int,
            None => 0,
        } + match self.window {
            Some(w) => w.window_ms as int,
            None => 0,
        } <= u64::MAX
    }

    /// Waits for a call that arrives at `now`: the spacing policy first, then
    /// the window ceiling. Returns how long the caller sleeps before its
    /// request starts.
    pub fn acquire(&mut self, now: u64) -> (wait: u64)
        requires
            old(self).recorded_by(now),
            old(self).fits(now),
        ensures
            wait == limiter_grant(old(self)@, now as int) - now,
            final(self)@ == limiter_next(old(self)@, now as int),
            old(self).bounded() ==> final(self).bounded(),
            final(self).recorded_by((now + wait) as u64),
    {
        let spaced: u64 = match &mut self.spacing {
            Some(s) => now + s.limit(now),
            None => now,
        };
        let granted: u64 = match &mut self.window {
            Some(w) => spaced + w.limit(spaced),
            None => spaced,
        };
        match &mut self.spacing {
            Some(s) => s.record(granted),
            None => {},
        }
        granted - now
    }
}

/// A provider whose calls share one limiter.
#[derive(Clone, Copy, PartialEq, Eq, Structural, Debug)]
pub enum Provider {
    EtuoviSearch,
    EtuoviListing,
    Elisa,
    OpenRouteService,
}

/// The policy a provider's limiter starts with.
pub open spec fn policy_of(p: Provider) -> LimiterModel {
    match p {
        Provider::EtuoviSearch => LimiterModel {
            spacing: Some(SpacingModel { duration: 1000, last: None }),
            window: None,
        },
        Provider::EtuoviListing | Provider::Elisa => LimiterModel {
            spacing: Some(SpacingModel { duration: 5000, last: None }),
            window: None,
        },
        Provider::OpenRouteService => LimiterModel {
            spacing: None,
            window: Some(WindowModel { max: 40, length: MINUTE_MS as int, recent: Seq::empty() }),
        },
    }
}

impl Limiter {
    /// A fresh limiter with the policy of `provider`.
    pub fn for_provider(provider: Provider) -> (r: Limiter)
        ensures
            r@ == policy_of(provider),
            r.bounded(),
            forall|now: u64| r.recorded_by(now),
    {
        match provider {
            Provider::EtuoviSearch => Limiter { spacing: Some(BetweenCalls::new(1000)), window: None },
            Provider::EtuoviListing | Provider::Elisa => Limiter {
                spacing: Some(BetweenCalls::new(5000)),
                window: None,
            },
            Provider::OpenRouteService => Limiter {
                spacing: None,
                window: Some(CallsPerMinute::new(40)),
            },
        }
    }
}

/// The limiters of all providers, each created on its provider's first call
/// and shared by every later caller of that provider.
pub struct Limiters {
    pub etuovi_search: Option<Limiter>,
    pub etuovi_listing: Option<Limiter>,
    pub elisa: Option<Limiter>,
    pub open_route_service: Option<Limiter>,
}

impl Limiters {
    /// The limiter slot of `p`.
    pub open spec fn slot(self, p: Provider) -> Option<Limiter> {
        match p {
            Provider::EtuoviSearch => self.etuovi_search,
            Provider::EtuoviListing => self.etuovi_listing,
            Provider::Elisa => self.elisa,
            Provider::OpenRouteService => self.open_route_service,
        }
    }

    /// The state of `p`'s limiter; a provider not called yet has its policy's
    /// initial state.
    pub open spec fn state(self, p: Provider) -> LimiterModel {
        match self.slot(p) {
            Some(l) => l@,
            None => policy_of(p),
        }
    }

    /// Every created limiter keeps to the configured bounds.
    pub open spec fn wf(self) -> bool {
        forall|p: Provider| (#[trigger] self.slot(p)) matches Some(l) ==> l.bounded()
    }

    /// Every instant that `p`'s limiter has recorded is at or before `now`.
    pub open spec fn recorded_for(self, p: Provider, now: u64) -> bool {
        self.slot(p) matches Some(l) ==> l.recorded_by(now)
    }

    /// Whether every instant that `p`'s limiter has recorded is at or before
    /// `now`.
    pub fn is_recorded_for(&self, p: Provider, now: u64) -> (r: bool)
        ensures
            r == self.recorded_for(p, now),
    {
        let slot: &Option<Limiter> = match p {
            Provider::EtuoviSearch => &self.etuovi_search,
            Provider::EtuoviListing => &self.etuovi_listing,
            Provider::Elisa => &self.elisa,
            Provider::OpenRouteService => &self.open_route_service,
        };
        match slot {
            Some(l) => {
                let spaced: bool = match &l.spacing {
                    Some(s) => match s.last_call_time {
                        Some(t) => t <= now,
                        None => true,
                    },
                    None => true,
                };
                let windowed: bool = match &l.window {
                    Some(w) => {
                        let mut ok: bool = true;
                        let mut i: usize = 0;
                        while i < w.recent.len()
                            invariant
                                i <= w.recent@.len(),
                                ok == forall|k: int| 0 <= k < i ==> w.recent@[k] <= now,
                            decreases w.recent@.len() - i,
                        {
                            if w.recent[i] > now {
                                ok = false;
                            }
                            i = i + 1;
                        }
                        ok
                    },
                    None => true,
                };
                spaced && windowed
            },
            None => true,
        }
    }

    /// A registry in which no provider has been called.
    pub fn new() -> (r: Limiters)
        ensures
            r.wf(),
            forall|p: Provider| (#[trigger] r.slot(p)) is None,
    {
        Limiters { etuovi_search: None, etuovi_listing: None, elisa: None, open_route_service: None }
    }

    /// Waits for a call to `provider` that arrives at `now`. Returns how long
    /// the caller sleeps before its request starts; other providers' limiters
    /// are untouched.
    pub fn acquire(&mut self, provider: Provider, now: u64) -> (wait: u64)
        requires
            old(self).wf(),
            old(self).recorded_for(provider, now),
            now <= u64::MAX - 2 * MINUTE_MS,
        ensures
            wait == limiter_grant(old(self).state(provider), now as int) - now,
            final(self).wf(),
            final(self).state(provider) == limiter_next(old(self).state(provider), now as int),
            final(self).slot(provider) is Some,
            final(self).recorded_for(provider, (now + wait) as u64),
            forall|q: Provider| q != provider ==> #[trigger] final(self).slot(q) == old(self).slot(q),
    {
        let slot: &mut Option<Limiter> = match provider {
            Provider::EtuoviSearch => &mut self.etuovi_search,
            Provider::EtuoviListing => &mut self.etuovi_listing,
            Provider::Elisa => &mut self.elisa,
            Provider::OpenRouteService => &mut self.open_route_service,
        };
        let mut limiter: Limiter = match slot.take() {
            Some(l) => l,
            None => Limiter::for_provider(provider),
        };
        let wait: u64 = limiter.acquire(now);
        *slot = Some(limiter);
        assert forall|p: Provider| (#[trigger] self.slot(p)) is Some implies self.slot(p).unwrap().bounded() by {
            if p != provider {
                assert(old(self).slot(p) == self.slot(p));
            }
        }
        wait
    }
}

/// Two calls made one after another under a spacing policy are granted at
/// least its duration apart.
pub proof fn lemma_spacing_policy(s: SpacingModel, first: int, second: int)
    ensures
        spacing_grant(SpacingModel { last: Some(spacing_grant(s, first)), ..s }, second)
            >= spacing_grant(s, first) + s.duration,
{
}

/// Two calls made one after another to a limiter with a spacing policy are
/// granted at least the policy's duration apart.
pub proof fn lemma_spacing_between_calls(l: LimiterModel, first: int, second: int)
    requires
        l.spacing is Some,
    ensures
        limiter_grant(limiter_next(l, first), second) >= limiter_grant(l, first)
            + l.spacing.unwrap().duration,
{
    let g = limiter_grant(l, first);
    let l1 = limiter_next(l, first);
    assert(l1.spacing.unwrap().last == Some(g));
    assert(limiter_spaced(l1, second) >= g + l.spacing.unwrap().duration);
    match l1.window {
        Some(w) => {},
        None => {},
    }
}


/// The instants the window policy has seen by call `k` of a run: those it
/// held at the start, then each grant of the run.
pub open spec fn window_history(l: LimiterModel, nows: Seq<int>, k: nat) -> Seq<int>
    decreases k,
{
    if k == 0 {
        l.window.unwrap().recent
    } else {
        window_history(l, nows, (k - 1) as nat).push(run_grant(l, nows, (k - 1) as nat))
    }
}

/// The last `n` elements of `s`.
pub open spec fn last_n(s: Seq<int>, n: int) -> Seq<int> {
    s.subrange(s.len() - n, s.len() as int)
}

/// A window policy that holds no more grants than its ceiling.
pub open spec fn window_ready(w: WindowModel) -> bool {
    w.recent.len() <= window_cap(w)
}

proof fn lemma_history(l: LimiterModel, nows: Seq<int>, k: nat)
    requires
        l.window is Some,
        k <= nows.len(),
    ensures
        window_history(l, nows, k).len() == l.window.unwrap().recent.len() + k,
        forall|m: nat| m < k ==> #[trigger] window_history(l, nows, k)[l.window.unwrap().recent.len() + m as int]
            == run_grant(l, nows, m),
    decreases k,
{
    if k > 0 {
        lemma_history(l, nows, (k - 1) as nat);
    }
}

proof fn lemma_run_window(l: LimiterModel, nows: Seq<int>, k: nat)
    requires
        l.window matches Some(w) && window_ready(w),
        k <= nows.len(),
    ensures
        ({
            let w0 = l.window.unwrap();
            let wk = run_window(l, nows, k);
            let h = window_history(l, nows, k);
            &&& limiter_after(l, nows, k).window is Some
            &&& wk.max == w0.max && wk.length == w0.length
            &&& wk.recent == last_n(h, if h.len() < window_cap(w0) { h.len() as int } else { window_cap(w0) })
        }),
    decreases k,
{
    lemma_history(l, nows, k);
    if k > 0 {
        let j = (k - 1) as nat;
        lemma_run_window(l, nows, j);
        lemma_history(l, nows, j);
        let lj = limiter_after(l, nows, j);
        let wj = lj.window.unwrap();
        let t = limiter_spaced(lj, nows[j as int]);
        let g = run_grant(l, nows, j);
        assert(g == window_grant(wj, t));
        assert(limiter_after(l, nows, k) == limiter_next(lj, nows[j as int]));
        let hj = window_history(l, nows, j);
        let hk = window_history(l, nows, k);
        assert(hk == hj.push(g));
        let cap = window_cap(l.window.unwrap());
        if hj.len() >= cap {
            assert(wj.recent.drop_first().push(g) =~= last_n(hk, cap));
        } else {
            assert(wj.recent =~= hj);
            assert(hk =~= last_n(hk, hk.len() as int));
        }
    } else {
        let h = window_history(l, nows, 0);
        assert(h =~= last_n(h, h.len() as int));
    }
}

proof fn lemma_grant_after_arrival(l: LimiterModel, nows: Seq<int>, k: nat)
    requires
        k < nows.len(),
    ensures
        run_grant(l, nows, k) >= nows[k as int],
{
}

proof fn lemma_grants_grow(l: LimiterModel, nows: Seq<int>, i: nat, j: nat)
    requires
        sequential(l, nows),
        i <= j < nows.len(),
    ensures
        run_grant(l, nows, j) >= run_grant(l, nows, i),
    decreases j - i,
{
    if j > i {
        let p = (j - 1) as nat;
        lemma_grants_grow(l, nows, i, p);
        assert(nows[j as int] >= run_grant(l, nows, p));
        lemma_grant_after_arrival(l, nows, j);
    }
}

/// Window ceiling: in a run of calls made one after another, grants never
/// go back in time, and a call at least `max` calls after another (at least
/// one) is granted at least a window length after it.
pub proof fn lemma_window_ceiling(l: LimiterModel, nows: Seq<int>, i: nat, j: nat)
    requires
        l.window matches Some(w) && window_ready(w),
        sequential(l, nows),
        i <= j < nows.len(),
    ensures
        run_grant(l, nows, j) >= run_grant(l, nows, i),
        j >= i + window_cap(l.window.unwrap()) ==> run_grant(l, nows, j) >= run_grant(l, nows, i)
            + l.window.unwrap().length,
{
    lemma_grants_grow(l, nows, i, j);
    let w0 = l.window.unwrap();
    let cap = window_cap(w0);
    if j >= i + cap {
        lemma_run_window(l, nows, j);
        lemma_history(l, nows, j);
        let lj = limiter_after(l, nows, j);
        let wj = lj.window.unwrap();
        let h = window_history(l, nows, j);
        let m = (j - cap) as nat;
        assert(wj.recent[0] == h[w0.recent.len() + m as int]);
        assert(wj.recent[0] == run_grant(l, nows, m));
        assert(run_grant(l, nows, j) == window_grant(wj, limiter_spaced(lj, nows[j as int])));
        lemma_grants_grow(l, nows, i, m);
    }
}

proof fn lemma_indices_spread(idx: Seq<nat>, k: int)
    requires
        forall|a: int| 0 <= a < idx.len() - 1 ==> #[trigger] idx[a] < idx[a + 1],
        0 <= k < idx.len(),
    ensures
        idx[k] >= idx[0] + k,
    decreases k,
{
    if k > 0 {
        lemma_indices_spread(idx, k - 1);
        assert(idx[k - 1] < idx[k]);
    }
}

/// No half-open interval one window long holds more than `max` grants (at
/// least one): of any `max + 1` calls of a run made one after another, one
/// is granted outside `[t, t + length)`.
pub proof fn lemma_no_crowded_interval(l: LimiterModel, nows: Seq<int>, idx: Seq<nat>, t: int)
    requires
        l.window matches Some(w) && window_ready(w),
        sequential(l, nows),
        idx.len() == window_cap(l.window.unwrap()) + 1,
        forall|a: int| 0 <= a < idx.len() - 1 ==> #[trigger] idx[a] < idx[a + 1],
        forall|a: int| 0 <= a < idx.len() ==> #[trigger] idx[a] < nows.len(),
    ensures
        exists|a: int| 0 <= a < idx.len() && !(t <= #[trigger] run_grant(l, nows, idx[a]) < t
            + l.window.unwrap().length),
{
    let cap = window_cap(l.window.unwrap());
    lemma_indices_spread(idx, cap);
    assert(idx[0] < nows.len());
    assert(idx[cap] < nows.len());
    lemma_window_ceiling(l, nows, idx[0], idx[cap]);
    if t <= run_grant(l, nows, idx[0]) {
        assert(!(t <= run_grant(l, nows, idx[cap]) < t + l.window.unwrap().length));
    } else {
        assert(!(t <= run_grant(l, nows, idx[0]) < t + l.window.unwrap().length));
    }
}

} // verus!
