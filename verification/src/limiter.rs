//! A fixed-window request counter per client.
//!
//! Each client has a window that opens with its first request and a count of
//! the requests admitted in it. A request that arrives after the window has
//! run out opens a new one. Time is a count of nanoseconds from an origin that
//! the caller chooses and keeps.

use vstd::prelude::*;
use vstd::hash_map::StringHashMap;

verus! {

/// The nanoseconds in a second.
pub const NANOS_PER_SECOND: u128 = 1_000_000_000;

/// The window of one client: when it opened and how many requests were
/// admitted in it.
#[derive(Debug, Clone, Copy, PartialEq, Eq, Structural)]
pub struct RateWindowState {
    pub count: u32,
    pub window_start: u128,
}

/// The time that has passed at `now` since `since`; none when `now` is the
/// earlier of the two.
pub open spec fn elapsed(now: u128, since: u128) -> nat {
    if now >= since {
        (now - since) as nat
    } else {
        0
    }
}

/// The window that a request at `now` falls into: the client's own, or a new
/// one that opens at `now` when the client has none or its window has run out.
pub open spec fn current_window(
    prior: Option<RateWindowState>,
    window: u128,
    now: u128,
) -> RateWindowState {
    match prior {
        Some(state) if elapsed(now, state.window_start) <= window => state,
        _ => RateWindowState { count: 0, window_start: now },
    }
}

/// Whether a request at `now` is admitted.
pub open spec fn admits(prior: Option<RateWindowState>, limit: u32, window: u128, now: u128) -> bool {
    current_window(prior, window, now).count < limit
}

/// The client's window after a request at `now`.
pub open spec fn after_request(
    prior: Option<RateWindowState>,
    limit: u32,
    window: u128,
    now: u128,
) -> RateWindowState {
    let current = current_window(prior, window, now);
    if current.count < limit {
        RateWindowState { count: (current.count + 1) as u32, window_start: current.window_start }
    } else {
        current
    }
}

/// The windows of all clients, with the limit and the window length that
/// they are held to.
pub struct RateLimiter {
    limit: u32,
    window: u128,
    windows: StringHashMap<RateWindowState>,
}

impl RateLimiter {
    /// The number of requests admitted per client and window.
    pub closed spec fn limit(&self) -> u32 {
        self.limit
    }

    /// The length of a window, in nanoseconds.
    pub closed spec fn window(&self) -> u128 {
        self.window
    }

    /// The window of each client that has been seen.
    pub closed spec fn windows(&self) -> Map<Seq<char>, RateWindowState> {
        self.windows@
    }

    /// The window of `client`, if it has been seen.
    pub open spec fn window_of(&self, client: Seq<char>) -> Option<RateWindowState> {
        if self.windows().contains_key(client) {
            Some(self.windows()[client])
        } else {
            None
        }
    }

    /// A limiter that has seen no client, with `limit` requests per window of
    /// `window_seconds` seconds.
    pub fn new(limit: u32, window_seconds: u64) -> (limiter: RateLimiter)
        ensures
            limiter.limit() == limit,
            limiter.window() == window_seconds * NANOS_PER_SECOND,
            limiter.windows() == Map::<Seq<char>, RateWindowState>::empty(),
    {
        let seconds: u128 = window_seconds as u128;
        RateLimiter { limit, window: seconds * NANOS_PER_SECOND, windows: StringHashMap::new() }
    }

    /// Decides on a request of `client` at `now`, and counts it if it is
    /// admitted.
    pub fn check_rate_limit(&mut self, client: &str, now: u128) -> (admitted: bool)
        ensures
            admitted == admits(old(self).window_of(client@), old(self).limit(), old(self).window(), now),
            final(self).windows() == old(self).windows().insert(
                client@,
                after_request(old(self).window_of(client@), old(self).limit(), old(self).window(), now),
            ),
            final(self).limit() == old(self).limit(),
            final(self).window() == old(self).window(),
    {
        let prior: Option<RateWindowState> = match self.windows.get(client) {
            Some(state) => Some(*state),
            None => None,
        };
        let mut current = match prior {
            Some(state) => state,
            None => RateWindowState { count: 0, window_start: now },
        };
        if now >= current.window_start && now - current.window_start > self.window {
            current = RateWindowState { count: 0, window_start: now };
        }
        let admitted = current.count < self.limit;
        if admitted {
            current = RateWindowState { count: current.count + 1, window_start: current.window_start };
        }
        self.windows.insert(client.to_owned(), current);
        admitted
    }
}

/// The client's window after requests at each of `times`, in their order.
pub open spec fn after_requests(
    prior: Option<RateWindowState>,
    limit: u32,
    window: u128,
    times: Seq<u128>,
) -> Option<RateWindowState>
    decreases times.len(),
{
    if times.len() == 0 {
        prior
    } else {
        Some(
            after_request(
                after_requests(prior, limit, window, times.drop_last()),
                limit,
                window,
                times.last(),
            ),
        )
    }
}

/// Whether the request at `times[k]` is admitted, after those before it.
pub open spec fn admitted_at(
    prior: Option<RateWindowState>,
    limit: u32,
    window: u128,
    times: Seq<u128>,
    k: int,
) -> bool {
    admits(after_requests(prior, limit, window, times.take(k)), limit, window, times[k])
}

/// A request at `now` opens a new window: the client has none yet, or its
/// window has run out.
pub open spec fn opens_window(prior: Option<RateWindowState>, window: u128, now: u128) -> bool {
    match prior {
        Some(state) => elapsed(now, state.window_start) > window,
        None => true,
    }
}

/// The count after `n` more requests in a window that held `count`: it grows
/// by one per request until it reaches the limit, and a count that is already
/// at or over the limit stays.
pub open spec fn count_after(count: u32, limit: u32, n: nat) -> int {
    if count >= limit {
        count as int
    } else if count + n <= limit {
        count + n
    } else {
        limit as int
    }
}

/// Requests that all fall into the client's running window leave its start
/// alone and are admitted as long as the count is below the limit: the
/// request at `times[k]` is admitted exactly when `state.count + k` is below
/// the limit.
pub proof fn lemma_requests_within_window(
    state: RateWindowState,
    limit: u32,
    window: u128,
    times: Seq<u128>,
)
    requires
        forall|i: int| 0 <= i < times.len() ==> elapsed(#[trigger] times[i], state.window_start) <= window,
    ensures
        after_requests(Some(state), limit, window, times) == Some(
            RateWindowState {
                count: count_after(state.count, limit, times.len()) as u32,
                window_start: state.window_start,
            },
        ),
        forall|k: int|
            0 <= k < times.len() ==> (#[trigger] admitted_at(Some(state), limit, window, times, k) <==> state.count
                + k < limit),
    decreases times.len(),
{
    if times.len() > 0 {
        let before = times.drop_last();
        lemma_requests_within_window(state, limit, window, before);
        assert forall|k: int| 0 <= k < times.len() implies (#[trigger] admitted_at(
            Some(state),
            limit,
            window,
            times,
            k,
        ) <==> state.count + k < limit) by {
            lemma_requests_within_window(state, limit, window, times.take(k));
            assert(elapsed(times[k], state.window_start) <= window);
        }
        assert(elapsed(times.last(), state.window_start) <= window);
    }
}

/// Within one window exactly `limit` requests are admitted. When the request
/// at `times[0]` opens a window and the others come no later than `window`
/// after it, the first `limit` of them are admitted and every later one is
/// refused, whatever the client's window was before.
pub proof fn lemma_window_admits_up_to_limit(
    prior: Option<RateWindowState>,
    limit: u32,
    window: u128,
    times: Seq<u128>,
)
    requires
        times.len() > 0,
        opens_window(prior, window, times[0]),
        forall|i: int| 0 <= i < times.len() ==> elapsed(#[trigger] times[i], times[0]) <= window,
    ensures
        forall|k: int|
            0 <= k < times.len() ==> (#[trigger] admitted_at(prior, limit, window, times, k) <==> k < limit),
        after_requests(prior, limit, window, times) == Some(
            RateWindowState {
                count: count_after(0, limit, times.len()) as u32,
                window_start: times[0],
            },
        ),
{
    let opened = RateWindowState { count: 0, window_start: times[0] };
    lemma_reopening_is_fresh(prior, limit, window, times, times.len() as int);
    lemma_requests_within_window(opened, limit, window, times);
    assert forall|k: int| 0 <= k < times.len() implies (#[trigger] admitted_at(
        prior,
        limit,
        window,
        times,
        k,
    ) <==> k < limit) by {
        assert(admitted_at(Some(opened), limit, window, times, k) <==> k < limit);
        if k > 0 {
            lemma_reopening_is_fresh(prior, limit, window, times, k);
            assert(times.take(k)[0] == times[0]);
        } else {
            assert(times.take(0) =~= Seq::<u128>::empty());
        }
    }
    assert(times.take(times.len() as int) =~= times);
}

/// Once the first request has opened a window, the client's earlier window
/// plays no part: the state after the first `n > 0` requests is as if the
/// client had held an empty window opened at `times[0]`.
proof fn lemma_reopening_is_fresh(
    prior: Option<RateWindowState>,
    limit: u32,
    window: u128,
    times: Seq<u128>,
    n: int,
)
    requires
        0 < n <= times.len(),
        opens_window(prior, window, times[0]),
    ensures
        after_requests(prior, limit, window, times.take(n)) == after_requests(
            Some(RateWindowState { count: 0, window_start: times[0] }),
            limit,
            window,
            times.take(n),
        ),
    decreases n,
{
    let opened = RateWindowState { count: 0, window_start: times[0] };
    let head = times.take(n);
    assert(head.drop_last() =~= times.take(n - 1));
    if n == 1 {
        assert(head.drop_last() =~= Seq::<u128>::empty());
        assert(head.last() == times[0]);
        assert(after_requests(prior, limit, window, head.drop_last()) == prior);
        assert(after_requests(Some(opened), limit, window, head.drop_last()) == Some(opened));
    } else {
        lemma_reopening_is_fresh(prior, limit, window, times, n - 1);
    }
}

} // verus!
