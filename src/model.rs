use vstd::prelude::*;
use crate::limiter::{Decision, decision_of, expiry_due};

verus! {

/// One counter record of the store: its value and, once attached, the
/// instant (in seconds) at which the store drops it.
pub struct Counter {
    pub count: int,
    pub expires_at: Option<int>,
}

/// The counter store as the limiter sees it: one record per identity.
pub type CounterStore = Map<Seq<char>, Counter>;

/// The record of `key` still exists at time `now`.
pub open spec fn live(s: CounterStore, key: Seq<char>, now: int) -> bool {
    s.contains_key(key) && match s[key].expires_at {
        Some(at) => now < at,
        None => true,
    }
}

/// The value the store's atomic increment returns at time `now`: an expired
/// or absent record counts from zero.
pub open spec fn incremented(s: CounterStore, key: Seq<char>, now: int) -> int {
    if live(s, key, now) { s[key].count + 1 } else { 1 }
}

/// The store after the increment, and after the expiry that the verdict asks
/// for where the increment created the record.
pub open spec fn store_after(s: CounterStore, ttl: int, key: Seq<char>, now: int) -> CounterStore {
    let count = incremented(s, key, now);
    let kept = if live(s, key, now) { s[key].expires_at } else { None };
    let expires_at = if expiry_due(Some(count)) { Some(now + ttl) } else { kept };
    s.insert(key, Counter { count, expires_at })
}

/// One request from `key` at time `now`, served against a reachable store:
/// the store afterwards and the decision.
pub open spec fn serve(limit: int, ttl: int, s: CounterStore, key: Seq<char>, now: int) -> (CounterStore, Decision) {
    (store_after(s, ttl, key, now), decision_of(limit, false, Some(incremented(s, key, now))))
}

/// Requests from `key` at the instants `times`, served in order.
pub open spec fn run(limit: int, ttl: int, s: CounterStore, key: Seq<char>, times: Seq<int>) -> (CounterStore, Seq<Decision>)
    decreases times.len(),
{
    if times.len() == 0 {
        (s, Seq::empty())
    } else {
        let prev = run(limit, ttl, s, key, times.drop_last());
        let step = serve(limit, ttl, prev.0, key, times.last());
        (step.0, prev.1.push(step.1))
    }
}

/// All of `times` lie in the window that opens with the first of them.
pub open spec fn within_window(ttl: int, times: Seq<int>) -> bool {
    forall|i: int| 0 <= i < times.len() ==> times[0] <= #[trigger] times[i] < times[0] + ttl
}

/// The `i`-th request of a window (from zero) is admitted exactly when
/// `i < limit`.
pub open spec fn expected_in_window(limit: int, i: int) -> Decision {
    if i < limit { Decision::Admit } else { Decision::Deny }
}

proof fn lemma_window(limit: int, ttl: int, s: CounterStore, key: Seq<char>, times: Seq<int>)
    requires
        ttl > 0,
        times.len() > 0,
        within_window(ttl, times),
        !live(s, key, times[0]),
    ensures
        run(limit, ttl, s, key, times).0.contains_key(key),
        run(limit, ttl, s, key, times).0[key] == (Counter { count: times.len() as int, expires_at: Some(times[0] + ttl) }),
        run(limit, ttl, s, key, times).1.len() == times.len(),
        forall|i: int| 0 <= i < times.len() ==> #[trigger] run(limit, ttl, s, key, times).1[i] == expected_in_window(limit, i),
    decreases times.len(),
{
    let prefix = times.drop_last();
    let now = times.last();
    assert(times[0] <= times[times.len() - 1] < times[0] + ttl);
    if prefix.len() == 0 {
        assert(run(limit, ttl, s, key, prefix).0 == s);
        assert(!live(s, key, now));
    } else {
        assert(within_window(ttl, prefix)) by {
            assert forall|i: int| 0 <= i < prefix.len() implies prefix[0] <= #[trigger] prefix[i] < prefix[0] + ttl by {
                assert(prefix[i] == times[i]);
            }
        }
        lemma_window(limit, ttl, s, key, prefix);
        let prev = run(limit, ttl, s, key, prefix).0;
        assert(live(prev, key, now));
    }
    let r = run(limit, ttl, s, key, times);
    assert forall|i: int| 0 <= i < times.len() implies #[trigger] r.1[i] == expected_in_window(limit, i) by {
        if i < prefix.len() {
            assert(r.1[i] == run(limit, ttl, s, key, prefix).1[i]);
        }
    }
}

/// Within one window opened by a request on a fresh counter, every request is
/// admitted while their number does not exceed the limit.
pub proof fn lemma_under_limit_all_admitted(limit: int, ttl: int, s: CounterStore, key: Seq<char>, times: Seq<int>)
    requires
        ttl > 0,
        times.len() <= limit,
        within_window(ttl, times),
        times.len() > 0 ==> !live(s, key, times[0]),
    ensures
        forall|i: int| 0 <= i < times.len() ==> #[trigger] run(limit, ttl, s, key, times).1[i] == Decision::Admit,
{
    if times.len() > 0 {
        lemma_window(limit, ttl, s, key, times);
    }
}

/// Within one window opened by a request on a fresh counter, with more
/// requests than the limit: exactly the first `limit` are admitted, every
/// later one is denied, and the counter holds the number of requests.
pub proof fn lemma_over_limit_first_admitted(limit: int, ttl: int, s: CounterStore, key: Seq<char>, times: Seq<int>)
    requires
        ttl > 0,
        limit >= 0,
        times.len() > limit,
        within_window(ttl, times),
        !live(s, key, times[0]),
    ensures
        forall|i: int| 0 <= i < limit ==> #[trigger] run(limit, ttl, s, key, times).1[i] == Decision::Admit,
        forall|i: int| limit <= i < times.len() ==> #[trigger] run(limit, ttl, s, key, times).1[i] == Decision::Deny,
        run(limit, ttl, s, key, times).0[key].count == times.len(),
{
    lemma_window(limit, ttl, s, key, times);
}

/// Once a window has expired, the next request starts a fresh one: its counter
/// is observed at 1 with a new expiry, and it is admitted under any positive
/// limit.
pub proof fn lemma_expired_window_restarts(limit: int, ttl: int, s: CounterStore, key: Seq<char>, now: int)
    requires
        limit >= 1,
        s.contains_key(key),
        s[key].expires_at matches Some(at) && at <= now,
    ensures
        incremented(s, key, now) == 1,
        serve(limit, ttl, s, key, now).0[key] == (Counter { count: 1, expires_at: Some(now + ttl) }),
        serve(limit, ttl, s, key, now).1 == Decision::Admit,
{
}

/// A request from one identity leaves every other identity's record as it was,
/// and an identity's decision depends on its own record alone.
pub proof fn lemma_identities_independent(limit: int, ttl: int, s: CounterStore, t: CounterStore, key: Seq<char>, other: Seq<char>, now: int)
    requires
        key != other,
    ensures
        serve(limit, ttl, s, key, now).0.contains_key(other) == s.contains_key(other),
        serve(limit, ttl, s, key, now).0[other] == s[other],
        (s.contains_key(key) == t.contains_key(key) && s[key] == t[key])
            ==> serve(limit, ttl, s, key, now).1 == serve(limit, ttl, t, key, now).1,
{
}

/// A denied identity stays denied: while its record lives, a retry is denied
/// too.
pub proof fn lemma_denied_stays_denied(limit: int, ttl: int, s: CounterStore, key: Seq<char>, now: int, later: int)
    requires
        serve(limit, ttl, s, key, now).1 == Decision::Deny,
        live(serve(limit, ttl, s, key, now).0, key, later),
    ensures
        serve(limit, ttl, serve(limit, ttl, s, key, now).0, key, later).1 == Decision::Deny,
{
}

/// Failing closed, an unreachable store denies every request.
pub proof fn lemma_fail_closed_denies(limit: int)
    ensures
        decision_of(limit, false, None) == Decision::Deny,
{
}

/// Failing open, an unreachable store admits every request.
pub proof fn lemma_fail_open_admits(limit: int)
    ensures
        decision_of(limit, true, None) == Decision::Admit,
{
}

} // verus!
