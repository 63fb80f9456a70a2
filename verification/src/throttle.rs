//! The shared request timer: how long a search waits before it is sent, and
//! the cooldown after a bot-detection answer.
//!
//! Instants are nanoseconds on one monotonic clock. The instant of an event is
//! a `u64` (more than five centuries from the clock's origin); the instants
//! that the state keeps may lie beyond it, when a search is queued, and are
//! `u128`.
use crate::models::SearchState;
use rand::Rng;
use vstd::prelude::*;

verus! {

/// Nanoseconds in `secs` seconds.
pub open spec fn nanos(secs: u64) -> int {
    secs * 1_000_000_000
}

/// The time from `now` until `deadline`; nothing when the deadline has passed.
pub open spec fn until(deadline: int, now: int) -> int {
    if deadline > now {
        deadline - now
    } else {
        0
    }
}

/// The wait that keeps `target` seconds between the starts of two searches:
/// `max(0, T - (now - start))`, the difference taken with its sign, so that a
/// search queued behind one scheduled later waits for that one.
pub open spec fn start_wait(s: SearchState, now: u64, target: u64) -> int {
    match s.last_request_start {
        None => 0,
        Some(t) => until(t + nanos(target), now as int),
    }
}

/// The wait that keeps `post_wait` seconds after the end of the latest search:
/// `max(0, post_wait - (now - end))`.
pub open spec fn end_wait(s: SearchState, now: u64) -> int {
    match s.last_request_end {
        None => 0,
        Some(t) => until(t + nanos(s.post_wait), now as int),
    }
}

/// The instants kept in `s` leave room to add `target` seconds to the latest
/// send and `post_wait` seconds to the latest end within the clock's range
/// (adding a duration past the range of an instant panics).
pub open spec fn has_room(s: SearchState, target: u64) -> bool {
    &&& s.last_request_start matches Some(t) ==> t + nanos(target) <= u128::MAX
    &&& s.last_request_end matches Some(t) ==> t + nanos(s.post_wait) <= u128::MAX
}

/// The wait before a search asked for at `now`, with the target interval
/// `target`: the longer of the two waits.
pub open spec fn planned_wait(s: SearchState, now: u64, target: u64) -> int {
    let a = start_wait(s, now, target);
    let b = end_wait(s, now);
    if a >= b {
        a
    } else {
        b
    }
}

/// `s` once a search asked for at `now` is scheduled after `wait`.
pub open spec fn scheduled(s: SearchState, now: u64, wait: int) -> SearchState {
    SearchState { last_request_start: Some((now + wait) as u128), ..s }
}

/// Searches are refused at `now`.
pub open spec fn blocked_at(s: SearchState, now: u64) -> bool {
    match s.blocked_until {
        Some(t) => now < t,
        None => false,
    }
}

/// `s` after a bot-detection answer at `now`, with a cooldown of `block` seconds.
pub open spec fn blocked_from(s: SearchState, now: u64, block: u64) -> SearchState {
    SearchState { blocked_until: Some((now + nanos(block)) as u128), ..s }
}

/// `s` once the latest search finished at `now`.
pub open spec fn finished_at(s: SearchState, now: u64) -> SearchState {
    SearchState { last_request_end: Some(now as u128), ..s }
}

/// A random number of `lo..=hi` (`rand::thread_rng().gen_range(lo..=hi)`).
/// Trusted: the result lies in the range; nothing else is known of it.
#[verifier::external_body]
fn random_in_range(lo: u64, hi: u64) -> (r: u64)
    requires
        lo <= hi,
    ensures
        lo <= r <= hi,
{
    rand::thread_rng().gen_range(lo..=hi)
}

fn secs_to_nanos(secs: u64) -> (n: u128)
    ensures
        n == nanos(secs),
{
    (secs as u128) * 1_000_000_000
}

fn nanos_until(t: u128, span: u128, now: u64) -> (d: u128)
    requires
        t + span <= u128::MAX,
    ensures
        d == until(t + span, now as int),
{
    let deadline = t + span;
    if deadline > (now as u128) {
        deadline - (now as u128)
    } else {
        0
    }
}

/// Whether the instants kept in `s` leave room for a wait of up to
/// `max_wait` seconds after the latest send and `post_wait` after the latest end.
pub fn room_to_schedule(s: &SearchState) -> (b: bool)
    ensures
        b == has_room(*s, s.max_wait),
{
    let a = match s.last_request_start {
        Some(t) => t <= u128::MAX - secs_to_nanos(s.max_wait),
        None => true,
    };
    let b = match s.last_request_end {
        Some(t) => t <= u128::MAX - secs_to_nanos(s.post_wait),
        None => true,
    };
    a && b
}

/// Whether searches are refused at `now`.
pub fn is_blocked(s: &SearchState, now: u64) -> (b: bool)
    ensures
        b == blocked_at(*s, now),
{
    match s.blocked_until {
        Some(t) => (now as u128) < t,
        None => false,
    }
}

/// The wait before a search asked for at `now`, given the target interval
/// `target` seconds; records the instant the search will be sent.
pub fn plan_wait(s: &mut SearchState, now: u64, target: u64) -> (wait: u128)
    requires
        has_room(*old(s), target),
    ensures
        wait == planned_wait(*old(s), now, target),
        *final(s) == scheduled(*old(s), now, wait as int),
{
    let a: u128 = match s.last_request_start {
        None => 0,
        Some(t) => nanos_until(t, secs_to_nanos(target), now),
    };
    let b: u128 = match s.last_request_end {
        None => 0,
        Some(t) => nanos_until(t, secs_to_nanos(s.post_wait), now),
    };
    let wait = if a >= b {
        a
    } else {
        b
    };
    s.last_request_start = Some((now as u128) + wait);
    wait
}

/// Schedules a search asked for at `now`: draws the target interval at random
/// from `min_wait..=max_wait` seconds and plans the wait with it.
pub fn schedule_request(s: &mut SearchState, now: u64) -> (wait: u128)
    requires
        old(s).min_wait <= old(s).max_wait,
        has_room(*old(s), old(s).max_wait),
    ensures
        exists|t: u64|
            old(s).min_wait <= t <= old(s).max_wait && wait == planned_wait(*old(s), now, t)
                && *final(s) == scheduled(*old(s), now, wait as int),
{
    let target = random_in_range(s.min_wait, s.max_wait);
    assert(nanos(target) <= nanos(s.max_wait)) by (nonlinear_arith)
        requires
            target <= s.max_wait,
    ;
    plan_wait(s, now, target)
}

/// Enters the cooldown after a bot-detection answer at `now`.
pub fn block_from(s: &mut SearchState, now: u64, block: u64)
    ensures
        *final(s) == blocked_from(*old(s), now, block),
{
    s.blocked_until = Some((now as u128) + secs_to_nanos(block));
}

/// Records that the latest search finished at `now`.
pub fn finish_request(s: &mut SearchState, now: u64)
    ensures
        *final(s) == finished_at(*old(s), now),
{
    s.last_request_end = Some(now as u128);
}

/// The scheduled search is sent no earlier than `target` seconds after the
/// previous one was (or is to be) sent, and no earlier than `post_wait`
/// seconds after the previous one finished, and the wait is the shortest that
/// meets both.
pub proof fn law_wait_keeps_both_intervals(s: SearchState, now: u64, target: u64)
    ensures
        planned_wait(s, now, target) >= 0,
        keeps_intervals(s, now, target, planned_wait(s, now, target)),
        forall|w: int|
            0 <= w < planned_wait(s, now, target) ==> !#[trigger] keeps_intervals(s, now, target, w),
{
}

/// Sending at `now + w` keeps `target` seconds after the previous send and
/// `post_wait` seconds after the previous end.
pub open spec fn keeps_intervals(s: SearchState, now: u64, target: u64, w: int) -> bool {
    &&& s.last_request_start matches Some(t) ==> now + w >= t + nanos(target)
    &&& s.last_request_end matches Some(t) ==> now + w >= t + nanos(s.post_wait)
}

/// When more than `max_wait` seconds have passed since the previous search was
/// sent, the target interval imposes no wait, whatever target was drawn.
pub proof fn law_long_pause_skips_interval(s: SearchState, now: u64, target: u64)
    requires
        target <= s.max_wait,
        s.last_request_start matches Some(t) && t + nanos(s.max_wait) <= now,
    ensures
        start_wait(s, now, target) == 0,
        planned_wait(s, now, target) == end_wait(s, now),
{
    assert(nanos(target) <= nanos(s.max_wait)) by (nonlinear_arith)
        requires
            target <= s.max_wait,
    ;
}

/// Searches queue: a search scheduled while another is still waiting to be
/// sent is sent at least the drawn interval after that one.
pub proof fn law_searches_queue(s: SearchState, now: u64, target: u64, later: u64, target2: u64)
    requires
        has_room(s, target),
    ensures
        ({
            let w = planned_wait(s, now, target);
            let s2 = scheduled(s, now, w);
            later + planned_wait(s2, later, target2) >= now + w + nanos(target2)
        }),
{
}

/// With no search before, nothing is waited for.
pub proof fn law_first_request_is_not_delayed(s: SearchState, now: u64, target: u64)
    requires
        s.last_request_start is None,
        s.last_request_end is None,
    ensures
        planned_wait(s, now, target) == 0,
{
}

/// After a bot-detection answer at `at`, searches are refused exactly until
/// `block` seconds have passed.
pub proof fn law_cooldown(s: SearchState, at: u64, block: u64, now: u64)
    ensures
        blocked_at(blocked_from(s, at, block), now) <==> now < at + nanos(block),
{
    assert(nanos(block) >= 0) by (nonlinear_arith);
    assert(at + nanos(block) <= u128::MAX) by (nonlinear_arith)
        requires
            at <= u64::MAX,
            block <= u64::MAX,
    ;
}

/// Scheduling a search touches only the instant the latest search is sent, and
/// finishing one only the instant it finished: the cooldown and the configured
/// waits stay.
pub proof fn law_schedule_and_finish_keep_the_rest(s: SearchState, now: u64, wait: int)
    ensures
        scheduled(s, now, wait).blocked_until == s.blocked_until,
        finished_at(s, now).blocked_until == s.blocked_until,
        scheduled(s, now, wait).last_request_end == s.last_request_end,
        finished_at(s, now).last_request_start == s.last_request_start,
        scheduled(s, now, wait).min_wait == s.min_wait && scheduled(s, now, wait).max_wait
            == s.max_wait && scheduled(s, now, wait).post_wait == s.post_wait,
        finished_at(s, now).min_wait == s.min_wait && finished_at(s, now).max_wait == s.max_wait
            && finished_at(s, now).post_wait == s.post_wait,
{
}

} // verus!
