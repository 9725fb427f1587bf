//! Minimum-interval rate limiting with a shared penalty window.
//!
//! Time is counted in nanoseconds from an arbitrary origin.

use vstd::prelude::*;

verus! {

/// Minimum-interval rate limiter with a shared penalty window.
///
/// `acquire` reserves the next available slot and says how long to sleep until
/// it arrives, so concurrent callers are serialized fairly. `penalize` pushes
/// the next slot into the future, so that a whole provider cools down when it
/// answers 429 or 503, not just the failing job.
#[derive(Debug)]
pub struct RateLimiter {
    min_interval: u64,
    next_slot: u128,
}

/// The earlier of an instant and the end of time.
pub open spec fn capped(t: int) -> int {
    if t > u128::MAX {
        u128::MAX as int
    } else {
        t
    }
}

/// The later of two instants.
pub open spec fn later(a: int, b: int) -> int {
    if a > b {
        a
    } else {
        b
    }
}

impl RateLimiter {
    /// Nanoseconds between two slots.
    pub closed spec fn interval(self) -> int {
        self.min_interval as int
    }

    /// When the next slot arrives.
    pub closed spec fn next(self) -> int {
        self.next_slot as int
    }

    /// When the caller who asks at `now` may go ahead.
    pub open spec fn slot(self, now: int) -> int {
        later(self.next(), now)
    }

    /// A limiter whose first slot is `now`.
    pub fn new(min_interval: u64, now: u128) -> (res: RateLimiter)
        ensures
            res.interval() == min_interval,
            res.next() == now,
    {
        RateLimiter { min_interval, next_slot: now }
    }

    /// Reserves the next slot for a caller who asks at `now`, and returns how
    /// long that caller has to wait for it.
    pub fn acquire(&mut self, now: u128) -> (wait: u128)
        ensures
            wait == old(self).slot(now as int) - now,
            final(self).interval() == old(self).interval(),
            final(self).next() == capped(old(self).slot(now as int) + old(self).interval()),
    {
        let slot: u128 = if self.next_slot > now {
            self.next_slot
        } else {
            now
        };
        let step: u128 = self.min_interval as u128;
        self.next_slot = if slot <= u128::MAX - step {
            slot + step
        } else {
            u128::MAX
        };
        slot - now
    }

    /// Grants no slot before `cooldown` nanoseconds after `now`.
    pub fn penalize(&mut self, now: u128, cooldown: u128)
        ensures
            final(self).interval() == old(self).interval(),
            final(self).next() == later(old(self).next(), capped(now + cooldown)),
    {
        let until: u128 = if now <= u128::MAX - cooldown {
            now + cooldown
        } else {
            u128::MAX
        };
        if until > self.next_slot {
            self.next_slot = until;
        }
    }
}

/// Two callers never go ahead closer together than the interval, whatever
/// penalties fall between them. `first` is the limiter when the earlier caller
/// asks; `second`, when the later one does.
pub proof fn law_slots_are_spaced(first: RateLimiter, t1: int, second: RateLimiter, t2: int)
    requires
        first.slot(t1) + first.interval() <= u128::MAX,
        second.next() >= capped(first.slot(t1) + first.interval()),
    ensures
        second.slot(t2) >= first.slot(t1) + first.interval(),
{
}

/// A slot never comes before the caller asks for it, and a caller who asks
/// after the next slot has arrived does not wait.
pub proof fn law_slot_is_not_in_the_past(limiter: RateLimiter, now: int)
    ensures
        limiter.slot(now) >= now,
        limiter.next() <= now ==> limiter.slot(now) == now,
{
}

/// After a penalty nobody goes ahead until the cooldown is over.
pub proof fn law_penalty_holds(
    before: RateLimiter,
    after: RateLimiter,
    now: int,
    cooldown: int,
    t: int,
)
    requires
        now + cooldown <= u128::MAX,
        after.next() == later(before.next(), capped(now + cooldown)),
    ensures
        after.slot(t) >= now + cooldown,
        after.slot(t) >= before.slot(t),
{
}

/// A call on a limiter, in the order in which calls get hold of it.
pub enum LimiterCall {
    Acquire { now: int },
    Penalize { now: int, cooldown: int },
}

/// When the next slot arrives after a call, if it arrived at `next` before.
pub open spec fn next_after(interval: int, next: int, call: LimiterCall) -> int {
    match call {
        LimiterCall::Acquire { now } => capped(later(next, now) + interval),
        LimiterCall::Penalize { now, cooldown } => later(next, capped(now + cooldown)),
    }
}

/// When the next slot arrives after the first `n` of the calls.
pub open spec fn next_slot_after(interval: int, first: int, calls: Seq<LimiterCall>, n: int) -> int
    decreases n,
{
    if n <= 0 {
        first
    } else {
        next_after(interval, next_slot_after(interval, first, calls, n - 1), calls[n - 1])
    }
}

/// The slot that call number `i` is granted, if it asks for one at `now`.
pub open spec fn granted_slot(
    interval: int,
    first: int,
    calls: Seq<LimiterCall>,
    i: int,
    now: int,
) -> int {
    later(next_slot_after(interval, first, calls, i), now)
}

/// The next slot only ever moves into the future.
proof fn lemma_next_slot_grows(
    interval: int,
    first: int,
    calls: Seq<LimiterCall>,
    i: int,
    j: int,
)
    requires
        interval >= 0,
        first <= u128::MAX,
        0 <= i <= j,
    ensures
        next_slot_after(interval, first, calls, i) <= next_slot_after(interval, first, calls, j),
        next_slot_after(interval, first, calls, j) <= u128::MAX,
    decreases j,
{
    if j > i {
        lemma_next_slot_grows(interval, first, calls, i, j - 1);
    } else if j > 0 {
        lemma_next_slot_grows(interval, first, calls, j - 1, j - 1);
    }
}

/// The calls of [`RateLimiter`] move the next slot in this way.
pub proof fn law_calls_move_the_next_slot(before: RateLimiter, now: int, cooldown: int)
    ensures
        next_after(before.interval(), before.next(), LimiterCall::Acquire { now }) == capped(
            before.slot(now) + before.interval(),
        ),
        next_after(before.interval(), before.next(), LimiterCall::Penalize { now, cooldown })
            == later(before.next(), capped(now + cooldown)),
{
}

/// However many calls a limiter takes, and in whatever order: two slots that it
/// grants are at least the interval apart.
pub proof fn law_all_slots_are_spaced(
    interval: int,
    first: int,
    calls: Seq<LimiterCall>,
    i: int,
    j: int,
    now_i: int,
    now_j: int,
)
    requires
        interval >= 0,
        first <= u128::MAX,
        0 <= i < j < calls.len(),
        calls[i] == (LimiterCall::Acquire { now: now_i }),
        calls[j] == (LimiterCall::Acquire { now: now_j }),
        granted_slot(interval, first, calls, i, now_i) + interval <= u128::MAX,
    ensures
        granted_slot(interval, first, calls, j, now_j) >= granted_slot(
            interval,
            first,
            calls,
            i,
            now_i,
        ) + interval,
{
    lemma_next_slot_grows(interval, first, calls, i + 1, j);
}

/// After a penalty no slot is granted until its cooldown is over, whatever calls
/// come between.
pub proof fn law_penalties_hold_for_all_slots(
    interval: int,
    first: int,
    calls: Seq<LimiterCall>,
    i: int,
    j: int,
    penalized: int,
    cooldown: int,
    now: int,
)
    requires
        interval >= 0,
        first <= u128::MAX,
        0 <= i < j < calls.len(),
        calls[i] == (LimiterCall::Penalize { now: penalized, cooldown }),
        calls[j] == (LimiterCall::Acquire { now }),
        penalized + cooldown <= u128::MAX,
    ensures
        granted_slot(interval, first, calls, j, now) >= penalized + cooldown,
{
    lemma_next_slot_grows(interval, first, calls, i + 1, j);
}

/// A caller goes ahead as soon as the next slot has arrived and they have asked,
/// and no later; the slot after that comes one interval on.
pub proof fn law_slots_are_not_wasted(limiter: RateLimiter, now: int)
    ensures
        limiter.slot(now) >= limiter.next(),
        limiter.slot(now) == limiter.next() || limiter.slot(now) == now,
        limiter.slot(now) + limiter.interval() <= u128::MAX ==> capped(
            limiter.slot(now) + limiter.interval(),
        ) == limiter.slot(now) + limiter.interval(),
{
}

/// A penalty holds everyone back until its cooldown is over, never shortens one
/// that already lasts longer, and holds nobody back beyond the longer of the two.
pub proof fn law_penalties_do_not_add_up(interval: int, next: int, now: int, cooldown: int)
    requires
        now + cooldown <= u128::MAX,
    ensures
        ({
            let after = next_after(interval, next, LimiterCall::Penalize { now, cooldown });
            &&& after >= now + cooldown
            &&& after >= next
            &&& after == now + cooldown || after == next
        }),
{
}

/// A limiter begins with a slot at once. A caller waits for the next slot, or not
/// at all where it has arrived; the slot after that comes one interval on.
pub proof fn law_acquiring(
    min_interval: u64,
    now: u128,
    fresh: RateLimiter,
    limiter: &mut RateLimiter,
    wait: u128,
)
    requires
        call_ensures(RateLimiter::new, (min_interval, now), fresh),
        call_ensures(RateLimiter::acquire, (limiter, now), wait),
    ensures
        fresh.interval() == min_interval,
        fresh.next() == now,
        old(limiter).next() <= now ==> wait == 0,
        old(limiter).next() > now ==> wait == old(limiter).next() - now,
        final(limiter).interval() == old(limiter).interval(),
        now + wait + old(limiter).interval() <= u128::MAX ==> final(limiter).next() == now + wait
            + old(limiter).interval(),
{
}

/// A penalty holds everybody back until its cooldown is over, unless they are held
/// back longer already, and leaves the interval as it is.
pub proof fn law_penalizing(now: u128, cooldown: u128, limiter: &mut RateLimiter)
    requires
        call_ensures(RateLimiter::penalize, (limiter, now, cooldown), ()),
        now + cooldown <= u128::MAX,
    ensures
        final(limiter).interval() == old(limiter).interval(),
        old(limiter).next() >= now + cooldown ==> final(limiter).next() == old(limiter).next(),
        old(limiter).next() < now + cooldown ==> final(limiter).next() == now + cooldown,
{
}

} // verus!
