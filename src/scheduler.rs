use vstd::arithmetic::div_mod::lemma_fundamental_div_mod;
use vstd::arithmetic::div_mod::lemma_fundamental_div_mod_converse;
use vstd::prelude::*;

verus! {

/// Seconds in one hour.
pub const SECONDS_PER_HOUR: i64 = 3600;

/// Seconds in one day.
pub const SECONDS_PER_DAY: i64 = 86400;

/// Hour of the day (0..24) of an epoch-seconds timestamp, in UTC.
pub open spec fn hour_of(ts: int) -> int {
    (ts % 86400) / 3600
}

/// A window `(from, to)` is well formed when `from < to <= 24`.
pub open spec fn valid_window(from: int, to: int) -> bool {
    from < to <= 24
}

/// `now` lies strictly inside the hour window: the boundary hours are excluded.
pub open spec fn in_window(from: int, to: int, now: int) -> bool {
    from < hour_of(now) && hour_of(now) < to
}

/// The gap, in seconds, that must pass after a success before the next attempt:
/// the complement of the window, `24 - to + from` hours.
pub open spec fn gap_threshold(from: int, to: int) -> int {
    (24 - to + from) * 3600
}

/// Whether an attempt is due at `now` for a scheduler whose last success was at `last`.
pub open spec fn due(last: int, from: int, to: int, now: int) -> bool {
    &&& valid_window(from, to)
    &&& in_window(from, to, now)
    &&& now - last > gap_threshold(from, to)
}

/// Hour of the day of `ts`, in UTC.
pub fn hour_of_day(ts: i64) -> (r: u32)
    ensures
        r == hour_of(ts as int),
        r < 24,
{
    let s: i64 = ts % SECONDS_PER_DAY;
    let s: i64 = if s < 0 {
        s + SECONDS_PER_DAY
    } else {
        s
    };
    assert(s == ts as int % 86400);
    (s / SECONDS_PER_HOUR) as u32
}

/// Relies on chrono::Utc::now: the current time, as epoch seconds.
#[verifier::external_body]
fn now_timestamp() -> (r: i64) {
    chrono::Utc::now().timestamp()
}

/// Runs a daily action inside an hour window until it succeeds once per cycle.
pub struct TryTillSuccess {
    /// Epoch seconds of the last successful run; 0 when it never succeeded.
    pub last_success: i64,
}

impl TryTillSuccess {
    /// A scheduler that has never succeeded.
    pub fn new() -> (r: TryTillSuccess)
        ensures
            r.last_success == 0,
    {
        TryTillSuccess { last_success: 0 }
    }

    /// Whether the action is due at `now` in the window `(from, to)`.
    pub fn is_due(&self, from: u8, to: u8, now: i64) -> (r: bool)
        ensures
            r == due(self.last_success as int, from as int, to as int, now as int),
    {
        if !(from < to && to <= 24) {
            return false;
        }
        let hour = hour_of_day(now);
        if !(hour > from as u32 && hour < to as u32) {
            return false;
        }
        let elapsed: i128 = now as i128 - self.last_success as i128;
        let gap: i128 = (24 - to as i128 + from as i128) * 3600;
        elapsed > gap
    }

    /// Evaluates the schedule at `now`: when due, calls `action` once and records
    /// `now` as the last success if it reports `true`. Otherwise nothing changes.
    pub fn daily_at<F: FnOnce() -> bool>(&mut self, from: u8, to: u8, now: i64, action: F) -> (r: &Self)
        requires
            due(old(self).last_success as int, from as int, to as int, now as int) ==> action.requires(()),
        ensures
            !due(old(self).last_success as int, from as int, to as int, now as int) ==> *final(self) == *old(self),
            !in_window(from as int, to as int, now as int) ==> *final(self) == *old(self),
            due(old(self).last_success as int, from as int, to as int, now as int) ==> exists|ok: bool|
                #[trigger] action.ensures((), ok) && final(self).last_success == (if ok {
                    now
                } else {
                    old(self).last_success
                }),
            final(self).last_success >= old(self).last_success,
            *r == *final(self),
    {
        if self.is_due(from, to, now) {
            let ok = action();
            if ok {
                self.last_success = now;
            }
        }
        self
    }

    /// Evaluates the schedule at the current time; see `daily_at`.
    pub fn daily<F: FnOnce() -> bool>(&mut self, from: u8, to: u8, action: F) -> (r: &Self)
        requires
            action.requires(()),
        ensures
            final(self).last_success == old(self).last_success || exists|ok: bool|
                #[trigger] action.ensures((), ok) && ok,
            final(self).last_success != old(self).last_success ==> in_window(
                from as int,
                to as int,
                final(self).last_success as int,
            ) && due(old(self).last_success as int, from as int, to as int, final(self).last_success as int),
            final(self).last_success >= old(self).last_success,
            *r == *final(self),
    {
        let now = now_timestamp();
        self.daily_at(from, to, now, action)
    }
}

/// Start, in epoch seconds, of the UTC day that holds `ts`.
pub open spec fn day_start(ts: int) -> int {
    ts - ts % 86400
}

/// The hour of a time lies between the hour boundaries around it.
proof fn lemma_hour_bounds(t: int)
    ensures
        0 <= hour_of(t) < 24,
        day_start(t) + hour_of(t) * 3600 <= t < day_start(t) + (hour_of(t) + 1) * 3600,
        day_start(t) % 86400 == 0,
{
    lemma_fundamental_div_mod(t, 86400);
    let q = t / 86400;
    assert(day_start(t) == q * 86400);
    lemma_fundamental_div_mod_converse(day_start(t), 86400, q, 0);
}

/// A time that lies `r` seconds after the start of a day, with `0 <= r < 86400`,
/// has the hour `r / 3600`.
proof fn lemma_hour_in_day(d: int, t: int)
    requires
        d % 86400 == 0,
        d <= t < d + 86400,
    ensures
        hour_of(t) == (t - d) / 3600,
{
    lemma_fundamental_div_mod(d, 86400);
    lemma_fundamental_div_mod_converse(t, 86400, d / 86400, t - d);
}

/// After a failed attempt the recorded success stays where it was, so every later
/// tick inside the window is due again: the action is retried until it succeeds.
pub proof fn lemma_retry_after_failure(last: int, from: int, to: int, now: int, later: int)
    requires
        due(last, from, to, now),
        in_window(from, to, later),
        now <= later,
    ensures
        due(last, from, to, later),
{
}

/// After a success at `now`, no tick is due again until the next day's window opens,
/// for windows of at most twelve hours.
pub proof fn lemma_no_rerun_after_success(from: int, to: int, now: int, later: int)
    requires
        valid_window(from, to),
        to - from <= 12,
        in_window(from, to, now),
        now <= later < day_start(now) + 86400 + (from + 1) * 3600,
    ensures
        !due(now, from, to, later),
{
    lemma_hour_bounds(now);
    let d = day_start(now);
    if later < d + 86400 {
        lemma_hour_in_day(d, later);
        if in_window(from, to, later) {
            let h = hour_of(later);
            assert(later - d < (h + 1) * 3600);
            assert(later - now <= gap_threshold(from, to));
        }
    } else {
        lemma_fundamental_div_mod(d, 86400);
        assert((d + 86400) % 86400 == 0) by {
            lemma_fundamental_div_mod_converse(d + 86400, 86400, d / 86400 + 1, 0);
        }
        lemma_hour_in_day(d + 86400, later);
        assert(hour_of(later) <= from);
    }
}

} // verus!
