use vstd::prelude::*;

verus! {

/// Nanoseconds in one second.
pub const NANOS_PER_SEC: u64 = 1_000_000_000;

/// Seconds in one day.
pub const SECS_PER_DAY: u64 = 86_400;

/// Seconds after local midnight at which the holiday feed is refreshed (01:00).
pub const REFRESH_AT_SECS: u64 = 3_600;

/// How long the scheduler sleeps when the time to the next refresh comes out
/// negative (an hour).
pub const FALLBACK_WAIT_SECS: u64 = 3_600;

/// The local time of day in the representation of `chrono::NaiveTime`:
/// whole seconds since midnight and a nanosecond fraction, which reaches one
/// second or more only while a leap second is being counted.
#[derive(Clone, Copy, PartialEq, Eq, Debug)]
pub struct ClockTime {
    pub secs: u32,
    pub frac: u32,
}

impl ClockTime {
    /// The times that `NaiveTime` holds: a leap second only at the end of a
    /// minute.
    pub open spec fn valid(self) -> bool {
        &&& self.secs < SECS_PER_DAY
        &&& self.frac < 2 * NANOS_PER_SEC
        &&& (self.frac >= NANOS_PER_SEC ==> self.secs % 60 == 59)
    }

    /// Nanoseconds since midnight (outside a leap second).
    pub open spec fn nanos_of_day(self) -> int {
        self.secs * NANOS_PER_SEC + self.frac
    }
}

/// A length of time in the representation of `std::time::Duration`.
#[derive(Clone, Copy, PartialEq, Eq, Debug)]
pub struct Wait {
    pub secs: u64,
    pub nanos: u32,
}

impl Wait {
    pub open spec fn total_nanos(self) -> int {
        self.secs * NANOS_PER_SEC + self.nanos
    }
}

/// The refresh time of day, 01:00:00.
pub open spec fn refresh_time() -> ClockTime {
    ClockTime { secs: REFRESH_AT_SECS as u32, frac: 0 }
}

/// Whether the refresh time of today has already come: `now >= 01:00:00` in
/// the order of `NaiveTime`, which compares the seconds, then the fraction.
pub open spec fn refresh_passed(t: ClockTime) -> bool {
    t.secs >= REFRESH_AT_SECS
}

/// `later - earlier` in nanoseconds, as `NaiveTime::signed_duration_since`
/// counts it: a leap second in the earlier time counts as one more second
/// when the later time lies in a later second, and one in the later time as
/// one second less when it lies in an earlier second.
pub open spec fn time_diff_nanos(later: ClockTime, earlier: ClockTime) -> int {
    let adjust: int = if later.secs > earlier.secs && earlier.frac >= NANOS_PER_SEC {
        1
    } else if later.secs < earlier.secs && later.frac >= NANOS_PER_SEC {
        -1
    } else {
        0
    };
    (later.secs - earlier.secs + adjust) * NANOS_PER_SEC + (later.frac - earlier.frac)
}

/// Calls `chrono::NaiveTime::signed_duration_since(later, earlier)` on the
/// times built by `NaiveTime::from_num_seconds_from_midnight_opt`, and gives
/// the difference as `(num_seconds, subsec_nanos)`. What it claims: the
/// difference is `time_diff_nanos` (chrono's source computes it so), and the
/// part below a second is less than a second either way.
#[verifier::external_body]
fn chrono_time_since(later: ClockTime, earlier: ClockTime) -> (d: (i64, i32))
    requires
        later.valid(),
        earlier.valid(),
    ensures
        d.0 * NANOS_PER_SEC + d.1 == time_diff_nanos(later, earlier),
        -(NANOS_PER_SEC as int) < d.1 < NANOS_PER_SEC,
{
    let a = chrono::NaiveTime::from_num_seconds_from_midnight_opt(later.secs, later.frac).unwrap();
    let b = chrono::NaiveTime::from_num_seconds_from_midnight_opt(earlier.secs, earlier.frac).unwrap();
    let delta = a.signed_duration_since(b);
    (delta.num_seconds(), delta.subsec_nanos())
}

/// The time from `t` to the next 01:00, in nanoseconds, as the scheduler
/// measures `next_1am - now`: the next 01:00 is tomorrow's once today's has
/// come (one day later, 86 400 s, as `NaiveDate` counts consecutive days),
/// and the time of day is subtracted as chrono does.
pub open spec fn wait_nanos(t: ClockTime) -> int {
    (if refresh_passed(t) {
        (SECS_PER_DAY * NANOS_PER_SEC) as int
    } else {
        0int
    }) + time_diff_nanos(refresh_time(), t)
}

/// How long the scheduler sleeps, when woken at local time `now`, until the
/// next refresh at 01:00. A negative difference (which does not arise) would
/// give the fallback of one hour, as `to_std` refuses negative lengths.
pub fn wait_until_refresh(now: ClockTime) -> (w: Wait)
    requires
        now.valid(),
    ensures
        w.nanos < NANOS_PER_SEC,
        w.total_nanos() == wait_nanos(now),
{
    let (time_secs, time_nanos) = chrono_time_since(
        ClockTime { secs: REFRESH_AT_SECS as u32, frac: 0 },
        now,
    );
    let nps: i64 = NANOS_PER_SEC as i64;
    let day_secs: i64 = if now.secs >= REFRESH_AT_SECS as u32 {
        SECS_PER_DAY as i64
    } else {
        0
    };
    let total: i64 = (day_secs + time_secs) * nps + time_nanos as i64;
    if total < 0 {
        Wait { secs: FALLBACK_WAIT_SECS, nanos: 0 }
    } else {
        let secs: i64 = total / nps;
        let nanos: i64 = total % nps;
        Wait { secs: secs as u64, nanos: nanos as u32 }
    }
}

/// The scheduler never waits longer than a day, and it always waits.
pub proof fn lemma_wait_within_a_day(now: ClockTime)
    requires
        now.valid(),
    ensures
        0 < wait_nanos(now) <= SECS_PER_DAY * NANOS_PER_SEC,
{
}

/// Outside a leap second, the scheduler wakes exactly at 01:00 local time:
/// the time of day reached after the wait is 01:00.
pub proof fn lemma_wait_lands_on_refresh_time(now: ClockTime)
    requires
        now.valid(),
        now.frac < NANOS_PER_SEC,
    ensures
        (now.nanos_of_day() + wait_nanos(now)) % (SECS_PER_DAY * NANOS_PER_SEC) as int
            == REFRESH_AT_SECS * NANOS_PER_SEC,
{
    let day = (SECS_PER_DAY * NANOS_PER_SEC) as int;
    let sum = now.nanos_of_day() + wait_nanos(now);
    if refresh_passed(now) {
        assert(sum == day + REFRESH_AT_SECS * NANOS_PER_SEC);
        vstd::arithmetic::div_mod::lemma_mod_add_multiples_vanish(
            (REFRESH_AT_SECS * NANOS_PER_SEC) as int,
            day,
        );
        vstd::arithmetic::div_mod::lemma_small_mod(
            (REFRESH_AT_SECS * NANOS_PER_SEC) as nat,
            day as nat,
        );
    } else {
        assert(sum == REFRESH_AT_SECS * NANOS_PER_SEC);
        vstd::arithmetic::div_mod::lemma_small_mod(
            (REFRESH_AT_SECS * NANOS_PER_SEC) as nat,
            day as nat,
        );
    }
}

/// During a leap second before 01:00 (00:59:60 and so on), the wait also
/// ends at 01:00: counting the leap second itself, that day's 01:00 lies one
/// second later after midnight than usual.
pub proof fn lemma_leap_second_before_refresh_lands(now: ClockTime)
    requires
        now.valid(),
        now.frac >= NANOS_PER_SEC,
        !refresh_passed(now),
    ensures
        now.nanos_of_day() + wait_nanos(now) == (REFRESH_AT_SECS + 1) * NANOS_PER_SEC,
{
}

/// What the refresh scheduler has just seen happen.
pub enum SchedulerEvent {
    /// The scheduler has been spawned.
    Started,
    /// A refresh has finished; the local clock then read `now`.
    Refreshed { now: ClockTime },
    /// The sleep has ended.
    Woke,
}

/// What the refresh scheduler does next.
pub enum SchedulerAction {
    /// Fetch the holidays and import them.
    Refresh,
    /// Sleep for the given time.
    Sleep(Wait),
}

/// The refresh scheduler: it refreshes once at start, then sleeps until the
/// next 01:00 and refreshes again, forever.
pub fn scheduler_next(event: SchedulerEvent) -> (a: SchedulerAction)
    requires
        event matches SchedulerEvent::Refreshed { now } ==> now.valid(),
    ensures
        match event {
            SchedulerEvent::Started => a is Refresh,
            SchedulerEvent::Woke => a is Refresh,
            SchedulerEvent::Refreshed { now } => a matches SchedulerAction::Sleep(w)
                && w.total_nanos() == wait_nanos(now) && w.nanos < NANOS_PER_SEC,
        },
{
    match event {
        SchedulerEvent::Started => SchedulerAction::Refresh,
        SchedulerEvent::Refreshed { now } => SchedulerAction::Sleep(wait_until_refresh(now)),
        SchedulerEvent::Woke => SchedulerAction::Refresh,
    }
}

} // verus!
