//! Calendar-free time values: a day number plus a second-of-day, as the
//! session state machine and the replay index need them.
use vstd::prelude::*;

verus! {

/// Seconds in one day.
pub const SECS_PER_DAY: u32 = 86400;

/// A point in (local) time: `days` since the epoch day, `secs` into that day.
#[derive(Clone, Copy, Debug, PartialEq, Eq, Structural)]
pub struct Ts {
    pub days: u32,
    pub secs: u32,
}

impl Ts {
    /// A time value is well formed when the second-of-day is in range.
    pub open spec fn wf(self) -> bool {
        self.secs < 86400
    }

    /// The value as a single count of seconds since the epoch.
    pub open spec fn stamp(self) -> int {
        self.days * 86400 + self.secs
    }

    pub fn new(days: u32, secs: u32) -> (r: Ts)
        requires
            secs < 86400,
        ensures
            r == (Ts { days, secs }),
            r.wf(),
    {
        Ts { days, secs }
    }

    /// Splits a non-negative unix-style timestamp into day and second-of-day.
    pub fn from_unix(t: i64) -> (r: Option<Ts>)
        ensures
            match r {
                Some(ts) => {
                    &&& 0 <= t
                    &&& ts.wf()
                    &&& ts.stamp() == t
                },
                None => t < 0 || t / 86400 > u32::MAX,
            },
    {
        if t < 0 {
            return None;
        }
        let d = t / 86400;
        let s = t % 86400;
        if d > u32::MAX as i64 {
            return None;
        }
        Some(Ts { days: d as u32, secs: s as u32 })
    }
}

/// Relies on chrono's local clock: the current local wall time as a
/// unix-style second count. The value depends on the machine and the moment,
/// so nothing is promised of it.
#[verifier::external_body]
fn unix_now() -> i64 {
    chrono::Local::now().naive_local().and_utc().timestamp()
}

/// The wall clock now, split into day and second-of-day; `None` only for a
/// clock before the epoch or beyond the day range.
pub fn now_ts() -> (r: Option<Ts>)
    ensures
        r matches Some(t) ==> t.wf(),
{
    Ts::from_unix(unix_now())
}

} // verus!
