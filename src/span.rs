use vstd::prelude::*;

verus! {

/// A signed span of time, counted in whole milliseconds.
#[derive(Clone, Copy, Debug, PartialEq, Eq, Structural)]
pub struct TimeSpan {
    pub millis: i64,
}

impl TimeSpan {
    /// A span of `millis` milliseconds.
    pub fn milliseconds(millis: i64) -> (r: TimeSpan)
        ensures
            r.millis == millis,
    {
        TimeSpan { millis }
    }

    /// A span of `secs` whole seconds.
    pub fn seconds(secs: i64) -> (r: TimeSpan)
        requires
            i64::MIN <= secs * 1000 <= i64::MAX,
        ensures
            r.millis == secs * 1000,
    {
        TimeSpan { millis: secs * 1000 }
    }

    /// The length of the span in milliseconds.
    pub fn num_milliseconds(&self) -> (r: i64)
        ensures
            r == self.millis,
    {
        self.millis
    }
}

/// `d` held to the range from zero to `cap`; zero when `cap` is negative.
pub open spec fn clamp_to(d: int, cap: int) -> int {
    if d < 0 || cap < 0 {
        0
    } else if d > cap {
        cap
    } else {
        d
    }
}

/// The span from `now` to `end`, held to the range from zero to `cap`.
pub fn clamped_span(end: i128, now: i64, cap: TimeSpan) -> (r: TimeSpan)
    requires
        i128::MIN <= end - now <= i128::MAX,
    ensures
        r.millis == clamp_to(end - now, cap.millis as int),
{
    let d: i128 = end - now as i128;
    if d < 0 || cap.millis < 0 {
        TimeSpan { millis: 0 }
    } else if d > cap.millis as i128 {
        cap
    } else {
        TimeSpan { millis: d as i64 }
    }
}

} // verus!
