//! Points in time and spans of time, as plain integers.
use vstd::prelude::*;

verus! {

/// The first second that a [Timestamp] can be in: the start of the year -262143.
pub const MIN_SECS: i64 = -8_334_601_228_800;

/// The last second that a [Timestamp] can be in: the end of the year 262142.
pub const MAX_SECS: i64 = 8_210_266_876_799;

/// The longest span of time, in milliseconds, in either direction.
pub const MAX_MILLIS: i64 = i64::MAX;

/// A point in time: whole seconds since the Unix epoch, and nanoseconds into that second.
///
/// A leap second is a second with more than 1 000 000 000 nanoseconds.
#[derive(Debug, Clone, Copy, PartialEq, Eq, Structural)]
pub struct Timestamp {
    /// Whole seconds since the Unix epoch.
    pub secs: i64,
    /// Nanoseconds since the start of that second.
    pub nanos: u32,
}

/// A span of time: whole seconds, and the nanoseconds that come on top of them.
#[derive(Debug, Clone, Copy, PartialEq, Eq, Structural)]
pub struct Duration {
    /// Whole seconds, rounded towards negative infinity.
    pub secs: i64,
    /// Nanoseconds on top of the whole seconds, below 1 000 000 000.
    pub nanos: u32,
}

impl Timestamp {
    /// The point is within the calendar, and not in a leap second.
    pub open spec fn valid(self) -> bool {
        &&& MIN_SECS <= self.secs <= MAX_SECS
        &&& self.nanos < 1_000_000_000
    }

    /// The point is one that the clock can show: valid, and not before the Unix epoch.
    pub open spec fn shown(self) -> bool {
        self.valid() && self.secs >= 0
    }

    /// Nanoseconds since the Unix epoch.
    pub open spec fn total(self) -> int {
        self.secs * 1_000_000_000 + self.nanos
    }

    /// This point comes strictly before `other`.
    pub open spec fn before(self, other: Timestamp) -> bool {
        self.secs < other.secs || (self.secs == other.secs && self.nanos < other.nanos)
    }

    /// Tests if this point comes strictly before `other`.
    pub fn is_before(&self, other: &Timestamp) -> (earlier: bool)
        ensures
            earlier == self.before(*other),
    {
        self.secs < other.secs || (self.secs == other.secs && self.nanos < other.nanos)
    }
}

impl Duration {
    /// The span is normalised, and no longer than the longest span.
    pub open spec fn valid(self) -> bool {
        &&& self.nanos < 1_000_000_000
        &&& -(MAX_MILLIS * 1_000_000) <= self.total() <= MAX_MILLIS * 1_000_000
    }

    /// The span in nanoseconds.
    pub open spec fn total(self) -> int {
        self.secs * 1_000_000_000 + self.nanos
    }
}

/// The point that lies `age` after `at`, or nothing where the calendar has no such point.
pub open spec fn moment_after(at: Timestamp, age: Duration) -> Option<Timestamp> {
    let total = at.total() + age.total();
    let secs = total / 1_000_000_000;
    if MIN_SECS <= secs <= MAX_SECS {
        Some(Timestamp { secs: secs as i64, nanos: (total % 1_000_000_000) as u32 })
    } else {
        None
    }
}

/// A second is a thousand million nanoseconds, for points in time and for spans.
pub proof fn law_totals_count_nanoseconds(at: Timestamp, age: Duration)
    ensures
        at.total() == 1_000_000_000 * at.secs + at.nanos,
        age.total() == 1_000_000_000 * age.secs + age.nanos,
{
}

/// The calendar goes from the first second to the last, and the clock shows nothing before the
/// Unix epoch. Spans go as far as a signed number of milliseconds does, in either direction.
pub proof fn law_bounds_of_time(at: Timestamp, age: Duration)
    ensures
        at.valid() <==> at.nanos < 1_000_000_000 && -8_334_601_228_800 <= at.secs
            <= 8_210_266_876_799,
        at.shown() <==> at.valid() && at.total() >= 0,
        age.valid() <==> age.nanos < 1_000_000_000 && -9_223_372_036_854_775_807_000_000
            <= age.total() <= 9_223_372_036_854_775_807_000_000,
{
}

/// One point comes before another exactly if fewer nanoseconds went by until then. In a leap
/// second, it comes after the rest of that second and before the next one.
pub proof fn law_before_goes_by_time(a: Timestamp, b: Timestamp)
    ensures
        a.valid() && b.valid() ==> (a.before(b) <==> a.total() < b.total()),
        a.secs < b.secs ==> a.before(b) && !b.before(a),
        a.secs == b.secs ==> (a.before(b) <==> a.nanos < b.nanos),
{
}

/// Time that goes by adds up: the point that lies a span after another is as many nanoseconds
/// after it as the span has. There is none exactly where that is outside the calendar.
pub proof fn law_time_adds_up(at: Timestamp, age: Duration)
    requires
        at.valid(),
        age.valid(),
    ensures
        ({
            let total = at.total() + age.total();
            let first = -8_334_601_228_800 * 1_000_000_000;
            let last = 8_210_266_876_799 * 1_000_000_000 + 999_999_999;
            match moment_after(at, age) {
                Some(sum) => sum.valid() && sum.total() == total,
                None => total < first || total > last,
            }
        }),
{
}

}
