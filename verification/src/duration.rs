//! Spans of time, as the configuration holds them.
//!
//! A `Duration` is the pair (whole seconds, nanoseconds past them) that a
//! `time::Duration` is made of; the constructors ask the `time` crate for it.
use vstd::prelude::*;

verus! {

/// Nanoseconds in one second.
pub const NANOS_PER_SECOND: i64 = 1_000_000_000;

/// A signed span of time: whole seconds and the nanoseconds past them.
/// In a well-formed span both parts carry the same sign, and the nanoseconds
/// stay below one second.
#[derive(Clone, Copy, Debug, PartialEq, Eq, Hash, Structural)]
pub struct Duration {
    pub seconds: i64,
    pub nanoseconds: i32,
}

/// The parts (seconds, nanoseconds) of a well-formed span.
pub open spec fn parts_wf(seconds: int, nanoseconds: int) -> bool {
    &&& -NANOS_PER_SECOND < nanoseconds < NANOS_PER_SECOND
    &&& seconds > 0 ==> nanoseconds >= 0
    &&& seconds < 0 ==> nanoseconds <= 0
}

/// The span of `seconds` whole seconds.
pub open spec fn whole_seconds_span(seconds: int) -> Duration {
    Duration { seconds: seconds as i64, nanoseconds: 0 }
}

impl Duration {
    /// Whether the parts form a well-formed span.
    pub open spec fn wf(self) -> bool {
        parts_wf(self.seconds as int, self.nanoseconds as int)
    }
}

impl View for Duration {
    type V = int;

    /// The length of the span in nanoseconds.
    open spec fn view(&self) -> int {
        self.seconds * NANOS_PER_SECOND + self.nanoseconds
    }
}

/// `time::Duration::seconds`, read back as (whole seconds, nanoseconds):
/// a span of exactly `seconds` seconds.
#[verifier::external_body]
fn time_duration_seconds(seconds: i64) -> (parts: (i64, i32))
    ensures
        parts == (seconds, 0i32),
{
    let d = time::Duration::seconds(seconds);
    (d.whole_seconds(), d.subsec_nanoseconds())
}

/// `time::Duration::minutes`, read back as (whole seconds, nanoseconds):
/// `minutes * 60` seconds. It panics where that product overflows `i64`.
#[verifier::external_body]
fn time_duration_minutes(minutes: i64) -> (parts: (i64, i32))
    requires
        i64::MIN <= minutes * 60 <= i64::MAX,
    ensures
        parts == ((minutes * 60) as i64, 0i32),
{
    let d = time::Duration::minutes(minutes);
    (d.whole_seconds(), d.subsec_nanoseconds())
}

/// `time::Duration::hours`, read back as (whole seconds, nanoseconds):
/// `hours * 3600` seconds. It panics where that product overflows `i64`.
#[verifier::external_body]
fn time_duration_hours(hours: i64) -> (parts: (i64, i32))
    requires
        i64::MIN <= hours * 3600 <= i64::MAX,
    ensures
        parts == ((hours * 3600) as i64, 0i32),
{
    let d = time::Duration::hours(hours);
    (d.whole_seconds(), d.subsec_nanoseconds())
}

impl Duration {
    /// A span of `seconds` whole seconds.
    pub fn seconds(seconds: i64) -> (d: Duration)
        ensures
            d == whole_seconds_span(seconds as int),
            d.wf(),
            d@ == seconds * NANOS_PER_SECOND,
    {
        let (s, n) = time_duration_seconds(seconds);
        Duration { seconds: s, nanoseconds: n }
    }

    /// A span of `minutes` minutes, that is `minutes * 60` seconds.
    pub fn minutes(minutes: i64) -> (d: Duration)
        requires
            i64::MIN <= minutes * 60 <= i64::MAX,
        ensures
            d == whole_seconds_span(minutes * 60),
            d.wf(),
            d@ == minutes * 60 * NANOS_PER_SECOND,
    {
        let (s, n) = time_duration_minutes(minutes);
        Duration { seconds: s, nanoseconds: n }
    }

    /// A span of `hours` hours, that is `hours * 3600` seconds.
    pub fn hours(hours: i64) -> (d: Duration)
        requires
            i64::MIN <= hours * 3600 <= i64::MAX,
        ensures
            d == whole_seconds_span(hours * 3600),
            d.wf(),
            d@ == hours * 3600 * NANOS_PER_SECOND,
    {
        let (s, n) = time_duration_hours(hours);
        Duration { seconds: s, nanoseconds: n }
    }

    /// The span with the given parts, where they form a well-formed span
    /// (as the parts that `time::Duration` reports of any of its values do).
    pub fn from_parts(seconds: i64, nanoseconds: i32) -> (d: Option<Duration>)
        ensures
            d.is_some() <==> parts_wf(seconds as int, nanoseconds as int),
            d matches Some(d) ==> d == (Duration { seconds, nanoseconds }),
    {
        let ok = -1_000_000_000i32 < nanoseconds && nanoseconds < 1_000_000_000i32
            && (seconds <= 0 || nanoseconds >= 0) && (seconds >= 0 || nanoseconds <= 0);
        if ok {
            Some(Duration { seconds, nanoseconds })
        } else {
            None
        }
    }
}

/// An hour is sixty minutes: the span that `Duration::hours(h)` gives is the
/// one that `Duration::minutes(h * 60)` gives, and a minute is sixty seconds.
pub proof fn lemma_hours_are_sixty_minutes(h: int)
    requires
        i64::MIN <= h * 3600 <= i64::MAX,
    ensures
        whole_seconds_span(h * 3600) == whole_seconds_span((h * 60) * 60),
        (whole_seconds_span(h * 3600))@ == h * 3600 * NANOS_PER_SECOND,
{
}

} // verus!
