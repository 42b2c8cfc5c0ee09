//! When the next fetch is due.
//!
//! A fetch is due once more time than the configured interval has passed
//! since the last one: at exactly the interval it is not yet due, at any
//! time after it it is. Time is counted in milliseconds since the Unix
//! epoch, the interval in seconds.

use chrono::TimeDelta;
use humanize_duration::prelude::DurationExt;
use humanize_duration::Truncate;
use vstd::prelude::*;

verus! {

/// The largest number of milliseconds, before or after the epoch, that a
/// timestamp holds. Two timestamps then differ by a number that fits `i64`.
pub const MAX_MILLIS: i64 = 4_611_686_018_427_387_903;

/// Whether a number of milliseconds can be a timestamp.
pub open spec fn in_range(millis: int) -> bool {
    -MAX_MILLIS <= millis <= MAX_MILLIS
}

/// The whole seconds in a number of milliseconds, rounded towards zero.
pub open spec fn whole_seconds(millis: int) -> int {
    if millis >= 0 {
        millis / 1000
    } else {
        -((-millis) / 1000)
    }
}

/// Whether a fetch is due at `now`, where the last one was at `last`, both
/// in milliseconds: whether more than `interval` seconds have passed.
pub open spec fn due(now: int, last: int, interval: int) -> bool {
    now - last > interval * 1000
}

/// What `humanize_duration` writes for a `chrono::TimeDelta` of so many
/// milliseconds, cut off at the seconds.
pub uninterp spec fn humanized(millis: i64) -> Seq<char>;

/// A point in time.
#[derive(Clone, Copy, Debug)]
pub struct Timestamp {
    millis: i64,
}

impl Timestamp {
    #[verifier::type_invariant]
    closed spec fn bounded(self) -> bool {
        in_range(self.millis as int)
    }

    /// The milliseconds since the epoch.
    pub closed spec fn value(self) -> int {
        self.millis as int
    }

    /// The timestamp of so many milliseconds since the epoch, if there is one.
    pub fn from_millis(millis: i64) -> (timestamp: Option<Timestamp>)
        ensures
            timestamp is Some <==> in_range(millis as int),
            timestamp is Some ==> timestamp.unwrap().value() == millis,
    {
        if -MAX_MILLIS <= millis && millis <= MAX_MILLIS {
            Some(Timestamp { millis })
        } else {
            None
        }
    }

    /// The milliseconds since the epoch.
    pub fn millis(&self) -> (millis: i64)
        ensures
            millis == self.value(),
            in_range(millis as int),
    {
        proof {
            use_type_invariant(self);
        }
        self.millis
    }
}

/// Calls `chrono`'s `TimeDelta::milliseconds` and then `num_seconds` on what
/// it gives. Claims what their documentation says: the first takes every
/// number but `i64::MIN`, the second gives the whole seconds of the
/// duration, rounded towards zero.
#[verifier::external_body]
fn seconds_in(millis: i64) -> (seconds: i64)
    requires
        millis >= -i64::MAX,
    ensures
        seconds == whole_seconds(millis as int),
{
    TimeDelta::milliseconds(millis).num_seconds()
}

/// Calls `humanize_duration`'s `human` with `Truncate::Second` on the
/// `chrono::TimeDelta` of so many milliseconds, and writes it out. Claims
/// only that the text depends on the number alone.
#[verifier::external_body]
fn humanize(millis: i64) -> (text: String)
    requires
        millis >= -i64::MAX,
    ensures
        text@ == humanized(millis),
{
    TimeDelta::milliseconds(millis).human(Truncate::Second).to_string()
}

/// The milliseconds from `last` to `now`; negative where `now` is the
/// earlier one.
pub fn elapsed_millis(now: Timestamp, last: Timestamp) -> (millis: i64)
    ensures
        millis == now.value() - last.value(),
        millis >= -i64::MAX,
{
    proof {
        use_type_invariant(now);
        use_type_invariant(last);
    }
    now.millis - last.millis
}

/// Whether a fetch is due at `now`, where the last one was at `last` and the
/// interval is `interval` seconds.
pub fn is_due(now: Timestamp, last: Timestamp, interval: i64) -> (yes: bool)
    ensures
        yes == due(now.value(), last.value(), interval as int),
{
    let elapsed = elapsed_millis(now, last);
    let seconds = seconds_in(elapsed);
    seconds > interval || (seconds == interval && elapsed > seconds * 1000)
}

/// The time from `last` to `now` in words, cut off at the seconds.
pub fn elapsed_text(now: Timestamp, last: Timestamp) -> (text: String)
    ensures
        text@ == humanized((now.value() - last.value()) as i64),
{
    humanize(elapsed_millis(now, last))
}

/// A fetch is not yet due when exactly the interval has passed, and is due
/// one second later, as it is at any time after the interval.
pub proof fn lemma_due_is_strict(now: int, last: int, interval: int)
    ensures
        now - last == interval * 1000 ==> !due(now, last, interval),
        now - last == (interval + 1) * 1000 ==> due(now, last, interval),
        now - last > interval * 1000 ==> due(now, last, interval),
        now - last <= interval * 1000 ==> !due(now, last, interval),
{
}

} // verus!
