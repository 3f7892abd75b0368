use vstd::prelude::*;

use core::cmp::Ordering;
use core::time::Duration;

verus! {

/// The number of whole seconds in a duration; any fraction of a second is
/// dropped.
pub uninterp spec fn whole_secs(d: Duration) -> u64;

/// Relies on `Duration::as_secs`: the whole seconds of the duration, the
/// fraction discarded.
pub assume_specification[ core::time::Duration::as_secs ](d: &Duration) -> (r: u64)
    ensures
        r == whole_secs(*d),
;

/// Relies on `SystemTime::now` and `SystemTime::duration_since`: the time
/// elapsed since the Unix epoch by the system clock, or `None` where the clock
/// reads a time before the epoch. Each call reads the clock anew.
#[verifier::external_body]
fn system_clock_since_epoch() -> (r: Option<Duration>) {
    std::time::SystemTime::now().duration_since(std::time::SystemTime::UNIX_EPOCH).ok()
}

/// A timestamp: the number of non-leap seconds since the Unix epoch,
/// January 1, 1970 00:00:00 UTC.
#[derive(Debug, Clone, Copy, PartialEq, Eq, Structural)]
pub struct UnixTime(u64);

impl View for UnixTime {
    type V = u64;

    closed spec fn view(&self) -> u64 {
        self.0
    }
}

impl UnixTime {
    /// The current time, read from the system clock.
    ///
    /// A clock that reads a time before the epoch gives the epoch itself.
    pub fn now() -> (r: Self)
        ensures
            r@ == 0 || exists|d: Duration| r@ == whole_secs(d),
    {
        match system_clock_since_epoch() {
            Some(d) => UnixTime::since_unix_epoch(d),
            None => UnixTime(0),
        }
    }

    /// The time `duration` after the Unix epoch, to the whole second: any
    /// fraction of a second is dropped, not rounded.
    pub fn since_unix_epoch(duration: Duration) -> (r: Self)
        ensures
            r@ == whole_secs(duration),
    {
        UnixTime(duration.as_secs())
    }

    /// Number of seconds since the Unix epoch.
    pub fn as_secs(&self) -> (r: u64)
        ensures
            r == self@,
    {
        self.0
    }
}

/// How two second counts compare as numbers.
pub open spec fn numeric_order(a: u64, b: u64) -> Ordering {
    if a < b {
        Ordering::Less
    } else if a > b {
        Ordering::Greater
    } else {
        Ordering::Equal
    }
}

impl PartialOrd for UnixTime {
    fn partial_cmp(&self, other: &UnixTime) -> (r: Option<Ordering>)
        ensures
            r == Some(numeric_order(self@, other@)),
    {
        if self.0 < other.0 {
            Some(Ordering::Less)
        } else if self.0 > other.0 {
            Some(Ordering::Greater)
        } else {
            Some(Ordering::Equal)
        }
    }
}

impl vstd::std_specs::cmp::PartialOrdSpecImpl for UnixTime {
    open spec fn obeys_partial_cmp_spec() -> bool {
        true
    }

    open spec fn partial_cmp_spec(&self, other: &UnixTime) -> Option<Ordering> {
        Some(numeric_order(self@, other@))
    }
}

} // verus!
