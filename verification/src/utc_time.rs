//! Instants on the UTC time line, as whole seconds since the Unix epoch plus
//! a sub-second part in nanoseconds: the shape in which `chrono` hands out a
//! `DateTime<Utc>`. Every `UtcTime` is an instant that `chrono` can represent.
use vstd::prelude::*;

verus! {

/// Nanoseconds in one second.
pub const NANOS_PER_SEC: u32 = 1_000_000_000;

/// Whether `chrono` represents the instant `secs` seconds after the epoch plus
/// `nanos` nanoseconds as a `DateTime<Utc>` (within its range of years, and
/// with a sub-second part past one second only inside a leap second).
pub uninterp spec fn chrono_instant(secs: i64, nanos: u32) -> bool;

/// The whole seconds that `chrono` counts from the second instant to the
/// first (`signed_duration_since(..).num_seconds()`), leap seconds included.
pub uninterp spec fn chrono_whole_seconds(later_secs: i64, later_nanos: u32, earlier_secs: i64, earlier_nanos: u32) -> int;

/// `DateTime::<Utc>::from_timestamp(secs, nanos).is_some()`.
#[verifier::external_body]
fn chrono_accepts(secs: i64, nanos: u32) -> (b: bool)
    ensures
        b == chrono_instant(secs, nanos),
{
    chrono::DateTime::from_timestamp(secs, nanos).is_some()
}

/// `DateTime::signed_duration_since` followed by `TimeDelta::num_seconds`, on
/// the two instants rebuilt with `DateTime::<Utc>::from_timestamp` (which the
/// precondition makes succeed).
#[verifier::external_body]
fn chrono_seconds_since(later_secs: i64, later_nanos: u32, earlier_secs: i64, earlier_nanos: u32) -> (s: i64)
    requires
        chrono_instant(later_secs, later_nanos),
        chrono_instant(earlier_secs, earlier_nanos),
    ensures
        s == chrono_whole_seconds(later_secs, later_nanos, earlier_secs, earlier_nanos),
{
    let later = chrono::DateTime::from_timestamp(later_secs, later_nanos).unwrap();
    let earlier = chrono::DateTime::from_timestamp(earlier_secs, earlier_nanos).unwrap();
    later.signed_duration_since(earlier).num_seconds()
}

/// An instant: `secs` whole seconds after the Unix epoch (negative before it)
/// plus `nanos` nanoseconds.
#[derive(Copy, Clone, Debug, PartialEq, Eq, Structural)]
pub struct UtcTime {
    secs: i64,
    nanos: u32,
}

/// The whole seconds elapsed from `earlier` to `later`, rounded toward zero
/// (negative when `later` precedes `earlier`), as `chrono` counts them.
pub open spec fn seconds_between(later: UtcTime, earlier: UtcTime) -> int {
    chrono_whole_seconds(later.spec_secs(), later.spec_nanos(), earlier.spec_secs(), earlier.spec_nanos())
}

impl UtcTime {
    #[verifier::type_invariant]
    spec fn representable(self) -> bool {
        chrono_instant(self.secs, self.nanos)
    }

    /// The whole seconds since the epoch.
    pub closed spec fn spec_secs(self) -> i64 {
        self.secs
    }

    /// The nanoseconds past `spec_secs`.
    pub closed spec fn spec_nanos(self) -> u32 {
        self.nanos
    }

    /// The instant `secs` seconds after the epoch plus `nanos` nanoseconds, or
    /// `None` where `chrono` has no such instant.
    pub fn new(secs: i64, nanos: u32) -> (r: Option<UtcTime>)
        ensures
            r is Some <==> chrono_instant(secs, nanos),
            r matches Some(t) ==> t.spec_secs() == secs && t.spec_nanos() == nanos,
    {
        if chrono_accepts(secs, nanos) {
            Some(UtcTime { secs, nanos })
        } else {
            None
        }
    }

    /// The whole seconds since the epoch.
    pub fn secs(&self) -> (s: i64)
        ensures
            s == self.spec_secs(),
    {
        self.secs
    }

    /// The nanoseconds past `secs`.
    pub fn nanos(&self) -> (n: u32)
        ensures
            n == self.spec_nanos(),
    {
        self.nanos
    }

    /// The whole seconds elapsed since `earlier`, rounded toward zero.
    pub fn whole_seconds_since(&self, earlier: &UtcTime) -> (s: i64)
        ensures
            s == seconds_between(*self, *earlier),
    {
        proof {
            use_type_invariant(self);
            use_type_invariant(earlier);
        }
        chrono_seconds_since(self.secs, self.nanos, earlier.secs, earlier.nanos)
    }
}

/// `chrono::Utc::now`, split with `timestamp` and `timestamp_subsec_nanos`. It
/// is read from the system clock as a duration since the epoch, so it is an
/// instant `chrono` represents, not before the epoch and not inside a leap
/// second; which instant it is, is not claimed.
#[verifier::external_body]
fn clock_now() -> (r: (i64, u32))
    ensures
        chrono_instant(r.0, r.1),
        r.0 >= 0,
        r.1 < NANOS_PER_SEC,
{
    let now = chrono::Utc::now();
    (now.timestamp(), now.timestamp_subsec_nanos())
}

/// The current instant.
pub(crate) fn current_time() -> (t: UtcTime)
    ensures
        t.spec_secs() >= 0,
        t.spec_nanos() < NANOS_PER_SEC,
{
    let (secs, nanos) = clock_now();
    UtcTime { secs, nanos }
}

} // verus!
