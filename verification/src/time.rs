//! Points in time on a monotonic clock, as plain nanosecond counts.

use vstd::prelude::*;

verus! {

/// Nanoseconds in one second.
pub const NANOS_PER_SECOND: u128 = 1_000_000_000;

/// A point in time: whole nanoseconds since the origin of a monotonic clock.
#[derive(Clone, Copy, Debug, PartialEq, Eq, Structural)]
pub struct Timestamp {
    pub nanos: u128,
}

impl View for Timestamp {
    type V = nat;

    open spec fn view(&self) -> nat {
        self.nanos as nat
    }
}

/// The time that has passed at `now` since `since`, in nanoseconds; zero when
/// `now` lies before `since`.
pub open spec fn elapsed(now: nat, since: nat) -> nat {
    if now >= since {
        (now - since) as nat
    } else {
        0
    }
}

/// A whole number of seconds, in nanoseconds.
pub open spec fn seconds(secs: nat) -> nat {
    secs * 1_000_000_000
}

/// Nanoseconds in `secs` seconds.
pub fn seconds_to_nanos(secs: u64) -> (nanos: u128)
    ensures
        nanos == seconds(secs as nat),
{
    (secs as u128) * NANOS_PER_SECOND
}

impl Timestamp {
    /// The point `nanos` nanoseconds after the clock's origin.
    pub fn from_nanos(nanos: u128) -> (t: Timestamp)
        ensures
            t@ == nanos,
    {
        Timestamp { nanos }
    }

    /// The point `secs` seconds after the clock's origin.
    pub fn from_secs(secs: u64) -> (t: Timestamp)
        ensures
            t@ == seconds(secs as nat),
    {
        Timestamp { nanos: seconds_to_nanos(secs) }
    }

    /// Nanoseconds since the clock's origin.
    pub fn as_nanos(&self) -> (nanos: u128)
        ensures
            nanos == self@,
    {
        self.nanos
    }

    /// The point `secs` seconds after this one, or `None` where that point
    /// cannot be represented.
    pub fn checked_add_secs(&self, secs: u64) -> (later: Option<Timestamp>)
        ensures
            self@ + seconds(secs as nat) <= u128::MAX ==> later is Some && later->0@ == self@
                + seconds(secs as nat),
            self@ + seconds(secs as nat) > u128::MAX ==> later is None,
    {
        let span: u128 = seconds_to_nanos(secs);
        if span <= u128::MAX - self.nanos {
            Some(Timestamp { nanos: self.nanos + span })
        } else {
            None
        }
    }

    /// Nanoseconds from `earlier` to this point; zero when `earlier` is the
    /// later of the two.
    pub fn nanos_since(&self, earlier: Timestamp) -> (nanos: u128)
        ensures
            nanos == elapsed(self@, earlier@),
    {
        if self.nanos >= earlier.nanos {
            self.nanos - earlier.nanos
        } else {
            0
        }
    }
}

/// `std::time::Instant`, carried through as an opaque value.
#[verifier::external_type_specification]
#[verifier::external_body]
pub struct ExInstant(std::time::Instant);

/// Calls `std::time::Instant::now`. The reading depends on the machine's
/// clock, so nothing is claimed of it.
#[verifier::external_body]
pub(crate) fn instant_now() -> (now: std::time::Instant) {
    std::time::Instant::now()
}

/// Calls `std::time::Instant::elapsed`. The result depends on the machine's
/// clock, so nothing is claimed of it.
#[verifier::external_body]
pub(crate) fn instant_elapsed(origin: &std::time::Instant) -> (span: std::time::Duration) {
    origin.elapsed()
}

/// Calls `std::time::Duration::as_nanos`. A duration is opaque here, so
/// nothing is claimed of the count.
#[verifier::external_body]
pub(crate) fn duration_as_nanos(span: &std::time::Duration) -> (nanos: u128) {
    span.as_nanos()
}

} // verus!
