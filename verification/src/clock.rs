//! The monotonic clock that rooms keep time with.

use std::time::{Duration, Instant};
use vstd::prelude::*;

verus! {

#[verifier::external_type_specification]
#[verifier::external_body]
pub struct ExInstant(Instant);

/// `std::time::Instant::now`: the current reading of the monotonic clock;
/// it depends on the time of the call, so nothing is stated.
#[verifier::external_body]
pub(crate) fn instant_now() -> Instant {
    Instant::now()
}

/// `std::time::Instant::elapsed`: the time since `start`, read from the
/// clock; it depends on the time of the call, so nothing is stated.
#[verifier::external_body]
pub(crate) fn elapsed_since(start: &Instant) -> Duration {
    start.elapsed()
}

/// The numbers of nanoseconds read through it, in order, as ghost state.
/// It starts empty, and only `duration_nanos` adds to it.
pub struct Readings {
    log: Ghost<Seq<u128>>,
}

impl Readings {
    /// The numbers read through it, in order.
    pub closed spec fn all(self) -> Seq<u128> {
        self.log@
    }

    /// A record with nothing read yet.
    pub fn new() -> (r: Readings)
        ensures
            r.all() == Seq::<u128>::empty(),
    {
        Readings { log: Ghost(Seq::empty()) }
    }
}

/// `std::time::Duration::as_nanos`: the whole nanoseconds of `d`. The
/// duration is opaque here, so nothing is stated of the number, except that it
/// is the number read: it joins the record `log`.
#[verifier::external_body]
pub(crate) fn duration_nanos(d: &Duration, log: &mut Readings) -> (r: u128)
    ensures
        final(log).all() == old(log).all().push(r),
{
    d.as_nanos()
}

} // verus!
