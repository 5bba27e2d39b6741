use vstd::prelude::*;

verus! {

#[verifier::external_type_specification]
#[verifier::external_body]
pub struct ExInstant(std::time::Instant);

/// Reads the monotonic clock (`std::time::Instant::now`). Nothing is claimed of the value.
#[verifier::external_body]
pub fn now() -> (t: std::time::Instant) {
    std::time::Instant::now()
}

/// Time elapsed since `t` (`std::time::Instant::elapsed`). The value depends on the clock,
/// so nothing is claimed of it.
#[verifier::external_body]
pub fn elapsed(t: &std::time::Instant) -> (d: std::time::Duration) {
    t.elapsed()
}

/// The whole seconds read from the clock, in the order they were read: a record, kept for
/// proofs only, of every value that [`whole_secs`] hands to a caller holding it.
pub struct ClockReadings {
    secs: Ghost<Seq<u64>>,
}

impl View for ClockReadings {
    type V = Seq<u64>;

    closed spec fn view(&self) -> Seq<u64> {
        self.secs@
    }
}

impl ClockReadings {
    /// A record with nothing read yet.
    pub fn new() -> (r: Self)
        ensures
            r@ == Seq::<u64>::empty(),
    {
        ClockReadings { secs: Ghost(Seq::empty()) }
    }
}

/// Whole seconds of a duration (`std::time::Duration::as_secs`). The duration is opaque
/// here, so nothing is claimed of the value beyond its type; the value is appended to
/// `readings`, and this call is the only place where that record grows.
#[verifier::external_body]
pub fn whole_secs(d: &std::time::Duration, readings: &mut ClockReadings) -> (s: u64)
    ensures
        final(readings)@ == old(readings)@.push(s),
{
    d.as_secs()
}

/// Whole seconds elapsed since `t`, appended to `readings`.
pub fn elapsed_secs(t: &std::time::Instant, readings: &mut ClockReadings) -> (s: u64)
    ensures
        final(readings)@ == old(readings)@.push(s),
{
    let d = elapsed(t);
    whole_secs(&d, readings)
}

} // verus!
