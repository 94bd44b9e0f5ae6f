//! The calls into outside crates that read the clock and draw random numbers.
use rand::Rng;
use vstd::prelude::*;

verus! {

/// The current time in seconds since the Unix epoch.
/// Trusted: `chrono::Utc::now().timestamp()`. It reads the system clock, so
/// only what holds of every reading is stated: `Utc::now` takes the seconds
/// since the epoch from `SystemTime`, which are not negative (it panics on a
/// clock set before the epoch, a state of the machine that no precondition
/// can rule out, and this is left unsaid).
#[verifier::external_body]
pub(crate) fn now_timestamp() -> (r: i64)
    ensures
        r >= 0,
{
    chrono::Utc::now().timestamp()
}

/// A random number in `low..=high`.
/// Trusted: `rand::Rng::gen_range` on `rand::thread_rng()` with an inclusive
/// range, which the crate documents as sampling from that range and as
/// panicking only where the range is empty (`low > high`, ruled out here).
#[verifier::external_body]
pub(crate) fn random_in(low: usize, high: usize) -> (r: usize)
    requires
        low <= high,
    ensures
        low <= r <= high,
{
    rand::thread_rng().gen_range(low..=high)
}

} // verus!
