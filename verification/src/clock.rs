//! The system clock.
use vstd::prelude::*;
use crate::numbers;

verus! {

/// The clock's milliseconds since the Unix epoch; 0 for a clock set before it.
pub open spec fn millis(clock: Option<(u64, u32)>) -> int {
    match clock {
        Some((secs, nanos)) => secs * 1000 + nanos / 1_000_000,
        None => 0,
    }
}

/// The clock's seconds since the Unix epoch; 0 for a clock set before it.
pub open spec fn seconds(clock: Option<(u64, u32)>) -> nat {
    match clock {
        Some((secs, nanos)) => secs as nat,
        None => 0,
    }
}

/// Reads `SystemTime::now` and takes `duration_since` of the Unix epoch as whole
/// seconds and the nanoseconds beyond them, of which there are fewer than one
/// billion. A clock set before the epoch gives `None`. What the time is, is
/// left open.
#[verifier::external_body]
fn system_clock() -> (r: Option<(u64, u32)>)
    ensures
        r matches Some((secs, nanos)) ==> nanos < 1_000_000_000,
{
    std::time::SystemTime::now().duration_since(std::time::UNIX_EPOCH).ok().map(
        |d| (d.as_secs(), d.subsec_nanos()),
    )
}

/// Turns a clock reading into milliseconds since the Unix epoch.
pub fn millis_of(clock: Option<(u64, u32)>) -> (r: u128)
    ensures
        r == millis(clock),
{
    match clock {
        Some((secs, nanos)) => (secs as u128) * 1000 + ((nanos / 1_000_000) as u128),
        None => 0,
    }
}

/// Turns a clock reading into the time of day, in UTC.
pub fn hms_of(clock: Option<(u64, u32)>) -> (r: String)
    ensures
        r@ == numbers::clock_text(seconds(clock)),
{
    match clock {
        Some((secs, _)) => numbers::hms_text(secs),
        None => numbers::hms_text(0),
    }
}

/// The milliseconds since the Unix epoch.
pub fn now_ms() -> (r: u128)
    ensures
        exists|clock: Option<(u64, u32)>|
            (clock matches Some((secs, nanos)) ==> nanos < 1_000_000_000) && r == #[trigger] millis(
                clock,
            ),
{
    millis_of(system_clock())
}

/// The time of day, in UTC, as `HH:MM:SS`.
pub fn ts_hms() -> (r: String)
    ensures
        exists|clock: Option<(u64, u32)>| r@ == numbers::clock_text(#[trigger] seconds(clock)),
{
    hms_of(system_clock())
}

/// A second has one thousand milliseconds, of which the nanoseconds make up the
/// rest; a clock set before the epoch counts as one that stands at it.
pub proof fn lemma_clock_units(secs: u64, nanos: u32)
    requires
        nanos < 1_000_000_000,
    ensures
        0 <= millis(Some((secs, nanos))) - 1000 * secs < 1000,
        1_000_000 * (millis(Some((secs, nanos))) - 1000 * secs) <= nanos,
        nanos < 1_000_000 * (millis(Some((secs, nanos))) - 1000 * secs + 1),
        seconds(Some((secs, nanos))) == millis(Some((secs, nanos))) / 1000,
        millis(None) == 0,
        seconds(None) == 0,
{
}

} // verus!
