//! The wall clock, in whole seconds since the Unix epoch.
//!
//! A clock reading is held as plain values: the whole seconds and the
//! nanoseconds since the epoch, or none when the clock reads a time before it.
use vstd::prelude::*;

verus! {

#[verifier::external_type_specification]
#[verifier::external_body]
pub struct ExSystemTime(std::time::SystemTime);

/// Relies on `SystemTime::now`: it reads the clock, so nothing is known of its value.
pub assume_specification[ std::time::SystemTime::now ]() -> std::time::SystemTime;

/// A well-formed reading: the nanoseconds are less than one second.
pub open spec fn valid_reading(reading: Option<(u64, u32)>) -> bool {
    match reading {
        Some((_, nanos)) => nanos < 1_000_000_000,
        None => true,
    }
}

/// The whole seconds of a reading; none for a reading before the epoch.
pub open spec fn epoch_seconds_of(reading: Option<(u64, u32)>) -> Option<u64> {
    match reading {
        Some((secs, _)) => Some(secs),
        None => None,
    }
}

/// Whether reading `a` is no later than reading `b` (a reading before the
/// epoch comes first).
pub open spec fn reading_le(a: Option<(u64, u32)>, b: Option<(u64, u32)>) -> bool {
    match (a, b) {
        (None, _) => true,
        (Some(_), None) => false,
        (Some((sa, na)), Some((sb, nb))) => sa < sb || (sa == sb && na <= nb),
    }
}

/// Relies on `SystemTime::duration_since(UNIX_EPOCH)`: the time elapsed since
/// the epoch as whole seconds (`Duration::as_secs`) and the nanoseconds past
/// them (`Duration::subsec_nanos`, less than one second), or `None` when `t`
/// is before the epoch.
#[verifier::external_body]
fn since_epoch(t: &std::time::SystemTime) -> (r: Option<(u64, u32)>)
    ensures
        valid_reading(r),
{
    t.duration_since(std::time::UNIX_EPOCH).ok().map(|d| (d.as_secs(), d.subsec_nanos()))
}

/// Reads the clock as the time elapsed since the Unix epoch.
pub fn read_clock() -> (r: Option<(u64, u32)>)
    ensures
        valid_reading(r),
{
    let now = std::time::SystemTime::now();
    since_epoch(&now)
}

/// The whole seconds of a reading, the fraction dropped; `None` exactly for
/// a reading before the epoch.
pub fn epoch_seconds(reading: Option<(u64, u32)>) -> (r: Option<u64>)
    ensures
        r == epoch_seconds_of(reading),
{
    match reading {
        Some((secs, _)) => Some(secs),
        None => None,
    }
}

/// The current time in whole seconds since the Unix epoch, or `None` when the
/// clock reads a time before the epoch.
pub fn get_epoch_time() -> (r: Option<u64>)
    ensures
        exists|reading: Option<(u64, u32)>| valid_reading(reading) && r == epoch_seconds_of(reading),
{
    let reading = read_clock();
    epoch_seconds(reading)
}

/// Later readings never give fewer seconds: connections that start later
/// never name their log files with an earlier second.
pub proof fn lemma_epoch_seconds_monotone(a: Option<(u64, u32)>, b: Option<(u64, u32)>)
    requires
        reading_le(a, b),
        a is Some,
    ensures
        epoch_seconds_of(b) is Some,
        epoch_seconds_of(a)->0 <= epoch_seconds_of(b)->0,
{
}

} // verus!
