//! Wall-clock time as Unix milliseconds.

use core::time::Duration;
use std::time::SystemTime;
use std::time::SystemTimeError;

use vstd::prelude::*;

verus! {

/// A reading of the system clock.
#[verifier::external_type_specification]
#[verifier::external_body]
pub struct ExSystemTime(SystemTime);

/// What the standard library answers when a reading lies before the time that it is
/// measured from.
#[verifier::external_type_specification]
#[verifier::external_body]
pub struct ExSystemTimeError(SystemTimeError);

/// How far a clock reading lies after the Unix epoch; nothing for one before it.
pub uninterp spec fn since_epoch(reading: SystemTime) -> Option<Duration>;

/// The number of nanoseconds in a span of time, as `Duration::as_nanos` tells it.
pub uninterp spec fn whole_nanos(span: Duration) -> u128;

/// `SystemTime::now`: a reading of the system clock. Nothing is claimed of which one.
pub assume_specification[ SystemTime::now ]() -> SystemTime
;

/// `SystemTime::duration_since` the Unix epoch: it succeeds with the span that the
/// reading determines, and fails where the reading determines none.
#[verifier::external_body]
fn duration_since_epoch(reading: SystemTime) -> (span: Result<Duration, SystemTimeError>)
    ensures
        match span {
            Ok(d) => since_epoch(reading) == Some(d),
            Err(_) => since_epoch(reading) is None,
        },
{
    reading.duration_since(std::time::UNIX_EPOCH)
}

/// `Duration::as_millis`: the number of whole milliseconds in `span`, that is, its
/// nanoseconds divided by a million and rounded down.
pub assume_specification[ Duration::as_millis ](span: &Duration) -> (millis: u128)
    ensures
        millis == whole_nanos(*span) / 1_000_000,
;

/// The low 64 bits of a count of milliseconds since the epoch; zero where there is
/// none.
pub open spec fn unix_millis_of(since: Option<u128>) -> u64 {
    match since {
        Some(millis) => (millis % 0x1_0000_0000_0000_0000) as u64,
        None => 0,
    }
}

/// The Unix milliseconds of a clock reading.
pub open spec fn unix_millis_at(reading: SystemTime) -> u64 {
    unix_millis_of(
        match since_epoch(reading) {
            Some(span) => Some(whole_nanos(span) / 1_000_000),
            None => None,
        },
    )
}

/// The Unix milliseconds for a count of milliseconds since the epoch. A clock that
/// stands before the epoch gives no count and reads as zero.
pub fn unix_millis(since: Option<u128>) -> (millis: u64)
    ensures
        millis == unix_millis_of(since),
{
    match since {
        Some(count) => (count % 0x1_0000_0000_0000_0000) as u64,
        None => 0,
    }
}

/// The Unix milliseconds of a clock reading.
pub fn unix_millis_of_reading(reading: SystemTime) -> (millis: u64)
    ensures
        millis == unix_millis_at(reading),
{
    let since: Option<u128> = match duration_since_epoch(reading) {
        Ok(span) => Some(span.as_millis()),
        Err(_) => None,
    };
    unix_millis(since)
}

/// Current wall-clock time as Unix milliseconds.
///
/// The result is the time of one reading of the clock. Which reading that is depends
/// on when the call is made.
pub fn now_unix_millis() -> (millis: u64)
    ensures
        exists|reading: SystemTime| millis == #[trigger] unix_millis_at(reading),
{
    unix_millis_of_reading(SystemTime::now())
}

/// Where a clock reading lies on the time line, in nanoseconds after the epoch. All
/// readings before the epoch come before all others.
pub open spec fn epoch_nanos(reading: SystemTime) -> int {
    match since_epoch(reading) {
        Some(span) => whole_nanos(span) as int,
        None => -1,
    }
}

/// A later reading of the clock gives no smaller time, as long as the count of
/// milliseconds fits in 64 bits.
pub proof fn law_later_reading_gives_no_smaller_time(earlier: SystemTime, later: SystemTime)
    requires
        epoch_nanos(earlier) <= epoch_nanos(later),
        epoch_nanos(later) / 1_000_000 <= u64::MAX,
    ensures
        unix_millis_at(earlier) <= unix_millis_at(later),
{
}

/// A reading that lies a number of milliseconds after another, which is not before the
/// epoch, gives a time that many milliseconds later, as long as the count fits in 64
/// bits.
pub proof fn law_time_passes_by_the_millisecond(
    earlier: SystemTime,
    later: SystemTime,
    millis: nat,
)
    requires
        since_epoch(earlier) is Some,
        epoch_nanos(later) == epoch_nanos(earlier) + millis * 1_000_000,
        epoch_nanos(later) / 1_000_000 <= u64::MAX,
    ensures
        unix_millis_at(later) == unix_millis_at(earlier) + millis,
{
}

/// The time of a reading is its age in milliseconds, rounded down, as long as that fits in
/// 64 bits. A reading before the epoch has the time zero.
pub proof fn law_time_is_the_age_of_the_reading(reading: SystemTime)
    ensures
        since_epoch(reading) is None ==> unix_millis_at(reading) == 0,
        since_epoch(reading) matches Some(age) ==> (whole_nanos(age) / 1_000_000 <= u64::MAX ==> {
            &&& unix_millis_at(reading) * 1_000_000 <= whole_nanos(age)
            &&& whole_nanos(age) < (unix_millis_at(reading) + 1) * 1_000_000
        }),
{
}

/// A count of milliseconds loses nothing but multiples of two to the power of 64.
pub proof fn law_count_keeps_its_low_bits(millis: u128)
    ensures
        unix_millis_of(None) == 0,
        unix_millis_of(Some(millis)) <= millis,
        (millis - unix_millis_of(Some(millis))) % 0x1_0000_0000_0000_0000 == 0,
        millis <= u64::MAX ==> unix_millis_of(Some(millis)) == millis,
{
}

} // verus!
