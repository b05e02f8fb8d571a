//! The calendar view of an observation timestamp: its UTC calendar year, and
//! its human-readable `YYYY-MM-DD HH:MM:SS` rendering. Both are computed by
//! chrono and trusted at their contracts.
use vstd::prelude::*;

verus! {

/// Earliest observation timestamp the library accepts:
/// 0001-01-01 00:00:00 UTC, in epoch seconds.
pub const MIN_EPOCH: i64 = -62135596800;

/// Latest observation timestamp the library accepts:
/// 2999-12-31 23:59:59 UTC, in epoch seconds.
pub const MAX_EPOCH: i64 = 32503679999;

/// The timestamps this library can place on the calendar: the years 1
/// through 2999. chrono accepts a far wider range; real weather readings
/// fall well inside this one, and a payload outside it is treated as
/// malformed.
pub open spec fn epoch_in_range(epoch: int) -> bool {
    MIN_EPOCH <= epoch <= MAX_EPOCH
}

/// Whether an observation timestamp can be placed on the calendar.
pub fn epoch_ok(epoch: i64) -> (b: bool)
    ensures
        b == epoch_in_range(epoch as int),
{
    MIN_EPOCH <= epoch && epoch <= MAX_EPOCH
}

/// The UTC calendar year containing the instant `epoch` seconds after the
/// Unix epoch. A fixed function of the timestamp alone; chrono computes it.
pub uninterp spec fn utc_year_of(epoch: int) -> int;

/// The `YYYY-MM-DD HH:MM:SS` rendering of the UTC instant `epoch` seconds
/// after the Unix epoch. A fixed function of the timestamp alone; chrono
/// computes it.
pub uninterp spec fn utc_text_of(epoch: int) -> Seq<char>;

/// Relies on chrono's `DateTime::<Utc>::from_timestamp` and
/// `Datelike::year`: every epoch between `MIN_EPOCH` and `MAX_EPOCH` lies
/// within chrono's representable range, so the conversion succeeds, and the
/// year of an instant between 0001-01-01 and 2999-12-31 is between 1
/// and 2999.
#[verifier::external_body]
pub(crate) fn utc_year(epoch: i64) -> (y: i32)
    requires
        epoch_in_range(epoch as int),
    ensures
        y as int == utc_year_of(epoch as int),
        1 <= y <= 2999,
{
    let dt = chrono::DateTime::<chrono::Utc>::from_timestamp(epoch, 0)
        .expect("timestamp within the supported range");
    chrono::Datelike::year(&dt)
}

/// Relies on chrono's `DateTime::<Utc>::from_timestamp` and its `format`
/// with the pattern `%Y-%m-%d %H:%M:%S`: for an epoch between `MIN_EPOCH`
/// and `MAX_EPOCH` the conversion succeeds, and the formatted text is a
/// fixed function of the timestamp alone.
#[verifier::external_body]
pub(crate) fn utc_text(epoch: i64) -> (s: String)
    requires
        epoch_in_range(epoch as int),
    ensures
        s@ == utc_text_of(epoch as int),
{
    let dt = chrono::DateTime::<chrono::Utc>::from_timestamp(epoch, 0)
        .expect("timestamp within the supported range");
    dt.format("%Y-%m-%d %H:%M:%S").to_string()
}

} // verus!
