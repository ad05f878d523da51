//! Clock access: the two places the library reads the machine's clock.
//! Both go through trusted wrappers; everything computed from what they
//! return is verified.

use vstd::prelude::*;

use chrono::Datelike;
use chrono::Timelike;

use crate::codec::date_valid;
use crate::codec::datetime_valid;
use crate::codec::Date;
use crate::codec::DateTime;

verus! {

/// Gets the current timestamp in milliseconds since the UNIX epoch.
///
/// Relies on `std::time::SystemTime::now` and `duration_since`; nothing
/// can be promised of a clock reading. Panics if the system time is
/// before the UNIX epoch, as the underlying `duration_since` reports.
#[verifier::external_body]
pub fn current_timestamp_millis() -> u128 {
    std::time::SystemTime::now()
        .duration_since(std::time::UNIX_EPOCH)
        .expect("system time is before the UNIX epoch")
        .as_millis()
}

/// Reads the current instant in the fixed UTC+8 offset, split into
/// civil fields: year, month, day, hour, minute, second.
///
/// Relies on chrono's `Utc::now` and `with_timezone`; the field ranges
/// are the ones chrono documents for `Datelike` and `Timelike` (a leap
/// second is carried in the nanosecond field, so seconds stay below 60).
/// Nothing more can be promised of a clock reading.
#[verifier::external_body]
fn now_civil_cst() -> (r: (i64, u32, u32, u32, u32, u32))
    ensures
        1 <= r.1 <= 12,
        1 <= r.2 <= 31,
        r.3 <= 23,
        r.4 <= 59,
        r.5 <= 59,
{
    let tz = chrono::FixedOffset::east_opt(28800).unwrap();
    let now = chrono::Utc::now().with_timezone(&tz);
    (now.year() as i64, now.month(), now.day(), now.hour(), now.minute(), now.second())
}

/// The raw civil fields `(y, mo, dy)` form a valid date in the
/// encodable year range.
pub open spec fn civil_date_in_range(y: int, mo: u32, dy: u32) -> bool {
    0 <= y <= 9999 && date_valid(Date { year: y as u32, month: mo, day: dy })
}

/// Packs raw civil date fields into a [`Date`]: fields that form a
/// valid date in the encodable year range pass through unchanged;
/// anything else falls back to the UNIX epoch date.
pub fn civil_to_date(y: i64, mo: u32, dy: u32) -> (d: Date)
    ensures
        civil_date_in_range(y as int, mo, dy) ==> d == (Date { year: y as u32, month: mo, day: dy }),
        !civil_date_in_range(y as int, mo, dy) ==> d == (Date { year: 1970, month: 1, day: 1 }),
        date_valid(d),
{
    if 0 <= y && y <= 9999 {
        let d = Date { year: y as u32, month: mo, day: dy };
        if crate::codec::check_date_valid(&d) {
            return d;
        }
    }
    Date { year: 1970, month: 1, day: 1 }
}

/// The raw civil fields form a valid datetime in the encodable year
/// range.
pub open spec fn civil_datetime_in_range(
    y: int,
    mo: u32,
    dy: u32,
    h: u32,
    mi: u32,
    s: u32,
) -> bool {
    0 <= y <= 9999 && datetime_valid(
        DateTime { date: Date { year: y as u32, month: mo, day: dy }, hour: h, minute: mi, second: s },
    )
}

/// Packs raw civil datetime fields into a [`DateTime`]: fields that
/// form a valid datetime in the encodable year range pass through
/// unchanged; anything else falls back to the UNIX epoch midnight.
pub fn civil_to_datetime(y: i64, mo: u32, dy: u32, h: u32, mi: u32, s: u32) -> (t: DateTime)
    ensures
        civil_datetime_in_range(y as int, mo, dy, h, mi, s) ==> t == (DateTime {
            date: Date { year: y as u32, month: mo, day: dy },
            hour: h,
            minute: mi,
            second: s,
        }),
        !civil_datetime_in_range(y as int, mo, dy, h, mi, s) ==> t == (DateTime {
            date: Date { year: 1970, month: 1, day: 1 },
            hour: 0,
            minute: 0,
            second: 0,
        }),
        datetime_valid(t),
{
    if 0 <= y && y <= 9999 {
        let t = DateTime {
            date: Date { year: y as u32, month: mo, day: dy },
            hour: h,
            minute: mi,
            second: s,
        };
        if crate::codec::check_datetime_valid(&t) {
            return t;
        }
    }
    DateTime { date: Date { year: 1970, month: 1, day: 1 }, hour: 0, minute: 0, second: 0 }
}

/// Today: the current instant converted into the fixed UTC+8 offset,
/// date part only — the default query date when the caller gives none.
/// The clock's civil fields go through [`civil_to_date`], whose
/// contract fixes the result for each reading.
pub fn get_today() -> (d: Date)
    ensures
        date_valid(d),
{
    let (y, mo, dy, _h, _mi, _s) = now_civil_cst();
    civil_to_date(y, mo, dy)
}

/// The current wall-clock datetime in the fixed UTC+8 offset. The
/// clock's civil fields go through [`civil_to_datetime`], whose
/// contract fixes the result for each reading.
pub fn now_datetime_cst() -> (t: DateTime)
    ensures
        datetime_valid(t),
{
    let (y, mo, dy, h, mi, s) = now_civil_cst();
    civil_to_datetime(y, mo, dy, h, mi, s)
}

} // verus!
