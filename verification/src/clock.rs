//! The one place the library asks the host what time it is. The outside
//! clock hands back plain fields; everything done with them afterwards is
//! verified.

use crate::timefmt::Timestamp;
use chrono::{Datelike, Timelike};
use vstd::prelude::*;

verus! {

/// The host's current local civil time, as plain fields.
pub struct LocalTime {
    pub year: i32,
    pub month: u32,
    pub day: u32,
    pub hour: u32,
    pub minute: u32,
    pub second: u32,
}

/// Relies on chrono's `Local::now` for the current local time, read out
/// through `Datelike` and `Timelike`, whose documentation bounds the
/// fields: month 1..=12, day 1..=31, hour 0..=23, minute 0..=59,
/// second 0..=59. Nothing is assumed of the year. On a host whose clock
/// stands before the Unix epoch or absurdly far out of range, the
/// underlying call aborts the process rather than returning.
#[verifier::external_body]
pub fn local_now_fields() -> (r: LocalTime)
    ensures
        1 <= r.month <= 12,
        1 <= r.day <= 31,
        r.hour <= 23,
        r.minute <= 59,
        r.second <= 59,
{
    let now = chrono::Local::now();
    LocalTime {
        year: now.year(),
        month: now.month(),
        day: now.day(),
        hour: now.hour(),
        minute: now.minute(),
        second: now.second(),
    }
}

/// Narrows plain clock fields to a well-formed timestamp; fields outside
/// the civil ranges — a year four digits cannot render among them — give
/// nothing.
pub fn timestamp_from_fields(t: &LocalTime) -> (r: Option<Timestamp>)
    ensures
        (0 <= t.year <= 9999 && 1 <= t.month <= 12 && 1 <= t.day <= 31 && t.hour <= 23 && t.minute
            <= 59 && t.second <= 59) <==> r is Some,
        r is Some ==> {
            let ts = r->0;
            &&& ts.wf()
            &&& ts.year as int == t.year as int
            &&& ts.month as int == t.month as int
            &&& ts.day as int == t.day as int
            &&& ts.hour as int == t.hour as int
            &&& ts.minute as int == t.minute as int
            &&& ts.second as int == t.second as int
        },
{
    if t.year < 0 || t.year > 9999 || t.month < 1 || t.month > 12 || t.day < 1 || t.day > 31
        || t.hour > 23 || t.minute > 59 || t.second > 59 {
        None
    } else {
        Some(
            Timestamp {
                year: t.year as u16,
                month: t.month as u8,
                day: t.day as u8,
                hour: t.hour as u8,
                minute: t.minute as u8,
                second: t.second as u8,
            },
        )
    }
}

/// Reads the host clock and narrows it; whatever the clock returned, the
/// result is either absent or a well-formed timestamp.
pub fn current_timestamp() -> (r: Option<Timestamp>)
    ensures
        r is Some ==> r->0.wf(),
{
    let now = local_now_fields();
    timestamp_from_fields(&now)
}

} // verus!
