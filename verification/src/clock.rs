//! The current server-local time, read through chrono.

use vstd::prelude::*;

use chrono::Datelike;
use chrono::Timelike;

use crate::timestamp::Timestamp;

verus! {

/// Relies on chrono's `Local::now` and its `Datelike`/`Timelike` accessors:
/// `month` ranges over 1..=12, `day` over 1..=31, `hour` over 0..=23,
/// `minute` and `second` over 0..=59. Nothing is promised of the year: the
/// result depends on the wall clock.
#[verifier::external_body]
pub(crate) fn now_local() -> (r: Timestamp)
    ensures
        r.wf(),
{
    let t = chrono::Local::now().naive_local();
    Timestamp {
        year: t.year(),
        month: t.month() as u8,
        day: t.day() as u8,
        hour: t.hour() as u8,
        minute: t.minute() as u8,
        second: t.second() as u8,
    }
}

} // verus!
