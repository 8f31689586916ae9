//! Calendar rendering of change times.

use crate::item::DirectoryItem;
use crate::item::ItemView;
use chrono::NaiveDateTime;
use vstd::prelude::*;

verus! {

/// The calendar text of the instant `secs` seconds after the epoch, in UTC,
/// as year, English month abbreviation, day of month, hour and minute;
/// `None` for an instant outside the calendar's range.
pub uninterp spec fn timestamp_text(secs: i64) -> Option<Seq<char>>;

/// Converts epoch seconds with `chrono`: `NaiveDateTime::from_timestamp_opt`
/// with no nanoseconds, which gives `None` outside the range of its
/// calendar, then `NaiveDateTime::format` with `%Y %b %d %H:%M`, written
/// out as a string. The conversion reads no clock, time zone or locale, so
/// its result is the same for the same seconds everywhere.
#[allow(deprecated)]
#[verifier::external_body]
fn format_epoch(secs: i64) -> (r: Option<String>)
    ensures
        match r {
            Some(text) => timestamp_text(secs) == Some(text@),
            None => timestamp_text(secs) is None,
        },
{
    match NaiveDateTime::from_timestamp_opt(secs, 0) {
        Some(moment) => Some(moment.format("%Y %b %d %H:%M").to_string()),
        None => None,
    }
}

impl ItemView {
    /// The rendered change time, where it can be rendered.
    pub open spec fn timestamp(self) -> Option<Seq<char>> {
        timestamp_text(self.time)
    }
}

impl DirectoryItem<'_> {
    /// The change time as calendar text; `None` exactly when it lies
    /// outside the calendar's range.
    pub fn time(&self) -> (r: Option<String>)
        ensures
            match r {
                Some(text) => self@.timestamp() == Some(text@),
                None => self@.timestamp() is None,
            },
    {
        format_epoch(self.time)
    }
}

} // verus!
