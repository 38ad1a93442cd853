//! Reading the wall clock, and writing a timestamp as a date and a time of
//! day.

use chrono::{DateTime, Utc};
use std::time::{Duration, SystemTime, SystemTimeError, UNIX_EPOCH};
use vstd::prelude::*;

verus! {

/// The date and the time of day in UTC that lie `secs` seconds from the Unix
/// epoch, written as year, month and day with hyphens between, a blank, and
/// hour, minute and second with colons between; none for a number of seconds
/// beyond the calendar that the `chrono` crate covers.
pub uninterp spec fn utc_text(secs: i64) -> Option<Seq<char>>;

/// The view of a text that may be absent.
pub open spec fn text_view(text: Option<String>) -> Option<Seq<char>> {
    match text {
        Some(t) => Some(t@),
        None => None,
    }
}

/// `chrono::DateTime::from_timestamp` with no nanoseconds, then `format`
/// with `%Y-%m-%d %H:%M:%S` and `to_string`: the text of [`utc_text`].
#[verifier::external_body]
fn format_utc(secs: i64) -> (text: Option<String>)
    ensures
        text_view(text) == utc_text(secs),
{
    match DateTime::<Utc>::from_timestamp(secs, 0) {
        Some(moment) => Some(moment.format("%Y-%m-%d %H:%M:%S").to_string()),
        None => None,
    }
}

/// Writes a timestamp as a date and a time of day in UTC: see [`utc_text`].
/// A timestamp beyond the range of a signed number of seconds has no text.
pub fn time_text(timestamp: u64) -> (text: Option<String>)
    ensures
        timestamp <= i64::MAX ==> text_view(text) == utc_text(timestamp as i64),
        timestamp > i64::MAX ==> text is None,
{
    if timestamp > i64::MAX as u64 {
        None
    } else {
        format_utc(timestamp as i64)
    }
}

/// `std::time::SystemTime`, a reading of the system clock, carried through
/// as it is.
#[verifier::external_type_specification]
#[verifier::external_body]
pub struct ExSystemTime(SystemTime);

/// `std::time::SystemTimeError`, what a reading before the epoch gives in
/// place of a duration.
#[verifier::external_type_specification]
#[verifier::external_body]
pub struct ExSystemTimeError(SystemTimeError);

/// `SystemTime::now`: the current reading of the system clock. Nothing is
/// claimed of it.
#[verifier::external_body]
fn system_now() -> SystemTime {
    SystemTime::now()
}

/// `SystemTime::duration_since` against `UNIX_EPOCH`: the time elapsed since
/// the epoch, or an error for a reading that lies before it.
#[verifier::external_body]
fn since_unix_epoch(reading: &SystemTime) -> Result<Duration, SystemTimeError> {
    reading.duration_since(UNIX_EPOCH)
}

/// `Duration::as_secs`: the whole seconds that a duration holds.
#[verifier::external_body]
fn whole_seconds(elapsed: &Duration) -> u64 {
    elapsed.as_secs()
}

/// `Duration::as_millis`: the whole milliseconds that a duration holds.
#[verifier::external_body]
fn whole_millis(elapsed: &Duration) -> u128 {
    elapsed.as_millis()
}

/// What a reading of the clock counts: the seconds or milliseconds elapsed
/// since the epoch as far as sixty-four bits hold them, the largest such
/// number beyond that, and zero for a reading before the epoch, which has
/// nothing elapsed.
pub open spec fn elapsed_count(elapsed: Option<u128>) -> u64 {
    match elapsed {
        Some(count) => if count > u64::MAX {
            u64::MAX
        } else {
            count as u64
        },
        None => 0,
    }
}

/// Turns what has elapsed since the epoch into a timestamp: see
/// [`elapsed_count`].
pub fn count_elapsed(elapsed: Option<u128>) -> (count: u64)
    ensures
        count == elapsed_count(elapsed),
{
    match elapsed {
        Some(count) => if count > u64::MAX as u128 {
            u64::MAX
        } else {
            count as u64
        },
        None => 0,
    }
}

/// Milliseconds elapsed since the Unix epoch according to the system clock:
/// zero for a clock set before the epoch, and the largest number that fits
/// for one set beyond what sixty-four bits count.
pub fn get_timestamp_millis() -> u64 {
    let reading = system_now();
    match since_unix_epoch(&reading) {
        Ok(elapsed) => count_elapsed(Some(whole_millis(&elapsed))),
        Err(_) => count_elapsed(None),
    }
}

/// Seconds elapsed since the Unix epoch according to the system clock, and
/// zero for a clock set before the epoch.
pub fn get_timestamp_secs() -> u64 {
    let reading = system_now();
    match since_unix_epoch(&reading) {
        Ok(elapsed) => count_elapsed(Some(whole_seconds(&elapsed) as u128)),
        Err(_) => count_elapsed(None),
    }
}

/// The text of the second `reading` of the clock: its date and time of day
/// in UTC, and the empty text for a second that has none.
pub open spec fn reading_text(reading: u64) -> Seq<char> {
    if reading <= i64::MAX && utc_text(reading as i64) is Some {
        utc_text(reading as i64)->0
    } else {
        Seq::empty()
    }
}

/// Writes the second `reading` of the clock as a date and a time of day in
/// UTC: see [`reading_text`].
pub fn text_of_reading(reading: u64) -> (text: String)
    ensures
        text@ == reading_text(reading),
{
    match time_text(reading) {
        Some(text) => text,
        None => String::new(),
    }
}

/// The current reading of the clock as a date and a time of day in UTC: the
/// text of the second that the clock reads, see [`reading_text`].
pub fn get_current_time_str() -> (text: String)
    ensures
        exists|reading: u64| text@ == #[trigger] reading_text(reading),
{
    text_of_reading(get_timestamp_secs())
}

} // verus!
