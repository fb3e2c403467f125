//! Points in time, and the cutoff before which an account counts as old.

use vstd::prelude::*;
use vstd::string::*;

verus! {

/// The seconds of a day.
pub const SECONDS_PER_DAY: i64 = 86_400;

/// The days that count as a year.
pub const DAYS_PER_YEAR: i64 = 365;

/// A point in time: whole seconds since 1970-01-01 00:00:00 UTC, and the
/// nanoseconds past that second.
#[derive(Clone, Copy, Debug, PartialEq, Eq, Structural)]
pub struct Moment {
    pub seconds: i64,
    pub nanos: u32,
}

/// The second, counted from 1970-01-01 00:00:00 UTC, that lies `age_years`
/// years of 365 days before the second `now_seconds`.
pub open spec fn cutoff_seconds(now_seconds: int, age_years: int) -> int {
    now_seconds - DAYS_PER_YEAR * age_years * SECONDS_PER_DAY
}

/// The moment that lies `age_years` years of 365 days before `now`, where
/// its second can be counted in 64 bits.
pub open spec fn cutoff_of(now: Moment, age_years: i64) -> Option<Moment> {
    let seconds = cutoff_seconds(now.seconds as int, age_years as int);
    if i64::MIN <= seconds <= i64::MAX {
        Some(Moment { seconds: seconds as i64, nanos: now.nanos })
    } else {
        None
    }
}

/// The moment that lies `age_years` years of 365 days before `now`; `None`
/// where its second cannot be counted in 64 bits.
pub fn cutoff_at(now: Moment, age_years: i64) -> (cutoff: Option<Moment>)
    ensures
        cutoff == cutoff_of(now, age_years),
{
    let days: i128 = 365 * (age_years as i128);
    let span: i128 = days * 86_400;
    assert(span == DAYS_PER_YEAR * age_years * SECONDS_PER_DAY);
    let seconds: i128 = (now.seconds as i128) - span;
    if seconds < (i64::MIN as i128) || seconds > (i64::MAX as i128) {
        None
    } else {
        Some(Moment { seconds: seconds as i64, nanos: now.nanos })
    }
}

/// The present moment as it was read from the clock, and the cutoff that
/// was computed from it; there is none where the cutoff's second cannot be
/// counted in 64 bits.
#[derive(Clone, Copy, Debug)]
pub struct Reading {
    pub now: Moment,
    pub cutoff: Option<Moment>,
}

/// The moment that lies `age_years` years of 365 days before the present
/// moment, together with the present moment as it was read from the clock.
/// Whatever the clock shows, the cutoff is the one that belongs to that
/// moment; for an age of 0 it is the moment itself.
pub fn cutoff_before_now(age_years: i64) -> (reading: Reading)
    ensures
        reading.cutoff == cutoff_of(reading.now, age_years),
        age_years == 0 ==> reading.cutoff == Some(reading.now),
{
    let now = read_clock();
    Reading { now, cutoff: cutoff_at(now, age_years) }
}

/// Reads the clock: calls `Utc::now` of chrono and takes the moment's
/// seconds (`DateTime::timestamp`) and nanoseconds
/// (`DateTime::timestamp_subsec_nanos`). Nothing is claimed of the result.
#[verifier::external_body]
pub(crate) fn read_clock() -> (now: Moment) {
    let now = chrono::Utc::now();
    Moment { seconds: now.timestamp(), nanos: now.timestamp_subsec_nanos() }
}

/// The first second of the year 0: 0000-01-01 00:00:00 UTC.
pub const FIRST_SECOND: i64 = -62_167_219_200;

/// The last second of the year 9999: 9999-12-31 23:59:59 UTC.
pub const LAST_SECOND: i64 = 253_402_300_799;

/// The least number of characters of a moment's local notation: ten for
/// the date, eight for the time, six for the offset, and two spaces.
pub const SHORTEST_NOTATION: usize = 26;

/// The moment can be written: it lies in the years 0 to 9999, and its
/// nanoseconds are less than a second.
pub open spec fn is_writable(moment: Moment) -> bool {
    &&& FIRST_SECOND <= moment.seconds <= LAST_SECOND
    &&& moment.nanos < 1_000_000_000
}

/// The notation of a moment at an offset from UTC: the date and the time
/// of day that a clock shows which is `offset` seconds ahead of UTC, and the
/// offset itself, as chrono writes them.
pub uninterp spec fn notation_text(seconds: int, nanos: int, offset: int) -> Seq<char>;

/// The offset is one that a zone can have: less than a day either way.
pub open spec fn is_offset(offset: int) -> bool {
    -86_400 < offset < 86_400
}

/// The text is the notation of the moment at some offset that a zone can
/// have.
pub open spec fn is_notation_of(text: Seq<char>, moment: Moment) -> bool {
    exists|offset: int|
        is_offset(offset) && text == #[trigger] notation_text(
            moment.seconds as int,
            moment.nanos as int,
            offset,
        )
}

/// The offset from UTC, in seconds, that the machine's zone has at a
/// moment: calls `DateTime::from_timestamp` of chrono, moves the result to
/// the machine's zone (`DateTime::with_timezone` with `Local`) and reads
/// `DateTime::offset` and `FixedOffset::local_minus_utc`. `None` stands for a
/// moment that chrono cannot represent. The contract claims that there is
/// none among the moments that can be written: `from_timestamp` refuses only
/// a day outside chrono's dates, which reach from the year -262143 to the
/// year 262142, and nanoseconds that are no part of the second. The offset
/// depends on the machine's zone, so of the offset only its range is
/// claimed: chrono makes no offset of a day or more.
#[verifier::external_body]
pub(crate) fn local_offset(moment: Moment) -> (offset: Option<i32>)
    requires
        is_writable(moment),
    ensures
        offset is Some,
        offset matches Some(seconds) ==> is_offset(seconds as int),
{
    match chrono::DateTime::from_timestamp(moment.seconds, moment.nanos) {
        Some(utc) => Some(utc.with_timezone(&chrono::Local).offset().local_minus_utc()),
        None => None,
    }
}

/// Writes a moment as the date and time at an offset from UTC, followed by
/// the offset: calls `DateTime::from_timestamp` and `FixedOffset::east_opt`
/// of chrono, moves the moment to the offset (`DateTime::with_timezone`) and
/// takes its `to_string`. `None` stands for a moment or an offset that
/// chrono cannot represent; the contract claims that there is none among the
/// moments that can be written and the offsets of less than a day. The
/// contract names the text, which depends on the moment and the offset alone.
/// Of what it holds only the least length is claimed: chrono writes the date
/// with a year of at least four digits, a month and a day of two digits
/// each, then a space, the time with two digits each for hour, minute and
/// second, then a space, and the offset with a sign and two digits each for
/// hours and minutes.
#[verifier::external_body]
pub(crate) fn notation(moment: Moment, offset: i32) -> (text: Option<String>)
    requires
        is_writable(moment),
        is_offset(offset as int),
    ensures
        text is Some,
        text matches Some(t) ==> t@ == notation_text(
            moment.seconds as int,
            moment.nanos as int,
            offset as int,
        ),
        text matches Some(t) ==> t@.len() >= SHORTEST_NOTATION,
{
    match (
        chrono::DateTime::from_timestamp(moment.seconds, moment.nanos),
        chrono::FixedOffset::east_opt(offset),
    ) {
        (Some(utc), Some(zone)) => Some(utc.with_timezone(&zone).to_string()),
        _ => None,
    }
}

/// The notation of the moment at the given offset from UTC; `None` where
/// the moment cannot be written or the offset is a day or more.
pub fn time_at_offset(moment: Moment, offset: i32) -> (text: Option<String>)
    ensures
        text is Some <==> is_writable(moment) && is_offset(offset as int),
        text matches Some(t) ==> t@ == notation_text(
            moment.seconds as int,
            moment.nanos as int,
            offset as int,
        ),
        text matches Some(t) ==> t@.len() >= SHORTEST_NOTATION,
{
    if FIRST_SECOND <= moment.seconds && moment.seconds <= LAST_SECOND && moment.nanos
        < 1_000_000_000 && -86_400 < offset && offset < 86_400 {
        notation(moment, offset)
    } else {
        None
    }
}

/// The moment as the local date and time with its offset from UTC, in the
/// notation that the stores hold. A moment has a notation if and only if it
/// can be written, and the text is the notation of that moment at the offset
/// that the machine's zone has at that moment. Which offset that is depends
/// on the machine, so the contract says only that it is one that a zone can
/// have.
pub fn local_time(moment: Moment) -> (text: Option<String>)
    ensures
        text is Some <==> is_writable(moment),
        text matches Some(t) ==> is_notation_of(t@, moment),
        text matches Some(t) ==> t@.len() >= SHORTEST_NOTATION,
{
    if FIRST_SECOND <= moment.seconds && moment.seconds <= LAST_SECOND && moment.nanos
        < 1_000_000_000 {
        match local_offset(moment) {
            Some(offset) => {
                let text = time_at_offset(moment, offset);
                proof {
                    assert(is_offset(offset as int));
                    assert(text->0@ == notation_text(
                        moment.seconds as int,
                        moment.nanos as int,
                        offset as int,
                    ));
                }
                text
            },
            None => None,
        }
    } else {
        None
    }
}

} // verus!
