//! Modification times: an instant with the local offset it is shown in.

use crate::decimal::{digit_char, is_digit};
use vstd::prelude::*;

verus! {

/// The earliest instant that can be shown, in seconds since the Unix
/// epoch: midnight before 1 January of the year -262143, UTC.
pub const MIN_SECONDS: i64 = -8_334_601_228_800;

/// The latest instant that can be shown, in seconds since the Unix epoch:
/// the last second of 31 December of the year 262142, UTC.
pub const MAX_SECONDS: i64 = 8_210_266_876_799;

/// Local time is less than this many seconds away from UTC, either way.
pub const OFFSET_LIMIT: i32 = 86_400;

/// Whether `seconds` since the Unix epoch is an instant that can be shown.
pub open spec fn valid_seconds(seconds: int) -> bool {
    MIN_SECONDS <= seconds <= MAX_SECONDS
}

/// Whether local time can be `utc_offset` seconds ahead of UTC.
pub open spec fn valid_utc_offset(utc_offset: int) -> bool {
    -OFFSET_LIMIT < utc_offset < OFFSET_LIMIT
}

/// The text that `chrono` gives for the instant `seconds` after the Unix
/// epoch, seen `utc_offset` seconds east of UTC, under the format
/// `%_d %b %H:%M`: the day of the month padded with a space to two places,
/// the month's English three-letter name, and hour and minute in two
/// digits each, as in ` 5 Jan 09:42`.
pub uninterp spec fn clock_text(seconds: int, utc_offset: int) -> Seq<char>;

/// A number below a hundred in two digits.
pub open spec fn two_digits(n: int) -> Seq<char> {
    seq![digit_char(n / 10), digit_char(n % 10)]
}

/// A day of the month in two places, a space before a single digit.
pub open spec fn day_text(day: int) -> Seq<char> {
    if day < 10 {
        seq![' ', digit_char(day)]
    } else {
        two_digits(day)
    }
}

/// The English three-letter name of a month, January being 1.
pub open spec fn month_name(month: int) -> Seq<char> {
    if month == 1 {
        seq!['J', 'a', 'n']
    } else if month == 2 {
        seq!['F', 'e', 'b']
    } else if month == 3 {
        seq!['M', 'a', 'r']
    } else if month == 4 {
        seq!['A', 'p', 'r']
    } else if month == 5 {
        seq!['M', 'a', 'y']
    } else if month == 6 {
        seq!['J', 'u', 'n']
    } else if month == 7 {
        seq!['J', 'u', 'l']
    } else if month == 8 {
        seq!['A', 'u', 'g']
    } else if month == 9 {
        seq!['S', 'e', 'p']
    } else if month == 10 {
        seq!['O', 'c', 't']
    } else if month == 11 {
        seq!['N', 'o', 'v']
    } else {
        seq!['D', 'e', 'c']
    }
}

/// Day, month, hour and minute as a listing shows them.
pub open spec fn fields_text(day: int, month: int, hour: int, minute: int) -> Seq<char> {
    day_text(day) + seq![' '] + month_name(month) + seq![' '] + two_digits(hour) + seq![':']
        + two_digits(minute)
}

/// The hour of the day, `local` seconds after the Unix epoch's midnight.
pub open spec fn hour_of(local: int) -> int {
    (local / 3600) % 24
}

/// The minute of the hour, `local` seconds after the Unix epoch's midnight.
pub open spec fn minute_of(local: int) -> int {
    (local / 60) % 60
}

/// Whether `text` shows the given hour and minute of some day of some
/// month.
pub open spec fn shows_time(text: Seq<char>, hour: int, minute: int) -> bool {
    exists|day: int, month: int|
        1 <= day <= 31 && 1 <= month <= 12 && text == #[trigger] fields_text(
            day,
            month,
            hour,
            minute,
        )
}

/// Whether `text` is what is shown of the instant `seconds` after the Unix
/// epoch where local time is `utc_offset` seconds ahead of UTC: some day
/// and month, and the hour and minute of local time.
pub open spec fn is_clock_text(text: Seq<char>, seconds: int, utc_offset: int) -> bool {
    shows_time(text, hour_of(seconds + utc_offset), minute_of(seconds + utc_offset))
}

/// An instant together with the offset of local time from UTC at it.
#[derive(Clone, Copy, Debug)]
pub struct Stamp {
    seconds: i64,
    utc_offset: i32,
}

/// What a `Stamp` stands for.
pub ghost struct StampView {
    pub seconds: int,
    pub utc_offset: int,
}

impl View for Stamp {
    type V = StampView;

    closed spec fn view(&self) -> StampView {
        StampView { seconds: self.seconds as int, utc_offset: self.utc_offset as int }
    }
}

/// Formats an instant with `chrono`.
///
/// Calls `FixedOffset::east_opt`, `DateTime::from_timestamp`,
/// `DateTime::with_timezone` and `DateTime::format` with the pattern
/// `%_d %b %H:%M`, and collects the result with `to_string`. Trusted: that
/// on arguments in range none of these fails, that the text depends on the
/// two arguments alone, and that it is made up as the pattern says: of the
/// hour and minute of local time, which is `utc_offset` seconds ahead of
/// UTC, of a day and a month, and with the English month names that
/// `chrono` uses unless it is built for locales.
#[verifier::external_body]
fn format_instant(seconds: i64, utc_offset: i32) -> (text: String)
    requires
        valid_seconds(seconds as int),
        valid_utc_offset(utc_offset as int),
    ensures
        text@ == clock_text(seconds as int, utc_offset as int),
        is_clock_text(text@, seconds as int, utc_offset as int),
{
    let zone = chrono::FixedOffset::east_opt(utc_offset).unwrap();
    let instant = chrono::DateTime::from_timestamp(seconds, 0).unwrap();
    instant.with_timezone(&zone).format("%_d %b %H:%M").to_string()
}

impl Stamp {
    #[verifier::type_invariant]
    closed spec fn in_range(&self) -> bool {
        valid_seconds(self.seconds as int) && valid_utc_offset(self.utc_offset as int)
    }

    /// A stamp for `seconds` since the Unix epoch, shown `utc_offset`
    /// seconds east of UTC; `None` when either is out of range.
    pub fn new(seconds: i64, utc_offset: i32) -> (stamp: Option<Stamp>)
        ensures
            stamp is Some <==> valid_seconds(seconds as int) && valid_utc_offset(utc_offset as int),
            stamp matches Some(s) ==> s@.seconds == seconds && s@.utc_offset == utc_offset,
    {
        if MIN_SECONDS <= seconds && seconds <= MAX_SECONDS && -OFFSET_LIMIT < utc_offset
            && utc_offset < OFFSET_LIMIT {
            Some(Stamp { seconds, utc_offset })
        } else {
            None
        }
    }

    /// Seconds since the Unix epoch.
    pub fn seconds(&self) -> (seconds: i64)
        ensures
            seconds == self@.seconds,
            valid_seconds(seconds as int),
    {
        proof {
            use_type_invariant(self);
        }
        self.seconds
    }

    /// Seconds that local time is ahead of UTC.
    pub fn utc_offset(&self) -> (utc_offset: i32)
        ensures
            utc_offset == self@.utc_offset,
            valid_utc_offset(utc_offset as int),
    {
        proof {
            use_type_invariant(self);
        }
        self.utc_offset
    }

    /// The local day, month, hour and minute of the stamp, as text.
    pub fn text(&self) -> (text: String)
        ensures
            text@ == clock_text(self@.seconds, self@.utc_offset),
            is_clock_text(text@, self@.seconds, self@.utc_offset),
    {
        proof {
            use_type_invariant(self);
        }
        format_instant(self.seconds, self.utc_offset)
    }
}

/// What is shown of an instant has twelve characters: the day in the
/// first two, of which the first may be a space, the month's name in the
/// fourth to sixth, and in the last five the hour and the minute of local
/// time, two digits each, around a colon; a space stands on either side of
/// the month.
pub proof fn lemma_clock_text_shape(text: Seq<char>, seconds: int, utc_offset: int)
    requires
        is_clock_text(text, seconds, utc_offset),
    ensures
        text.len() == 12,
        text[0] == ' ' || is_digit(text[0]),
        is_digit(text[1]),
        text[2] == ' ',
        exists|month: int| 1 <= month <= 12 && text.subrange(3, 6) == #[trigger] month_name(month),
        text[6] == ' ',
        0 <= hour_of(seconds + utc_offset) < 24,
        text.subrange(7, 9) == two_digits(hour_of(seconds + utc_offset)),
        is_digit(text[7]) && is_digit(text[8]),
        text[9] == ':',
        0 <= minute_of(seconds + utc_offset) < 60,
        text.subrange(10, 12) == two_digits(minute_of(seconds + utc_offset)),
        is_digit(text[10]) && is_digit(text[11]),
{
    let hour = hour_of(seconds + utc_offset);
    let minute = minute_of(seconds + utc_offset);
    let (day, month) = choose|day: int, month: int|
        1 <= day <= 31 && 1 <= month <= 12 && text == #[trigger] fields_text(
            day,
            month,
            hour,
            minute,
        );
    assert(text.subrange(3, 6) =~= month_name(month));
    assert(text.subrange(7, 9) =~= two_digits(hour));
    assert(text.subrange(10, 12) =~= two_digits(minute));
}

} // verus!
