use vstd::prelude::*;

verus! {

/// The text that chrono gives for the instant `secs` seconds after the Unix
/// epoch, in UTC and in the pattern `%d/%m/%Y %T`; `None` where chrono
/// cannot represent the instant.
pub uninterp spec fn utc_timestamp_text(secs: i64) -> Option<Seq<char>>;

/// The first second of the year 0 and the last second of the year 9999, in
/// seconds after the Unix epoch. Between them the year has four digits.
pub const FIRST_FOUR_DIGIT_SECOND: i64 = -62_167_219_200;

pub const LAST_FOUR_DIGIT_SECOND: i64 = 253_402_300_799;

/// The instant lies in a year that is written with four digits.
pub open spec fn in_four_digit_years(secs: i64) -> bool {
    FIRST_FOUR_DIGIT_SECOND <= secs <= LAST_FOUR_DIGIT_SECOND
}

/// A decimal digit.
pub open spec fn is_digit(c: char) -> bool {
    '0' as u32 <= c as u32 <= '9' as u32
}

/// Where the pattern `DD/MM/YYYY HH:MM:SS` has a separator.
pub open spec fn separator_at(i: int) -> Option<char> {
    if i == 2 || i == 5 {
        Some('/')
    } else if i == 10 {
        Some(' ')
    } else if i == 13 || i == 16 {
        Some(':')
    } else {
        None
    }
}

/// The text has the layout `DD/MM/YYYY HH:MM:SS`: 19 characters, the five
/// separators in their places and a decimal digit everywhere else.
pub open spec fn has_timestamp_shape(t: Seq<char>) -> bool {
    &&& t.len() == 19
    &&& forall|i: int|
        0 <= i < 19 ==> match separator_at(i) {
            Some(c) => #[trigger] t[i] == c,
            None => is_digit(t[i]),
        }
}

/// Formats an instant through `chrono::DateTime::format` with the pattern
/// `%d/%m/%Y %T`, after `chrono::DateTime::from_timestamp` has made the UTC
/// date and time of `secs` seconds after the Unix epoch. The result is
/// `None` exactly where `from_timestamp` is. Chrono pads day, month, hour,
/// minute and second to two digits, and the year to four digits without a
/// sign when it is between 0 and 9999.
#[verifier::external_body]
fn chrono_format(secs: i64) -> (text: Option<String>)
    ensures
        match text {
            Some(s) => utc_timestamp_text(secs) == Some(s@),
            None => utc_timestamp_text(secs) is None,
        },
        in_four_digit_years(secs) ==> text is Some && has_timestamp_shape(text.unwrap()@),
{
    match chrono::DateTime::from_timestamp(secs, 0) {
        Some(t) => Some(t.format("%d/%m/%Y %T").to_string()),
        None => None,
    }
}

/// The reading of the system clock, converted by chrono to a UTC date and
/// time, in whole seconds after the Unix epoch. Chrono has built the date
/// and time, so it can represent the instant.
#[verifier::external_body]
fn clock_seconds() -> (secs: i64)
    ensures
        utc_timestamp_text(secs) is Some,
{
    let now: chrono::DateTime<chrono::Utc> = std::time::SystemTime::now().into();
    now.timestamp()
}

/// The stored form of the instant `secs` seconds after the Unix epoch, or
/// `None` where the instant is out of the calendar's range.
pub fn timestamp_text(secs: i64) -> (text: Option<String>)
    ensures
        match text {
            Some(s) => utc_timestamp_text(secs) == Some(s@),
            None => utc_timestamp_text(secs) is None,
        },
        in_four_digit_years(secs) ==> text is Some && has_timestamp_shape(text.unwrap()@),
{
    chrono_format(secs)
}

/// The current time in its stored form.
pub fn now_as_str() -> (text: String)
    ensures
        exists|secs: i64|
            #[trigger] utc_timestamp_text(secs) == Some(text@) && (in_four_digit_years(secs)
                ==> has_timestamp_shape(text@)),
{
    let secs = clock_seconds();
    match timestamp_text(secs) {
        Some(text) => text,
        None => {
            assert(false);
            String::new()
        },
    }
}

} // verus!
