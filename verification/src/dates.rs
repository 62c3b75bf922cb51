use vstd::prelude::*;

use crate::call_logs::digit_char;

verus! {

/// The text `chrono` writes for a date and time, given as seconds from the
/// epoch, under the format `%Y-%m-%d %H:%M:%S`.
pub uninterp spec fn date_time_text(seconds: i64) -> Seq<char>;

/// A number below 100 as two decimal digits.
pub open spec fn two_digits(n: int) -> Seq<char> {
    seq![digit_char(n / 10), digit_char(n % 10)]
}

pub open spec fn is_digit(c: char) -> bool {
    '0' <= c && c <= '9'
}

/// Whether `seconds` falls in the years 1 to 9999.
pub open spec fn four_digit_year(seconds: i64) -> bool {
    -62135596800 <= seconds <= 253402300799
}

/// Whether `text` is laid out as `YYYY-MM-DD hh:mm:ss`, with the time of
/// day of `seconds`.
pub open spec fn laid_out(text: Seq<char>, seconds: i64) -> bool {
    let day_seconds: int = (seconds as int) % 86400;
    &&& text.len() == 19
    &&& is_digit(text[0]) && is_digit(text[1]) && is_digit(text[2]) && is_digit(text[3])
    &&& text[4] == '-'
    &&& is_digit(text[5]) && is_digit(text[6])
    &&& text[7] == '-'
    &&& is_digit(text[8]) && is_digit(text[9])
    &&& text[10] == ' '
    &&& text.subrange(11, 13) == two_digits(day_seconds / 3600)
    &&& text[13] == ':'
    &&& text.subrange(14, 16) == two_digits((day_seconds % 3600) / 60)
    &&& text[16] == ':'
    &&& text.subrange(17, 19) == two_digits(day_seconds % 60)
}

/// Writes a date and time with `chrono`: `DateTime::from_timestamp`, its
/// naive UTC value, formatted as `%Y-%m-%d %H:%M:%S`. The contract names the
/// text; for the years 1 to 9999 it states its layout (four-digit year,
/// two-digit month and day, the separators) and its time of day, which
/// `from_timestamp` takes as the seconds past midnight. Which year, month
/// and day the digits give is left unsaid.
#[verifier::external_body]
pub(crate) fn format_date_time(seconds: i64) -> (res: String)
    ensures
        res@ == date_time_text(seconds),
        four_digit_year(seconds) ==> laid_out(res@, seconds),
{
    match chrono::DateTime::from_timestamp(seconds, 0) {
        Some(d) => d.naive_utc().format("%Y-%m-%d %H:%M:%S").to_string(),
        None => String::new(),
    }
}

} // verus!
