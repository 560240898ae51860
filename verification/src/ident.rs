//! Fresh identifiers and the current time, as the operating system gives them.
use vstd::prelude::*;

verus! {

/// The format of a calendar day: year, month and day, `YYYY-MM-DD`.
pub const DAY_FORMAT: &'static str = "%Y-%m-%d";

/// The length of the window that "this week" covers, in days: today and the six days
/// after it.
pub const WEEK_DAYS: i64 = 7;

/// Calls `uuid::Uuid::new_v4` and writes the identifier out. Not proved: that the text
/// has the 36 characters of the hyphenated form. Nothing else is claimed of it: it is
/// random. The call aborts where the operating system gives no random bytes.
#[verifier::external_body]
pub(crate) fn fresh_id() -> (id: String)
    ensures
        id@.len() == 36,
{
    uuid::Uuid::new_v4().to_string()
}

/// Calls `chrono::Utc::now` and takes the milliseconds since the epoch. Nothing is
/// claimed of the number. The call aborts where the system clock stands before 1970.
#[verifier::external_body]
pub(crate) fn now_millis() -> (now: i64) {
    chrono::Utc::now().timestamp_millis()
}

/// Calls `chrono::Utc::now` and writes the instant as an RFC 3339 timestamp. Nothing is
/// claimed of the text. The call aborts where the system clock stands before 1970.
#[verifier::external_body]
pub(crate) fn now_rfc3339() -> (now: String) {
    chrono::Utc::now().to_rfc3339()
}

/// Calls `chrono::Utc::now` and writes the day in the format `format`. Nothing is
/// claimed of the text. Formatting aborts on a format that chrono cannot read, so only
/// the day format is admitted; the call aborts where the system clock stands before 1970.
#[verifier::external_body]
pub(crate) fn today_text(format: &str) -> (day: String)
    requires
        format@ == DAY_FORMAT@,
{
    chrono::Utc::now().format(format).to_string()
}

/// The day that lies `days` days after the day `day`, both written `YYYY-MM-DD`, as
/// chrono computes it: `None` where chrono does not read `day` as a day, or where the
/// day asked for is out of its range.
pub uninterp spec fn day_after(day: Seq<char>, days: i64) -> Option<Seq<char>>;

/// Reads `day` with `chrono::NaiveDate::parse_from_str`, adds `days` days with
/// `checked_add_signed` and writes the day in the same format. Not proved: that what it
/// returns is what `day_after` names for the day and the number of days.
/// `chrono::TimeDelta::days` aborts on a number of days whose seconds do not fit, and
/// formatting on a format that chrono cannot read, so only small numbers of days and
/// the day format are admitted.
#[verifier::external_body]
pub(crate) fn day_after_text(day: &str, days: i64, format: &str) -> (then: Option<String>)
    requires
        0 <= days <= 366,
        format@ == DAY_FORMAT@,
    ensures
        then.deep_view() == day_after(day@, days),
{
    match chrono::NaiveDate::parse_from_str(day, format) {
        Ok(date) => match date.checked_add_signed(chrono::TimeDelta::days(days)) {
            Some(then) => Some(then.format(format).to_string()),
            None => None,
        },
        Err(_) => None,
    }
}

} // verus!
