//! Calendar dates and the IMAP search query built from them.
use vstd::prelude::*;
use vstd::string::StringExecFns;
use chrono::Datelike;

verus! {

/// A calendar date as year, month (1 to 12) and day of the month (1 to 31).
#[derive(Clone, Copy, Debug, PartialEq, Eq, Structural)]
pub struct CalendarDate {
    pub year: i32,
    pub month: u32,
    pub day: u32,
}

/// Whether `year` has a 29th of February.
pub open spec fn is_leap_year(year: int) -> bool {
    (year % 4 == 0 && year % 100 != 0) || year % 400 == 0
}

/// The number of days of a month (1 to 12) of `year`.
pub open spec fn days_in_month(year: int, month: u32) -> u32 {
    if month == 2 {
        if is_leap_year(year) { 29 } else { 28 }
    } else if month == 4 || month == 6 || month == 9 || month == 11 {
        30
    } else {
        31
    }
}

/// Lowest year of a chrono date.
pub const MIN_YEAR: i32 = -262143;

/// Highest year of a chrono date.
pub const MAX_YEAR: i32 = 262142;

impl CalendarDate {
    /// A date that exists in the proleptic Gregorian calendar, within
    /// chrono's years.
    pub open spec fn wf(&self) -> bool {
        &&& MIN_YEAR <= self.year <= MAX_YEAR
        &&& 1 <= self.month <= 12
        &&& 1 <= self.day <= days_in_month(self.year as int, self.month)
    }

    /// The first day of the same month.
    pub fn first_of_month(&self) -> (r: CalendarDate)
        ensures
            r == self.first_of_month_spec(),
    {
        CalendarDate { year: self.year, month: self.month, day: 1 }
    }
}

/// Relies on std's SystemTime::duration_since: whole seconds from the Unix
/// epoch to now, or `None` while the clock reads before the epoch.
#[verifier::external_body]
fn seconds_since_epoch() -> Option<u64> {
    match std::time::SystemTime::now().duration_since(std::time::UNIX_EPOCH) {
        Ok(elapsed) => Some(elapsed.as_secs()),
        Err(_) => None,
    }
}

/// The UTC calendar date of the instant `seconds` after the Unix epoch.
pub uninterp spec fn utc_date_at(seconds: int) -> CalendarDate;

/// Relies on chrono's DateTime::from_timestamp and the Datelike getters: the
/// UTC date of a Unix timestamp, `None` outside chrono's range; chrono holds
/// only dates that exist, within its years.
#[verifier::external_body]
fn utc_date_of(seconds: i64) -> (r: Option<CalendarDate>)
    ensures
        r matches Some(d) ==> d.wf(),
        r is Some ==> r->0 == utc_date_at(seconds as int),
{
    match chrono::DateTime::from_timestamp(seconds, 0) {
        Some(t) => Some(CalendarDate { year: t.year(), month: t.month(), day: t.day() }),
        None => None,
    }
}

/// Today's date in UTC by the system clock; `None` where the clock reads
/// before 1970 or beyond the dates that chrono can hold.
pub(crate) fn utc_today() -> (r: Option<CalendarDate>)
    ensures
        r matches Some(d) ==> d.wf() && exists|seconds: int|
            0 <= seconds && d == #[trigger] utc_date_at(seconds),
{
    match seconds_since_epoch() {
        Some(seconds) => {
            if seconds <= i64::MAX as u64 {
                utc_date_of(seconds as i64)
            } else {
                None
            }
        },
        None => None,
    }
}

/// The decimal digit for `d` (below ten).
pub open spec fn digit_char(d: nat) -> char {
    if d == 0 { '0' }
    else if d == 1 { '1' }
    else if d == 2 { '2' }
    else if d == 3 { '3' }
    else if d == 4 { '4' }
    else if d == 5 { '5' }
    else if d == 6 { '6' }
    else if d == 7 { '7' }
    else if d == 8 { '8' }
    else { '9' }
}

/// The decimal digits of `n`, without leading zeros.
pub open spec fn decimal(n: nat) -> Seq<char>
    decreases n,
{
    if n < 10 {
        seq![digit_char(n)]
    } else {
        decimal(n / 10).push(digit_char(n % 10))
    }
}

/// `digits` with zeros in front, up to `width` characters.
pub open spec fn zero_padded(digits: Seq<char>, width: nat) -> Seq<char> {
    if digits.len() >= width {
        digits
    } else {
        Seq::new((width - digits.len()) as nat, |i: int| '0') + digits
    }
}

/// English three-letter name of a month.
pub open spec fn month_abbrev(month: u32) -> Seq<char> {
    if month == 1 { seq!['J', 'a', 'n'] }
    else if month == 2 { seq!['F', 'e', 'b'] }
    else if month == 3 { seq!['M', 'a', 'r'] }
    else if month == 4 { seq!['A', 'p', 'r'] }
    else if month == 5 { seq!['M', 'a', 'y'] }
    else if month == 6 { seq!['J', 'u', 'n'] }
    else if month == 7 { seq!['J', 'u', 'l'] }
    else if month == 8 { seq!['A', 'u', 'g'] }
    else if month == 9 { seq!['S', 'e', 'p'] }
    else if month == 10 { seq!['O', 'c', 't'] }
    else if month == 11 { seq!['N', 'o', 'v'] }
    else { seq!['D', 'e', 'c'] }
}

/// A year in at least four digits; outside 0 to 9999 it carries its sign.
pub open spec fn year_text(year: int) -> Seq<char> {
    if 0 <= year <= 9999 {
        zero_padded(decimal(year as nat), 4)
    } else if year < 0 {
        seq!['-'] + zero_padded(decimal((-year) as nat), 4)
    } else {
        seq!['+'] + zero_padded(decimal(year as nat), 4)
    }
}

/// A date as IMAP writes it in a search: `07-Oct-2026`.
pub open spec fn imap_date(d: CalendarDate) -> Seq<char> {
    zero_padded(decimal(d.day as nat), 2) + seq!['-'] + month_abbrev(d.month) + seq!['-']
        + year_text(d.year as int)
}

/// Relies on chrono's NaiveDate::from_ymd_opt and its `%d-%b-%Y` format:
/// a date that exists is written as two-digit day, English month
/// abbreviation and the year in at least four digits, signed outside 0 to
/// 9999.
#[verifier::external_body]
fn chrono_imap_date(d: &CalendarDate) -> (r: String)
    requires
        d.wf(),
    ensures
        r@ == imap_date(*d),
{
    match chrono::NaiveDate::from_ymd_opt(d.year, d.month, d.day) {
        Some(date) => date.format("%d-%b-%Y").to_string(),
        None => String::new(),
    }
}

/// The date written as an IMAP search takes it (`01-Oct-2026`).
pub fn format_imap_date(d: &CalendarDate) -> (r: String)
    requires
        d.wf(),
    ensures
        r@ == imap_date(*d),
{
    chrono_imap_date(d)
}

/// The fixed part of the statement search: sender and subject.
pub open spec fn statement_criteria() -> Seq<char> {
    "FROM kontakt@mbank.pl SUBJECT \"elektroniczne zestawienie operacji za\" SINCE "@
}

/// The search for statements sent since `since`.
pub open spec fn statement_query(since: CalendarDate) -> Seq<char> {
    statement_criteria() + imap_date(since)
}

/// The query for this month's statements: those sent since the first day of
/// the month that `today` falls in.
pub fn search_query(today: &CalendarDate) -> (r: String)
    requires
        today.wf(),
    ensures
        r@ == statement_query(today.first_of_month_spec()),
{
    let mut out = String::from_str(
        "FROM kontakt@mbank.pl SUBJECT \"elektroniczne zestawienie operacji za\" SINCE ",
    );
    let since = today.first_of_month();
    let date = chrono_imap_date(&since);
    out.append(date.as_str());
    out
}

/// Whatever the day, the search looks back to the first of its month: the
/// date in the query is day `01` of the same month and year.
pub proof fn query_starts_at_first_of_month(today: CalendarDate)
    requires
        today.wf(),
    ensures
        statement_query(today.first_of_month_spec()) == statement_criteria() + seq!['0', '1', '-']
            + month_abbrev(today.month) + seq!['-'] + year_text(today.year as int),
{
    assert(decimal(1) == seq!['1']);
    assert(zero_padded(seq!['1'], 2) =~= seq!['0', '1']);
    assert(statement_query(today.first_of_month_spec()) =~= statement_criteria() + seq![
        '0',
        '1',
        '-',
    ] + month_abbrev(today.month) + seq!['-'] + year_text(today.year as int));
}

impl CalendarDate {
    pub open spec fn first_of_month_spec(&self) -> CalendarDate {
        CalendarDate { year: self.year, month: self.month, day: 1 }
    }
}

} // verus!
