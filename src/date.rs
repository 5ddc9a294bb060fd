use vstd::prelude::*;

verus! {

/// Whether `y` is a leap year of the proleptic Gregorian calendar.
pub open spec fn is_leap_year(y: int) -> bool {
    y % 4 == 0 && (y % 100 != 0 || y % 400 == 0)
}

/// The number of days in month `m` (1 to 12) of year `y`.
pub open spec fn days_in_month(y: int, m: int) -> int {
    if m == 2 {
        if is_leap_year(y) {
            29
        } else {
            28
        }
    } else if m == 4 || m == 6 || m == 9 || m == 11 {
        30
    } else {
        31
    }
}

/// Whether year, month and day name a day that chrono can represent: a day of
/// the proleptic Gregorian calendar in a year from -262143 to 262142.
pub open spec fn date_exists(y: int, m: int, d: int) -> bool {
    -262143 <= y <= 262142 && 1 <= m <= 12 && 1 <= d <= days_in_month(y, m)
}

/// Relies on chrono::NaiveDate::from_ymd_opt, which returns `Some` exactly when
/// the day exists in the proleptic Gregorian calendar and its year lies in
/// chrono's range, `(i32::MIN >> 13) + 1` to `(i32::MAX >> 13) - 1`.
#[verifier::external_body]
fn chrono_date_exists(year: i32, month: u32, day: u32) -> (r: bool)
    ensures
        r == date_exists(year as int, month as int, day as int),
{
    chrono::NaiveDate::from_ymd_opt(year, month, day).is_some()
}

/// A calendar day, as the numbers that a request path carries.
#[derive(Debug, Clone, Copy, PartialEq, Eq, Structural)]
pub struct CalendarDate {
    pub year: i32,
    /// 1 to 12.
    pub month: u32,
    /// 1 to the length of the month.
    pub day: u32,
}

impl CalendarDate {
    /// Whether the fields name a day that exists.
    pub open spec fn wf(&self) -> bool {
        date_exists(self.year as int, self.month as int, self.day as int)
    }

    /// The day with the given year, month and day of month, if it exists.
    pub fn new(year: i32, month: u32, day: u32) -> (r: Option<CalendarDate>)
        ensures
            r is Some <==> date_exists(year as int, month as int, day as int),
            r matches Some(d) ==> d.year == year && d.month == month && d.day == day && d.wf(),
    {
        if chrono_date_exists(year, month, day) {
            Some(CalendarDate { year, month, day })
        } else {
            None
        }
    }
}

} // verus!
