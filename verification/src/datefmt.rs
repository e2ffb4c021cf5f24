use vstd::arithmetic::div_mod::{
    lemma_div_is_ordered, lemma_fundamental_div_mod, lemma_fundamental_div_mod_converse,
};
use vstd::prelude::*;

verus! {

// The calendar here is the proleptic Gregorian calendar, with days counted
// from 1600-01-01. Dates from 1600-01-01 up to the end of year 9999 are
// rendered — more than the range a 64-bit nanosecond timestamp can reach on
// either side — and anything else is reported as out of range.

/// A leap year has 366 days.
pub open spec fn is_leap(y: int) -> bool {
    y % 4 == 0 && (y % 100 != 0 || y % 400 == 0)
}

/// The length of month `m` (1 to 12) of year `y`.
pub open spec fn days_in_month(y: int, m: int) -> int {
    if m == 2 {
        if is_leap(y) {
            29
        } else {
            28
        }
    } else if m == 4 || m == 6 || m == 9 || m == 11 {
        30
    } else {
        31
    }
}

/// Days from the first day of year `y` to the first day of its month `m`.
pub open spec fn days_before_month(y: int, m: int) -> int
    decreases m,
{
    if m <= 1 {
        0
    } else {
        days_before_month(y, m - 1) + days_in_month(y, m - 1)
    }
}

/// The length of year `y`: the days of its twelve months.
pub open spec fn days_in_year(y: int) -> int {
    days_before_month(y, 13)
}

/// Days from 1600-01-01 to the first day of year `y`, for `y >= 1600`.
pub open spec fn days_before_year(y: int) -> int
    decreases y,
{
    if y <= 1600 {
        0
    } else {
        days_before_year(y - 1) + days_in_year(y - 1)
    }
}

/// A date the renderer covers: a real calendar day between 1600 and 9999.
pub open spec fn valid_date(y: int, m: int, d: int) -> bool {
    1600 <= y <= 9999 && 1 <= m <= 12 && 1 <= d <= days_in_month(y, m)
}

/// The day count of a civil date: days since 1600-01-01.
pub open spec fn date_to_days(y: int, m: int, d: int) -> int {
    days_before_year(y) + days_before_month(y, m) + (d - 1)
}

/// The day of the week of a day count, 0 for Sunday through 6 for Saturday.
/// Day zero, 1600-01-01, was a Saturday.
pub open spec fn spec_weekday(days: int) -> int {
    (days % 7 + 6) % 7
}

/// The day count that a count of seconds since the Unix epoch falls on:
/// the epoch's own day count plus the seconds divided by the length of a
/// day, rounded towards minus infinity.
pub open spec fn days_of_secs(t: int) -> int {
    days_before_year(1970) + t / 86400
}

/// A year has 366 days exactly when it is a leap year.
pub proof fn lemma_days_in_year(y: int)
    ensures
        days_in_year(y) == if is_leap(y) { 366int } else { 365int },
{
    reveal_with_fuel(days_before_month, 14);
}

/// Later months of a year start no earlier.
proof fn lemma_dbm_monotone(y: int, a: int, b: int)
    requires
        a <= b,
    ensures
        days_before_month(y, a) <= days_before_month(y, b),
    decreases b - a,
{
    if a < b {
        lemma_dbm_monotone(y, a, b - 1);
    }
}

/// Later years start no earlier, and a later year starts at least a whole
/// year further on.
proof fn lemma_dby_monotone(a: int, b: int)
    requires
        a <= b,
    ensures
        days_before_year(a) <= days_before_year(b),
        1600 <= a < b ==> days_before_year(b) >= days_before_year(a) + days_in_year(a),
    decreases b - a,
{
    if a < b {
        lemma_dby_monotone(a, b - 1);
        lemma_days_in_year(b - 1);
    }
}

/// The day offset of a valid date inside its year lies within the year.
proof fn lemma_offset_in_year(y: int, m: int, d: int)
    requires
        1 <= m <= 12,
        1 <= d <= days_in_month(y, m),
    ensures
        0 <= days_before_month(y, m) + (d - 1) < days_in_year(y),
{
    lemma_dbm_monotone(y, 1, m);
    assert(days_before_month(y, m + 1) == days_before_month(y, m) + days_in_month(y, m));
    lemma_dbm_monotone(y, m + 1, 13);
}

/// Distinct valid dates have distinct day counts: the calendar never folds
/// two dates onto one day.
pub proof fn lemma_civil_date_unique(y1: int, m1: int, d1: int, y2: int, m2: int, d2: int)
    requires
        valid_date(y1, m1, d1),
        valid_date(y2, m2, d2),
        date_to_days(y1, m1, d1) == date_to_days(y2, m2, d2),
    ensures
        y1 == y2,
        m1 == m2,
        d1 == d2,
{
    lemma_offset_in_year(y1, m1, d1);
    lemma_offset_in_year(y2, m2, d2);
    if y1 < y2 {
        lemma_dby_monotone(y1, y2);
        assert(false);
    }
    if y2 < y1 {
        lemma_dby_monotone(y2, y1);
        assert(false);
    }
    if m1 < m2 {
        assert(days_before_month(y1, m1 + 1) == days_before_month(y1, m1) + days_in_month(
            y1,
            m1,
        ));
        lemma_dbm_monotone(y1, m1 + 1, m2);
        assert(false);
    }
    if m2 < m1 {
        assert(days_before_month(y1, m2 + 1) == days_before_month(y1, m2) + days_in_month(
            y1,
            m2,
        ));
        lemma_dbm_monotone(y1, m2 + 1, m1);
        assert(false);
    }
}

pub fn leap_year(y: u64) -> (r: bool)
    ensures
        r == is_leap(y as int),
{
    y % 4 == 0 && (y % 100 != 0 || y % 400 == 0)
}

pub fn month_days(y: u64, m: u64) -> (r: u64)
    requires
        1 <= m <= 12,
    ensures
        r == days_in_month(y as int, m as int),
{
    if m == 2 {
        if leap_year(y) {
            29
        } else {
            28
        }
    } else if m == 4 || m == 6 || m == 9 || m == 11 {
        30
    } else {
        31
    }
}

pub fn year_days(y: u64) -> (r: u64)
    ensures
        r == days_in_year(y as int),
        365 <= r <= 366,
{
    proof {
        lemma_days_in_year(y as int);
    }
    if leap_year(y) {
        366
    } else {
        365
    }
}

/// Recovers the civil date of a day count: the valid date whose day count is
/// `days`. Day counts at or past year 10000 are reported as out of range.
pub fn civil_from_days(days: u64) -> (r: Option<(u64, u64, u64)>)
    ensures
        match r {
            Some(ymd) => valid_date(ymd.0 as int, ymd.1 as int, ymd.2 as int)
                && date_to_days(ymd.0 as int, ymd.1 as int, ymd.2 as int) == days,
            None => days >= days_before_year(10000),
        },
        days < days_before_year(10000) ==> r is Some,
{
    let mut y: u64 = 1600;
    let mut rem: u64 = days;
    loop
        invariant
            1600 <= y <= 9999,
            days_before_year(y as int) + rem == days,
        ensures
            1600 <= y <= 9999,
            days_before_year(y as int) + rem == days,
            rem < days_in_year(y as int),
        decreases rem,
    {
        let dy = year_days(y);
        if rem < dy {
            break;
        }
        if y == 9999 {
            proof {
                assert(days_before_year(10000) == days_before_year(9999) + days_in_year(9999));
            }
            return None;
        }
        y = y + 1;
        rem = rem - dy;
    }
    // rem is now the day offset inside year y
    let year_rem: Ghost<int> = Ghost(rem as int);
    let mut m: u64 = 1;
    loop
        invariant
            1 <= m <= 12,
            1600 <= y <= 9999,
            days_before_month(y as int, m as int) + rem == year_rem@,
            year_rem@ < days_in_year(y as int),
            days_before_year(y as int) + year_rem@ == days,
        ensures
            1 <= m <= 12,
            days_before_month(y as int, m as int) + rem == year_rem@,
            days_before_year(y as int) + year_rem@ == days,
            rem < days_in_month(y as int, m as int),
        decreases rem,
    {
        let dm = month_days(y, m);
        if rem < dm {
            break;
        }
        proof {
            if m == 12 {
                assert(days_before_month(y as int, 13) == days_before_month(y as int, 12)
                    + days_in_month(y as int, 12));
                assert(false);
            }
        }
        m = m + 1;
        rem = rem - dm;
    }
    let d = rem + 1;
    Some((y, m, d))
}

/// The weekday of a day count: `((days mod 7) + 6) mod 7`.
pub fn weekday(days: u64) -> (r: u64)
    ensures
        r == spec_weekday(days as int),
        r < 7,
{
    (days % 7 + 6) % 7
}

/// The day count of the Unix epoch, 1970-01-01, summed over the years since
/// day zero.
pub fn epoch_days() -> (r: u64)
    ensures
        r == days_before_year(1970),
        r <= 366 * 370,
{
    let mut acc: u64 = 0;
    let mut y: u64 = 1600;
    while y < 1970
        invariant
            1600 <= y <= 1970,
            acc == days_before_year(y as int),
            acc <= 366 * (y - 1600),
        decreases 1970 - y,
    {
        acc = acc + year_days(y);
        y = y + 1;
    }
    acc
}

/// A decimal digit as a character.
pub open spec fn digit_char(d: int) -> char {
    if d == 0 {
        '0'
    } else if d == 1 {
        '1'
    } else if d == 2 {
        '2'
    } else if d == 3 {
        '3'
    } else if d == 4 {
        '4'
    } else if d == 5 {
        '5'
    } else if d == 6 {
        '6'
    } else if d == 7 {
        '7'
    } else if d == 8 {
        '8'
    } else {
        '9'
    }
}

/// A day of the month written in decimal, without a leading zero.
pub open spec fn day_chars(d: int) -> Seq<char> {
    if d < 10 {
        seq![digit_char(d)]
    } else {
        seq![digit_char(d / 10), digit_char(d % 10)]
    }
}

/// The three-letter name of month `m`.
pub open spec fn month_abbrev(m: int) -> Seq<char> {
    if m == 1 {
        "Jan"@
    } else if m == 2 {
        "Feb"@
    } else if m == 3 {
        "Mar"@
    } else if m == 4 {
        "Apr"@
    } else if m == 5 {
        "May"@
    } else if m == 6 {
        "Jun"@
    } else if m == 7 {
        "Jul"@
    } else if m == 8 {
        "Aug"@
    } else if m == 9 {
        "Sep"@
    } else if m == 10 {
        "Oct"@
    } else if m == 11 {
        "Nov"@
    } else {
        "Dec"@
    }
}

/// The three-letter name of weekday `w`, 0 for Sunday through 6 for Saturday.
pub open spec fn weekday_abbrev(w: int) -> Seq<char> {
    if w == 0 {
        "Sun"@
    } else if w == 1 {
        "Mon"@
    } else if w == 2 {
        "Tue"@
    } else if w == 3 {
        "Wed"@
    } else if w == 4 {
        "Thu"@
    } else if w == 5 {
        "Fri"@
    } else {
        "Sat"@
    }
}

fn digit_str(x: u64) -> (s: &'static str)
    requires
        x <= 9,
    ensures
        s@ =~= seq![digit_char(x as int)],
{
    proof {
        reveal_strlit("0");
        reveal_strlit("1");
        reveal_strlit("2");
        reveal_strlit("3");
        reveal_strlit("4");
        reveal_strlit("5");
        reveal_strlit("6");
        reveal_strlit("7");
        reveal_strlit("8");
        reveal_strlit("9");
    }
    match x {
        0 => "0",
        1 => "1",
        2 => "2",
        3 => "3",
        4 => "4",
        5 => "5",
        6 => "6",
        7 => "7",
        8 => "8",
        _ => "9",
    }
}

fn month_abbrev_str(m: u64) -> (s: &'static str)
    requires
        1 <= m <= 12,
    ensures
        s@ == month_abbrev(m as int),
{
    match m {
        1 => "Jan",
        2 => "Feb",
        3 => "Mar",
        4 => "Apr",
        5 => "May",
        6 => "Jun",
        7 => "Jul",
        8 => "Aug",
        9 => "Sep",
        10 => "Oct",
        11 => "Nov",
        _ => "Dec",
    }
}

fn weekday_abbrev_str(w: u64) -> (s: &'static str)
    requires
        w <= 6,
    ensures
        s@ == weekday_abbrev(w as int),
{
    match w {
        0 => "Sun",
        1 => "Mon",
        2 => "Tue",
        3 => "Wed",
        4 => "Thu",
        5 => "Fri",
        _ => "Sat",
    }
}

fn day_string(d: u64) -> (s: String)
    requires
        1 <= d <= 31,
    ensures
        s@ == day_chars(d as int),
{
    if d < 10 {
        String::from_str(digit_str(d))
    } else {
        let s = String::from_str(digit_str(d / 10)).concat(digit_str(d % 10));
        proof {
            assert(s@ =~= day_chars(d as int));
        }
        s
    }
}

/// The label a rendered date carries: weekday name, day of the month, and
/// month name, separated by single spaces.
pub open spec fn label_chars(y: int, m: int, d: int) -> Seq<char> {
    weekday_abbrev(spec_weekday(date_to_days(y, m, d))) + " "@ + day_chars(d) + " "@
        + month_abbrev(m)
}

/// Renders the label of the date that a count of seconds since the Unix
/// epoch falls on. Days before 1600 or at or past year 10000 have no label;
/// every value the engine's 64-bit nanosecond timestamps can reach lies
/// inside that range. A label is returned exactly for counts inside the
/// range, and it is the label of the one valid date whose day count the
/// seconds fall on.
pub fn date_label(t: i64) -> (r: Option<String>)
    ensures
        match r {
            Some(s) => exists|y: int, m: int, d: int|
                valid_date(y, m, d) && date_to_days(y, m, d) == days_of_secs(t as int) && s@
                    == label_chars(y, m, d),
            None => days_of_secs(t as int) < 0 || days_of_secs(t as int) >= days_before_year(
                10000,
            ),
        },
        0 <= days_of_secs(t as int) && days_of_secs(t as int) < days_before_year(10000) ==> r
            is Some,
        forall|y: int, m: int, d: int|
            (r is Some && valid_date(y, m, d) && #[trigger] date_to_days(y, m, d) == days_of_secs(
                t as int,
            )) ==> r->Some_0@ == label_chars(y, m, d),
{
    let epoch = epoch_days();
    let days: u64;
    if t >= 0 {
        let day_part: u64 = (t as u64) / 86400;
        proof {
            lemma_div_is_ordered(t as int, i64::MAX as int, 86400);
        }
        days = epoch + day_part;
    } else {
        // the magnitude of t, written to survive the smallest value
        let neg: u64 = ((-(t + 1)) as u64) + 1;
        let below: u64 = (neg + 86399) / 86400;
        proof {
            lemma_floor_of_negated(neg as int);
        }
        if below > epoch {
            return None;
        }
        days = epoch - below;
    }
    match civil_from_days(days) {
        None => None,
        Some((y, m, d)) => {
            let w = weekday(days);
            let label = String::from_str(weekday_abbrev_str(w)).concat(" ").concat(
                day_string(d).as_str(),
            ).concat(" ").concat(month_abbrev_str(m));
            proof {
                assert(label@ =~= label_chars(y as int, m as int, d as int));
                assert forall|y2: int, m2: int, d2: int|
                    valid_date(y2, m2, d2) && #[trigger] date_to_days(y2, m2, d2) == days_of_secs(
                        t as int,
                    ) implies label@ == label_chars(y2, m2, d2) by {
                    lemma_civil_date_unique(y as int, m as int, d as int, y2, m2, d2);
                }
            }
            Some(label)
        },
    }
}

/// Dividing a negated count by the length of a day rounds towards minus
/// infinity: the quotient is the negated, rounded-up quotient of the
/// magnitude.
proof fn lemma_floor_of_negated(neg: int)
    requires
        neg >= 1,
    ensures
        (-neg) / 86400 == -((neg + 86399) / 86400),
{
    let q = neg / 86400;
    let r = neg % 86400;
    lemma_fundamental_div_mod(neg, 86400);
    if r == 0 {
        lemma_fundamental_div_mod_converse(-neg, 86400, -q, 0);
        lemma_fundamental_div_mod_converse(neg + 86399, 86400, q, 86399);
    } else {
        lemma_fundamental_div_mod_converse(-neg, 86400, -q - 1, 86400 - r);
        lemma_fundamental_div_mod_converse(neg + 86399, 86400, q + 1, r - 1);
    }
}

} // verus!
