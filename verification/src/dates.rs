//! Calendar dates: the text format the forms accept, and the day arithmetic of
//! the reservation calendar, computed by `chrono`.

use vstd::prelude::*;
use chrono::Datelike;
use crate::text::{all_digits, chars_of, decimal_int, decimal_nat, decimal_string, digit_run, digits_value, is_digit, lemma_decimal_nat, lemma_leading_zeros, lemma_parse_digits, parse_i32_range, parse_i32_spec, parse_u32_range, parse_u32_spec, push_char};

verus! {

/// The first year that `chrono::NaiveDate` represents.
pub const MIN_YEAR: i32 = -262143;

/// The last year that `chrono::NaiveDate` represents.
pub const MAX_YEAR: i32 = 262142;

/// A day of the proleptic Gregorian calendar (what a `chrono::NaiveDate`
/// holds); the screens keep dates at midnight, so a date stands for the
/// `NaiveDateTime` at its start as well.
#[derive(Clone, Copy, Debug, PartialEq, Eq, Structural)]
pub struct CalendarDate {
    pub year: i32,
    pub month: u32,
    pub day: u32,
}

pub open spec fn is_leap_year(y: int) -> bool {
    (y % 4 == 0 && y % 100 != 0) || y % 400 == 0
}

pub open spec fn days_in_month(y: int, m: int) -> int {
    if m == 2 {
        if is_leap_year(y) {
            29
        } else {
            28
        }
    } else if m == 4 || m == 6 || m == 9 || m == 11 {
        30
    } else {
        31
    }
}

/// The year, month and day name a day that `chrono` represents.
pub open spec fn is_valid_ymd(y: int, m: int, d: int) -> bool {
    &&& MIN_YEAR <= y <= MAX_YEAR
    &&& 1 <= m <= 12
    &&& 1 <= d <= days_in_month(y, m)
}

impl CalendarDate {
    pub open spec fn valid(self) -> bool {
        is_valid_ymd(self.year as int, self.month as int, self.day as int)
    }

    /// The calendar order of two dates.
    pub open spec fn before(self, other: CalendarDate) -> bool {
        ||| self.year < other.year
        ||| self.year == other.year && self.month < other.month
        ||| self.year == other.year && self.month == other.month && self.day < other.day
    }

    /// Whether `self` comes strictly before `other` in the calendar.
    pub fn is_before(&self, other: &CalendarDate) -> (b: bool)
        ensures
            b == self.before(*other),
    {
        self.year < other.year || (self.year == other.year && self.month < other.month) || (
        self.year == other.year && self.month == other.month && self.day < other.day)
    }
}

/// The day after `d`, if `chrono` represents it.
pub open spec fn next_day(d: CalendarDate) -> Option<CalendarDate> {
    if (d.day as int) < days_in_month(d.year as int, d.month as int) {
        Some(CalendarDate { day: (d.day + 1) as u32, ..d })
    } else if d.month < 12 {
        Some(CalendarDate { year: d.year, month: (d.month + 1) as u32, day: 1 })
    } else if d.year < MAX_YEAR {
        Some(CalendarDate { year: (d.year + 1) as i32, month: 1, day: 1 })
    } else {
        None
    }
}

/// The day before `d`, if `chrono` represents it.
pub open spec fn previous_day(d: CalendarDate) -> Option<CalendarDate> {
    if d.day > 1 {
        Some(CalendarDate { day: (d.day - 1) as u32, ..d })
    } else if d.month > 1 {
        Some(
            CalendarDate {
                year: d.year,
                month: (d.month - 1) as u32,
                day: days_in_month(d.year as int, d.month - 1) as u32,
            },
        )
    } else if d.year > MIN_YEAR {
        Some(CalendarDate { year: (d.year - 1) as i32, month: 12, day: 31 })
    } else {
        None
    }
}

/// `n` days after `d`, if every day on the way is represented.
pub open spec fn days_after(d: CalendarDate, n: nat) -> Option<CalendarDate>
    decreases n,
{
    if n == 0 {
        Some(d)
    } else {
        match days_after(d, (n - 1) as nat) {
            Some(e) => next_day(e),
            None => None,
        }
    }
}

/// `n` days before `d`, if every day on the way is represented.
pub open spec fn days_before(d: CalendarDate, n: nat) -> Option<CalendarDate>
    decreases n,
{
    if n == 0 {
        Some(d)
    } else {
        match days_before(d, (n - 1) as nat) {
            Some(e) => previous_day(e),
            None => None,
        }
    }
}

/// The day after a day that `chrono` represents is represented too, when
/// there is one.
pub proof fn lemma_next_day_valid(d: CalendarDate)
    requires
        d.valid(),
    ensures
        next_day(d) matches Some(n) ==> n.valid(),
{
}

/// The day before a day that `chrono` represents is represented too, when
/// there is one.
pub proof fn lemma_previous_day_valid(d: CalendarDate)
    requires
        d.valid(),
    ensures
        previous_day(d) matches Some(p) ==> p.valid(),
{
}

/// Counting days forward from a represented day stays among represented days.
pub proof fn lemma_days_after_valid(d: CalendarDate, n: nat)
    requires
        d.valid(),
    ensures
        days_after(d, n) matches Some(e) ==> e.valid(),
    decreases n,
{
    if n > 0 {
        lemma_days_after_valid(d, (n - 1) as nat);
        if let Some(e) = days_after(d, (n - 1) as nat) {
            lemma_next_day_valid(e);
        }
    }
}

/// Counting days backward from a represented day stays among represented
/// days.
pub proof fn lemma_days_before_valid(d: CalendarDate, n: nat)
    requires
        d.valid(),
    ensures
        days_before(d, n) matches Some(e) ==> e.valid(),
    decreases n,
{
    if n > 0 {
        lemma_days_before_valid(d, (n - 1) as nat);
        if let Some(e) = days_before(d, (n - 1) as nat) {
            lemma_previous_day_valid(e);
        }
    }
}

/// A day before another represented day has a next day, and that next day
/// is not after the other one.
pub proof fn lemma_next_day_not_past(a: CalendarDate, b: CalendarDate)
    requires
        a.valid(),
        b.valid(),
        a.before(b),
    ensures
        next_day(a) matches Some(n) && a.before(n) && !b.before(n),
{
}

/// The day before a later represented day is not before the earlier day,
/// and comes before the later one.
pub proof fn lemma_previous_day_not_past(a: CalendarDate, b: CalendarDate)
    requires
        a.valid(),
        b.valid(),
        a.before(b),
    ensures
        previous_day(b) matches Some(p) && p.before(b) && !p.before(a),
{
}

/// The day after each of two ordered days keeps them in order.
pub proof fn lemma_next_day_keeps_order(a: CalendarDate, b: CalendarDate)
    requires
        a.valid(),
        b.valid(),
        a.before(b),
        next_day(b) is Some,
    ensures
        next_day(a) matches Some(na) && na.before(next_day(b)->0),
{
    lemma_next_day_not_past(a, b);
}

/// The day before each of two ordered days keeps them in order.
pub proof fn lemma_previous_day_keeps_order(a: CalendarDate, b: CalendarDate)
    requires
        a.valid(),
        b.valid(),
        a.before(b),
        previous_day(a) is Some,
    ensures
        previous_day(b) matches Some(pb) && (previous_day(a)->0).before(pb),
{
    lemma_previous_day_not_past(a, b);
}

/// Today's date on this machine (`Local::now().date_naive()`): it depends on
/// the clock and the time zone, and nothing is claimed of it but that it is a
/// day that `chrono` represents.
#[verifier::external_body]
pub fn today() -> (d: CalendarDate)
    ensures
        d.valid(),
{
    let t = chrono::Local::now().date_naive();
    CalendarDate { year: t.year(), month: t.month(), day: t.day() }
}

/// The date of a year, month and day (`NaiveDate::from_ymd_opt`): `None` when
/// the day does not exist or lies outside the years that `chrono` represents.
#[verifier::external_body]
pub fn date_from_ymd(year: i32, month: u32, day: u32) -> (res: Option<CalendarDate>)
    ensures
        res == (if is_valid_ymd(year as int, month as int, day as int) {
            Some(CalendarDate { year, month, day })
        } else {
            None
        }),
{
    match chrono::NaiveDate::from_ymd_opt(year, month, day) {
        Some(date) => Some(CalendarDate { year: date.year(), month: date.month(), day: date.day() }),
        None => None,
    }
}

/// `days` days after `date` (`NaiveDate::checked_add_days`): `None` when the
/// result lies outside the represented range.
#[verifier::external_body]
pub fn checked_add_days(date: CalendarDate, days: u64) -> (res: Option<CalendarDate>)
    requires
        date.valid(),
    ensures
        res == days_after(date, days as nat),
{
    let start = chrono::NaiveDate::from_ymd_opt(date.year, date.month, date.day).unwrap();
    match start.checked_add_days(chrono::Days::new(days)) {
        Some(d) => Some(CalendarDate { year: d.year(), month: d.month(), day: d.day() }),
        None => None,
    }
}

/// `days` days before `date` (`NaiveDate::checked_sub_days`): `None` when the
/// result lies outside the represented range.
#[verifier::external_body]
pub fn checked_sub_days(date: CalendarDate, days: u64) -> (res: Option<CalendarDate>)
    requires
        date.valid(),
    ensures
        res == days_before(date, days as nat),
{
    let start = chrono::NaiveDate::from_ymd_opt(date.year, date.month, date.day).unwrap();
    match start.checked_sub_days(chrono::Days::new(days)) {
        Some(d) => Some(CalendarDate { year: d.year(), month: d.month(), day: d.day() }),
        None => None,
    }
}

/// `n` written with at least `width` digits, padded with zeros on the left.
pub open spec fn zero_padded(n: nat, width: nat) -> Seq<char> {
    let digits = decimal_nat(n);
    if digits.len() < width {
        Seq::new((width - digits.len()) as nat, |i: int| '0') + digits
    } else {
        digits
    }
}

/// How `chrono` writes a date (`%Y-%m-%d`): years 0 to 9999 as four digits,
/// other years with their sign and at least four digits, months and days as
/// two digits.
pub open spec fn iso_date(d: CalendarDate) -> Seq<char> {
    let year = if 0 <= d.year <= 9999 {
        zero_padded(d.year as nat, 4)
    } else if d.year < 0 {
        seq!['-'] + zero_padded((0 - d.year) as nat, 4)
    } else {
        seq!['+'] + zero_padded(d.year as nat, 4)
    };
    year + seq!['-'] + zero_padded(d.month as nat, 2) + seq!['-'] + zero_padded(d.day as nat, 2)
}

/// The text of a date as `chrono` displays a `NaiveDate`.
#[verifier::external_body]
pub fn iso_date_string(date: CalendarDate) -> (s: String)
    requires
        date.valid(),
    ensures
        s@ == iso_date(date),
{
    chrono::NaiveDate::from_ymd_opt(date.year, date.month, date.day).unwrap().to_string()
}

/// How the forms write a date back into its text field: `year-month-day`,
/// without padding.
pub open spec fn plain_date(d: CalendarDate) -> Seq<char> {
    decimal_int(d.year as int) + seq!['-'] + decimal_int(d.month as int) + seq!['-'] + decimal_int(
        d.day as int,
    )
}

/// Writes `date` as `year-month-day`, without padding.
pub fn plain_date_string(date: CalendarDate) -> (s: String)
    ensures
        s@ == plain_date(date),
{
    let mut s = decimal_string(date.year as i64);
    push_char(&mut s, '-');
    let month = decimal_string(date.month as i64);
    s.append(month.as_str());
    push_char(&mut s, '-');
    let day = decimal_string(date.day as i64);
    s.append(day.as_str());
    assert(s@ =~= plain_date(date));
    s
}

/// `s` splits at its `-` characters into exactly three parts, the dashes
/// standing at `i` and `j`.
pub open spec fn splits_in_three(s: Seq<char>, i: int, j: int) -> bool {
    &&& 0 <= i < j < s.len()
    &&& s[i] == '-'
    &&& s[j] == '-'
    &&& forall|k: int| 0 <= k < s.len() && k != i && k != j ==> #[trigger] s[k] != '-'
}

/// A run of one or two digits whose value lies in `lo..=hi`.
pub open spec fn digits_in_range(part: Seq<char>, lo: nat, hi: nat) -> bool {
    1 <= part.len() <= 2 && all_digits(part) && lo <= digits_value(part) <= hi
}

/// The form's date format `yyyy-(m)m-(d)d`: four digits of year, a month
/// from 1 to 12 in one or two digits and a day from 1 to 31 in one or two
/// digits (a leading zero allowed).
pub open spec fn date_format_ok(s: Seq<char>) -> bool {
    exists|i: int, j: int|
        #![trigger splits_in_three(s, i, j)]
        splits_in_three(s, i, j) && s.take(i).len() == 4 && all_digits(s.take(i)) && digits_in_range(
            s.subrange(i + 1, j),
            1,
            12,
        ) && digits_in_range(s.subrange(j + 1, s.len() as int), 1, 31)
}

/// What `parse_date_to_naive_datetime` reads from the three parts of a date.
pub open spec fn date_of_parts(year: Seq<char>, month: Seq<char>, day: Seq<char>) -> Option<
    CalendarDate,
> {
    match (parse_i32_spec(year), parse_u32_spec(month), parse_u32_spec(day)) {
        (Some(y), Some(m), Some(d)) => if 1 <= m <= 12 && 1 <= d <= 31 && is_valid_ymd(
            y as int,
            m as int,
            d as int,
        ) {
            Some(CalendarDate { year: y, month: m, day: d })
        } else {
            None
        },
        _ => None,
    }
}

/// The date that a text `year-month-day` names: the text must split at `-`
/// into exactly three parts, read as integers, naming a day that exists.
pub open spec fn parsed_date(s: Seq<char>) -> Option<CalendarDate> {
    if exists|i: int, j: int| splits_in_three(s, i, j) {
        let (i, j) = choose|i: int, j: int| splits_in_three(s, i, j);
        date_of_parts(s.take(i), s.subrange(i + 1, j), s.skip(j + 1))
    } else {
        None
    }
}

proof fn lemma_split_unique(s: Seq<char>, i: int, j: int, a: int, b: int)
    requires
        splits_in_three(s, i, j),
        splits_in_three(s, a, b),
    ensures
        i == a && j == b,
{
    if i != a {
        if i < a {
            assert(s[i] != '-');
        } else {
            assert(s[a] != '-');
        }
    }
    if j != b {
        if j < b {
            assert(s[j] != '-');
        } else {
            assert(s[b] != '-');
        }
    }
}

/// `n` padded with zeros is a run of digits worth `n`, at least `width`
/// long.
proof fn lemma_zero_padded(n: nat, width: nat)
    ensures
        zero_padded(n, width).len() > 0,
        all_digits(zero_padded(n, width)),
        digits_value(zero_padded(n, width)) == n,
        decimal_nat(n).len() <= width ==> zero_padded(n, width).len() == width,
        decimal_nat(n).len() > width ==> zero_padded(n, width) == decimal_nat(n),
{
    lemma_decimal_nat(n);
    let digits = decimal_nat(n);
    if digits.len() < width {
        let z = Seq::new((width - digits.len()) as nat, |i: int| '0');
        lemma_leading_zeros(z, digits);
        let p = z + digits;
        assert forall|i: int| 0 <= i < p.len() implies is_digit(#[trigger] p[i]) by {
            if i >= z.len() {
                assert(p[i] == digits[i - z.len()]);
            }
        }
    }
}

/// A date written as three runs of digits joined by `-` reads back as
/// itself, and has the form's format when the year has four digits and the
/// month and the day at most two.
proof fn lemma_three_runs_read_back(d: CalendarDate, y: Seq<char>, m: Seq<char>, dd: Seq<char>)
    requires
        d.valid(),
        y.len() > 0,
        m.len() > 0,
        dd.len() > 0,
        all_digits(y),
        all_digits(m),
        all_digits(dd),
        digits_value(y) == d.year,
        digits_value(m) == d.month,
        digits_value(dd) == d.day,
    ensures
        y.len() == 4 && m.len() <= 2 && dd.len() <= 2 ==> date_format_ok(
            y + seq!['-'] + m + seq!['-'] + dd,
        ),
        parsed_date(y + seq!['-'] + m + seq!['-'] + dd) == Some(d),
{
    let s = y + seq!['-'] + m + seq!['-'] + dd;
    let i = y.len() as int;
    let j = i + 1 + m.len();
    assert(s.take(i) =~= y);
    assert(s.subrange(i + 1, j) =~= m);
    assert(s.subrange(j + 1, s.len() as int) =~= dd);
    assert(s.skip(j + 1) =~= dd);
    assert(s[i] == '-');
    assert(s[j] == '-');
    assert forall|k: int| 0 <= k < s.len() && k != i && k != j implies #[trigger] s[k] != '-' by {
        if k < i {
            assert(s[k] == y[k]);
            assert(is_digit(y[k]));
        } else if k < j {
            assert(s[k] == m[k - i - 1]);
            assert(is_digit(m[k - i - 1]));
        } else {
            assert(s[k] == dd[k - j - 1]);
            assert(is_digit(dd[k - j - 1]));
        }
    }
    assert(splits_in_three(s, i, j));
    lemma_parse_digits(y);
    lemma_parse_digits(m);
    lemma_parse_digits(dd);
    if y.len() == 4 && m.len() <= 2 && dd.len() <= 2 {
        assert(digits_in_range(s.subrange(i + 1, j), 1, 12));
        assert(digits_in_range(s.subrange(j + 1, s.len() as int), 1, 31));
    }
    let (a, b) = choose|a: int, b: int| splits_in_three(s, a, b);
    lemma_split_unique(s, i, j, a, b);
}

/// A run of four digits is worth at most 9999.
proof fn lemma_four_digits_value(y: Seq<char>)
    requires
        y.len() == 4,
        all_digits(y),
    ensures
        digits_value(y) <= 9999,
{
    let y3 = y.drop_last();
    let y2 = y3.drop_last();
    let y1 = y2.drop_last();
    assert(is_digit(y[0]) && is_digit(y[1]) && is_digit(y[2]) && is_digit(y[3]));
    assert(y1.drop_last().len() == 0);
    assert(digits_value(y1) == digits_value(y1.drop_last()) * 10 + crate::text::digit_value(y1.last()));
    assert(digits_value(y1) <= 9);
    assert(digits_value(y2) <= 99);
    assert(digits_value(y3) <= 999);
}

/// A text in the form's date format reads as the day that its three parts
/// name: that day when it exists, and nothing when it does not (such as the
/// 31st of a 30-day month).
pub proof fn formatted_date_reads_as_its_parts(s: Seq<char>, i: int, j: int)
    requires
        date_format_ok(s),
        splits_in_three(s, i, j),
    ensures
        ({
            let y = digits_value(s.take(i));
            let m = digits_value(s.subrange(i + 1, j));
            let d = digits_value(s.subrange(j + 1, s.len() as int));
            parsed_date(s) == if is_valid_ymd(y as int, m as int, d as int) {
                Some(CalendarDate { year: y as i32, month: m as u32, day: d as u32 })
            } else {
                None
            }
        }),
{
    let (a, b) = choose|a: int, b: int|
        #![trigger splits_in_three(s, a, b)]
        splits_in_three(s, a, b) && s.take(a).len() == 4 && all_digits(s.take(a)) && digits_in_range(
            s.subrange(a + 1, b),
            1,
            12,
        ) && digits_in_range(s.subrange(b + 1, s.len() as int), 1, 31);
    lemma_split_unique(s, i, j, a, b);
    let year = s.take(i);
    let month = s.subrange(i + 1, j);
    let day = s.subrange(j + 1, s.len() as int);
    assert(s.skip(j + 1) =~= day);
    lemma_four_digits_value(year);
    lemma_parse_digits(year);
    lemma_parse_digits(month);
    lemma_parse_digits(day);
    let (c, e) = choose|c: int, e: int| splits_in_three(s, c, e);
    lemma_split_unique(s, i, j, c, e);
}

/// A date that the forms write back into a date field (`year-month-day`,
/// without padding) reads back as the same date, for every year from 0 on;
/// it has the form's format when the year has four digits.
pub proof fn plain_date_reads_back(d: CalendarDate)
    requires
        d.valid(),
        0 <= d.year,
    ensures
        parsed_date(plain_date(d)) == Some(d),
        1000 <= d.year <= 9999 ==> date_format_ok(plain_date(d)),
{
    lemma_decimal_nat(d.year as nat);
    lemma_decimal_nat(d.month as nat);
    lemma_decimal_nat(d.day as nat);
    assert(plain_date(d) =~= decimal_nat(d.year as nat) + seq!['-'] + decimal_nat(d.month as nat)
        + seq!['-'] + decimal_nat(d.day as nat));
    lemma_three_runs_read_back(
        d,
        decimal_nat(d.year as nat),
        decimal_nat(d.month as nat),
        decimal_nat(d.day as nat),
    );
}

/// A date as `chrono` writes it (`yyyy-mm-dd`) reads back as the same date,
/// for the years from 0 to 9999.
pub proof fn iso_date_reads_back(d: CalendarDate)
    requires
        d.valid(),
        0 <= d.year <= 9999,
    ensures
        date_format_ok(iso_date(d)),
        parsed_date(iso_date(d)) == Some(d),
{
    lemma_decimal_nat(d.year as nat);
    lemma_decimal_nat(d.month as nat);
    lemma_decimal_nat(d.day as nat);
    lemma_zero_padded(d.year as nat, 4);
    lemma_zero_padded(d.month as nat, 2);
    lemma_zero_padded(d.day as nat, 2);
    assert(iso_date(d) =~= zero_padded(d.year as nat, 4) + seq!['-'] + zero_padded(d.month as nat, 2)
        + seq!['-'] + zero_padded(d.day as nat, 2));
    lemma_three_runs_read_back(
        d,
        zero_padded(d.year as nat, 4),
        zero_padded(d.month as nat, 2),
        zero_padded(d.day as nat, 2),
    );
}

/// Only dates of years with four digits, written by the forms, have the
/// form's format.
pub proof fn lemma_plain_date_format_year(d: CalendarDate)
    requires
        d.valid(),
    ensures
        date_format_ok(plain_date(d)) ==> 1000 <= d.year <= 9999,
{
    let s = plain_date(d);
    if date_format_ok(s) {
        let (a, b) = choose|a: int, b: int|
            #![trigger splits_in_three(s, a, b)]
            splits_in_three(s, a, b) && s.take(a).len() == 4 && all_digits(s.take(a))
                && digits_in_range(s.subrange(a + 1, b), 1, 12) && digits_in_range(
                s.subrange(b + 1, s.len() as int),
                1,
                31,
            );
        if d.year < 0 {
            assert(s[0] == '-');
            assert(s.take(a)[0] == s[0]);
            assert(is_digit(s.take(a)[0]));
        } else {
            lemma_decimal_nat(d.year as nat);
            lemma_decimal_nat(d.month as nat);
            lemma_decimal_nat(d.day as nat);
            let y = decimal_nat(d.year as nat);
            let m = decimal_nat(d.month as nat);
            let dd = decimal_nat(d.day as nat);
            assert(s =~= y + seq!['-'] + m + seq!['-'] + dd);
            let i = y.len() as int;
            let j = i + 1 + m.len();
            assert(s[i] == '-');
            assert(s[j] == '-');
            assert forall|k: int| 0 <= k < s.len() && k != i && k != j implies #[trigger] s[k] != '-' by {
                if k < i {
                    assert(s[k] == y[k]);
                    assert(is_digit(y[k]));
                } else if k < j {
                    assert(s[k] == m[k - i - 1]);
                    assert(is_digit(m[k - i - 1]));
                } else {
                    assert(s[k] == dd[k - j - 1]);
                    assert(is_digit(dd[k - j - 1]));
                }
            }
            assert(splits_in_three(s, i, j));
            lemma_split_unique(s, i, j, a, b);
        }
    }
}

/// Going a day forward and then a day back returns to the same day.
pub proof fn day_after_then_before(d: CalendarDate)
    requires
        d.valid(),
        next_day(d) is Some,
    ensures
        previous_day(next_day(d)->0) == Some(d),
{
}

/// Going a day back and then a day forward returns to the same day.
pub proof fn day_before_then_after(d: CalendarDate)
    requires
        d.valid(),
        previous_day(d) is Some,
    ensures
        next_day(previous_day(d)->0) == Some(d),
{
}

/// The first index at or after `from` that holds `c`, or `v.len()`.
fn find_char_from(v: &Vec<char>, from: usize, c: char) -> (k: usize)
    requires
        from <= v@.len(),
    ensures
        from <= k <= v@.len(),
        k < v@.len() ==> v@[k as int] == c,
        forall|m: int| from <= m < k ==> v@[m] != c,
{
    let mut k = from;
    while k < v.len()
        invariant
            from <= k <= v@.len(),
            forall|m: int| from <= m < k ==> v@[m] != c,
        decreases v@.len() - k,
    {
        if v[k] == c {
            return k;
        }
        k = k + 1;
    }
    k
}

/// The positions of the two dashes of a date text, when it has exactly two.
fn split_dashes(v: &Vec<char>) -> (res: Option<(usize, usize)>)
    ensures
        match res {
            Some((i, j)) => splits_in_three(v@, i as int, j as int),
            None => !exists|i: int, j: int| splits_in_three(v@, i, j),
        },
{
    let i = find_char_from(v, 0, '-');
    if i == v.len() {
        assert forall|a: int, b: int| !splits_in_three(v@, a, b) by {
            if splits_in_three(v@, a, b) {
                assert(v@[a] == '-');
            }
        }
        return None;
    }
    let j = find_char_from(v, i + 1, '-');
    if j == v.len() {
        assert forall|a: int, b: int| !splits_in_three(v@, a, b) by {
            if splits_in_three(v@, a, b) {
                assert(v@[b] == '-');
                if b == i {
                    assert(v@[a] == '-');
                }
            }
        }
        return None;
    }
    let k = find_char_from(v, j + 1, '-');
    if k < v.len() {
        assert forall|a: int, b: int| !splits_in_three(v@, a, b) by {
            if splits_in_three(v@, a, b) {
                assert(v@[a] == '-' && v@[b] == '-');
                if a != i && b != i {
                    assert(v@[i as int] != '-');
                }
                if a != j && b != j {
                    assert(v@[j as int] != '-');
                }
                if a != k as int && b != k as int {
                    assert(v@[k as int] != '-');
                }
            }
        }
        return None;
    }
    assert(splits_in_three(v@, i as int, j as int));
    Some((i, j))
}

/// Checks if a date text is in the format `yyyy-(m)m-(d)d`.
pub fn check_date_format(date: &str) -> (ok: bool)
    ensures
        ok == date_format_ok(date@),
{
    let v = chars_of(date);
    let ghost s = v@;
    match split_dashes(&v) {
        None => {
            assert(!date_format_ok(s));
            false
        },
        Some((i, j)) => {
            assert(s.take(i as int) =~= s.subrange(0, i as int));
            assert(s.skip(j + 1) =~= s.subrange(j + 1, s.len() as int));
            let (year_ok, _) = digit_run_checked(&v, 0, i);
            let year_ok = year_ok && i == 4;
            let (month_ok, month) = digit_run_checked(&v, i + 1, j);
            let (day_ok, day) = digit_run_checked(&v, j + 1, v.len());
            let month_short = j - i - 1 <= 2;
            let day_short = v.len() - j - 1 <= 2;
            let ok = year_ok && month_ok && month_short && 1 <= month && month <= 12 && day_ok
                && day_short && 1 <= day && day <= 31;
            proof {
                if date_format_ok(s) {
                    let (a, b) = choose|a: int, b: int|
                        #![trigger splits_in_three(s, a, b)]
                        splits_in_three(s, a, b) && s.take(a).len() == 4 && all_digits(s.take(a))
                            && digits_in_range(s.subrange(a + 1, b), 1, 12) && digits_in_range(
                            s.subrange(b + 1, s.len() as int),
                            1,
                            31,
                        );
                    lemma_split_unique(s, i as int, j as int, a, b);
                }
                if ok {
                    assert(splits_in_three(s, i as int, j as int));
                }
            }
            ok
        },
    }
}

/// Whether `v[from..to]` is a non-empty run of digits, and its value capped
/// at 32.
fn digit_run_checked(v: &Vec<char>, from: usize, to: usize) -> (res: (bool, u64))
    requires
        from <= to <= v@.len(),
    ensures
        res.0 == (from < to && all_digits(v@.subrange(from as int, to as int))),
        res.0 ==> (res.1 == digits_value(v@.subrange(from as int, to as int)) || (res.1 == 32
            && digits_value(v@.subrange(from as int, to as int)) >= 32)),
{
    digit_run(v, from, to, 32)
}

/// Reads a date written `year-month-day`, as the forms store it.
pub fn parse_date_to_naive_datetime(date: &str) -> (res: Option<CalendarDate>)
    ensures
        res == parsed_date(date@),
{
    let v = chars_of(date);
    let ghost s = v@;
    match split_dashes(&v) {
        None => None,
        Some((i, j)) => {
            proof {
                let (a, b) = choose|a: int, b: int| splits_in_three(s, a, b);
                lemma_split_unique(s, i as int, j as int, a, b);
                assert(s.take(i as int) =~= s.subrange(0, i as int));
                assert(s.skip(j + 1) =~= s.subrange(j + 1, s.len() as int));
            }
            let year = parse_i32_range(&v, 0, i);
            let month = parse_u32_range(&v, i + 1, j);
            let day = parse_u32_range(&v, j + 1, v.len());
            match (year, month, day) {
                (Some(y), Some(m), Some(d)) => {
                    if 1 <= m && m <= 12 && 1 <= d && d <= 31 {
                        date_from_ymd(y, m, d)
                    } else {
                        None
                    }
                },
                _ => None,
            }
        },
    }
}

} // verus!
