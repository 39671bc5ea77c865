//! What the clock module shows, and when it next has to look at the time.

use vstd::prelude::*;
use chrono::{Datelike, Timelike};

verus! {

/// The earliest year a date can have.
pub open spec fn min_year() -> int {
    -262143
}

/// The latest year a date can have.
pub open spec fn max_year() -> int {
    262142
}

/// Whether `year` of the proleptic Gregorian calendar is a leap year.
pub open spec fn is_leap_year(year: int) -> bool {
    year % 4 == 0 && (year % 100 != 0 || year % 400 == 0)
}

/// The number of days of month `month` (1 to 12) of `year`.
pub open spec fn days_in_month(year: int, month: int) -> int {
    if month == 2 {
        if is_leap_year(year) {
            29
        } else {
            28
        }
    } else if month == 4 || month == 6 || month == 9 || month == 11 {
        30
    } else {
        31
    }
}

/// The months of the Gregorian calendar have their usual lengths: 31 days
/// in January, March, May, July, August, October and December, 30 in April,
/// June, September and November, and 29 in February of a leap year, 28
/// otherwise; a leap year is one divisible by 4, except centuries not
/// divisible by 400. So a year has 366 days if it is a leap year, else 365.
pub proof fn lemma_month_lengths(year: int)
    ensures
        days_in_month(year, 1) == 31,
        days_in_month(year, 3) == 31,
        days_in_month(year, 5) == 31,
        days_in_month(year, 7) == 31,
        days_in_month(year, 8) == 31,
        days_in_month(year, 10) == 31,
        days_in_month(year, 12) == 31,
        days_in_month(year, 4) == 30,
        days_in_month(year, 6) == 30,
        days_in_month(year, 9) == 30,
        days_in_month(year, 11) == 30,
        year % 4 != 0 ==> days_in_month(year, 2) == 28,
        year % 4 == 0 && year % 100 != 0 ==> days_in_month(year, 2) == 29,
        year % 400 == 0 ==> days_in_month(year, 2) == 29,
        year % 100 == 0 && year % 400 != 0 ==> days_in_month(year, 2) == 28,
        days_in_month(year, 1) + days_in_month(year, 2) + days_in_month(year, 3) + days_in_month(
            year,
            4,
        ) + days_in_month(year, 5) + days_in_month(year, 6) + days_in_month(year, 7)
            + days_in_month(year, 8) + days_in_month(year, 9) + days_in_month(year, 10)
            + days_in_month(year, 11) + days_in_month(year, 12) == if year % 4 == 0 && (year % 100
            != 0 || year % 400 == 0) {
            366int
        } else {
            365int
        },
{
}

/// Whether the fields make a local date and time: a day of the calendar
/// within the supported years, a time of day, and a nanosecond below two
/// seconds, at or above one second only within second 59 (a leap second).
pub open spec fn valid_date_time(
    year: int,
    month: int,
    day: int,
    hour: int,
    minute: int,
    second: int,
    nanosecond: int,
) -> bool {
    &&& min_year() <= year <= max_year()
    &&& 1 <= month <= 12
    &&& 1 <= day <= days_in_month(year, month)
    &&& 0 <= hour < 24
    &&& 0 <= minute < 60
    &&& 0 <= second < 60
    &&& 0 <= nanosecond < 2_000_000_000
    &&& nanosecond >= 1_000_000_000 ==> second == 59
}

/// How far the weekday of the first of a month is shifted, in the weekday
/// count of [`date_weekday`].
pub open spec fn month_weekday_offset(month: int) -> int {
    if month == 1 {
        0
    } else if month == 2 {
        3
    } else if month == 3 {
        2
    } else if month == 4 {
        5
    } else if month == 5 {
        0
    } else if month == 6 {
        3
    } else if month == 7 {
        5
    } else if month == 8 {
        1
    } else if month == 9 {
        4
    } else if month == 10 {
        6
    } else if month == 11 {
        2
    } else {
        4
    }
}

/// What a valid local date and time is: a year from -262143 to 262142, a
/// month from 1 to 12, a day from 1 to the month's length (so the 28th
/// always, the 31st only in a long month), an hour below 24, a minute and a
/// second below 60, and a sub-second part below one second, or below two
/// seconds within second 59 (a leap second).
pub proof fn lemma_valid_date_time(
    year: int,
    month: int,
    day: int,
    hour: int,
    minute: int,
    second: int,
    nanosecond: int,
)
    ensures
        valid_date_time(year, month, day, hour, minute, second, nanosecond) ==> -262143 <= year
            <= 262142 && 1 <= month <= 12 && 1 <= day <= 31 && 0 <= hour < 24 && 0 <= minute < 60
            && 0 <= second < 60 && 0 <= nanosecond < 2_000_000_000,
        -262143 <= year <= 262142 && 1 <= month <= 12 && 1 <= day <= 28 && 0 <= hour < 24 && 0
            <= minute < 60 && 0 <= second < 60 && 0 <= nanosecond < 1_000_000_000
            ==> valid_date_time(year, month, day, hour, minute, second, nanosecond),
        -262143 <= year <= 262142 && (month == 1 || month == 3 || month == 5 || month == 7 || month
            == 8 || month == 10 || month == 12) && 0 <= hour < 24 && 0 <= minute < 60 && 0
            <= nanosecond < 1_000_000_000 && 0 <= second < 60 ==> valid_date_time(
            year,
            month,
            31,
            hour,
            minute,
            second,
            nanosecond,
        ),
        (month == 4 || month == 6 || month == 9 || month == 11) ==> !valid_date_time(
            year,
            month,
            31,
            hour,
            minute,
            second,
            nanosecond,
        ),
        !valid_date_time(year, 2, 30, hour, minute, second, nanosecond),
        nanosecond >= 1_000_000_000 && second != 59 ==> !valid_date_time(
            year,
            month,
            day,
            hour,
            minute,
            second,
            nanosecond,
        ),
{
}

/// The day of the week of a date of the proleptic Gregorian calendar,
/// counted from Sunday (0) to Saturday (6). January and February count as
/// months of the year before, so that the leap day is the last day of its
/// year.
pub open spec fn date_weekday(year: int, month: int, day: int) -> int {
    let y = if month < 3 {
        year - 1
    } else {
        year
    };
    (y + y / 4 - y / 100 + y / 400 + month_weekday_offset(month) + day) % 7
}

/// The decimal digits of `n`, without leading zeros ("0" for zero).
pub open spec fn decimal(n: nat) -> Seq<char>
    decreases n,
{
    if n < 10 {
        seq![digit_char(n)]
    } else {
        decimal(n / 10).push(digit_char(n % 10))
    }
}

/// The character of a decimal digit.
pub open spec fn digit_char(d: nat) -> char {
    if d == 0 {
        '0'
    } else if d == 1 {
        '1'
    } else if d == 2 {
        '2'
    } else if d == 3 {
        '3'
    } else if d == 4 {
        '4'
    } else if d == 5 {
        '5'
    } else if d == 6 {
        '6'
    } else if d == 7 {
        '7'
    } else if d == 8 {
        '8'
    } else {
        '9'
    }
}

/// `s` with zeros in front, up to `width` characters.
pub open spec fn zero_padded(s: Seq<char>, width: nat) -> Seq<char> {
    if s.len() < width {
        Seq::new((width - s.len()) as nat, |i: int| '0') + s
    } else {
        s
    }
}

/// A year as the clock writes it: four digits with leading zeros for the
/// years 0 to 9999; other years with a sign in front of at least four digits.
pub open spec fn year_text(year: int) -> Seq<char> {
    if 0 <= year <= 9999 {
        zero_padded(decimal(year as nat), 4)
    } else if year < 0 {
        seq!['-'] + zero_padded(decimal((-year) as nat), 4)
    } else {
        seq!['+'] + zero_padded(decimal(year as nat), 4)
    }
}

/// A number below 100 in two digits.
pub open spec fn two_digits(n: nat) -> Seq<char> {
    zero_padded(decimal(n), 2)
}

/// The English short name of a weekday counted from Sunday.
pub open spec fn weekday_abbr(weekday: int) -> Seq<char> {
    if weekday == 0 {
        seq!['S', 'u', 'n']
    } else if weekday == 1 {
        seq!['M', 'o', 'n']
    } else if weekday == 2 {
        seq!['T', 'u', 'e']
    } else if weekday == 3 {
        seq!['W', 'e', 'd']
    } else if weekday == 4 {
        seq!['T', 'h', 'u']
    } else if weekday == 5 {
        seq!['F', 'r', 'i']
    } else {
        seq!['S', 'a', 't']
    }
}

/// The number of days of a month (1 to 12) of a year.
pub fn month_length(year: i32, month: u32) -> (days: u32)
    requires
        1 <= month <= 12,
    ensures
        days == days_in_month(year as int, month as int),
        (month == 1 || month == 3 || month == 5 || month == 7 || month == 8 || month == 10 || month
            == 12) ==> days == 31,
        (month == 4 || month == 6 || month == 9 || month == 11) ==> days == 30,
        month == 2 ==> days == (if year % 4 == 0 && (year % 100 != 0 || year % 400 == 0) {
            29u32
        } else {
            28u32
        }),
{
    if month == 2 {
        let leap = year % 4 == 0 && (year % 100 != 0 || year % 400 == 0);
        assert(leap == is_leap_year(year as int)) by {
            assert((year % 4 == 0) == ((year as int) % 4 == 0));
            assert((year % 100 == 0) == ((year as int) % 100 == 0));
            assert((year % 400 == 0) == ((year as int) % 400 == 0));
        }
        if leap {
            29
        } else {
            28
        }
    } else if month == 4 || month == 6 || month == 9 || month == 11 {
        30
    } else {
        31
    }
}

/// The number a string of decimal digits stands for.
pub open spec fn digits_value(s: Seq<char>) -> int
    decreases s.len(),
{
    if s.len() == 0 {
        0
    } else {
        digits_value(s.drop_last()) * 10 + (s.last() as int - 48)
    }
}

/// Whether every character of `s` is a decimal digit.
pub open spec fn all_digits(s: Seq<char>) -> bool {
    forall|i: int| 0 <= i < s.len() ==> 48 <= #[trigger] (s[i] as int) <= 57
}

/// The digit characters are `0` to `9`, in order.
pub proof fn lemma_digit_char(d: nat)
    requires
        d < 10,
    ensures
        digit_char(d) as int == 48 + d,
{
}

/// `decimal(n)` is a string of digits without a leading zero that reads
/// back as `n`: one digit below 10, at most two below 100, three below
/// 1000, four below 10000.
pub proof fn lemma_decimal(n: nat)
    ensures
        all_digits(decimal(n)),
        digits_value(decimal(n)) == n,
        1 <= decimal(n).len(),
        n >= 10 ==> decimal(n)[0] != '0',
        n < 10 ==> decimal(n).len() == 1,
        n < 100 ==> decimal(n).len() <= 2,
        n < 1000 ==> decimal(n).len() <= 3,
        n < 10000 ==> decimal(n).len() <= 4,
    decreases n,
{
    if n >= 10 {
        lemma_decimal(n / 10);
        lemma_digit_char(n % 10);
        let d = decimal(n);
        assert(d.drop_last() =~= decimal(n / 10));
        assert(d.last() == digit_char(n % 10));
        assert(digits_value(d) == digits_value(d.drop_last()) * 10 + (d.last() as int - 48));
        assert(n == (n / 10) * 10 + n % 10);
        assert(d[0] == decimal(n / 10)[0]);
        if n / 10 < 10 {
            lemma_digit_char(n / 10);
        }
    } else {
        lemma_digit_char(n);
        let d = decimal(n);
        assert(d.drop_last() =~= Seq::<char>::empty());
        assert(digits_value(Seq::<char>::empty()) == 0);
        assert(digits_value(d) == digits_value(d.drop_last()) * 10 + (d.last() as int - 48));
    }
}

/// Zeros in front of a string of digits do not change the number it reads.
pub proof fn lemma_leading_zeros(k: nat, s: Seq<char>)
    ensures
        digits_value(Seq::new(k, |i: int| '0') + s) == digits_value(s),
        all_digits(s) ==> all_digits(Seq::new(k, |i: int| '0') + s),
    decreases s.len() + k,
{
    let z = Seq::new(k, |i: int| '0');
    if s.len() == 0 {
        assert(z + s =~= z);
        if k > 0 {
            lemma_leading_zeros((k - 1) as nat, s);
            assert(z.drop_last() =~= Seq::new((k - 1) as nat, |i: int| '0') + s);
        }
    } else {
        lemma_leading_zeros(k, s.drop_last());
        assert((z + s).drop_last() =~= z + s.drop_last());
        assert((z + s).last() == s.last());
    }
    if all_digits(s) {
        assert forall|i: int| 0 <= i < (z + s).len() implies 48 <= #[trigger] ((z + s)[i] as int)
            <= 57 by {
            if i >= k {
                assert((z + s)[i] == s[i - k]);
            }
        }
    }
}

/// A number below 100 is written in exactly two digits that read back as it.
pub proof fn lemma_two_digits(n: nat)
    requires
        n < 100,
    ensures
        two_digits(n).len() == 2,
        all_digits(two_digits(n)),
        digits_value(two_digits(n)) == n,
{
    lemma_decimal(n);
    let d = decimal(n);
    if d.len() < 2 {
        lemma_leading_zeros((2 - d.len()) as nat, d);
    }
}

/// The years 0 to 9999 are written in exactly four digits that read back as
/// the year; a year before 0 as `-` and at least four digits that read back
/// as its magnitude; a year after 9999 as `+` and its digits.
pub proof fn lemma_year_text(year: int)
    ensures
        0 <= year <= 9999 ==> year_text(year).len() == 4 && all_digits(year_text(year))
            && digits_value(year_text(year)) == year,
        year < 0 ==> year_text(year)[0] == '-' && year_text(year).len() >= 5 && all_digits(
            year_text(year).skip(1),
        ) && digits_value(year_text(year).skip(1)) == -year,
        year > 9999 ==> year_text(year)[0] == '+' && year_text(year).len() >= 6 && all_digits(
            year_text(year).skip(1),
        ) && digits_value(year_text(year).skip(1)) == year,
{
    let m: nat = if year < 0 {
        (-year) as nat
    } else {
        year as nat
    };
    lemma_decimal(m);
    let d = decimal(m);
    if d.len() < 4 {
        lemma_leading_zeros((4 - d.len()) as nat, d);
    }
    let p = zero_padded(d, 4);
    if year < 0 {
        assert((seq!['-'] + p).skip(1) =~= p);
    } else if year > 9999 {
        assert(d.len() >= 5) by {
            if d.len() <= 4 {
                lemma_decimal_bound(m);
            }
        }
        assert((seq!['+'] + p).skip(1) =~= p);
    }
}

/// A number written in at most four digits is below 10000.
pub proof fn lemma_decimal_bound(n: nat)
    ensures
        decimal(n).len() <= 4 ==> n < 10000,
        decimal(n).len() <= 1 ==> n < 10,
        decimal(n).len() <= 2 ==> n < 100,
        decimal(n).len() <= 3 ==> n < 1000,
    decreases n,
{
    if n >= 10 {
        lemma_decimal_bound(n / 10);
        assert(decimal(n).len() == decimal(n / 10).len() + 1);
    }
}

/// The English short names of the weekdays, from Sunday.
pub proof fn lemma_weekday_names()
    ensures
        weekday_abbr(0) == seq!['S', 'u', 'n'],
        weekday_abbr(1) == seq!['M', 'o', 'n'],
        weekday_abbr(2) == seq!['T', 'u', 'e'],
        weekday_abbr(3) == seq!['W', 'e', 'd'],
        weekday_abbr(4) == seq!['T', 'h', 'u'],
        weekday_abbr(5) == seq!['F', 'r', 'i'],
        weekday_abbr(6) == seq!['S', 'a', 't'],
        forall|w: int| #[trigger] weekday_abbr(w).len() == 3,
{
}

/// One year's share in the weekday count of [`date_weekday`].
proof fn lemma_year_shift(y: int)
    ensures
        (y + y / 4 - y / 100 + y / 400) - ((y - 1) + (y - 1) / 4 - (y - 1) / 100 + (y - 1) / 400)
            == 1 + (if is_leap_year(y) {
            1int
        } else {
            0int
        }),
{
    assert(y / 4 - (y - 1) / 4 == (if y % 4 == 0 {
        1int
    } else {
        0int
    }));
    assert(y / 100 - (y - 1) / 100 == (if y % 100 == 0 {
        1int
    } else {
        0int
    }));
    assert(y / 400 - (y - 1) / 400 == (if y % 400 == 0 {
        1int
    } else {
        0int
    }));
    if y % 100 == 0 {
        assert(y % 4 == 0);
    }
    if y % 400 == 0 {
        assert(y % 100 == 0);
    }
}

/// Adding one, plus whole weeks, moves a weekday count on by one day.
proof fn lemma_week_step(x: int, weeks: int)
    ensures
        (x + 1 + 7 * weeks) % 7 == (x % 7 + 1) % 7,
{
    assert((x + 1 + 7 * weeks) % 7 == (x + 1) % 7) by (nonlinear_arith);
    assert((x + 1) % 7 == (x % 7 + 1) % 7) by (nonlinear_arith);
}

/// The weekday count of a date, before it is taken modulo seven.
spec fn weekday_count(year: int, month: int, day: int) -> int {
    let y = if month < 3 {
        year - 1
    } else {
        year
    };
    y + y / 4 - y / 100 + y / 400 + month_weekday_offset(month) + day
}

/// Weekdays run on from day to day, across the ends of months and years,
/// one day at a time: the day after a date falls on the next weekday (after
/// Saturday, Sunday). 1 January 1970 was a Thursday, 1 January 2000 a
/// Saturday, and every weekday is one of the seven.
pub proof fn lemma_weekdays_run_on(y: int, m: int, d: int)
    requires
        1 <= m <= 12,
        1 <= d <= days_in_month(y, m),
    ensures
        0 <= date_weekday(y, m, d) < 7,
        d < days_in_month(y, m) ==> date_weekday(y, m, d + 1) == (date_weekday(y, m, d) + 1) % 7,
        d == days_in_month(y, m) && m < 12 ==> date_weekday(y, m + 1, 1) == (date_weekday(y, m, d)
            + 1) % 7,
        d == days_in_month(y, m) && m == 12 ==> date_weekday(y + 1, 1, 1) == (date_weekday(
            y,
            m,
            d,
        ) + 1) % 7,
        date_weekday(1970, 1, 1) == 4,
        date_weekday(2000, 1, 1) == 6,
{
    assert(date_weekday(y, m, d) == weekday_count(y, m, d) % 7);
    if d < days_in_month(y, m) {
        assert(weekday_count(y, m, d + 1) == weekday_count(y, m, d) + 1);
        lemma_week_step(weekday_count(y, m, d), 0);
        assert(date_weekday(y, m, d + 1) == weekday_count(y, m, d + 1) % 7);
    } else if m < 12 {
        let here = weekday_count(y, m, d);
        let next = weekday_count(y, m + 1, 1);
        if m == 2 {
            lemma_year_shift(y);
            assert(next == here + 1 - 7 * 4);
            lemma_week_step(here, -4);
        } else {
            let k = (next - here - 1) / 7;
            assert(next == here + 1 + 7 * k);
            lemma_week_step(here, k);
        }
        assert(date_weekday(y, m + 1, 1) == next % 7);
    } else {
        let here = weekday_count(y, m, d);
        let next = weekday_count(y + 1, 1, 1);
        assert(next == here + 1 - 7 * 5);
        lemma_week_step(here, -5);
        assert(date_weekday(y + 1, 1, 1) == next % 7);
    }
}

/// A local date and time as the clock reads it.
#[derive(Clone, Copy, Debug, PartialEq, Eq)]
pub struct ClockTime {
    year: i32,
    month: u32,
    day: u32,
    hour: u32,
    minute: u32,
    second: u32,
    nanosecond: u32,
}

/// The clock's text for a time: the date as year-month-day, the short
/// weekday name, and the hour and minute run together, such as
/// `2021-03-05 Fri 1407`.
pub open spec fn clock_text(t: ClockTime, weekday: int) -> Seq<char> {
    year_text(t.spec_year() as int) + seq!['-'] + two_digits(t.spec_month() as nat) + seq!['-']
        + two_digits(t.spec_day() as nat) + seq![' '] + weekday_abbr(weekday) + seq![' ']
        + two_digits(t.spec_hour() as nat) + two_digits(t.spec_minute() as nat)
}

/// The clock's text for a time, with the weekday of its date.
pub open spec fn clock_label_text(t: ClockTime) -> Seq<char> {
    clock_text(t, date_weekday(t.spec_year() as int, t.spec_month() as int, t.spec_day() as int))
}

/// For the years 0 to 9999 the clock's text has nineteen characters: the
/// four-digit year, `-`, the two-digit month, `-`, the two-digit day, a
/// space, the three-letter weekday name of the date, a space, then the
/// two-digit hour and the two-digit minute; the second is not shown.
pub proof fn lemma_clock_text_layout(t: ClockTime)
    requires
        is_valid_time(t),
        0 <= t.spec_year() <= 9999,
    ensures
        clock_label_text(t).len() == 19,
        digits_value(clock_label_text(t).subrange(0, 4)) == t.spec_year(),
        clock_label_text(t)[4] == '-',
        digits_value(clock_label_text(t).subrange(5, 7)) == t.spec_month(),
        clock_label_text(t)[7] == '-',
        digits_value(clock_label_text(t).subrange(8, 10)) == t.spec_day(),
        clock_label_text(t)[10] == ' ',
        clock_label_text(t).subrange(11, 14) == weekday_abbr(
            date_weekday(t.spec_year() as int, t.spec_month() as int, t.spec_day() as int),
        ),
        clock_label_text(t)[14] == ' ',
        digits_value(clock_label_text(t).subrange(15, 17)) == t.spec_hour(),
        digits_value(clock_label_text(t).subrange(17, 19)) == t.spec_minute(),
{
    let y = year_text(t.spec_year() as int);
    let mo = two_digits(t.spec_month() as nat);
    let d = two_digits(t.spec_day() as nat);
    let w = weekday_abbr(
        date_weekday(t.spec_year() as int, t.spec_month() as int, t.spec_day() as int),
    );
    let h = two_digits(t.spec_hour() as nat);
    let mi = two_digits(t.spec_minute() as nat);
    lemma_year_text(t.spec_year() as int);
    lemma_two_digits(t.spec_month() as nat);
    lemma_two_digits(t.spec_day() as nat);
    lemma_two_digits(t.spec_hour() as nat);
    lemma_two_digits(t.spec_minute() as nat);
    lemma_weekday_names();
    let text = clock_label_text(t);
    assert(text == y + seq!['-'] + mo + seq!['-'] + d + seq![' '] + w + seq![' '] + h + mi);
    assert(text.subrange(0, 4) =~= y);
    assert(text.subrange(5, 7) =~= mo);
    assert(text.subrange(8, 10) =~= d);
    assert(text.subrange(11, 14) =~= w);
    assert(text.subrange(15, 17) =~= h);
    assert(text.subrange(17, 19) =~= mi);
}

/// Whether the fields of `t` make a valid local date and time (every
/// `ClockTime` that code holds does).
pub open spec fn is_valid_time(t: ClockTime) -> bool {
    valid_date_time(
        t.spec_year() as int,
        t.spec_month() as int,
        t.spec_day() as int,
        t.spec_hour() as int,
        t.spec_minute() as int,
        t.spec_second() as int,
        t.spec_nanosecond() as int,
    )
}

/// The clock's text depends only on the minute: two times in the same
/// minute of the same day show the same text.
pub proof fn lemma_label_constant_within_minute(a: ClockTime, b: ClockTime)
    requires
        a.spec_year() == b.spec_year(),
        a.spec_month() == b.spec_month(),
        a.spec_day() == b.spec_day(),
        a.spec_hour() == b.spec_hour(),
        a.spec_minute() == b.spec_minute(),
    ensures
        clock_label_text(a) == clock_label_text(b),
{
}

/// Outside a leap second, the wait ends exactly at the next minute: the
/// second and the wait add up to sixty, and the wait is at least one second.
pub proof fn lemma_wait_reaches_next_minute(t: ClockTime)
    requires
        is_valid_time(t),
        t.spec_nanosecond() < 1_000_000_000,
    ensures
        t.spec_second() + wait_seconds(t) == 60,
        1 <= wait_seconds(t) <= 60,
{
}

/// Only one minute of the whole supported range has no minute after it:
/// 23:59 of 31 December of the latest year. Every other time, and so 23:59
/// of every other day, is followed by a next minute.
pub proof fn lemma_last_minute_is_end_of_range(t: ClockTime)
    ensures
        in_last_minute(t) <==> (t.spec_year() == 262142 && t.spec_month() == 12 && t.spec_day()
            == 31 && t.spec_hour() == 23 && t.spec_minute() == 59),
        t.spec_year() < 262142 ==> !in_last_minute(t),
        t.spec_month() < 12 ==> !in_last_minute(t),
        t.spec_day() < 31 ==> !in_last_minute(t),
        t.spec_hour() < 23 ==> !in_last_minute(t),
        t.spec_minute() < 59 ==> !in_last_minute(t),
{
}

/// Whether `t` lies in the last minute that a date-time can have, where
/// moving a minute on is impossible.
pub open spec fn in_last_minute(t: ClockTime) -> bool {
    t.spec_year() == max_year() && t.spec_month() == 12 && t.spec_day() == 31 && t.spec_hour()
        == 23 && t.spec_minute() == 59
}

/// How long the clock waits, in whole seconds, from `t` to the same
/// sub-second point at the start of the next minute. Within a leap second
/// the next minute is treated as one second away, or as no time away where
/// the leap second ends the day.
pub open spec fn wait_seconds(t: ClockTime) -> u64 {
    if t.spec_nanosecond() >= 1_000_000_000 {
        if t.spec_hour() == 23 && t.spec_minute() == 59 {
            0
        } else {
            1
        }
    } else {
        (60 - t.spec_second()) as u64
    }
}

/// The day after a date of the calendar.
spec fn next_date(year: int, month: int, day: int) -> (int, int, int) {
    if day < days_in_month(year, month) {
        (year, month, day + 1)
    } else if month < 12 {
        (year, month + 1, 1)
    } else {
        (year + 1, 1, 1)
    }
}

/// `t` one minute later, the second and the sub-second part kept.
spec fn next_minute(t: ClockTime) -> ClockTime {
    if t.minute < 59 {
        ClockTime { minute: (t.minute + 1) as u32, ..t }
    } else if t.hour < 23 {
        ClockTime { hour: (t.hour + 1) as u32, minute: 0, ..t }
    } else {
        let (y, m, d) = next_date(t.year as int, t.month as int, t.day as int);
        ClockTime { year: y as i32, month: m as u32, day: d as u32, hour: 0, minute: 0, ..t }
    }
}

/// `t` `minutes` minutes later, the second and the sub-second part kept.
spec fn minutes_later(t: ClockTime, minutes: nat) -> ClockTime
    decreases minutes,
{
    if minutes == 0 {
        t
    } else {
        next_minute(minutes_later(t, (minutes - 1) as nat))
    }
}

/// Whether `minutes` minutes can be added to `t` without passing the last
/// date-time there is.
spec fn minutes_fit(t: ClockTime, minutes: nat) -> bool
    decreases minutes,
{
    minutes == 0 || (!in_last_minute(t) && minutes_fit(next_minute(t), (minutes - 1) as nat))
}

/// `t` with a leap second left: the sub-second part taken below one second.
spec fn leap_left(t: ClockTime) -> ClockTime {
    ClockTime { nanosecond: (t.nanosecond % 1_000_000_000) as u32, ..t }
}

/// The seconds since midnight of `t`, not counting its sub-second part.
spec fn time_of_day(t: ClockTime) -> int {
    t.hour * 3600 + t.minute * 60 + t.second
}

/// Whether `later` falls on the date of `earlier` or the day after it.
spec fn same_or_next_date(later: ClockTime, earlier: ClockTime) -> bool {
    (later.year, later.month, later.day) == (earlier.year, earlier.month, earlier.day) || (
    later.year as int,
    later.month as int,
    later.day as int,
    ) == next_date(earlier.year as int, earlier.month as int, earlier.day as int)
}

/// The nanoseconds from `earlier` to `later` (dates the same or
/// consecutive) as the date library counts them: a leap second of
/// `earlier` counts when `later` is later in the day, a leap second of
/// `later` when it is earlier in the day.
spec fn elapsed_nanos(later: ClockTime, earlier: ClockTime) -> int {
    let days: int = if (later.year, later.month, later.day) == (
        earlier.year,
        earlier.month,
        earlier.day,
    ) {
        0
    } else {
        1
    };
    let leap: int = if time_of_day(later) > time_of_day(earlier) && earlier.nanosecond
        >= 1_000_000_000 {
        1
    } else if time_of_day(later) < time_of_day(earlier) && later.nanosecond >= 1_000_000_000 {
        -1
    } else {
        0
    };
    (days * 86400 + time_of_day(later) - time_of_day(earlier) + leap) * 1_000_000_000
        + later.nanosecond - earlier.nanosecond
}

/// Formats a valid local date and time with the date library's `format`
/// under `pattern`, which is `%F %a %H%M`. The contract states what that
/// pattern writes: the zero-padded year (signed outside 0 to 9999), month
/// and day, the English short name of the date's weekday, and the
/// zero-padded hour and minute.
#[verifier::external_body]
fn format_clock_text(t: &ClockTime, pattern: &str) -> (text: String)
    requires
        is_valid_time(*t),
        pattern@ == "%F %a %H%M"@,
    ensures
        text@ == clock_label_text(*t),
{
    let date = chrono::NaiveDate::from_ymd_opt(t.year, t.month, t.day).unwrap();
    let now = date.and_hms_nano_opt(t.hour, t.minute, t.second, t.nanosecond).unwrap();
    now.format(pattern).to_string()
}

/// The date library's sum of a date-time and a positive number of minutes
/// (`NaiveDateTime + TimeDelta::minutes`): a leap second is left first (its
/// sub-second part taken below one second), then the minutes are added on
/// the calendar. It panics past the last date-time, which `requires` rules
/// out.
#[verifier::external_body]
fn add_minutes(t: &ClockTime, minutes: i64) -> (later: ClockTime)
    requires
        is_valid_time(*t),
        1 <= minutes,
        minutes_fit(*t, minutes as nat),
    ensures
        later == minutes_later(leap_left(*t), minutes as nat),
{
    let date = chrono::NaiveDate::from_ymd_opt(t.year, t.month, t.day).unwrap();
    let now = date.and_hms_nano_opt(t.hour, t.minute, t.second, t.nanosecond).unwrap();
    let l = now + chrono::Duration::minutes(minutes);
    ClockTime {
        year: l.year(),
        month: l.month(),
        day: l.day(),
        hour: l.hour(),
        minute: l.minute(),
        second: l.second(),
        nanosecond: l.nanosecond(),
    }
}

/// The date library's `with_second` on a date-time outside a leap second:
/// the second is set to `second` and everything else stays.
#[verifier::external_body]
fn set_second(t: &ClockTime, second: u32) -> (u: ClockTime)
    requires
        is_valid_time(*t),
        second < 60,
        t.nanosecond < 1_000_000_000,
    ensures
        u == (ClockTime { second, ..*t }),
{
    let date = chrono::NaiveDate::from_ymd_opt(t.year, t.month, t.day).unwrap();
    let now = date.and_hms_nano_opt(t.hour, t.minute, t.second, t.nanosecond).unwrap();
    let u = now.with_second(second).unwrap();
    ClockTime {
        year: u.year(),
        month: u.month(),
        day: u.day(),
        hour: u.hour(),
        minute: u.minute(),
        second: u.second(),
        nanosecond: u.nanosecond(),
    }
}

/// The date library's difference of two date-times
/// (`NaiveDateTime - NaiveDateTime`, then `TimeDelta::to_std`), for dates
/// that are the same or consecutive: `None` where it is negative, else the
/// seconds and nanoseconds of [`elapsed_nanos`].
#[verifier::external_body]
fn duration_since(later: &ClockTime, earlier: &ClockTime) -> (d: Option<(u64, u32)>)
    requires
        is_valid_time(*later),
        is_valid_time(*earlier),
        same_or_next_date(*later, *earlier),
    ensures
        d == (if elapsed_nanos(*later, *earlier) >= 0 {
            Some(
                (
                    (elapsed_nanos(*later, *earlier) / 1_000_000_000) as u64,
                    (elapsed_nanos(*later, *earlier) % 1_000_000_000) as u32,
                ),
            )
        } else {
            None
        }),
{
    let d1 = chrono::NaiveDate::from_ymd_opt(later.year, later.month, later.day).unwrap();
    let l = d1.and_hms_nano_opt(later.hour, later.minute, later.second, later.nanosecond).unwrap();
    let d2 = chrono::NaiveDate::from_ymd_opt(earlier.year, earlier.month, earlier.day).unwrap();
    let e = d2.and_hms_nano_opt(earlier.hour, earlier.minute, earlier.second, earlier.nanosecond);
    (l - e.unwrap()).to_std().ok().map(|d| (d.as_secs(), d.subsec_nanos()))
}

/// From a valid time `t` outside the last minute to `next`, the start of
/// the next minute (same sub-second point, a leap second left), the date
/// library counts [`wait_seconds`] whole seconds.
proof fn lemma_wait_elapsed(t: ClockTime, next: ClockTime)
    requires
        is_valid_time(t),
        !in_last_minute(t),
        next == (ClockTime { second: 0, ..next_minute(leap_left(t)) }),
    ensures
        same_or_next_date(next, t),
        elapsed_nanos(next, t) == wait_seconds(t) * 1_000_000_000,
{
    let n = elapsed_nanos(next, t);
    if t.nanosecond >= 1_000_000_000 {
        assert(t.second == 59);
        assert(next.nanosecond == t.nanosecond - 1_000_000_000);
    } else {
        assert(next.nanosecond == t.nanosecond);
    }
}

impl ClockTime {
    #[verifier::type_invariant]
    closed spec fn inv(self) -> bool {
        valid_date_time(
            self.year as int,
            self.month as int,
            self.day as int,
            self.hour as int,
            self.minute as int,
            self.second as int,
            self.nanosecond as int,
        )
    }

    /// The time with these fields, where they make a valid local date and
    /// time (see [`valid_date_time`]); `None` otherwise.
    pub fn new(
        year: i32,
        month: u32,
        day: u32,
        hour: u32,
        minute: u32,
        second: u32,
        nanosecond: u32,
    ) -> (t: Option<ClockTime>)
        ensures
            t is Some <==> valid_date_time(
                year as int,
                month as int,
                day as int,
                hour as int,
                minute as int,
                second as int,
                nanosecond as int,
            ),
            t matches Some(t) ==> t.spec_year() == year && t.spec_month() == month && t.spec_day()
                == day && t.spec_hour() == hour && t.spec_minute() == minute && t.spec_second()
                == second && t.spec_nanosecond() == nanosecond,
    {
        if year < -262143 || year > 262142 {
            return None;
        }
        if month < 1 || month > 12 {
            return None;
        }
        if day < 1 || day > month_length(year, month) {
            return None;
        }
        if hour >= 24 || minute >= 60 || second >= 60 {
            return None;
        }
        if nanosecond >= 2_000_000_000 || (nanosecond >= 1_000_000_000 && second != 59) {
            return None;
        }
        Some(ClockTime { year, month, day, hour, minute, second, nanosecond })
    }

    /// The year of this time.
    pub fn year(&self) -> (year: i32)
        ensures
            year == self.spec_year(),
            is_valid_time(*self),
    {
        proof {
            use_type_invariant(self);
        }
        self.year
    }

    /// The month of this time.
    pub fn month(&self) -> (month: u32)
        ensures
            month == self.spec_month(),
            is_valid_time(*self),
    {
        proof {
            use_type_invariant(self);
        }
        self.month
    }

    /// The day of this time.
    pub fn day(&self) -> (day: u32)
        ensures
            day == self.spec_day(),
            is_valid_time(*self),
    {
        proof {
            use_type_invariant(self);
        }
        self.day
    }

    /// The hour of this time.
    pub fn hour(&self) -> (hour: u32)
        ensures
            hour == self.spec_hour(),
            is_valid_time(*self),
    {
        proof {
            use_type_invariant(self);
        }
        self.hour
    }

    /// The minute of this time.
    pub fn minute(&self) -> (minute: u32)
        ensures
            minute == self.spec_minute(),
            is_valid_time(*self),
    {
        proof {
            use_type_invariant(self);
        }
        self.minute
    }

    /// The second of this time.
    pub fn second(&self) -> (second: u32)
        ensures
            second == self.spec_second(),
            is_valid_time(*self),
    {
        proof {
            use_type_invariant(self);
        }
        self.second
    }

    /// The nanosecond of this time.
    pub fn nanosecond(&self) -> (nanosecond: u32)
        ensures
            nanosecond == self.spec_nanosecond(),
            is_valid_time(*self),
    {
        proof {
            use_type_invariant(self);
        }
        self.nanosecond
    }

    /// Whether this is in the last minute a date-time can have (see
    /// [`in_last_minute`]), after which no minute follows.
    pub fn is_in_last_minute(&self) -> (last: bool)
        ensures
            last == in_last_minute(*self),
            last <==> (self.spec_year() == 262142 && self.spec_month() == 12 && self.spec_day()
                == 31 && self.spec_hour() == 23 && self.spec_minute() == 59),
    {
        self.year == 262142 && self.month == 12 && self.day == 31 && self.hour == 23 && self.minute
            == 59
    }

    /// The text the clock shows for this time, such as `2021-03-05 Fri 1407`.
    pub fn label(&self) -> (text: String)
        ensures
            text@ == clock_label_text(*self),
    {
        proof {
            use_type_invariant(self);
        }
        format_clock_text(self, "%F %a %H%M")
    }

    /// How long the clock sleeps after showing this time before it looks at
    /// the time again, as seconds and nanoseconds: until the same sub-second
    /// point at the start of the next minute (see [`wait_seconds`]). Not
    /// defined for the last minute a date-time can have.
    ///
    /// The wait is reckoned on the local wall-clock time alone, with no time
    /// zone. Where the next minute's start is ambiguous or missing on the
    /// local clock (inside a repeated or skipped daylight-saving hour), the
    /// zone-aware reckoning (`DateTime<Local>::with_second`) has no single
    /// answer and an `unwrap` of it panics; this function still returns the
    /// wall-clock wait. Whether a local time is ambiguous depends on the
    /// machine's time zone, which this library does not see.
    pub fn wait_until_next_minute(&self) -> (wait: Option<(u64, u32)>)
        requires
            !in_last_minute(*self),
        ensures
            wait == Some((wait_seconds(*self), 0u32)),
    {
        assert((wait_seconds(*self) * 1_000_000_000) / 1_000_000_000 == wait_seconds(*self)
            && (wait_seconds(*self) * 1_000_000_000) % 1_000_000_000 == 0) by (nonlinear_arith);
        proof {
            use_type_invariant(self);
            reveal_with_fuel(minutes_later, 2);
            reveal_with_fuel(minutes_fit, 2);
        }
        let later = add_minutes(self, 1);
        proof {
            use_type_invariant(&later);
        }
        let next = set_second(&later, 0);
        proof {
            use_type_invariant(&next);
            lemma_wait_elapsed(*self, next);
        }
        duration_since(&next, self)
    }

    /// The year of this time.
    pub closed spec fn spec_year(self) -> i32 {
        self.year
    }

    /// The month of this time.
    pub closed spec fn spec_month(self) -> u32 {
        self.month
    }

    /// The day of this time.
    pub closed spec fn spec_day(self) -> u32 {
        self.day
    }

    /// The hour of this time.
    pub closed spec fn spec_hour(self) -> u32 {
        self.hour
    }

    /// The minute of this time.
    pub closed spec fn spec_minute(self) -> u32 {
        self.minute
    }

    /// The second of this time.
    pub closed spec fn spec_second(self) -> u32 {
        self.second
    }

    /// The nanosecond of this time.
    pub closed spec fn spec_nanosecond(self) -> u32 {
        self.nanosecond
    }
}

} // verus!
