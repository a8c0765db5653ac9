//! Calendar dates as the portal writes them: `DD.MM.YYYY` (the "dot date")
//! and `YYYY-MM-DDThh:mm:ss` (ISO 8601 date and time).

use vstd::prelude::*;

use crate::text::{digit_char, digit_str};

verus! {

/// The plain fields of a date and time of day.
#[derive(Clone, Copy, Debug, PartialEq, Eq, Structural)]
pub struct DateParts {
    pub year: u16,
    pub month: u8,
    pub day: u8,
    pub hour: u8,
    pub minute: u8,
    pub second: u8,
}

/// Gregorian leap year.
pub open spec fn is_leap_year(year: int) -> bool {
    (year % 4 == 0 && year % 100 != 0) || year % 400 == 0
}

/// Number of days in `month` (1..=12) of `year`.
pub open spec fn days_in_month(year: int, month: int) -> int {
    if month == 2 {
        if is_leap_year(year) { 29 } else { 28 }
    } else if month == 4 || month == 6 || month == 9 || month == 11 {
        30
    } else {
        31
    }
}

/// A real calendar day with a four-digit year, and a real time of day.
pub open spec fn valid_parts(p: DateParts) -> bool {
    &&& p.year <= 9999
    &&& 1 <= p.month <= 12
    &&& 1 <= p.day <= days_in_month(p.year as int, p.month as int)
    &&& p.hour < 24
    &&& p.minute < 60
    &&& p.second < 60
}

/// `p` at midnight.
pub open spec fn at_midnight(p: DateParts) -> DateParts {
    DateParts { hour: 0, minute: 0, second: 0, ..p }
}

pub open spec fn is_digit(c: char) -> bool {
    '0' <= c && c <= '9'
}

/// The value of the decimal digit `s[i]`.
pub open spec fn digit_at(s: Seq<char>, i: int) -> int {
    s[i] as int - 48
}

/// `n` characters from `i` on are decimal digits.
pub open spec fn digits_at(s: Seq<char>, i: int, n: int) -> bool {
    forall|k: int| i <= k < i + n ==> is_digit(#[trigger] s[k])
}

/// The number written by the two digits at `i`.
pub open spec fn number2(s: Seq<char>, i: int) -> int {
    10 * digit_at(s, i) + digit_at(s, i + 1)
}

/// The number written by the four digits at `i`.
pub open spec fn number4(s: Seq<char>, i: int) -> int {
    1000 * digit_at(s, i) + 100 * digit_at(s, i + 1) + 10 * digit_at(s, i + 2) + digit_at(s, i + 3)
}

/// `s` has the shape `DD.MM.YYYY`.
pub open spec fn is_dot_date_shape(s: Seq<char>) -> bool {
    &&& s.len() == 10
    &&& digits_at(s, 0, 2)
    &&& s[2] == '.'
    &&& digits_at(s, 3, 2)
    &&& s[5] == '.'
    &&& digits_at(s, 6, 4)
}

/// The fields that a `DD.MM.YYYY` string writes (at midnight).
pub open spec fn dot_date_parts(s: Seq<char>) -> DateParts {
    DateParts {
        year: number4(s, 6) as u16,
        month: number2(s, 3) as u8,
        day: number2(s, 0) as u8,
        hour: 0,
        minute: 0,
        second: 0,
    }
}

/// `s` has the shape `YYYY-MM-DDThh:mm:ss`.
pub open spec fn is_iso_shape(s: Seq<char>) -> bool {
    &&& s.len() == 19
    &&& digits_at(s, 0, 4)
    &&& s[4] == '-'
    &&& digits_at(s, 5, 2)
    &&& s[7] == '-'
    &&& digits_at(s, 8, 2)
    &&& s[10] == 'T'
    &&& digits_at(s, 11, 2)
    &&& s[13] == ':'
    &&& digits_at(s, 14, 2)
    &&& s[16] == ':'
    &&& digits_at(s, 17, 2)
}

/// The fields that a `YYYY-MM-DDThh:mm:ss` string writes.
pub open spec fn iso_parts(s: Seq<char>) -> DateParts {
    DateParts {
        year: number4(s, 0) as u16,
        month: number2(s, 5) as u8,
        day: number2(s, 8) as u8,
        hour: number2(s, 11) as u8,
        minute: number2(s, 14) as u8,
        second: number2(s, 17) as u8,
    }
}

/// What `Date::parse` accepts, and the date it reads.
pub open spec fn spec_parse_date(s: Seq<char>) -> Option<DateParts> {
    if is_dot_date_shape(s) && valid_parts(dot_date_parts(s)) {
        Some(dot_date_parts(s))
    } else if is_iso_shape(s) && valid_parts(iso_parts(s)) {
        Some(iso_parts(s))
    } else {
        None
    }
}

/// `n` (below 100) in two digits, with a leading zero.
pub open spec fn two_digits(n: int) -> Seq<char> {
    seq![digit_char(n / 10), digit_char(n % 10)]
}

/// `n` (below 10000) in four digits, with leading zeros.
pub open spec fn four_digits(n: int) -> Seq<char> {
    seq![digit_char(n / 1000), digit_char((n / 100) % 10), digit_char((n / 10) % 10), digit_char(n % 10)]
}

/// The `DD.MM.YYYY` form of a date.
pub open spec fn spec_format_dot_date(p: DateParts) -> Seq<char> {
    two_digits(p.day as int) + seq!['.'] + two_digits(p.month as int) + seq!['.'] + four_digits(
        p.year as int,
    )
}

/// A calendar date with a time of day; always a real date (see `valid_parts`).
#[derive(Clone, Copy, Debug, PartialEq, Eq, Structural)]
pub struct Date {
    parts: DateParts,
}

impl View for Date {
    type V = DateParts;

    closed spec fn view(&self) -> DateParts {
        self.parts
    }
}

/// The digit value of `c`, if `c` is a decimal digit.
fn digit_value(c: char) -> (r: Option<u8>)
    ensures
        r is Some <==> is_digit(c),
        r matches Some(v) ==> v as int == c as int - 48 && v < 10,
{
    if '0' <= c && c <= '9' {
        Some((c as u32 - 48) as u8)
    } else {
        None
    }
}

/// The number written by `n` (1..=4) digits of `s` from `i` on, if they are all digits.
fn read_number(s: &str, i: usize, n: usize) -> (r: Option<u16>)
    requires
        1 <= n <= 4,
        i <= 20,
        i + n <= s@.len(),
    ensures
        r is Some <==> digits_at(s@, i as int, n as int),
        n == 2 ==> (r matches Some(v) ==> v as int == number2(s@, i as int)),
        n == 4 ==> (r matches Some(v) ==> v as int == number4(s@, i as int)),
{
    let mut value: u16 = 0;
    let mut k: usize = 0;
    while k < n
        invariant
            1 <= n <= 4,
            i <= 20,
            i + n <= s@.len(),
            k <= n,
            digits_at(s@, i as int, k as int),
            value < 10000,
            k == 0 ==> value == 0,
            k == 1 ==> value == digit_at(s@, i as int),
            k == 2 ==> value == number2(s@, i as int),
            k == 3 ==> value == 100 * digit_at(s@, i as int) + 10 * digit_at(s@, i + 1) + digit_at(
                s@,
                i + 2,
            ),
            k == 4 ==> value == number4(s@, i as int),
            value < if k == 0 { 1int } else if k == 1 { 10int } else if k == 2 { 100int } else if k
                == 3 { 1000int } else { 10000int },
        decreases n - k,
    {
        let c = s.get_char(i + k);
        match digit_value(c) {
            Some(d) => {
                value = value * 10 + d as u16;
                k = k + 1;
            },
            None => {
                return None;
            },
        }
    }
    Some(value)
}

/// Gregorian leap year.
fn leap_year(year: u16) -> (r: bool)
    ensures
        r == is_leap_year(year as int),
{
    (year % 4 == 0 && year % 100 != 0) || year % 400 == 0
}

/// Builds a date from its fields, if they name a real day and time.
fn checked_parts(year: u16, month: u16, day: u16, hour: u16, minute: u16, second: u16) -> (r:
    Option<DateParts>)
    requires
        year < 10000,
        month < 100,
        day < 100,
        hour < 100,
        minute < 100,
        second < 100,
    ensures
        ({
            let p = DateParts {
                year: year,
                month: month as u8,
                day: day as u8,
                hour: hour as u8,
                minute: minute as u8,
                second: second as u8,
            };
            &&& r is Some <==> valid_parts(p)
            &&& r matches Some(q) ==> q == p
        }),
{
    if month < 1 || month > 12 || day < 1 || hour >= 24 || minute >= 60 || second >= 60 {
        return None;
    }
    let max_day: u16 = if month == 2 {
        if leap_year(year) {
            29
        } else {
            28
        }
    } else if month == 4 || month == 6 || month == 9 || month == 11 {
        30
    } else {
        31
    };
    if day > max_day {
        return None;
    }
    Some(
        DateParts {
            year: year,
            month: month as u8,
            day: day as u8,
            hour: hour as u8,
            minute: minute as u8,
            second: second as u8,
        },
    )
}

/// `n` (below 100) in two digits, with a leading zero.
fn two_digit_string(n: u8) -> (s: String)
    requires
        n < 100,
    ensures
        s@ == two_digits(n as int),
{
    let mut s = digit_str((n / 10) as u32).to_owned();
    s.append(digit_str((n % 10) as u32));
    s
}

/// `n` (below 10000) in four digits, with leading zeros.
fn four_digit_string(n: u16) -> (s: String)
    requires
        n < 10000,
    ensures
        s@ == four_digits(n as int),
{
    let mut s = digit_str((n / 1000) as u32).to_owned();
    s.append(digit_str(((n / 100) % 10) as u32));
    s.append(digit_str(((n / 10) % 10) as u32));
    s.append(digit_str((n % 10) as u32));
    s
}

impl Date {
    #[verifier::type_invariant]
    spec fn inv(self) -> bool {
        valid_parts(self.parts)
    }

    /// Reads a date written as `DD.MM.YYYY` or as `YYYY-MM-DDThh:mm:ss`;
    /// `None` for any other text and for days and times that do not exist.
    pub fn parse(s: &str) -> (r: Option<Date>)
        ensures
            r is Some <==> spec_parse_date(s@) is Some,
            r matches Some(d) ==> spec_parse_date(s@) == Some(d@),
    {
        let len = s.unicode_len();
        if len == 10 {
            if s.get_char(2) == '.' && s.get_char(5) == '.' {
                let day = read_number(s, 0, 2);
                let month = read_number(s, 3, 2);
                let year = read_number(s, 6, 4);
                if let (Some(day), Some(month), Some(year)) = (day, month, year) {
                    proof {
                        assert forall|k: int| 0 <= k < 10 && k != 2 && k != 5 implies is_digit(
                            #[trigger] s@[k],
                        ) by {
                            if k < 2 {
                                assert(digits_at(s@, 0, 2));
                            } else if k < 5 {
                                assert(digits_at(s@, 3, 2));
                            } else {
                                assert(digits_at(s@, 6, 4));
                            }
                        }
                    }
                    if let Some(p) = checked_parts(year, month, day, 0, 0, 0) {
                        return Some(Date { parts: p });
                    }
                    return None;
                }
            }
            return None;
        }
        if len == 19 {
            if s.get_char(4) == '-' && s.get_char(7) == '-' && s.get_char(10) == 'T' && s.get_char(
                13,
            ) == ':' && s.get_char(16) == ':' {
                let year = read_number(s, 0, 4);
                let month = read_number(s, 5, 2);
                let day = read_number(s, 8, 2);
                let hour = read_number(s, 11, 2);
                let minute = read_number(s, 14, 2);
                let second = read_number(s, 17, 2);
                if let (Some(year), Some(month), Some(day), Some(hour), Some(minute), Some(second)) = (
                    year,
                    month,
                    day,
                    hour,
                    minute,
                    second,
                ) {
                    if let Some(p) = checked_parts(year, month, day, hour, minute, second) {
                        return Some(Date { parts: p });
                    }
                    return None;
                }
            }
            return None;
        }
        None
    }

    /// The fields of the date.
    pub fn parts(&self) -> (p: DateParts)
        ensures
            p == self@,
            valid_parts(p),
    {
        proof {
            use_type_invariant(self);
        }
        self.parts
    }

    /// The date written as `DD.MM.YYYY` (the portal's "dot date" format).
    pub fn format_dot_date(&self) -> (s: String)
        ensures
            s@ == spec_format_dot_date(self@),
    {
        proof {
            use_type_invariant(self);
        }
        let mut s = two_digit_string(self.parts.day);
        s.append(".");
        let month = two_digit_string(self.parts.month);
        s.append(month.as_str());
        s.append(".");
        let year = four_digit_string(self.parts.year);
        s.append(year.as_str());
        proof {
            reveal_strlit(".");
        }
        s
    }
}

/// The character of a digit value is a digit character with that value.
proof fn lemma_digit_char(x: int)
    requires
        0 <= x <= 9,
    ensures
        digit_char(x) as int == x + 48,
        is_digit(digit_char(x)),
{
}

/// A digit character is the character of its value.
proof fn lemma_char_digit(c: char)
    requires
        is_digit(c),
    ensures
        digit_char(c as int - 48) == c,
{
}

/// Splitting a number below 100 into two digits and joining them again.
proof fn lemma_two_digit_arith(n: int, a: int, b: int)
    ensures
        0 <= n < 100 ==> 0 <= n / 10 <= 9 && 0 <= n % 10 <= 9 && 10 * (n / 10) + n % 10 == n,
        0 <= a <= 9 && 0 <= b <= 9 ==> (10 * a + b) / 10 == a && (10 * a + b) % 10 == b,
{
    assert(0 <= a <= 9 && 0 <= b <= 9 ==> (10 * a + b) / 10 == a && (10 * a + b) % 10 == b)
        by (nonlinear_arith);
}

/// Splitting a number below 10000 into four digits and joining them again.
proof fn lemma_four_digit_arith(n: int, a: int, b: int, c: int, d: int)
    ensures
        0 <= n < 10000 ==> 0 <= n / 1000 <= 9 && 0 <= (n / 100) % 10 <= 9 && 0 <= (n / 10) % 10 <= 9
            && 0 <= n % 10 <= 9 && 1000 * (n / 1000) + 100 * ((n / 100) % 10) + 10 * ((n / 10) % 10)
            + n % 10 == n,
        0 <= a <= 9 && 0 <= b <= 9 && 0 <= c <= 9 && 0 <= d <= 9 ==> {
            let v = 1000 * a + 100 * b + 10 * c + d;
            &&& v / 1000 == a
            &&& (v / 100) % 10 == b
            &&& (v / 10) % 10 == c
            &&& v % 10 == d
        },
{
    assert(0 <= n < 10000 ==> 0 <= n / 1000 <= 9 && 0 <= (n / 100) % 10 <= 9 && 0 <= (n / 10) % 10
        <= 9 && 0 <= n % 10 <= 9 && 1000 * (n / 1000) + 100 * ((n / 100) % 10) + 10 * ((n / 10) % 10)
        + n % 10 == n) by (nonlinear_arith);
    assert(0 <= a <= 9 && 0 <= b <= 9 && 0 <= c <= 9 && 0 <= d <= 9 ==> {
        let v = 1000 * a + 100 * b + 10 * c + d;
        &&& v / 1000 == a
        &&& (v / 100) % 10 == b
        &&& (v / 10) % 10 == c
        &&& v % 10 == d
    }) by (nonlinear_arith);
}

/// The two digits of `n` are digit characters that read back as `n`.
proof fn lemma_two_digits(n: int)
    requires
        0 <= n < 100,
    ensures
        digits_at(two_digits(n), 0, 2),
        number2(two_digits(n), 0) == n,
{
    lemma_two_digit_arith(n, 0, 0);
    lemma_digit_char(n / 10);
    lemma_digit_char(n % 10);
    let t = two_digits(n);
    assert(forall|k: int| 0 <= k < 2 ==> is_digit(#[trigger] t[k]));
}

/// The four digits of `n` are digit characters that read back as `n`.
proof fn lemma_four_digits(n: int)
    requires
        0 <= n < 10000,
    ensures
        digits_at(four_digits(n), 0, 4),
        number4(four_digits(n), 0) == n,
{
    lemma_four_digit_arith(n, 0, 0, 0, 0);
    lemma_digit_char(n / 1000);
    lemma_digit_char((n / 100) % 10);
    lemma_digit_char((n / 10) % 10);
    lemma_digit_char(n % 10);
    let t = four_digits(n);
    assert(forall|k: int| 0 <= k < 4 ==> is_digit(#[trigger] t[k]));
}

/// The calendar that dates are checked against: a day exists when its month
/// is 1 to 12 and its day is at least 1 and at most 31 in January, March,
/// May, July, August, October and December, 30 in April, June, September and
/// November, and in February 29 in a Gregorian leap year (divisible by 4 but
/// not by 100, or divisible by 400) and 28 otherwise.
pub proof fn lemma_calendar(p: DateParts)
    requires
        p.year <= 9999,
        p.hour < 24,
        p.minute < 60,
        p.second < 60,
    ensures
        valid_parts(p) <==> {
            let (y, m, d) = (p.year as int, p.month as int, p.day as int);
            &&& 1 <= d
            &&& (m == 1 || m == 3 || m == 5 || m == 7 || m == 8 || m == 10 || m == 12) ==> d <= 31
            &&& (m == 4 || m == 6 || m == 9 || m == 11) ==> d <= 30
            &&& (m == 2 && ((y % 4 == 0 && y % 100 != 0) || y % 400 == 0)) ==> d <= 29
            &&& (m == 2 && !((y % 4 == 0 && y % 100 != 0) || y % 400 == 0)) ==> d <= 28
            &&& 1 <= m <= 12
        },
{
}

/// A text of the shape `DD.MM.YYYY` is read exactly when it names a day of
/// the calendar (see `lemma_calendar`), and then as that day at midnight:
/// the day is the first two digits, the month the two after the dot, the
/// year the last four.
pub proof fn lemma_parse_dot_date(s: Seq<char>)
    requires
        s.len() == 10,
        forall|k: int| 0 <= k < 10 && k != 2 && k != 5 ==> '0' <= #[trigger] s[k] <= '9',
        s[2] == '.',
        s[5] == '.',
    ensures
        ({
            let d = 10 * (s[0] as int - 48) + (s[1] as int - 48);
            let m = 10 * (s[3] as int - 48) + (s[4] as int - 48);
            let y = 1000 * (s[6] as int - 48) + 100 * (s[7] as int - 48) + 10 * (s[8] as int - 48) + (s[9] as int
                - 48);
            let leap = (y % 4 == 0 && y % 100 != 0) || y % 400 == 0;
            let days = if m == 2 {
                if leap { 29int } else { 28int }
            } else if m == 4 || m == 6 || m == 9 || m == 11 {
                30int
            } else {
                31int
            };
            &&& spec_parse_date(s) is Some <==> (1 <= m <= 12 && 1 <= d <= days)
            &&& spec_parse_date(s) is Some ==> spec_parse_date(s) == Some(
                DateParts {
                    year: y as u16,
                    month: m as u8,
                    day: d as u8,
                    hour: 0,
                    minute: 0,
                    second: 0,
                },
            )
        }),
{
    assert(digits_at(s, 0, 2) && digits_at(s, 3, 2) && digits_at(s, 6, 4));
    assert(is_dot_date_shape(s));
    assert(!is_iso_shape(s));
    let p = dot_date_parts(s);
    assert(0 <= number4(s, 6) <= 9999);
    assert(0 <= number2(s, 3) <= 99);
    assert(0 <= number2(s, 0) <= 99);
    lemma_calendar(p);
}

/// Writing a real date as `DD.MM.YYYY` and reading it back gives the same
/// day, month and year, at midnight.
pub proof fn lemma_parse_format_dot_date(p: DateParts)
    requires
        valid_parts(p),
    ensures
        spec_parse_date(spec_format_dot_date(p)) == Some(at_midnight(p)),
{
    let s = spec_format_dot_date(p);
    let td = two_digits(p.day as int);
    let tm = two_digits(p.month as int);
    let ty = four_digits(p.year as int);
    lemma_two_digits(p.day as int);
    lemma_two_digits(p.month as int);
    lemma_four_digits(p.year as int);
    assert(s =~= td + seq!['.'] + tm + seq!['.'] + ty);
    assert(s.subrange(0, 2) =~= td);
    assert(s.subrange(3, 5) =~= tm);
    assert(s.subrange(6, 10) =~= ty);
    assert(digits_at(s, 0, 2)) by {
        assert forall|k: int| 0 <= k < 2 implies is_digit(#[trigger] s[k]) by {
            assert(s[k] == td[k]);
        }
    }
    assert(digits_at(s, 3, 2)) by {
        assert forall|k: int| 3 <= k < 5 implies is_digit(#[trigger] s[k]) by {
            assert(s[k] == tm[k - 3]);
        }
    }
    assert(digits_at(s, 6, 4)) by {
        assert forall|k: int| 6 <= k < 10 implies is_digit(#[trigger] s[k]) by {
            assert(s[k] == ty[k - 6]);
        }
    }
    assert(number2(s, 0) == number2(td, 0));
    assert(number2(s, 3) == number2(tm, 0));
    assert(number4(s, 6) == number4(ty, 0));
    assert(is_dot_date_shape(s));
    assert(dot_date_parts(s) == at_midnight(p));
}

/// Reading a `DD.MM.YYYY` string and writing the date back gives the same string.
pub proof fn lemma_format_parse_dot_date(s: Seq<char>)
    requires
        s.len() == 10,
        spec_parse_date(s) is Some,
    ensures
        spec_format_dot_date(spec_parse_date(s).unwrap()) == s,
{
    assert(is_dot_date_shape(s));
    let p = dot_date_parts(s);
    assert forall|k: int| 0 <= k < 10 && k != 2 && k != 5 implies is_digit(#[trigger] s[k]) by {
        if k < 2 {
            assert(digits_at(s, 0, 2));
        } else if k < 5 {
            assert(digits_at(s, 3, 2));
        } else {
            assert(digits_at(s, 6, 4));
        }
    }
    assert forall|j: int| 0 <= j < 10 && j != 2 && j != 5 implies digit_char(digit_at(s, j))
        == s[j] && 0 <= digit_at(s, j) <= 9 by {
        lemma_char_digit(s[j]);
    }
    lemma_two_digit_arith(0, digit_at(s, 0), digit_at(s, 1));
    lemma_two_digit_arith(0, digit_at(s, 3), digit_at(s, 4));
    lemma_four_digit_arith(0, digit_at(s, 6), digit_at(s, 7), digit_at(s, 8), digit_at(s, 9));
    let t = spec_format_dot_date(p);
    assert(two_digits(p.day as int) =~= s.subrange(0, 2));
    assert(two_digits(p.month as int) =~= s.subrange(3, 5));
    assert(four_digits(p.year as int) =~= s.subrange(6, 10));
    assert(t =~= s);
}

} // verus!
