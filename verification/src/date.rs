//! Calendar dates and the vendor's fixed wire pattern `YYYY-MM-DDTHH:MM:SS`.
//!
//! Dates carry no time of day; encoding always writes midnight, and parsing
//! accepts any in-range time and discards it.

use vstd::prelude::*;
use vstd::string::*;

verus! {

/// A calendar date in the proleptic Gregorian calendar, year 1 to 9999.
#[derive(PartialEq, Eq, Structural, Clone, Copy, Debug)]
pub struct CalendarDate {
    pub year: u32,
    pub month: u32,
    pub day: u32,
}

pub open spec fn is_leap_year(y: int) -> bool {
    (y % 4 == 0 && y % 100 != 0) || y % 400 == 0
}

pub open spec fn days_in_month(y: int, m: int) -> int {
    if m == 1 || m == 3 || m == 5 || m == 7 || m == 8 || m == 10 || m == 12 {
        31
    } else if m == 4 || m == 6 || m == 9 || m == 11 {
        30
    } else if m == 2 {
        if is_leap_year(y) {
            29
        } else {
            28
        }
    } else {
        0
    }
}

pub open spec fn valid_date_nums(y: int, m: int, d: int) -> bool {
    &&& 1 <= y <= 9999
    &&& 1 <= m <= 12
    &&& 1 <= d <= days_in_month(y, m)
}

impl CalendarDate {
    /// Well-formedness: the fields name a real calendar day.
    pub open spec fn wf(self) -> bool {
        valid_date_nums(self.year as int, self.month as int, self.day as int)
    }

    /// Reports whether the fields name a real calendar day.
    pub fn is_valid(&self) -> (r: bool)
        ensures
            r == self.wf(),
    {
        1 <= self.year && self.year <= 9999 && 1 <= self.month && self.month <= 12 && 1 <= self.day
            && self.day <= days_in_month_exec(self.year, self.month)
    }

    /// Builds a date after checking that the fields name a real calendar day.
    pub fn new(year: u32, month: u32, day: u32) -> (r: Option<CalendarDate>)
        ensures
            valid_date_nums(year as int, month as int, day as int) ==> r == Some(
                CalendarDate { year, month, day },
            ),
            !valid_date_nums(year as int, month as int, day as int) ==> r is None,
            r is Some ==> r->0.wf(),
    {
        let ok = 1 <= year && year <= 9999 && 1 <= month && month <= 12 && 1 <= day && day
            <= days_in_month_exec(year, month);
        if ok {
            Some(CalendarDate { year, month, day })
        } else {
            None
        }
    }
}

/// Executable mirror of `days_in_month`.
pub fn days_in_month_exec(y: u32, m: u32) -> (r: u32)
    ensures
        r as int == days_in_month(y as int, m as int),
{
    if m == 1 || m == 3 || m == 5 || m == 7 || m == 8 || m == 10 || m == 12 {
        31
    } else if m == 4 || m == 6 || m == 9 || m == 11 {
        30
    } else if m == 2 {
        if (y % 4 == 0 && y % 100 != 0) || y % 400 == 0 {
            29
        } else {
            28
        }
    } else {
        0
    }
}

pub open spec fn is_digit(c: char) -> bool {
    c == '0' || c == '1' || c == '2' || c == '3' || c == '4' || c == '5' || c == '6' || c == '7'
        || c == '8' || c == '9'
}

pub open spec fn digit_val(c: char) -> int {
    if c == '0' {
        0
    } else if c == '1' {
        1
    } else if c == '2' {
        2
    } else if c == '3' {
        3
    } else if c == '4' {
        4
    } else if c == '5' {
        5
    } else if c == '6' {
        6
    } else if c == '7' {
        7
    } else if c == '8' {
        8
    } else {
        9
    }
}

pub open spec fn digit_char(d: int) -> char {
    if d == 0 {
        '0'
    } else if d == 1 {
        '1'
    } else if d == 2 {
        '2'
    } else if d == 3 {
        '3'
    } else if d == 4 {
        '4'
    } else if d == 5 {
        '5'
    } else if d == 6 {
        '6'
    } else if d == 7 {
        '7'
    } else if d == 8 {
        '8'
    } else {
        '9'
    }
}

proof fn lemma_digit_inverse(k: int)
    requires
        0 <= k < 10,
    ensures
        is_digit(digit_char(k)),
        digit_val(digit_char(k)) == k,
{
}

/// Value of the two decimal digits starting at position `i`.
pub open spec fn two_at(s: Seq<char>, i: int) -> int {
    digit_val(s[i]) * 10 + digit_val(s[i + 1])
}

/// Value of the four decimal digits starting at position `i`.
pub open spec fn four_at(s: Seq<char>, i: int) -> int {
    digit_val(s[i]) * 1000 + digit_val(s[i + 1]) * 100 + digit_val(s[i + 2]) * 10 + digit_val(
        s[i + 3],
    )
}

/// The text has exactly the shape `dddd-dd-ddTdd:dd:dd`.
pub open spec fn date_text_shaped(s: Seq<char>) -> bool {
    &&& s.len() == 19
    &&& is_digit(s[0]) && is_digit(s[1]) && is_digit(s[2]) && is_digit(s[3])
    &&& s[4] == '-'
    &&& is_digit(s[5]) && is_digit(s[6])
    &&& s[7] == '-'
    &&& is_digit(s[8]) && is_digit(s[9])
    &&& s[10] == 'T'
    &&& is_digit(s[11]) && is_digit(s[12])
    &&& s[13] == ':'
    &&& is_digit(s[14]) && is_digit(s[15])
    &&& s[16] == ':'
    &&& is_digit(s[17]) && is_digit(s[18])
}

/// What parsing a date field returns: the calendar day, with the time of day
/// checked for range and then discarded; `None` on any malformed text.
pub open spec fn spec_parse_date(s: Seq<char>) -> Option<CalendarDate> {
    if date_text_shaped(s) && two_at(s, 11) < 24 && two_at(s, 14) < 60 && two_at(s, 17) < 60
        && valid_date_nums(four_at(s, 0), two_at(s, 5), two_at(s, 8)) {
        Some(
            CalendarDate {
                year: four_at(s, 0) as u32,
                month: two_at(s, 5) as u32,
                day: two_at(s, 8) as u32,
            },
        )
    } else {
        None
    }
}

/// The wire text for a date: the day at midnight.
pub open spec fn date_text(d: CalendarDate) -> Seq<char> {
    seq![
        digit_char(d.year as int / 1000 % 10),
        digit_char(d.year as int / 100 % 10),
        digit_char(d.year as int / 10 % 10),
        digit_char(d.year as int % 10),
        '-',
        digit_char(d.month as int / 10 % 10),
        digit_char(d.month as int % 10),
        '-',
        digit_char(d.day as int / 10 % 10),
        digit_char(d.day as int % 10),
        'T',
        '0',
        '0',
        ':',
        '0',
        '0',
        ':',
        '0',
        '0',
    ]
}

pub(crate) fn push_digit(out: &mut String, d: u8)
    requires
        d < 10,
    ensures
        final(out)@ == old(out)@.push(digit_char(d as int)),
{
    match d {
        0 => {
            out.append("0");
            proof {
                reveal_strlit("0");
                assert(out@ =~= old(out)@.push('0'));
            }
        },
        1 => {
            out.append("1");
            proof {
                reveal_strlit("1");
                assert(out@ =~= old(out)@.push('1'));
            }
        },
        2 => {
            out.append("2");
            proof {
                reveal_strlit("2");
                assert(out@ =~= old(out)@.push('2'));
            }
        },
        3 => {
            out.append("3");
            proof {
                reveal_strlit("3");
                assert(out@ =~= old(out)@.push('3'));
            }
        },
        4 => {
            out.append("4");
            proof {
                reveal_strlit("4");
                assert(out@ =~= old(out)@.push('4'));
            }
        },
        5 => {
            out.append("5");
            proof {
                reveal_strlit("5");
                assert(out@ =~= old(out)@.push('5'));
            }
        },
        6 => {
            out.append("6");
            proof {
                reveal_strlit("6");
                assert(out@ =~= old(out)@.push('6'));
            }
        },
        7 => {
            out.append("7");
            proof {
                reveal_strlit("7");
                assert(out@ =~= old(out)@.push('7'));
            }
        },
        8 => {
            out.append("8");
            proof {
                reveal_strlit("8");
                assert(out@ =~= old(out)@.push('8'));
            }
        },
        _ => {
            out.append("9");
            proof {
                reveal_strlit("9");
                assert(out@ =~= old(out)@.push('9'));
            }
        },
    }
}

fn push_two(out: &mut String, n: u32)
    requires
        n < 100,
    ensures
        final(out)@ == old(out)@.push(digit_char(n as int / 10 % 10)).push(
            digit_char(n as int % 10),
        ),
{
    push_digit(out, (n / 10) as u8);
    push_digit(out, (n % 10) as u8);
}

fn push_four(out: &mut String, n: u32)
    requires
        n < 10000,
    ensures
        final(out)@ == old(out)@.push(digit_char(n as int / 1000 % 10)).push(
            digit_char(n as int / 100 % 10),
        ).push(digit_char(n as int / 10 % 10)).push(digit_char(n as int % 10)),
{
    push_digit(out, (n / 1000 % 10) as u8);
    push_digit(out, (n / 100 % 10) as u8);
    push_digit(out, (n / 10 % 10) as u8);
    push_digit(out, (n % 10) as u8);
}

impl CalendarDate {
    /// Encodes the date as the wire pattern with the time fixed to midnight.
    pub fn to_wire(&self) -> (r: String)
        requires
            self.wf(),
        ensures
            r@ == date_text(*self),
    {
        let mut out = String::new();
        push_four(&mut out, self.year);
        out.append("-");
        proof {
            reveal_strlit("-");
        }
        push_two(&mut out, self.month);
        out.append("-");
        proof {
            reveal_strlit("-");
        }
        push_two(&mut out, self.day);
        out.append("T00:00:00");
        proof {
            reveal_strlit("T00:00:00");
            assert(out@ =~= date_text(*self));
        }
        out
    }
}

fn read_digit(s: &str, i: usize) -> (r: Option<u8>)
    requires
        i < s@.len(),
    ensures
        match r {
            Some(v) => is_digit(s@[i as int]) && v < 10 && v as int == digit_val(s@[i as int]),
            None => !is_digit(s@[i as int]),
        },
{
    let c = s.get_char(i);
    match c {
        '0' => Some(0),
        '1' => Some(1),
        '2' => Some(2),
        '3' => Some(3),
        '4' => Some(4),
        '5' => Some(5),
        '6' => Some(6),
        '7' => Some(7),
        '8' => Some(8),
        '9' => Some(9),
        _ => None,
    }
}

fn read_two(s: &str, i: usize) -> (r: Option<u32>)
    requires
        i + 1 < s@.len(),
        i < usize::MAX,
    ensures
        match r {
            Some(v) => is_digit(s@[i as int]) && is_digit(s@[i + 1]) && v as int == two_at(
                s@,
                i as int,
            ) && v < 100,
            None => !(is_digit(s@[i as int]) && is_digit(s@[i + 1])),
        },
{
    let a = read_digit(s, i);
    let b = read_digit(s, i + 1);
    match (a, b) {
        (Some(x), Some(y)) => Some((x as u32) * 10 + (y as u32)),
        _ => None,
    }
}

fn read_four(s: &str, i: usize) -> (r: Option<u32>)
    requires
        i + 3 < s@.len(),
        i + 3 < usize::MAX,
    ensures
        match r {
            Some(v) => is_digit(s@[i as int]) && is_digit(s@[i + 1]) && is_digit(s@[i + 2])
                && is_digit(s@[i + 3]) && v as int == four_at(s@, i as int) && v < 10000,
            None => !(is_digit(s@[i as int]) && is_digit(s@[i + 1]) && is_digit(s@[i + 2])
                && is_digit(s@[i + 3])),
        },
{
    let a = read_two(s, i);
    let b = read_two(s, i + 2);
    match (a, b) {
        (Some(x), Some(y)) => Some(x * 100 + y),
        _ => None,
    }
}

fn expect_char(s: &str, i: usize, c: char) -> (r: bool)
    requires
        i < s@.len(),
    ensures
        r == (s@[i as int] == c),
{
    s.get_char(i) == c
}

/// Parses the wire pattern back to a calendar date, discarding the time.
pub fn parse_wire_date(s: &str) -> (r: Option<CalendarDate>)
    ensures
        r == spec_parse_date(s@),
        r is Some ==> r->0.wf(),
{
    if s.unicode_len() != 19 {
        return None;
    }
    let year = match read_four(s, 0) {
        Some(v) => v,
        None => {
            return None;
        },
    };
    if !expect_char(s, 4, '-') {
        return None;
    }
    let month = match read_two(s, 5) {
        Some(v) => v,
        None => {
            return None;
        },
    };
    if !expect_char(s, 7, '-') {
        return None;
    }
    let day = match read_two(s, 8) {
        Some(v) => v,
        None => {
            return None;
        },
    };
    if !expect_char(s, 10, 'T') {
        return None;
    }
    let hh = match read_two(s, 11) {
        Some(v) => v,
        None => {
            return None;
        },
    };
    if !expect_char(s, 13, ':') {
        return None;
    }
    let mm = match read_two(s, 14) {
        Some(v) => v,
        None => {
            return None;
        },
    };
    if !expect_char(s, 16, ':') {
        return None;
    }
    let ss = match read_two(s, 17) {
        Some(v) => v,
        None => {
            return None;
        },
    };
    if !(hh < 24 && mm < 60 && ss < 60) {
        return None;
    }
    CalendarDate::new(year, month, day)
}

proof fn lemma_decompose2(n: int)
    requires
        0 <= n < 100,
    ensures
        (n / 10 % 10) * 10 + n % 10 == n,
        n / 10 % 10 == n / 10,
{
    assert((n / 10 % 10) * 10 + n % 10 == n) by (nonlinear_arith)
        requires 0 <= n < 100;
    assert(n / 10 % 10 == n / 10) by (nonlinear_arith)
        requires 0 <= n < 100;
}

proof fn lemma_decompose4(n: int)
    requires
        0 <= n < 10000,
    ensures
        (n / 1000 % 10) * 1000 + (n / 100 % 10) * 100 + (n / 10 % 10) * 10 + n % 10 == n,
{
    assert((n / 1000 % 10) * 1000 + (n / 100 % 10) * 100 + (n / 10 % 10) * 10 + n % 10 == n)
        by (nonlinear_arith)
        requires 0 <= n < 10000;
}

/// Round trip: encoding any well-formed date and parsing the result yields
/// the original date.
pub proof fn lemma_date_round_trip(d: CalendarDate)
    requires
        d.wf(),
    ensures
        spec_parse_date(date_text(d)) == Some(d),
{
    let s = date_text(d);
    let y = d.year as int;
    let m = d.month as int;
    let dd = d.day as int;
    lemma_digit_inverse(y / 1000 % 10);
    lemma_digit_inverse(y / 100 % 10);
    lemma_digit_inverse(y / 10 % 10);
    lemma_digit_inverse(y % 10);
    lemma_digit_inverse(m / 10 % 10);
    lemma_digit_inverse(m % 10);
    lemma_digit_inverse(dd / 10 % 10);
    lemma_digit_inverse(dd % 10);
    lemma_decompose4(y);
    lemma_decompose2(m);
    lemma_decompose2(dd);
    assert(date_text_shaped(s));
    assert(four_at(s, 0) == y);
    assert(two_at(s, 5) == m);
    assert(two_at(s, 8) == dd);
    assert(two_at(s, 11) == 0);
    assert(two_at(s, 14) == 0);
    assert(two_at(s, 17) == 0);
}

} // verus!
