//! Calendar dates and local times, as the plain values behind the
//! `YYYY-MM-DD` date strings and minute-of-day integers the schedule store
//! keeps.

use vstd::prelude::*;

verus! {

/// A calendar date.  Field-by-field comparison of well-formed dates agrees
/// with lexicographic comparison of their zero-padded `YYYY-MM-DD` strings.
#[derive(Clone, Copy, Debug, PartialEq, Eq, Structural)]
pub struct Date {
    pub year: u32,
    pub month: u32,
    pub day: u32,
}

impl Date {
    /// Field ranges under which a date denotes a `YYYY-MM-DD` string.
    pub open spec fn wf(self) -> bool {
        1 <= self.year <= 9999 && 1 <= self.month <= 12 && 1 <= self.day <= 31
    }
}

/// `a` is on or before `b` in calendar order.
pub open spec fn spec_date_le(a: Date, b: Date) -> bool {
    ||| a.year < b.year
    ||| (a.year == b.year && a.month < b.month)
    ||| (a.year == b.year && a.month == b.month && a.day <= b.day)
}

pub fn date_le(a: &Date, b: &Date) -> (r: bool)
    ensures
        r == spec_date_le(*a, *b),
{
    if a.year != b.year {
        a.year < b.year
    } else if a.month != b.month {
        a.month < b.month
    } else {
        a.day <= b.day
    }
}

/// ISO weekday number of a date, Monday = 1 .. Sunday = 7, by Zeller's
/// congruence.  January and February count as months 13 and 14 of the
/// previous year.
pub open spec fn spec_day_of_week(d: Date) -> int {
    let zy: int = if d.month < 3 { d.year - 1 } else { d.year as int };
    let zm: int = if d.month < 3 { d.month + 12 } else { d.month as int };
    let k: int = zy % 100;
    let j: int = zy / 100;
    let h: int = (d.day + 13 * (zm + 1) / 5 + k + k / 4 + j / 4 + 5 * j) % 7;
    (h + 5) % 7 + 1
}

pub fn day_of_week(d: &Date) -> (r: u8)
    requires
        d.wf(),
    ensures
        1 <= r <= 7,
        r as int == spec_day_of_week(*d),
{
    let zy: u32 = if d.month < 3 { d.year - 1 } else { d.year };
    let zm: u32 = if d.month < 3 { d.month + 12 } else { d.month };
    let k: u32 = zy % 100;
    let j: u32 = zy / 100;
    let h: u32 = (d.day + 13 * (zm + 1) / 5 + k + k / 4 + j / 4 + 5 * j) % 7;
    ((h + 5) % 7 + 1) as u8
}

/// `c` is a decimal digit.
pub open spec fn is_digit(c: char) -> bool {
    '0' as int <= c as int && c as int <= '9' as int
}

/// The value of a decimal digit.
pub open spec fn digit_val(c: char) -> int {
    c as int - '0' as int
}

/// The text has the store's `YYYY-MM-DD` shape: ten characters, dashes at
/// the two separator positions, digits everywhere else.
pub open spec fn date_text_wf(s: Seq<char>) -> bool {
    &&& s.len() == 10
    &&& s[4] == '-'
    &&& s[7] == '-'
    &&& forall|i: int| 0 <= i < 10 && i != 4 && i != 7 ==> is_digit(#[trigger] s[i])
}

/// The date a well-shaped `YYYY-MM-DD` text denotes.
pub open spec fn spec_parse_date(s: Seq<char>) -> Date {
    Date {
        year: (digit_val(s[0]) * 1000 + digit_val(s[1]) * 100 + digit_val(s[2]) * 10 + digit_val(
            s[3],
        )) as u32,
        month: (digit_val(s[5]) * 10 + digit_val(s[6])) as u32,
        day: (digit_val(s[8]) * 10 + digit_val(s[9])) as u32,
    }
}

fn digit_value(c: char) -> (r: u32)
    requires
        is_digit(c),
    ensures
        r as int == digit_val(c),
        r <= 9,
{
    (c as u32) - 48
}

fn is_digit_char(c: char) -> (r: bool)
    ensures
        r == is_digit(c),
{
    let b: u32 = c as u32;
    48 <= b && b <= 57
}

/// Parse a stored `YYYY-MM-DD` date text: `Some` exactly for a well-shaped
/// text whose fields are in range, and then the date it denotes.
pub fn parse_date(s: &str) -> (r: Option<Date>)
    ensures
        match r {
            Some(d) => date_text_wf(s@) && d == spec_parse_date(s@) && d.wf(),
            None => !date_text_wf(s@) || !spec_parse_date(s@).wf(),
        },
{
    if s.unicode_len() != 10 {
        return None;
    }
    if s.get_char(4) != '-' || s.get_char(7) != '-' {
        return None;
    }
    let digits: [char; 8] = [
        s.get_char(0),
        s.get_char(1),
        s.get_char(2),
        s.get_char(3),
        s.get_char(5),
        s.get_char(6),
        s.get_char(8),
        s.get_char(9),
    ];
    let mut i: usize = 0;
    while i < 8
        invariant
            0 <= i <= 8,
            digits@ =~= seq![s@[0], s@[1], s@[2], s@[3], s@[5], s@[6], s@[8], s@[9]],
            forall|j: int| 0 <= j < i ==> is_digit(#[trigger] digits@[j]),
        decreases 8 - i,
    {
        if !is_digit_char(digits[i]) {
            return None;
        }
        i = i + 1;
    }
    let year: u32 = digit_value(digits[0]) * 1000 + digit_value(digits[1]) * 100 + digit_value(
        digits[2],
    ) * 10 + digit_value(digits[3]);
    let month: u32 = digit_value(digits[4]) * 10 + digit_value(digits[5]);
    let day: u32 = digit_value(digits[6]) * 10 + digit_value(digits[7]);
    let d = Date { year, month, day };
    if 1 <= year && 1 <= month && month <= 12 && 1 <= day && day <= 31 {
        Some(d)
    } else {
        None
    }
}

fn digit_str(v: u32) -> (r: &'static str)
    requires
        v <= 9,
    ensures
        r@.len() == 1,
        is_digit(r@[0]),
        digit_val(r@[0]) == v as int,
{
    proof {
        reveal_strlit("0");
        reveal_strlit("1");
        reveal_strlit("2");
        reveal_strlit("3");
        reveal_strlit("4");
        reveal_strlit("5");
        reveal_strlit("6");
        reveal_strlit("7");
        reveal_strlit("8");
        reveal_strlit("9");
    }
    match v {
        0 => "0",
        1 => "1",
        2 => "2",
        3 => "3",
        4 => "4",
        5 => "5",
        6 => "6",
        7 => "7",
        8 => "8",
        _ => "9",
    }
}

/// Render a date as the store's `YYYY-MM-DD` text; parsing the result gives
/// the date back.
pub fn format_date(d: &Date) -> (r: String)
    requires
        d.wf(),
    ensures
        date_text_wf(r@),
        spec_parse_date(r@) == *d,
{
    proof {
        reveal_strlit("-");
    }
    let dash: &'static str = "-";
    let y0: u32 = d.year / 1000;
    let yr: u32 = d.year % 1000;
    let y1: u32 = yr / 100;
    let yr2: u32 = yr % 100;
    let y2: u32 = yr2 / 10;
    let y3: u32 = yr2 % 10;
    let m0: u32 = d.month / 10;
    let m1: u32 = d.month % 10;
    let a0: u32 = d.day / 10;
    let a1: u32 = d.day % 10;
    let sy0 = digit_str(y0);
    let sy1 = digit_str(y1);
    let sy2 = digit_str(y2);
    let sy3 = digit_str(y3);
    let sm0 = digit_str(m0);
    let sm1 = digit_str(m1);
    let sa0 = digit_str(a0);
    let sa1 = digit_str(a1);
    let mut out: String = String::new();
    out.append(sy0);
    out.append(sy1);
    out.append(sy2);
    out.append(sy3);
    out.append(dash);
    out.append(sm0);
    out.append(sm1);
    out.append(dash);
    out.append(sa0);
    out.append(sa1);
    proof {
        assert(out@ =~= sy0@ + sy1@ + sy2@ + sy3@ + dash@ + sm0@ + sm1@ + dash@ + sa0@ + sa1@);
        assert(out@[0] == sy0@[0]);
        assert(out@[1] == sy1@[0]);
        assert(out@[2] == sy2@[0]);
        assert(out@[3] == sy3@[0]);
        assert(out@[4] == dash@[0]);
        assert(out@[5] == sm0@[0]);
        assert(out@[6] == sm1@[0]);
        assert(out@[7] == dash@[0]);
        assert(out@[8] == sa0@[0]);
        assert(out@[9] == sa1@[0]);
        assert(d.year == 1000 * y0 + 100 * y1 + 10 * y2 + y3);
        assert(d.month == 10 * m0 + m1);
        assert(d.day == 10 * a0 + a1);
    }
    out
}

/// A local wall-clock reading at minute resolution: what one tick of the
/// scheduler observes.
#[derive(Clone, Copy, Debug, PartialEq, Eq, Structural)]
pub struct LocalTime {
    pub date: Date,
    pub hour: u32,
    pub minute: u32,
}

impl LocalTime {
    pub open spec fn wf(self) -> bool {
        self.date.wf() && self.hour < 24 && self.minute < 60
    }

    /// Minutes since midnight, the unit schedule times are stored in.
    pub open spec fn spec_minutes(self) -> u32 {
        (self.hour * 60 + self.minute) as u32
    }

    pub fn minutes_of_day(&self) -> (r: u32)
        requires
            self.wf(),
        ensures
            r == self.spec_minutes(),
            r < 1440,
    {
        self.hour * 60 + self.minute
    }
}

} // verus!
