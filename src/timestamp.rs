//! Modification times: a Unix timestamp turned into UTC calendar fields by
//! chrono, and those fields written as `YYYY-MM-DD HH:MM:SS`.
use chrono::{Datelike, Timelike};
use vstd::prelude::*;
use crate::text::{digit_char, digit_count, digit_value, padded, pow10, push_char, push_padded};

verus! {

/// Seconds and nanoseconds since the Unix epoch; before it, `secs` is negative.
#[derive(Clone, Copy, Debug, PartialEq, Eq, Structural)]
pub struct ModTime {
    pub secs: i64,
    pub nanos: u32,
}

/// A moment in UTC as calendar fields.
#[derive(Clone, Copy, Debug, PartialEq, Eq, Structural)]
pub struct UtcTime {
    pub year: i32,
    pub month: u32,
    pub day: u32,
    pub hour: u32,
    pub minute: u32,
    pub second: u32,
}

impl UtcTime {
    /// Each field lies in its calendar range.
    pub open spec fn wf(&self) -> bool {
        1 <= self.month <= 12 && 1 <= self.day <= 31 && self.hour < 24 && self.minute < 60
            && self.second < 60
    }
}

/// Timestamps within this many seconds of the epoch fall inside chrono's
/// calendar (years -262143 to 262142).
pub const TIMESTAMP_LIMIT: i64 = 8_000_000_000_000;

/// The UTC calendar date (year, month, day) that chrono gives for a timestamp.
pub uninterp spec fn utc_calendar_date(secs: i64) -> (i32, u32, u32);

/// The UTC time of a timestamp within the supported range.
pub open spec fn utc_time_of(secs: i64) -> UtcTime {
    let date = utc_calendar_date(secs);
    let in_day = (secs as int) % 86400;
    UtcTime {
        year: date.0,
        month: date.1,
        day: date.2,
        hour: (in_day / 3600) as u32,
        minute: (in_day % 3600 / 60) as u32,
        second: (in_day % 60) as u32,
    }
}

/// Relies on chrono's `DateTime::<Utc>::from_timestamp` and the `Datelike` /
/// `Timelike` getters: the calendar fields of a timestamp in UTC. Within
/// chrono's date range (see `TIMESTAMP_LIMIT`) and with `nanos` below one
/// second the result is `Some`; the time of day is the remainder of `secs`
/// modulo a day.
#[verifier::external_body]
fn utc_from_timestamp(secs: i64, nanos: u32) -> (r: Option<UtcTime>)
    ensures
        -TIMESTAMP_LIMIT <= secs <= TIMESTAMP_LIMIT && nanos < 1_000_000_000 ==> r is Some,
        r matches Some(t) ==> (t.year, t.month, t.day) == utc_calendar_date(secs)
            && t == utc_time_of(secs) && t.wf(),
{
    match chrono::DateTime::from_timestamp(secs, nanos) {
        Some(d) => Some(
            UtcTime {
                year: d.year(),
                month: d.month(),
                day: d.day(),
                hour: d.hour(),
                minute: d.minute(),
                second: d.second(),
            },
        ),
        None => None,
    }
}

/// The year as four digits for years 0 to 9999; otherwise a sign followed by
/// at least four digits.
pub open spec fn year_text(y: int) -> Seq<char> {
    if 0 <= y <= 9999 {
        padded(y as nat, 4)
    } else {
        let a = if y < 0 { -y } else { y };
        let w = if digit_count(a as nat) < 4 { 4 } else { digit_count(a as nat) };
        seq![if y < 0 { '-' } else { '+' }] + padded(a as nat, w)
    }
}

/// `YYYY-MM-DD HH:MM:SS`.
pub open spec fn timestamp_text(t: UtcTime) -> Seq<char> {
    year_text(t.year as int) + seq!['-'] + padded(t.month as nat, 2) + seq!['-'] + padded(
        t.day as nat,
        2,
    ) + seq![' '] + padded(t.hour as nat, 2) + seq![':'] + padded(t.minute as nat, 2) + seq![':']
        + padded(t.second as nat, 2)
}

/// The text of a modification time: empty when the platform gave none or it
/// lies outside the supported range.
pub open spec fn modified_text_of(m: Option<ModTime>) -> Seq<char> {
    match m {
        Some(t) => if -TIMESTAMP_LIMIT <= t.secs <= TIMESTAMP_LIMIT && t.nanos < 1_000_000_000 {
            timestamp_text(utc_time_of(t.secs))
        } else {
            Seq::empty()
        },
        None => Seq::empty(),
    }
}

/// Appends the year as `year_text` writes it.
fn push_year(s: &mut String, y: i32)
    ensures
        final(s)@ == old(s)@ + year_text(y as int),
{
    if 0 <= y && y <= 9999 {
        push_padded(s, y as u64, 4);
    } else {
        let a: u64 = if y < 0 { (-(y as i64)) as u64 } else { y as u64 };
        let c = crate::text::count_digits(a);
        let w: u32 = if c < 4 { 4 } else { c };
        push_char(s, if y < 0 { '-' } else { '+' });
        push_padded(s, a, w);
        assert(final(s)@ =~= old(s)@ + year_text(y as int));
    }
}

/// Writes calendar fields as `YYYY-MM-DD HH:MM:SS`.
pub fn format_timestamp(t: &UtcTime) -> (r: String)
    ensures
        r@ == timestamp_text(*t),
{
    let mut s = String::new();
    push_year(&mut s, t.year);
    push_char(&mut s, '-');
    push_padded(&mut s, t.month as u64, 2);
    push_char(&mut s, '-');
    push_padded(&mut s, t.day as u64, 2);
    push_char(&mut s, ' ');
    push_padded(&mut s, t.hour as u64, 2);
    push_char(&mut s, ':');
    push_padded(&mut s, t.minute as u64, 2);
    push_char(&mut s, ':');
    push_padded(&mut s, t.second as u64, 2);
    assert(s@ =~= timestamp_text(*t));
    s
}

/// The text shown for a modification time.
pub fn modified_text(m: Option<ModTime>) -> (r: String)
    ensures
        r@ == modified_text_of(m),
{
    match m {
        Some(t) => {
            if -TIMESTAMP_LIMIT <= t.secs && t.secs <= TIMESTAMP_LIMIT && t.nanos < 1_000_000_000 {
                match utc_from_timestamp(t.secs, t.nanos) {
                    Some(u) => format_timestamp(&u),
                    None => String::new(),
                }
            } else {
                String::new()
            }
        },
        None => String::new(),
    }
}

/// The number written by a sequence of decimal digits, if each character is one.
pub open spec fn digits_value(s: Seq<char>) -> Option<int>
    decreases s.len(),
{
    if s.len() == 0 {
        Some(0)
    } else {
        match (digits_value(s.drop_last()), digit_value(s.last())) {
            (Some(a), Some(d)) => Some(a * 10 + d),
            _ => None,
        }
    }
}

/// Reads `YYYY-MM-DD HH:MM:SS` with a four-digit year.
pub open spec fn parse_timestamp(s: Seq<char>) -> Option<UtcTime> {
    if s.len() == 19 && s[4] == '-' && s[7] == '-' && s[10] == ' ' && s[13] == ':' && s[16]
        == ':' {
        match (
            digits_value(s.subrange(0, 4)),
            digits_value(s.subrange(5, 7)),
            digits_value(s.subrange(8, 10)),
            digits_value(s.subrange(11, 13)),
            digits_value(s.subrange(14, 16)),
            digits_value(s.subrange(17, 19)),
        ) {
            (Some(y), Some(mo), Some(d), Some(h), Some(mi), Some(se)) => Some(
                UtcTime {
                    year: y as i32,
                    month: mo as u32,
                    day: d as u32,
                    hour: h as u32,
                    minute: mi as u32,
                    second: se as u32,
                },
            ),
            _ => None,
        }
    } else {
        None
    }
}

proof fn lemma_digit_char_value(d: int)
    requires
        0 <= d < 10,
    ensures
        digit_value(digit_char(d)) == Some(d),
{
}

/// `width` digits of a number below `10^width` read back as that number.
pub proof fn lemma_padded_value(n: nat, width: nat)
    requires
        n < pow10(width),
    ensures
        padded(n, width).len() == width,
        digits_value(padded(n, width)) == Some(n as int),
    decreases width,
{
    if width == 0 {
        assert(n == 0);
    } else {
        assert(pow10(width) == 10 * pow10((width - 1) as nat));
        assert(n / 10 < pow10((width - 1) as nat));
        lemma_padded_value(n / 10, (width - 1) as nat);
        lemma_digit_char_value(n as int % 10);
        let p = padded(n, width);
        assert(p.drop_last() =~= padded(n / 10, (width - 1) as nat));
        assert(p.last() == digit_char(n as int % 10));
    }
}

/// A time in years 0 to 9999 is written in nineteen characters of a fixed
/// layout, and reading that text gives the same time back.
pub proof fn lemma_timestamp_round_trip(t: UtcTime)
    requires
        t.wf(),
        0 <= t.year <= 9999,
    ensures
        timestamp_text(t).len() == 19,
        parse_timestamp(timestamp_text(t)) == Some(t),
{
    reveal_with_fuel(pow10, 5);
    let y = padded(t.year as nat, 4);
    let mo = padded(t.month as nat, 2);
    let d = padded(t.day as nat, 2);
    let h = padded(t.hour as nat, 2);
    let mi = padded(t.minute as nat, 2);
    let se = padded(t.second as nat, 2);
    lemma_padded_value(t.year as nat, 4);
    lemma_padded_value(t.month as nat, 2);
    lemma_padded_value(t.day as nat, 2);
    lemma_padded_value(t.hour as nat, 2);
    lemma_padded_value(t.minute as nat, 2);
    lemma_padded_value(t.second as nat, 2);
    let s = timestamp_text(t);
    assert(s =~= y + seq!['-'] + mo + seq!['-'] + d + seq![' '] + h + seq![':'] + mi + seq![':']
        + se);
    assert(s.subrange(0, 4) =~= y);
    assert(s.subrange(5, 7) =~= mo);
    assert(s.subrange(8, 10) =~= d);
    assert(s.subrange(11, 13) =~= h);
    assert(s.subrange(14, 16) =~= mi);
    assert(s.subrange(17, 19) =~= se);
}

} // verus!
