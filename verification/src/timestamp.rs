//! Wall-clock instants and their textual forms: a configurable token-based
//! pattern formatter and the fixed standardized form.

use crate::text::{push_char, spec_digit};
use vstd::prelude::*;
use vstd::string::StrSliceExecFns;

verus! {

/// One UTC instant, split into calendar and clock parts with microsecond
/// resolution.
#[derive(Debug, Clone, Copy, PartialEq, Eq, Structural)]
pub struct Timestamp {
    pub year: u16,
    pub month: u8,
    pub day: u8,
    pub hour: u8,
    pub minute: u8,
    pub second: u8,
    pub micros: u32,
}

impl Timestamp {
    /// Every part lies in its calendar or clock range.
    pub open spec fn wf(self) -> bool {
        &&& self.year <= 9999
        &&& 1 <= self.month <= 12
        &&& 1 <= self.day <= 31
        &&& self.hour <= 23
        &&& self.minute <= 59
        &&& self.second <= 59
        &&& self.micros <= 999_999
    }

    pub fn new(year: u16, month: u8, day: u8, hour: u8, minute: u8, second: u8, micros: u32) -> (ts:
        Timestamp)
        requires
            year <= 9999,
            1 <= month <= 12,
            1 <= day <= 31,
            hour <= 23,
            minute <= 59,
            second <= 59,
            micros <= 999_999,
        ensures
            ts == (Timestamp { year, month, day, hour, minute, second, micros }),
            ts.wf(),
    {
        Timestamp { year, month, day, hour, minute, second, micros }
    }

    /// Renders this instant under a pattern of `%`-tokens.
    pub fn format(&self, pattern: &str) -> (s: String)
        ensures
            s@ == spec_format_time(pattern@, *self),
    {
        let mut out = String::new();
        let n = pattern.unicode_len();
        proof {
            assert(pattern@.skip(0) =~= pattern@);
            assert(out@ + spec_format_time(pattern@.skip(0), *self) =~= spec_format_time(
                pattern@,
                *self,
            ));
        }
        let mut i: usize = 0;
        while i < n
            invariant
                n == pattern@.len(),
                i <= n,
                out@ + spec_format_time(pattern@.skip(i as int), *self) == spec_format_time(
                    pattern@,
                    *self,
                ),
            decreases n - i,
        {
            let ghost rest = pattern@.skip(i as int);
            let c = pattern.get_char(i);
            if c != '%' {
                push_char(&mut out, c);
                proof {
                    assert(rest.drop_first() =~= pattern@.skip(i as int + 1));
                    assert(out@ + spec_format_time(pattern@.skip(i as int + 1), *self)
                        =~= spec_format_time(pattern@, *self));
                }
                i = i + 1;
            } else if i + 1 == n {
                push_char(&mut out, '%');
                proof {
                    assert(pattern@.skip(n as int) =~= Seq::<char>::empty());
                    assert(out@ + spec_format_time(pattern@.skip(n as int), *self)
                        =~= spec_format_time(pattern@, *self));
                }
                i = i + 1;
            } else {
                let t = pattern.get_char(i + 1);
                let piece = self.expand_token(t);
                out.append(piece.as_str());
                proof {
                    assert(rest[1] == t);
                    assert(rest.skip(2) =~= pattern@.skip(i as int + 2));
                    assert(out@ + spec_format_time(pattern@.skip(i as int + 2), *self)
                        =~= spec_format_time(pattern@, *self));
                }
                i = i + 2;
            }
        }
        proof {
            assert(pattern@.skip(n as int) =~= Seq::<char>::empty());
            assert(out@ =~= spec_format_time(pattern@, *self));
        }
        out
    }

    fn expand_token(&self, t: char) -> (s: String)
        ensures
            s@ == spec_expand_token(t, *self),
    {
        let mut out = String::new();
        if t == 'Y' {
            pad4_into(self.year, &mut out);
        } else if t == 'm' {
            pad2_into(self.month as u16, &mut out);
        } else if t == 'd' {
            pad2_into(self.day as u16, &mut out);
        } else if t == 'H' {
            pad2_into(self.hour as u16, &mut out);
        } else if t == 'M' {
            pad2_into(self.minute as u16, &mut out);
        } else if t == 'S' {
            pad2_into(self.second as u16, &mut out);
        } else if t == 'f' {
            pad6_into(self.micros, &mut out);
        } else if t == '%' {
            push_char(&mut out, '%');
            proof {
                assert(out@ =~= seq!['%']);
            }
        } else {
            push_char(&mut out, '%');
            push_char(&mut out, t);
            proof {
                assert(out@ =~= seq!['%', t]);
            }
        }
        out
    }

    /// The fixed standardized textual form, to the second, in UTC.
    pub fn rfc3339(&self) -> (s: String)
        ensures
            s@ == spec_rfc3339(*self),
    {
        let mut out = String::new();
        pad4_into(self.year, &mut out);
        push_char(&mut out, '-');
        pad2_into(self.month as u16, &mut out);
        push_char(&mut out, '-');
        pad2_into(self.day as u16, &mut out);
        push_char(&mut out, 'T');
        pad2_into(self.hour as u16, &mut out);
        push_char(&mut out, ':');
        pad2_into(self.minute as u16, &mut out);
        push_char(&mut out, ':');
        pad2_into(self.second as u16, &mut out);
        push_char(&mut out, 'Z');
        proof {
            assert(out@ =~= spec_rfc3339(*self));
        }
        out
    }

    /// The current wall-clock instant in UTC.  Parts outside the renderable
    /// ranges (a year far in the past or future, a leap-second overshoot)
    /// are clamped.
    pub fn now() -> (ts: Timestamp)
        ensures
            ts.wf(),
    {
        let (y, mo, d, h, mi, s, us) = utc_now_parts();
        let year: u16 = if y < 0 {
            0
        } else if y > 9999 {
            9999
        } else {
            y as u16
        };
        Timestamp {
            year,
            month: mo as u8,
            day: d as u8,
            hour: h as u8,
            minute: mi as u8,
            second: s as u8,
            micros: us % 1_000_000,
        }
    }
}

/// Two decimal digits, zero-padded (the value modulo 100).
pub open spec fn spec_pad2(n: int) -> Seq<char> {
    seq![spec_digit(n / 10), spec_digit(n)]
}

/// Four decimal digits, zero-padded (the value modulo 10000).
pub open spec fn spec_pad4(n: int) -> Seq<char> {
    seq![spec_digit(n / 1000), spec_digit(n / 100), spec_digit(n / 10), spec_digit(n)]
}

/// Six decimal digits, zero-padded (the value modulo 1000000).
pub open spec fn spec_pad6(n: int) -> Seq<char> {
    seq![
        spec_digit(n / 100000),
        spec_digit(n / 10000),
        spec_digit(n / 1000),
        spec_digit(n / 100),
        spec_digit(n / 10),
        spec_digit(n),
    ]
}

/// What one `%`-token stands for: the recognized year, month, day, hour,
/// minute, second and fractional-second tokens expand to zero-padded parts,
/// `%%` to a percent sign, and an unrecognized token passes through literally.
pub open spec fn spec_expand_token(t: char, ts: Timestamp) -> Seq<char> {
    if t == 'Y' {
        spec_pad4(ts.year as int)
    } else if t == 'm' {
        spec_pad2(ts.month as int)
    } else if t == 'd' {
        spec_pad2(ts.day as int)
    } else if t == 'H' {
        spec_pad2(ts.hour as int)
    } else if t == 'M' {
        spec_pad2(ts.minute as int)
    } else if t == 'S' {
        spec_pad2(ts.second as int)
    } else if t == 'f' {
        spec_pad6(ts.micros as int)
    } else if t == '%' {
        seq!['%']
    } else {
        seq!['%', t]
    }
}

/// The rendering of a whole pattern: ordinary characters pass through, each
/// `%`-token expands, and a lone trailing `%` stands for itself.
pub open spec fn spec_format_time(pattern: Seq<char>, ts: Timestamp) -> Seq<char>
    decreases pattern.len(),
{
    if pattern.len() == 0 {
        Seq::empty()
    } else if pattern[0] != '%' {
        seq![pattern[0]] + spec_format_time(pattern.drop_first(), ts)
    } else if pattern.len() == 1 {
        seq!['%']
    } else {
        spec_expand_token(pattern[1], ts) + spec_format_time(pattern.skip(2), ts)
    }
}

/// The standardized form: date, `T`, time, `Z`.
pub open spec fn spec_rfc3339(ts: Timestamp) -> Seq<char> {
    spec_pad4(ts.year as int) + seq!['-'] + spec_pad2(ts.month as int) + seq!['-'] + spec_pad2(
        ts.day as int,
    ) + seq!['T'] + spec_pad2(ts.hour as int) + seq![':'] + spec_pad2(ts.minute as int)
        + seq![':'] + spec_pad2(ts.second as int) + seq!['Z']
}

fn pad2_into(n: u16, out: &mut String)
    ensures
        final(out)@ == old(out)@ + spec_pad2(n as int),
{
    push_char(out, digit_of(((n / 10) % 10) as u64));
    push_char(out, digit_of((n % 10) as u64));
    proof {
        assert(out@ =~= old(out)@ + spec_pad2(n as int));
    }
}

fn pad4_into(n: u16, out: &mut String)
    ensures
        final(out)@ == old(out)@ + spec_pad4(n as int),
{
    push_char(out, digit_of(((n / 1000) % 10) as u64));
    push_char(out, digit_of(((n / 100) % 10) as u64));
    push_char(out, digit_of(((n / 10) % 10) as u64));
    push_char(out, digit_of((n % 10) as u64));
    proof {
        assert(out@ =~= old(out)@ + spec_pad4(n as int));
    }
}

fn pad6_into(n: u32, out: &mut String)
    ensures
        final(out)@ == old(out)@ + spec_pad6(n as int),
{
    push_char(out, digit_of(((n / 100000) % 10) as u64));
    push_char(out, digit_of(((n / 10000) % 10) as u64));
    push_char(out, digit_of(((n / 1000) % 10) as u64));
    push_char(out, digit_of(((n / 100) % 10) as u64));
    push_char(out, digit_of(((n / 10) % 10) as u64));
    push_char(out, digit_of((n % 10) as u64));
    proof {
        assert(out@ =~= old(out)@ + spec_pad6(n as int));
    }
}

fn digit_of(d: u64) -> (c: char)
    requires
        d < 10,
    ensures
        c == spec_digit(d as int),
{
    ((d + 48) as u8) as char
}

/// Relies on chrono's `Utc::now` and its `Datelike` / `Timelike` accessors:
/// the month is 1 to 12, the day 1 to 31, the hour 0 to 23, the minute and
/// second 0 to 59, and the microseconds within the second stay below two
/// million (values of a million and above stand for a leap second).
#[verifier::external_body]
fn utc_now_parts() -> (r: (i32, u32, u32, u32, u32, u32, u32))
    ensures
        1 <= r.1 <= 12,
        1 <= r.2 <= 31,
        r.3 <= 23,
        r.4 <= 59,
        r.5 <= 59,
        r.6 <= 1_999_999,
{
    let t = chrono::Utc::now();
    (
        chrono::Datelike::year(&t),
        chrono::Datelike::month(&t),
        chrono::Datelike::day(&t),
        chrono::Timelike::hour(&t),
        chrono::Timelike::minute(&t),
        chrono::Timelike::second(&t),
        t.timestamp_subsec_micros(),
    )
}

} // verus!
