//! Small verified text helpers shared by the formatters: character appending
//! and decimal rendering of integers.

use vstd::prelude::*;
use vstd::string::StringExecFns;

verus! {

/// Relies on `String::push`: appends the given character to the end of the
/// string.
#[verifier::external_body]
pub(crate) fn push_char(s: &mut String, c: char)
    ensures
        final(s)@ == old(s)@.push(c),
{
    s.push(c);
}

/// The character for one decimal digit.
pub open spec fn spec_digit(d: int) -> char {
    (((d % 10) + 48) as u8) as char
}

fn digit_char(d: u64) -> (c: char)
    requires
        d < 10,
    ensures
        c == spec_digit(d as int),
{
    ((d + 48) as u8) as char
}

/// The decimal representation of a natural number, most significant digit
/// first, with no leading zeros (a lone zero for 0).
pub open spec fn spec_dec_nat(n: nat) -> Seq<char>
    decreases n,
{
    if n < 10 {
        seq![spec_digit(n as int)]
    } else {
        spec_dec_nat(n / 10).push(spec_digit(n as int))
    }
}

/// The decimal representation of an integer: a leading `-` for negatives.
pub open spec fn spec_dec_int(n: int) -> Seq<char> {
    if n < 0 {
        seq!['-'] + spec_dec_nat((-n) as nat)
    } else {
        spec_dec_nat(n as nat)
    }
}

/// Renders an unsigned integer in decimal.
pub fn fmt_u64(n: u64) -> (s: String)
    ensures
        s@ == spec_dec_nat(n as nat),
    decreases n,
{
    if n < 10 {
        let mut s = String::new();
        push_char(&mut s, digit_char(n));
        proof {
            assert(s@ =~= spec_dec_nat(n as nat));
        }
        s
    } else {
        let mut s = fmt_u64(n / 10);
        push_char(&mut s, digit_char(n % 10));
        s
    }
}

/// Renders a signed integer in decimal.
pub fn fmt_i64(n: i64) -> (s: String)
    ensures
        s@ == spec_dec_int(n as int),
{
    if n >= 0 {
        fmt_u64(n as u64)
    } else {
        let mag: u64 = (-(n as i128)) as u64;
        let mut s = String::new();
        push_char(&mut s, '-');
        let rest = fmt_u64(mag);
        let s = s.concat(rest.as_str());
        proof {
            assert(s@ =~= spec_dec_int(n as int));
        }
        s
    }
}

} // verus!
