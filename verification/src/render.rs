//! Rendering of integers as text, in any base from two to sixteen.

use vstd::prelude::*;

verus! {

/// The character that stands for the digit `d`: `0` to `9`, then `a` to `f`.
pub open spec fn digit_char(d: int) -> char
    recommends
        0 <= d < 16,
{
    "0123456789abcdef"@[d]
}

/// The digits of `n` in the given base, most significant first, without
/// leading zeros; zero is the single digit `0`.
pub open spec fn digits(n: nat, base: nat) -> Seq<char>
    recommends
        2 <= base <= 16,
    decreases n,
{
    if base < 2 || n < base {
        seq![digit_char(n as int)]
    } else {
        proof {
            vstd::arithmetic::div_mod::lemma_div_decreases(n as int, base as int);
        }
        digits(n / base, base).push(digit_char((n % base) as int))
    }
}

/// Decimal notation of an integer: a minus sign before the digits of a
/// negative number, nothing before the others.
pub open spec fn decimal(n: int) -> Seq<char> {
    if n < 0 {
        seq!['-'] + digits((-n) as nat, 10)
    } else {
        digits(n as nat, 10)
    }
}

/// One digit as a string of length one.
pub fn digit(d: u8) -> (s: &'static str)
    requires
        d < 16,
    ensures
        s@ == seq![digit_char(d as int)],
{
    proof {
        reveal_strlit("0123456789abcdef");
    }
    let from: usize = d as usize;
    let s = "0123456789abcdef".substring_ascii(from, from + 1);
    assert(s@ =~= seq![digit_char(d as int)]);
    s
}

/// Renders `n` in the given base.
pub fn render_radix(n: u64, base: u8) -> (s: String)
    requires
        2 <= base <= 16,
    ensures
        s@ == digits(n as nat, base as nat),
    decreases n,
{
    let b: u64 = base as u64;
    if n < b {
        String::from_str(digit(n as u8))
    } else {
        proof {
            vstd::arithmetic::div_mod::lemma_div_decreases(n as int, b as int);
        }
        let mut s = render_radix(n / b, base);
        s.append(digit((n % b) as u8));
        s
    }
}

/// The distance of `n` from zero.
pub fn magnitude(n: i64) -> (m: u64)
    ensures
        m == if n < 0 { -n } else { n as int },
{
    if n < 0 {
        let below: i64 = -(n + 1);
        below as u64 + 1
    } else {
        n as u64
    }
}

/// Renders `n` in decimal notation.
pub fn render_decimal(n: i64) -> (s: String)
    ensures
        s@ == decimal(n as int),
{
    if n < 0 {
        let mut s = String::from_str("-");
        proof {
            reveal_strlit("-");
        }
        let body = render_radix(magnitude(n), 10);
        s.append(body.as_str());
        assert(s@ =~= decimal(n as int));
        s
    } else {
        render_radix(magnitude(n), 10)
    }
}

} // verus!
