//! Parsing a port's text into an unsigned 16-bit integer.
//!
//! The accepted shape mirrors what the standard library accepts for
//! unsigned integers: an optional leading `+`, then one or more decimal
//! digits, with a value of at most 65535.

use vstd::prelude::*;

verus! {

/// Is `c` a decimal digit?
pub open spec fn is_decimal_digit(c: char) -> bool {
    48 <= c as int <= 57
}

/// The numeric value of the decimal digit `c`.
pub open spec fn digit_value(c: char) -> int {
    c as int - 48
}

/// Do all characters of `s` satisfy `is_decimal_digit`?
pub open spec fn all_digits(s: Seq<char>) -> bool {
    forall|i: int| 0 <= i < s.len() ==> is_decimal_digit(#[trigger] s[i])
}

/// The number the digit string `s` denotes in base ten.
pub open spec fn digits_value(s: Seq<char>) -> int
    decreases s.len(),
{
    if s.len() == 0 {
        0
    } else {
        digits_value(s.drop_last()) * 10 + digit_value(s.last())
    }
}

/// The digit portion of a port's text: everything after an optional
/// leading `+` sign.
pub open spec fn port_digits(s: Seq<char>) -> Seq<char> {
    if s.len() > 0 && s[0] == '+' {
        s.subrange(1, s.len() as int)
    } else {
        s
    }
}

/// Is `s` a valid port text: after the optional sign, one or more
/// decimal digits denoting a number of at most 65535?
pub open spec fn is_valid_port_text(s: Seq<char>) -> bool {
    let d = port_digits(s);
    &&& d.len() > 0
    &&& all_digits(d)
    &&& digits_value(d) <= 65535
}

/// The port a valid port text denotes.
pub open spec fn port_number(s: Seq<char>) -> u16
    recommends
        is_valid_port_text(s),
{
    digits_value(port_digits(s)) as u16
}

/// A digit string denotes at least zero.
proof fn lemma_digits_value_nonneg(s: Seq<char>)
    requires
        all_digits(s),
    ensures
        digits_value(s) >= 0,
    decreases s.len(),
{
    if s.len() > 0 {
        assert(all_digits(s.drop_last()));
        lemma_digits_value_nonneg(s.drop_last());
    }
}

/// Extending a digit string on the right never shrinks its value.
proof fn lemma_digits_value_prefix(s: Seq<char>, k: int)
    requires
        all_digits(s),
        0 <= k <= s.len(),
    ensures
        digits_value(s) >= digits_value(s.take(k)),
    decreases s.len() - k,
{
    if k < s.len() {
        assert(s.take(k + 1).drop_last() =~= s.take(k));
        assert(s.take(k + 1).last() == s[k]);
        lemma_digits_value_nonneg(s.take(k));
        lemma_digits_value_prefix(s, k + 1);
    } else {
        assert(s.take(k) =~= s);
    }
}

/// Parse `text` as a port: `Some` exactly on valid port texts, and then
/// the denoted number.
pub fn parse_port(text: &str) -> (r: Option<u16>)
    ensures
        r == if is_valid_port_text(text@) {
            Some(port_number(text@))
        } else {
            None::<u16>
        },
{
    let n = text.unicode_len();
    let mut start: usize = 0;
    if n > 0 && text.get_char(0) == '+' {
        start = 1;
    }
    let ghost d = port_digits(text@);
    assert(d =~= text@.subrange(start as int, n as int));
    if start >= n {
        // No digits at all.
        return None;
    }
    let mut value: u32 = 0;
    let mut i: usize = start;
    while i < n
        invariant
            start <= i <= n,
            n == text@.len(),
            start == 1 ==> text@.len() > 0 && text@[0] == '+',
            d == port_digits(text@),
            d =~= text@.subrange(start as int, n as int),
            all_digits(d.take(i - start)),
            value == digits_value(d.take(i - start)),
            value <= 65535,
        decreases n - i,
    {
        let c = text.get_char(i);
        let u = c as u32;
        if u < 48 || u > 57 {
            // A non-digit anywhere after the sign makes the text invalid.
            assert(d[i - start] == c);
            assert(!is_decimal_digit(d[i - start]));
            return None;
        }
        let digit: u32 = u - 48;
        assert(d.take(i + 1 - start).drop_last() =~= d.take(i - start));
        assert(d.take(i + 1 - start).last() == d[i - start]);
        value = value * 10 + digit;
        if value > 65535 {
            // The digits seen so far already exceed the largest port,
            // and further digits can only increase the value.
            proof {
                if all_digits(d) {
                    lemma_digits_value_prefix(d, i + 1 - start);
                }
            }
            return None;
        }
        i = i + 1;
    }
    assert(d.take(i - start) =~= d);
    Some(value as u16)
}

} // verus!
