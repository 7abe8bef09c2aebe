//! Building strings: appending characters and writing numbers in decimal.

use vstd::prelude::*;

verus! {

/// Calls `String::push`, which appends one character.
#[verifier::external_body]
pub(crate) fn push_char(s: &mut String, c: char)
    ensures
        final(s)@ == old(s)@.push(c),
{
    s.push(c)
}

/// The decimal digit character of a value below 10.
pub open spec fn decimal_digit(v: int) -> char {
    ('0' as int + v) as char
}

/// The decimal text of `n`, without leading zeros.
pub open spec fn decimal_text(n: nat) -> Seq<char>
    decreases n,
{
    if n < 10 {
        seq![decimal_digit(n as int)]
    } else {
        decimal_text(n / 10).push(decimal_digit((n % 10) as int))
    }
}

fn digit_char(v: u8) -> (c: char)
    requires
        v < 10,
    ensures
        c == decimal_digit(v as int),
{
    if v == 0 { '0' } else if v == 1 { '1' } else if v == 2 { '2' } else if v == 3 { '3' }
    else if v == 4 { '4' } else if v == 5 { '5' } else if v == 6 { '6' } else if v == 7 { '7' }
    else if v == 8 { '8' } else { '9' }
}

/// Appends the decimal text of `n` to `s`.
pub fn push_decimal(s: &mut String, n: u8)
    ensures
        final(s)@ == old(s)@ + decimal_text(n as nat),
{
    if n >= 100 {
        push_char(s, digit_char(n / 100));
        push_char(s, digit_char((n / 10) % 10));
        push_char(s, digit_char(n % 10));
        assert(decimal_text(n as nat) =~= seq![decimal_digit((n / 100) as int), decimal_digit(((n / 10) % 10) as int), decimal_digit((n % 10) as int)]) by {
            reveal_with_fuel(decimal_text, 3);
        }
    } else if n >= 10 {
        push_char(s, digit_char(n / 10));
        push_char(s, digit_char(n % 10));
        assert(decimal_text(n as nat) =~= seq![decimal_digit((n / 10) as int), decimal_digit((n % 10) as int)]) by {
            reveal_with_fuel(decimal_text, 2);
        }
    } else {
        push_char(s, digit_char(n));
    }
}

} // verus!
