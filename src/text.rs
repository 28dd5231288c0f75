//! Decimal text: writing levels and percentages.
use vstd::prelude::*;

use crate::percent::{percentage_scaled, scaled_percentage, Precision};

verus! {

/// The decimal digit character for `d < 10`.
pub open spec fn digit_char(d: nat) -> char {
    ((d + 48) as u8) as char
}

/// The decimal representation of `n`, without sign or leading zeros.
pub open spec fn decimal_chars(n: nat) -> Seq<char>
    decreases n,
{
    if n < 10 {
        seq![digit_char(n)]
    } else {
        decimal_chars(n / 10).push(digit_char(n % 10))
    }
}

/// Relies on String::push: the character is appended at the end.
pub assume_specification[ String::push ](s: &mut String, ch: char)
    ensures
        final(s)@ == old(s)@.push(ch),
;

/// Appends the decimal representation of `n` to `s`.
pub fn push_decimal(s: &mut String, n: u64)
    ensures
        final(s)@ == old(s)@ + decimal_chars(n as nat),
    decreases n,
{
    if n < 10 {
        s.push(((n as u8) + 48) as char);
        assert(old(s)@.push(digit_char(n as nat)) =~= old(s)@ + seq![digit_char(n as nat)]);
    } else {
        push_decimal(s, n / 10);
        s.push(((n % 10) as u8 + 48) as char);
        assert(final(s)@ =~= old(s)@ + decimal_chars(n as nat));
    }
}

/// How a percentage of `x` units of precision `p` is written, with a `%` sign:
/// `25%` for whole percents, `25.00%` for hundredths.
pub open spec fn percent_chars(x: nat, p: Precision) -> Seq<char> {
    match p {
        Precision::Whole => decimal_chars(x) + seq!['%'],
        Precision::Hundredths => decimal_chars(x / 100) + seq![
            '.',
            digit_char((x % 100) / 10),
            digit_char(x % 10),
            '%',
        ],
    }
}

/// The decimal text of a level, as handed to the brightness provider.
pub fn level_argument(level: u32) -> (r: String)
    ensures
        r@ == decimal_chars(level as nat),
{
    let mut s = String::new();
    push_decimal(&mut s, level as u64);
    assert(s@ =~= decimal_chars(level as nat));
    s
}

/// The percentage that `level` is of `max`, rounded to the precision and
/// followed by a `%` sign.
pub fn percentage_text(level: u32, max: u32, p: Precision) -> (r: String)
    requires
        max > 0,
    ensures
        r@ == percent_chars(scaled_percentage(level as nat, max as nat, p), p),
{
    let x = percentage_scaled(level, max, p);
    let mut s = String::new();
    match p {
        Precision::Whole => {
            push_decimal(&mut s, x);
        },
        Precision::Hundredths => {
            push_decimal(&mut s, x / 100);
            s.push('.');
            s.push(((x % 100 / 10) as u8 + 48) as char);
            s.push(((x % 10) as u8 + 48) as char);
        },
    }
    s.push('%');
    assert(s@ =~= percent_chars(x as nat, p));
    s
}

} // verus!
