//! Reading a level from the brightness provider's output: one decimal integer,
//! with whitespace around it.
use vstd::prelude::*;

use crate::error::BrightnessError;

verus! {

/// ASCII whitespace: tab, line feed, vertical tab, form feed, carriage return, space.
pub open spec fn is_space(b: u8) -> bool {
    (9 <= b && b <= 13) || b == 32
}

pub open spec fn is_digit(b: u8) -> bool {
    48 <= b && b <= 57
}

/// `s` without the whitespace at its start.
pub open spec fn trim_start(s: Seq<u8>) -> Seq<u8>
    decreases s.len(),
{
    if s.len() > 0 && is_space(s[0]) {
        trim_start(s.drop_first())
    } else {
        s
    }
}

/// `s` without the whitespace at its end.
pub open spec fn trim_end(s: Seq<u8>) -> Seq<u8>
    decreases s.len(),
{
    if s.len() > 0 && is_space(s.last()) {
        trim_end(s.drop_last())
    } else {
        s
    }
}

/// The number part of an output: the output without surrounding whitespace
/// and without one leading `+`.
pub open spec fn number_part(out: Seq<u8>) -> Seq<u8> {
    let t = trim_end(trim_start(out));
    if t.len() > 0 && t[0] == 43 {
        t.drop_first()
    } else {
        t
    }
}

/// The value of a sequence of decimal digits, the most significant first.
pub open spec fn digits_value(s: Seq<u8>) -> nat
    decreases s.len(),
{
    if s.len() == 0 {
        0
    } else {
        digits_value(s.drop_last()) * 10 + (s.last() - 48) as nat
    }
}

pub open spec fn all_digits(s: Seq<u8>) -> bool {
    forall|i: int| 0 <= i < s.len() ==> is_digit(#[trigger] s[i])
}

/// An output that reads as a level: its number part is one or more digits
/// whose value fits in `u32`.
pub open spec fn is_level_output(out: Seq<u8>) -> bool {
    let d = number_part(out);
    d.len() > 0 && all_digits(d) && digits_value(d) <= u32::MAX
}

/// The level that an output reads as.
pub open spec fn output_level(out: Seq<u8>) -> nat {
    digits_value(number_part(out))
}

/// Reads a level from the provider's output.
pub fn parse_level(out: &[u8]) -> (r: Result<u32, BrightnessError>)
    ensures
        r matches Ok(v) ==> is_level_output(out@) && v == output_level(out@),
        r is Err ==> !is_level_output(out@) && r == Err::<u32, BrightnessError>(
            BrightnessError::MalformedOutput,
        ),
{
    let len = out.len();
    let mut i: usize = 0;
    assert(out@.subrange(0, len as int) =~= out@);
    while i < len && (out[i] == 32 || (9 <= out[i] && out[i] <= 13))
        invariant
            i <= len == out@.len(),
            trim_start(out@) == trim_start(out@.subrange(i as int, len as int)),
        decreases len - i,
    {
        assert(out@.subrange(i as int, len as int).drop_first() =~= out@.subrange(
            i + 1,
            len as int,
        ));
        i = i + 1;
    }
    assert(trim_start(out@) == out@.subrange(i as int, len as int));
    let mut j: usize = len;
    while j > i && (out[j - 1] == 32 || (9 <= out[j - 1] && out[j - 1] <= 13))
        invariant
            i <= j <= len == out@.len(),
            trim_start(out@) == out@.subrange(i as int, len as int),
            trim_end(trim_start(out@)) == trim_end(out@.subrange(i as int, j as int)),
        decreases j - i,
    {
        assert(out@.subrange(i as int, j as int).drop_last() =~= out@.subrange(
            i as int,
            j - 1,
        ));
        j = j - 1;
    }
    assert(trim_end(trim_start(out@)) == out@.subrange(i as int, j as int));
    if i < j && out[i] == 43 {
        assert(out@.subrange(i as int, j as int).drop_first() =~= out@.subrange(
            i + 1,
            j as int,
        ));
        i = i + 1;
    }
    let ghost d = out@.subrange(i as int, j as int);
    assert(number_part(out@) == d);
    if i == j {
        return Err(BrightnessError::MalformedOutput);
    }
    let start = i;
    // The value read so far, held at `cap` once it no longer fits in `u32`.
    let cap: u64 = 0x1_0000_0000;
    let mut acc: u64 = 0;
    let mut k: usize = i;
    while k < j
        invariant
            start <= k <= j <= len == out@.len(),
            d == out@.subrange(start as int, j as int),
            number_part(out@) == d,
            all_digits(out@.subrange(start as int, k as int)),
            cap == 0x1_0000_0000,
            acc <= cap,
            acc == cap || acc == digits_value(out@.subrange(start as int, k as int)),
            acc == cap ==> digits_value(out@.subrange(start as int, k as int)) >= cap,
        decreases j - k,
    {
        let b = out[k];
        if b < 48 || b > 57 {
            assert(d[k - start] == b && !is_digit(d[k - start]));
            return Err(BrightnessError::MalformedOutput);
        }
        let ghost prev = out@.subrange(start as int, k as int);
        let ghost next = out@.subrange(start as int, k + 1);
        assert(next.drop_last() =~= prev);
        assert(digits_value(next) == digits_value(prev) * 10 + (b - 48) as nat);
        if acc == cap {
            assert(digits_value(prev) * 10 >= cap) by (nonlinear_arith)
                requires
                    digits_value(prev) >= cap,
            ;
        } else {
            let v = acc * 10 + (b - 48) as u64;
            acc = if v >= cap {
                cap
            } else {
                v
            };
        }
        assert(all_digits(next)) by {
            assert forall|x: int| 0 <= x < next.len() implies is_digit(#[trigger] next[x]) by {
                if x < prev.len() {
                    assert(next[x] == prev[x]);
                }
            }
        }
        k = k + 1;
    }
    assert(out@.subrange(start as int, k as int) =~= d);
    if acc == cap {
        Err(BrightnessError::MalformedOutput)
    } else {
        Ok(acc as u32)
    }
}

} // verus!
