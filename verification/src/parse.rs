//! Decoding of textual numeric fields: an unsigned decimal integer read
//! from raw payload bytes. An optional leading `+` is accepted, then one or
//! more ASCII digits; anything else, an empty digit string, or a value that
//! does not fit in `u32` is rejected.

use vstd::prelude::*;

verus! {

/// Whether a byte is an ASCII decimal digit.
pub open spec fn is_digit(b: u8) -> bool {
    48 <= b <= 57
}

/// The numeric value of a digit sequence read most-significant first.
pub open spec fn digits_value(s: Seq<u8>) -> nat
    decreases s.len(),
{
    if s.len() == 0 {
        0
    } else {
        digits_value(s.drop_last()) * 10 + (s.last() - 48) as nat
    }
}

/// The digit part of a numeric payload: everything after one optional
/// leading `+`.
pub open spec fn digit_part(s: Seq<u8>) -> Seq<u8> {
    if s.len() > 0 && s[0] == 43 {
        s.drop_first()
    } else {
        s
    }
}

/// What parsing a numeric payload yields: `Some(v)` exactly when the digit
/// part is non-empty, all digits, and its value fits in `u32`.
pub open spec fn spec_parse_u32(s: Seq<u8>) -> Option<u32> {
    let ds = digit_part(s);
    if ds.len() > 0 && (forall|i: int| 0 <= i < ds.len() ==> is_digit(ds[i]))
        && digits_value(ds) <= u32::MAX {
        Some(digits_value(ds) as u32)
    } else {
        None
    }
}

/// A longer all-digit sequence never has a smaller value: appending a digit
/// multiplies by ten and adds a non-negative amount.
proof fn lemma_digits_value_monotone(s: Seq<u8>, i: int, j: int)
    requires
        0 <= i <= j <= s.len(),
    ensures
        digits_value(s.subrange(0, i)) <= digits_value(s.subrange(0, j)),
    decreases j - i,
{
    if i < j {
        lemma_digits_value_monotone(s, i, j - 1);
        assert(s.subrange(0, j).drop_last() =~= s.subrange(0, j - 1));
        assert(digits_value(s.subrange(0, j))
            == digits_value(s.subrange(0, j - 1)) * 10 + (s.subrange(0, j).last() - 48) as nat);
        assert(digits_value(s.subrange(0, j - 1)) <= digits_value(s.subrange(0, j - 1)) * 10)
            by (nonlinear_arith);
    }
}

/// Parse the digit part of `s` starting at `start`, accumulating into `acc`.
fn parse_digits(s: &Vec<u8>, start: usize) -> (r: Option<u32>)
    requires
        start <= s@.len(),
    ensures
        ({
            let ds = s@.subrange(start as int, s@.len() as int);
            if ds.len() > 0 && (forall|i: int| 0 <= i < ds.len() ==> is_digit(ds[i]))
                && digits_value(ds) <= u32::MAX {
                r == Some(digits_value(ds) as u32)
            } else {
                r is None
            }
        }),
{
    let ghost ds = s@.subrange(start as int, s@.len() as int);
    if start == s.len() {
        return None;
    }
    let mut acc: u32 = 0;
    let mut i: usize = start;
    while i < s.len()
        invariant
            start <= i <= s@.len(),
            ds == s@.subrange(start as int, s@.len() as int),
            forall|k: int| 0 <= k < i - start ==> is_digit(ds[k]),
            acc == digits_value(ds.subrange(0, i - start)),
        decreases s@.len() - i,
    {
        let b = s[i];
        if b < 48 || b > 57 {
            assert(!is_digit(ds[i - start]));
            return None;
        }
        let d: u32 = (b - 48) as u32;
        if acc > (u32::MAX - d) / 10 {
            proof {
                let k = i - start + 1;
                assert(ds.subrange(0, k).drop_last() =~= ds.subrange(0, k - 1));
                assert(digits_value(ds.subrange(0, k))
                    == digits_value(ds.subrange(0, k - 1)) * 10 + (ds[k - 1] - 48));
                assert(acc * 10 + d > u32::MAX) by (nonlinear_arith)
                    requires acc > (u32::MAX - d) / 10 && d <= 9 && acc <= u32::MAX;
                lemma_digits_value_monotone(ds, k, ds.len() as int);
                assert(ds.subrange(0, ds.len() as int) =~= ds);
            }
            return None;
        }
        proof {
            let k = i - start + 1;
            assert(ds.subrange(0, k).drop_last() =~= ds.subrange(0, k - 1));
            assert(acc * 10 + d <= u32::MAX) by (nonlinear_arith)
                requires acc <= (u32::MAX - d) / 10 && d <= 9;
        }
        acc = acc * 10 + d;
        i = i + 1;
    }
    proof {
        assert(ds.subrange(0, ds.len() as int) =~= ds);
    }
    Some(acc)
}

/// Parse a textual field payload as an unsigned integer, exactly as
/// `spec_parse_u32` describes.
pub fn parse_u32(s: &Vec<u8>) -> (r: Option<u32>)
    ensures
        r == spec_parse_u32(s@),
{
    let start: usize = if s.len() > 0 && s[0] == 43 {
        1
    } else {
        0
    };
    let r = parse_digits(s, start);
    proof {
        assert(digit_part(s@) =~= s@.subrange(start as int, s@.len() as int));
    }
    r
}

} // verus!
