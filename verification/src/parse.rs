//! Verified parsing of the unsigned decimal numbers that arrive as route
//! and query parameters: identifiers, page limits, and cursors.

use vstd::prelude::*;
use vstd::string::StringSliceAdditionalSpecFns;

verus! {

/// An ASCII decimal digit.
pub open spec fn is_dec_digit(b: u8) -> bool {
    48 <= b && b <= 57
}

/// Every byte is an ASCII decimal digit.
pub open spec fn all_dec_digits(s: Seq<u8>) -> bool {
    forall|i: int| 0 <= i < s.len() ==> is_dec_digit(#[trigger] s[i])
}

/// The number a digit string denotes, most significant digit first.
pub open spec fn dec_val(s: Seq<u8>) -> int
    decreases s.len(),
{
    if s.len() == 0 {
        0
    } else {
        dec_val(s.drop_last()) * 10 + (s.last() - 48)
    }
}

/// What parsing an unsigned decimal yields: the value of a nonempty
/// all-digit string that fits the width, and nothing else.
pub open spec fn spec_parse_u128(b: Seq<u8>) -> Option<u128> {
    if b.len() > 0 && all_dec_digits(b) && dec_val(b) <= u128::MAX {
        Some(dec_val(b) as u128)
    } else {
        None
    }
}

/// As `spec_parse_u128`, at the narrower width.
pub open spec fn spec_parse_u64(b: Seq<u8>) -> Option<u64> {
    if b.len() > 0 && all_dec_digits(b) && dec_val(b) <= u64::MAX {
        Some(dec_val(b) as u64)
    } else {
        None
    }
}

/// As `spec_parse_u128`, at the platform's pointer width.
pub open spec fn spec_parse_usize(b: Seq<u8>) -> Option<usize> {
    if b.len() > 0 && all_dec_digits(b) && dec_val(b) <= usize::MAX {
        Some(dec_val(b) as usize)
    } else {
        None
    }
}

proof fn lemma_dec_val_nonneg(s: Seq<u8>)
    requires
        all_dec_digits(s),
    ensures
        dec_val(s) >= 0,
    decreases s.len(),
{
    if s.len() > 0 {
        assert(all_dec_digits(s.drop_last()));
        lemma_dec_val_nonneg(s.drop_last());
    }
}

/// A digit string denotes at least as much as any of its prefixes.
proof fn lemma_dec_val_extend(b: Seq<u8>, i: int, j: int)
    requires
        0 <= i <= j <= b.len(),
        forall|k: int| 0 <= k < j ==> is_dec_digit(#[trigger] b[k]),
    ensures
        dec_val(b.subrange(0, i)) <= dec_val(b.subrange(0, j)),
    decreases j - i,
{
    if i < j {
        lemma_dec_val_extend(b, i, j - 1);
        let prev = b.subrange(0, j - 1);
        assert(b.subrange(0, j).drop_last() =~= prev);
        assert(all_dec_digits(prev));
        lemma_dec_val_nonneg(prev);
        assert(dec_val(b.subrange(0, j)) == dec_val(prev) * 10 + (b[j - 1] - 48));
    }
}

/// Parses a nonempty string of ASCII decimal digits; anything else, and
/// any value wider than 128 bits, is rejected.
pub fn parse_u128(s: &str) -> (r: Option<u128>)
    ensures
        r == spec_parse_u128(s.spec_bytes()),
{
    let bytes = s.as_bytes();
    let n = bytes.len();
    if n == 0 {
        return None;
    }
    let mut acc: u128 = 0;
    let mut i: usize = 0;
    while i < n
        invariant
            bytes@ == s.spec_bytes(),
            n == bytes@.len(),
            0 < n,
            i <= n,
            forall|k: int| 0 <= k < i ==> is_dec_digit(#[trigger] bytes@[k]),
            acc == dec_val(bytes@.subrange(0, i as int)),
        decreases n - i,
    {
        let c = bytes[i];
        if c < 48 || c > 57 {
            return None;
        }
        let d = (c - 48) as u128;
        if acc > (u128::MAX - d) / 10 {
            proof {
                if all_dec_digits(bytes@) {
                    assert(bytes@.subrange(0, (i + 1) as int).drop_last() =~= bytes@.subrange(
                        0,
                        i as int,
                    ));
                    assert(dec_val(bytes@.subrange(0, (i + 1) as int)) == acc * 10 + d);
                    lemma_dec_val_extend(bytes@, i + 1, n as int);
                    assert(bytes@.subrange(0, n as int) =~= bytes@);
                    assert(acc * 10 + d > u128::MAX);
                }
            }
            return None;
        }
        proof {
            assert(acc * 10 + d <= u128::MAX);
            assert(bytes@.subrange(0, (i + 1) as int).drop_last() =~= bytes@.subrange(0, i as int));
        }
        acc = acc * 10 + d;
        i = i + 1;
    }
    proof {
        assert(bytes@.subrange(0, n as int) =~= bytes@);
    }
    Some(acc)
}

/// Parses an unsigned decimal that must fit 64 bits.
pub fn parse_u64(s: &str) -> (r: Option<u64>)
    ensures
        r == spec_parse_u64(s.spec_bytes()),
{
    let r = parse_u128(s);
    proof {
        if s.spec_bytes().len() > 0 && all_dec_digits(s.spec_bytes()) {
            lemma_dec_val_nonneg(s.spec_bytes());
        }
    }
    match r {
        Some(v) => if v <= u64::MAX as u128 {
            Some(v as u64)
        } else {
            None
        },
        None => None,
    }
}

/// Parses an unsigned decimal that must fit the platform's pointer width.
pub fn parse_usize(s: &str) -> (r: Option<usize>)
    ensures
        r == spec_parse_usize(s.spec_bytes()),
{
    let r = parse_u128(s);
    proof {
        if s.spec_bytes().len() > 0 && all_dec_digits(s.spec_bytes()) {
            lemma_dec_val_nonneg(s.spec_bytes());
        }
    }
    match r {
        Some(v) => if v <= usize::MAX as u128 {
            Some(v as usize)
        } else {
            None
        },
        None => None,
    }
}

} // verus!
