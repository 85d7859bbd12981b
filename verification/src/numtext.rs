//! Decimal text: parsing unsigned integers from byte texts, and rendering
//! integers as decimal character sequences.

use vstd::prelude::*;
use vstd::string::StringExecFns;

verus! {

/// An ASCII decimal digit byte, `0..=9`.
pub open spec fn is_digit_byte(b: u8) -> bool {
    0x30 <= b && b <= 0x39
}

/// Every byte of the text is a decimal digit.
pub open spec fn spec_all_digits(s: Seq<u8>) -> bool {
    forall|i: int| 0 <= i < s.len() ==> is_digit_byte(s[i])
}

/// The value of a decimal digit text, most significant digit first.
pub open spec fn spec_digits_value(s: Seq<u8>) -> int
    decreases s.len(),
{
    if s.len() == 0 {
        0
    } else {
        spec_digits_value(s.drop_last()) * 10 + (s[s.len() - 1] - 0x30)
    }
}

/// What a decimal text denotes as a `u64`: defined exactly for a non-empty
/// all-digit text whose value fits.
pub open spec fn spec_parse_u64(s: Seq<u8>) -> Option<u64> {
    if s.len() > 0 && spec_all_digits(s) && spec_digits_value(s) <= u64::MAX {
        Some(spec_digits_value(s) as u64)
    } else {
        None
    }
}

/// What a decimal text denotes as a `u16`: defined exactly for a non-empty
/// all-digit text whose value fits.
pub open spec fn spec_parse_u16(s: Seq<u8>) -> Option<u16> {
    if s.len() > 0 && spec_all_digits(s) && spec_digits_value(s) <= u16::MAX {
        Some(spec_digits_value(s) as u16)
    } else {
        None
    }
}

/// The value of an all-digit text is non-negative.
proof fn lemma_digits_value_nonneg(s: Seq<u8>)
    requires
        spec_all_digits(s),
    ensures
        spec_digits_value(s) >= 0,
    decreases s.len(),
{
    if s.len() > 0 {
        assert(spec_all_digits(s.drop_last()));
        lemma_digits_value_nonneg(s.drop_last());
    }
}

/// The value of an all-digit text is at least the value of any of its
/// prefixes.
proof fn lemma_digits_value_prefix(s: Seq<u8>, i: int)
    requires
        spec_all_digits(s),
        0 <= i <= s.len(),
    ensures
        spec_digits_value(s) >= spec_digits_value(s.take(i)),
    decreases s.len() - i,
{
    if i == s.len() {
        assert(s.take(i) =~= s);
    } else {
        let t = s.take(i + 1);
        assert(t.drop_last() =~= s.take(i));
        assert(spec_all_digits(s.take(i)));
        lemma_digits_value_nonneg(s.take(i));
        assert(spec_digits_value(t) == spec_digits_value(s.take(i)) * 10 + (s[i] - 0x30));
        lemma_digits_value_prefix(s, i + 1);
    }
}

/// Parse a decimal byte text as a `u64`.
pub fn parse_u64(s: &[u8]) -> (r: Option<u64>)
    ensures
        r == spec_parse_u64(s@),
{
    if s.len() == 0 {
        return None;
    }
    let mut acc: u64 = 0;
    let mut i: usize = 0;
    while i < s.len()
        invariant
            0 < s@.len(),
            i <= s@.len(),
            spec_all_digits(s@.take(i as int)),
            acc == spec_digits_value(s@.take(i as int)),
        decreases s@.len() - i,
    {
        let b = s[i];
        if !(b >= 0x30 && b <= 0x39) {
            assert(!is_digit_byte(s@[i as int]));
            return None;
        }
        let d = (b - 0x30) as u64;
        proof {
            assert(s@.take(i + 1).drop_last() =~= s@.take(i as int));
            assert(spec_all_digits(s@.take(i + 1)));
            assert(spec_digits_value(s@.take(i + 1)) == acc * 10 + d);
        }
        if acc > u64::MAX / 10 {
            proof {
                lemma_digits_value_nonneg(s@.take(i + 1));
                assert(spec_digits_value(s@.take(i + 1)) > u64::MAX);
                if spec_all_digits(s@) {
                    lemma_digits_value_prefix(s@, i + 1);
                }
            }
            return None;
        }
        let acc10 = acc * 10;
        if d > u64::MAX - acc10 {
            proof {
                assert(spec_digits_value(s@.take(i + 1)) > u64::MAX);
                if spec_all_digits(s@) {
                    lemma_digits_value_prefix(s@, i + 1);
                }
            }
            return None;
        }
        acc = acc10 + d;
        i = i + 1;
    }
    proof {
        assert(s@.take(s@.len() as int) =~= s@);
    }
    Some(acc)
}

/// Parse a decimal byte text as a `u16`.
pub fn parse_u16(s: &[u8]) -> (r: Option<u16>)
    ensures
        r == spec_parse_u16(s@),
{
    match parse_u64(s) {
        Some(v) => {
            proof {
                lemma_digits_value_nonneg(s@);
                assert(spec_digits_value(s@) == v as int);
            }
            if v <= 0xffff {
                Some(v as u16)
            } else {
                None
            }
        },
        None => {
            proof {
                if s@.len() > 0 && spec_all_digits(s@) {
                    assert(spec_digits_value(s@) > u64::MAX);
                }
            }
            None
        },
    }
}

/// The decimal digit character for a value in `0..=9`.
pub open spec fn spec_digit_char(d: int) -> char {
    if d == 0 {
        '0'
    } else if d == 1 {
        '1'
    } else if d == 2 {
        '2'
    } else if d == 3 {
        '3'
    } else if d == 4 {
        '4'
    } else if d == 5 {
        '5'
    } else if d == 6 {
        '6'
    } else if d == 7 {
        '7'
    } else if d == 8 {
        '8'
    } else {
        '9'
    }
}

/// The decimal rendering of a natural number, most significant digit first,
/// without leading zeros (`0` renders as "0").
pub open spec fn spec_decimal(n: nat) -> Seq<char>
    decreases n,
{
    if n < 10 {
        seq![spec_digit_char(n as int)]
    } else {
        spec_decimal(n / 10).push(spec_digit_char((n % 10) as int))
    }
}

/// Append the character for one decimal digit to a string.
fn push_digit(s: &mut String, d: u8)
    requires
        d < 10,
    ensures
        final(s)@ == old(s)@ + seq![spec_digit_char(d as int)],
{
    proof {
        reveal_strlit("0");
        reveal_strlit("1");
        reveal_strlit("2");
        reveal_strlit("3");
        reveal_strlit("4");
        reveal_strlit("5");
        reveal_strlit("6");
        reveal_strlit("7");
        reveal_strlit("8");
        reveal_strlit("9");
    }
    if d == 0 {
        s.append("0");
        assert(s@ =~= old(s)@ + seq![spec_digit_char(d as int)]);
    } else if d == 1 {
        s.append("1");
        assert(s@ =~= old(s)@ + seq![spec_digit_char(d as int)]);
    } else if d == 2 {
        s.append("2");
        assert(s@ =~= old(s)@ + seq![spec_digit_char(d as int)]);
    } else if d == 3 {
        s.append("3");
        assert(s@ =~= old(s)@ + seq![spec_digit_char(d as int)]);
    } else if d == 4 {
        s.append("4");
        assert(s@ =~= old(s)@ + seq![spec_digit_char(d as int)]);
    } else if d == 5 {
        s.append("5");
        assert(s@ =~= old(s)@ + seq![spec_digit_char(d as int)]);
    } else if d == 6 {
        s.append("6");
        assert(s@ =~= old(s)@ + seq![spec_digit_char(d as int)]);
    } else if d == 7 {
        s.append("7");
        assert(s@ =~= old(s)@ + seq![spec_digit_char(d as int)]);
    } else if d == 8 {
        s.append("8");
        assert(s@ =~= old(s)@ + seq![spec_digit_char(d as int)]);
    } else {
        s.append("9");
        assert(s@ =~= old(s)@ + seq![spec_digit_char(d as int)]);
    }
}

/// Append the decimal rendering of `n` to a string.
pub fn push_decimal(s: &mut String, n: u16)
    ensures
        final(s)@ == old(s)@ + spec_decimal(n as nat),
    decreases n,
{
    if n >= 10 {
        push_decimal(s, n / 10);
        push_digit(s, (n % 10) as u8);
        assert(s@ =~= old(s)@ + spec_decimal(n as nat));
    } else {
        push_digit(s, n as u8);
    }
}

} // verus!
