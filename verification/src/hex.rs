//! Hexadecimal codec: a decoder for mixed-case hex texts and a lowercase
//! encoder, with a proof that decoding inverts encoding.

use vstd::prelude::*;
use crate::ascii::{spec_trim, trim};

verus! {

/// Errors of the hexadecimal decoder.
#[derive(Clone, Copy, Debug, PartialEq, Eq, Structural)]
pub enum HexError {
    /// The text has an odd number of digits.
    OddLength,
    /// A byte of the text is not an ASCII hexadecimal digit; the field holds
    /// that byte.
    InvalidDigit(u8),
}

/// An ASCII hexadecimal digit byte, upper or lower case.
pub open spec fn is_hex_digit(b: u8) -> bool {
    (0x30 <= b && b <= 0x39) || (0x61 <= b && b <= 0x66) || (0x41 <= b && b <= 0x46)
}

/// The value of one hexadecimal digit byte.
pub open spec fn spec_hex_digit_value(b: u8) -> u8 {
    if 0x30 <= b && b <= 0x39 {
        (b - 0x30) as u8
    } else if 0x61 <= b && b <= 0x66 {
        (b - 0x61 + 10) as u8
    } else {
        (b - 0x41 + 10) as u8
    }
}

/// What a run of hexadecimal digits decodes to: each pair of digits, high
/// nibble first, gives one byte. An odd-length text or one with a byte that
/// is no hexadecimal digit is rejected, naming the first offending byte.
pub open spec fn spec_hex_digits_decode(s: Seq<u8>) -> Result<Seq<u8>, HexError>
    decreases s.len(),
{
    if s.len() % 2 != 0 {
        Err(HexError::OddLength)
    } else if s.len() == 0 {
        Ok(Seq::empty())
    } else if !is_hex_digit(s[0]) {
        Err(HexError::InvalidDigit(s[0]))
    } else if !is_hex_digit(s[1]) {
        Err(HexError::InvalidDigit(s[1]))
    } else {
        match spec_hex_digits_decode(s.skip(2)) {
            Ok(rest) => Ok(
                seq![(spec_hex_digit_value(s[0]) * 16 + spec_hex_digit_value(s[1])) as u8] + rest,
            ),
            Err(e) => Err(e),
        }
    }
}

/// What a hexadecimal text decodes to, after trimming ASCII whitespace at
/// both ends.
pub open spec fn spec_hex_decode(s: Seq<u8>) -> Result<Seq<u8>, HexError> {
    spec_hex_digits_decode(spec_trim(s))
}

/// The lowercase hexadecimal digit byte for a value in `0..=15`.
pub open spec fn spec_hex_digit_byte(n: int) -> u8 {
    if n < 10 {
        (0x30 + n) as u8
    } else {
        (0x61 + (n - 10)) as u8
    }
}

/// The lowercase hexadecimal rendering of a byte sequence: two digits per
/// byte, high nibble first.
pub open spec fn spec_hex_encode(b: Seq<u8>) -> Seq<u8> {
    Seq::new(
        (2 * b.len()) as nat,
        |i: int|
            if i % 2 == 0 {
                spec_hex_digit_byte((b[i / 2] / 16) as int)
            } else {
                spec_hex_digit_byte((b[i / 2] % 16) as int)
            },
    )
}

/// The value of one hexadecimal digit byte, or `None` for any other byte.
fn hex_val(b: u8) -> (r: Option<u8>)
    ensures
        r is Some <==> is_hex_digit(b),
        r matches Some(v) ==> v == spec_hex_digit_value(b),
{
    if b >= 0x30 && b <= 0x39 {
        Some(b - 0x30)
    } else if b >= 0x61 && b <= 0x66 {
        Some(b - 0x61 + 10)
    } else if b >= 0x41 && b <= 0x46 {
        Some(b - 0x41 + 10)
    } else {
        None
    }
}

/// Decode a hexadecimal byte text, ignoring ASCII whitespace at its ends.
pub fn hex_decode(input: &[u8]) -> (r: Result<Vec<u8>, HexError>)
    ensures
        match r {
            Ok(v) => spec_hex_decode(input@) == Ok::<Seq<u8>, HexError>(v@),
            Err(e) => spec_hex_decode(input@) == Err::<Seq<u8>, HexError>(e),
        },
{
    let s = trim(input);
    let ghost t = s@;
    if s.len() % 2 != 0 {
        return Err(HexError::OddLength);
    }
    let mut out: Vec<u8> = Vec::new();
    let mut i: usize = 0;
    proof {
        assert(t.skip(0) =~= t);
        let d0 = spec_hex_digits_decode(t);
        if d0 is Ok {
            assert(out@ + d0->Ok_0 =~= d0->Ok_0);
        }
    }
    while i < s.len()
        invariant
            t == s@,
            t == spec_trim(input@),
            t.len() % 2 == 0,
            i % 2 == 0,
            i <= t.len(),
            out@.len() * 2 == i,
            match spec_hex_digits_decode(t.skip(i as int)) {
                Ok(rest) => spec_hex_digits_decode(t) == Ok::<Seq<u8>, HexError>(out@ + rest),
                Err(e) => spec_hex_digits_decode(t) == Err::<Seq<u8>, HexError>(e),
            },
        decreases t.len() - i,
    {
        proof {
            assert((t.len() - i) % 2 == 0);
            assert(t.skip(i as int).len() == t.len() - i);
            assert(t.skip(i as int)[0] == t[i as int]);
            assert(t.skip(i as int)[1] == t[i as int + 1]);
            assert(t.skip(i as int).skip(2) =~= t.skip(i as int + 2));
        }
        let hi = s[i];
        let lo = s[i + 1];
        let hv: u8;
        match hex_val(hi) {
            Some(v) => {
                hv = v;
            },
            None => {
                proof {
                    assert(spec_hex_digits_decode(t.skip(i as int)) == Err::<Seq<u8>, HexError>(
                        HexError::InvalidDigit(hi),
                    ));
                    assert(spec_hex_digits_decode(t) == Err::<Seq<u8>, HexError>(
                        HexError::InvalidDigit(hi),
                    ));
                    assert(spec_hex_decode(input@) == Err::<Seq<u8>, HexError>(
                        HexError::InvalidDigit(hi),
                    ));
                }
                return Err(HexError::InvalidDigit(hi));
            },
        }
        let lv: u8;
        match hex_val(lo) {
            Some(v) => {
                lv = v;
            },
            None => {
                proof {
                    assert(spec_hex_digits_decode(t.skip(i as int)) == Err::<Seq<u8>, HexError>(
                        HexError::InvalidDigit(lo),
                    ));
                    assert(spec_hex_digits_decode(t) == Err::<Seq<u8>, HexError>(
                        HexError::InvalidDigit(lo),
                    ));
                    assert(spec_hex_decode(input@) == Err::<Seq<u8>, HexError>(
                        HexError::InvalidDigit(lo),
                    ));
                }
                return Err(HexError::InvalidDigit(lo));
            },
        }
        let ghost out0 = out@;
        out.push(hv * 16 + lv);
        proof {
            let byte = (spec_hex_digit_value(t[i as int]) * 16 + spec_hex_digit_value(
                t[i as int + 1],
            )) as u8;
            assert(out@ =~= out0 + seq![byte]);
            let d_here = spec_hex_digits_decode(t.skip(i as int));
            match spec_hex_digits_decode(t.skip(i as int + 2)) {
                Ok(rest) => {
                    assert(d_here == Ok::<Seq<u8>, HexError>(seq![byte] + rest));
                    assert(spec_hex_digits_decode(t) == Ok::<Seq<u8>, HexError>(
                        out0 + (seq![byte] + rest),
                    ));
                    assert(out0 + (seq![byte] + rest) =~= out@ + rest);
                    assert(spec_hex_digits_decode(t) == Ok::<Seq<u8>, HexError>(out@ + rest));
                },
                Err(e) => {
                    assert(d_here == Err::<Seq<u8>, HexError>(e));
                    assert(spec_hex_digits_decode(t) == Err::<Seq<u8>, HexError>(e));
                },
            }
        }
        i = i + 2;
    }
    proof {
        assert(t.skip(t.len() as int) =~= Seq::<u8>::empty());
        assert(out@ + Seq::<u8>::empty() =~= out@);
    }
    Ok(out)
}

/// Render a byte slice as lowercase hexadecimal text.
pub fn hex_encode(input: &[u8]) -> (r: Vec<u8>)
    ensures
        r@ == spec_hex_encode(input@),
{
    let mut out: Vec<u8> = Vec::new();
    let mut i: usize = 0;
    while i < input.len()
        invariant
            i <= input@.len(),
            out@ =~= spec_hex_encode(input@.take(i as int)),
        decreases input@.len() - i,
    {
        let b = input[i];
        let hi = b / 16;
        let lo = b % 16;
        let hd = if hi < 10 {
            0x30 + hi
        } else {
            0x61 + (hi - 10)
        };
        let ld = if lo < 10 {
            0x30 + lo
        } else {
            0x61 + (lo - 10)
        };
        out.push(hd);
        out.push(ld);
        proof {
            assert(out@ =~= spec_hex_encode(input@.take(i as int + 1)));
        }
        i = i + 1;
    }
    proof {
        assert(input@.take(input@.len() as int) =~= input@);
    }
    out
}

/// Decoding a digit byte recovers the nibble it encodes.
proof fn lemma_hex_digit_round_trip(n: int)
    requires
        0 <= n < 16,
    ensures
        is_hex_digit(spec_hex_digit_byte(n)),
        spec_hex_digit_value(spec_hex_digit_byte(n)) == n,
{
}

/// Decoding inverts encoding: the digit text of any byte sequence decodes
/// back to exactly that sequence.
pub proof fn lemma_hex_round_trip(b: Seq<u8>)
    ensures
        spec_hex_digits_decode(spec_hex_encode(b)) == Ok::<Seq<u8>, HexError>(b),
    decreases b.len(),
{
    let e = spec_hex_encode(b);
    if b.len() == 0 {
        assert(e =~= Seq::<u8>::empty());
        assert(spec_hex_digits_decode(e) == Ok::<Seq<u8>, HexError>(Seq::empty()));
        assert(Seq::<u8>::empty() =~= b);
    } else {
        lemma_hex_digit_round_trip((b[0] / 16) as int);
        lemma_hex_digit_round_trip((b[0] % 16) as int);
        assert(e[0] == spec_hex_digit_byte((b[0] / 16) as int));
        assert(e[1] == spec_hex_digit_byte((b[0] % 16) as int));
        assert(e.skip(2) =~= spec_hex_encode(b.drop_first()));
        lemma_hex_round_trip(b.drop_first());
        assert(spec_hex_digit_value(e[0]) * 16 + spec_hex_digit_value(e[1]) == b[0]);
        assert(seq![b[0]] + b.drop_first() =~= b);
    }
}

} // verus!
