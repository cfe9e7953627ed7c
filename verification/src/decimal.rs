//! Decimal text for numeric device attributes.
//!
//! Device attributes carry numbers as plain decimal ASCII with no sign,
//! padding or leading whitespace. This module gives that wire form a
//! mathematical meaning ([`dec_val`], [`dec_seq`]) and provides the
//! verified conversions both ways.

use vstd::prelude::*;

verus! {

use crate::errors::Error;

/// Whether a character is a decimal digit.
pub open spec fn is_dec_digit(c: char) -> bool {
    48 <= c as u32 && c as u32 <= 57
}

/// Whether every character of a non-empty text is a decimal digit.
pub open spec fn all_digits(s: Seq<char>) -> bool {
    forall|i: int| 0 <= i < s.len() ==> is_dec_digit(#[trigger] s[i])
}

/// The numeric value of a digit sequence read in base ten. Meaningful
/// where `all_digits` holds.
pub open spec fn dec_val(s: Seq<char>) -> int
    decreases s.len(),
{
    if s.len() == 0 {
        0
    } else {
        dec_val(s.drop_last()) * 10 + (s.last() as u32 - 48)
    }
}

/// The decimal digit character for a value below ten.
pub open spec fn digit_char(d: nat) -> char {
    if d == 0 {
        '0'
    } else if d == 1 {
        '1'
    } else if d == 2 {
        '2'
    } else if d == 3 {
        '3'
    } else if d == 4 {
        '4'
    } else if d == 5 {
        '5'
    } else if d == 6 {
        '6'
    } else if d == 7 {
        '7'
    } else if d == 8 {
        '8'
    } else {
        '9'
    }
}

/// The decimal text of a non-negative number: most significant digit
/// first, no leading zeros except for the number zero itself.
pub open spec fn dec_seq(n: nat) -> Seq<char>
    decreases n,
{
    if n < 10 {
        seq![digit_char(n)]
    } else {
        dec_seq(n / 10).push(digit_char(n % 10))
    }
}

/// A digit sequence has a non-negative value.
proof fn lemma_dec_val_nonneg(s: Seq<char>)
    requires
        all_digits(s),
    ensures
        dec_val(s) >= 0,
    decreases s.len(),
{
    if s.len() > 0 {
        assert(all_digits(s.drop_last()));
        lemma_dec_val_nonneg(s.drop_last());
    }
}

/// Reading more digits never makes the value smaller: the value of a
/// prefix of a digit sequence is at most the value of a longer prefix.
proof fn lemma_dec_val_prefix_le(s: Seq<char>, i: int, j: int)
    requires
        0 <= i <= j <= s.len(),
        all_digits(s.subrange(0, j)),
    ensures
        dec_val(s.subrange(0, i)) <= dec_val(s.subrange(0, j)),
    decreases j - i,
{
    if i < j {
        let shorter = s.subrange(0, j - 1);
        assert(s.subrange(0, j).drop_last() =~= shorter);
        assert(all_digits(shorter));
        lemma_dec_val_prefix_le(s, i, j - 1);
        lemma_dec_val_nonneg(shorter);
    }
}

/// Parse a decimal attribute value. Returns the number iff the text is
/// non-empty, holds decimal digits only, and its value fits in `u32`;
/// every rejected text yields a parse error carrying the text.
pub fn parse_u32(s: &str) -> (r: Result<u32, Error>)
    ensures
        r is Ok <==> s@.len() > 0 && all_digits(s@) && dec_val(s@) <= 0xffff_ffff,
        r matches Ok(v) ==> v as int == dec_val(s@),
        r matches Err(e) ==> e is Parse && e->Parse_0@ == s@,
{
    let len: usize = s.unicode_len();
    if len == 0 {
        return Err(Error::Parse(String::from_str(s)));
    }
    let mut acc: u32 = 0;
    let mut i: usize = 0;
    while i < len
        invariant
            0 <= i <= len,
            len == s@.len(),
            all_digits(s@.subrange(0, i as int)),
            acc as int == dec_val(s@.subrange(0, i as int)),
        decreases len - i,
    {
        let c: char = s.get_char(i);
        let cv: u32 = c as u32;
        if cv < 48 || cv > 57 {
            assert(!is_dec_digit(s@[i as int]));
            return Err(Error::Parse(String::from_str(s)));
        }
        let d: u32 = cv - 48;
        let wide: u64 = (acc as u64) * 10 + (d as u64);
        proof {
            let next = s@.subrange(0, i + 1);
            assert(next.drop_last() =~= s@.subrange(0, i as int));
            assert(next.last() == s@[i as int]);
            assert(dec_val(next) == wide);
        }
        if wide > 0xffff_ffff {
            proof {
                if all_digits(s@) {
                    lemma_dec_val_prefix_le(s@, i + 1, len as int);
                    assert(s@.subrange(0, len as int) =~= s@);
                }
            }
            return Err(Error::Parse(String::from_str(s)));
        }
        acc = wide as u32;
        i = i + 1;
    }
    proof {
        assert(s@.subrange(0, len as int) =~= s@);
    }
    Ok(acc)
}

/// The one-character text of a decimal digit.
fn digit_str(d: u64) -> (r: &'static str)
    requires
        d < 10,
    ensures
        r@ =~= seq![digit_char(d as nat)],
{
    proof {
        reveal_strlit("0");
        reveal_strlit("1");
        reveal_strlit("2");
        reveal_strlit("3");
        reveal_strlit("4");
        reveal_strlit("5");
        reveal_strlit("6");
        reveal_strlit("7");
        reveal_strlit("8");
        reveal_strlit("9");
    }
    match d {
        0 => "0",
        1 => "1",
        2 => "2",
        3 => "3",
        4 => "4",
        5 => "5",
        6 => "6",
        7 => "7",
        8 => "8",
        _ => "9",
    }
}

/// Append the decimal text of a number to an output string.
fn push_decimal(n: u64, out: &mut String)
    ensures
        final(out)@ == old(out)@ + dec_seq(n as nat),
    decreases n,
{
    if n >= 10 {
        push_decimal(n / 10, out);
    }
    out.append(digit_str(n % 10));
    proof {
        assert(out@ =~= old(out)@ + dec_seq(n as nat));
    }
}

/// A number written as decimal text reads back exactly: the text is
/// non-empty, all digits, and parses to the number it was written from. A
/// brightness stored by a completed device write is therefore reported
/// unchanged by a completed read.
pub proof fn lemma_decimal_round_trip(n: nat)
    ensures
        dec_seq(n).len() > 0,
        all_digits(dec_seq(n)),
        dec_val(dec_seq(n)) == n,
    decreases n,
{
    if n < 10 {
        let s = dec_seq(n);
        assert(s =~= seq![digit_char(n)]);
        assert(is_dec_digit(digit_char(n)));
        assert(s.drop_last().len() == 0);
        assert(dec_val(s.drop_last()) == 0);
        assert(s.last() == digit_char(n));
        assert(digit_char(n) as u32 - 48 == n);
        assert(dec_val(s) == n);
    } else {
        lemma_decimal_round_trip(n / 10);
        let s = dec_seq(n);
        assert(s =~= dec_seq(n / 10).push(digit_char(n % 10)));
        assert(s.drop_last() =~= dec_seq(n / 10));
        assert(s.last() == digit_char(n % 10));
        assert(is_dec_digit(digit_char(n % 10)));
        assert(all_digits(s)) by {
            assert(forall|i: int|
                0 <= i < s.len() - 1 ==> #[trigger] s[i] == dec_seq(n / 10)[i]);
        }
        assert(dec_val(s) == dec_val(dec_seq(n / 10)) * 10 + (digit_char(n % 10) as u32 - 48));
        assert((digit_char(n % 10) as u32 - 48) == n % 10);
        assert(dec_val(s) == (n / 10) * 10 + n % 10);
    }
}

/// The decimal text of a number, as written to numeric device attributes.
pub fn decimal_string(n: u64) -> (r: String)
    ensures
        r@ == dec_seq(n as nat),
{
    let mut out: String = String::new();
    push_decimal(n, &mut out);
    proof {
        assert(out@ =~= dec_seq(n as nat));
    }
    out
}

} // verus!
