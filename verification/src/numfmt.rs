//! Decimal rendering of unsigned integers, verified against a character-
//! level specification.

use vstd::prelude::*;

verus! {

/// The decimal digit character for a value below ten.
pub open spec fn digit_char(d: int) -> char {
    (('0' as u8) + d) as char
}

/// The decimal digits of a non-negative integer, most significant first.
pub open spec fn dec_digits(n: int) -> Seq<char>
    decreases n,
{
    if n < 10 {
        seq![digit_char(n)]
    } else {
        dec_digits(n / 10) + seq![digit_char(n % 10)]
    }
}

/// Render a number's decimal digits.
pub fn u64_to_chars(n: u64) -> (r: Vec<char>)
    ensures
        r@ == dec_digits(n as int),
    decreases n,
{
    if n < 10 {
        let mut r: Vec<char> = Vec::new();
        r.push((('0' as u8) + (n as u8)) as char);
        assert(r@ =~= dec_digits(n as int));
        r
    } else {
        let mut r = u64_to_chars(n / 10);
        r.push((('0' as u8) + ((n % 10) as u8)) as char);
        assert(r@ =~= dec_digits(n as int));
        r
    }
}

/// Render a number as a decimal string.
pub fn u64_to_string(n: u64) -> (r: String)
    ensures
        r@ == dec_digits(n as int),
{
    let digits = u64_to_chars(n);
    crate::outside::chars_to_string(&digits)
}

/// The numeric value of a digit sequence, most significant first.
pub open spec fn dec_value(s: Seq<char>) -> int
    decreases s.len(),
{
    if s.len() == 0 {
        0
    } else {
        dec_value(s.drop_last()) * 10 + (s.last() as int - '0' as int)
    }
}

pub open spec fn all_digits(s: Seq<char>) -> bool {
    forall|i: int| 0 <= i < s.len() ==> crate::text::is_digit_char(#[trigger] s[i])
}

/// One group of a dotted IPv4 address, shaped as an unsigned byte parse
/// accepts it: an optional leading `+`, then a non-empty digit run
/// (leading zeros allowed) whose value is at most 255.
pub open spec fn is_ipv4_group(s: Seq<char>) -> bool {
    let t = if s.len() >= 1 && s[0] == '+' {
        s.skip(1)
    } else {
        s
    };
    t.len() >= 1 && all_digits(t) && dec_value(t) <= 255
}

/// Decide `is_ipv4_group` for a character vector. The accumulator
/// saturates above the byte range, so arbitrarily long digit runs are
/// decided without overflow.
pub fn check_ipv4_group(s: &Vec<char>) -> (r: bool)
    ensures
        r == is_ipv4_group(s@),
{
    let start: usize = if s.len() >= 1 && s[0] == '+' {
        1
    } else {
        0
    };
    let ghost t = if s@.len() >= 1 && s@[0] == '+' {
        s@.skip(1)
    } else {
        s@
    };
    if s.len() == start {
        return false;
    }
    let mut i: usize = start;
    let mut v: u32 = 0;
    while i < s.len()
        invariant
            start <= i <= s@.len(),
            start == (if s@.len() >= 1 && s@[0] == '+' {
                1int
            } else {
                0int
            }),
            t == s@.skip(start as int),
            forall|j: int| 0 <= j < i - start ==> crate::text::is_digit_char(#[trigger] t[j]),
            v <= 999,
            (v <= 255 && v == dec_value(t.subrange(0, i - start))) || (v >= 256 && dec_value(
                t.subrange(0, i - start),
            ) >= 256),
        decreases s@.len() - i,
    {
        let c = s[i];
        if !('0' <= c && c <= '9') {
            proof {
                assert(t[i - start] == s@[i as int]);
            }
            return false;
        }
        proof {
            assert(t[i - start] == s@[i as int]);
            assert(t.subrange(0, i + 1 - start).drop_last() =~= t.subrange(0, i - start));
            assert(t.subrange(0, i + 1 - start).last() == t[i - start]);
        }
        let raw = v * 10 + ((c as u8 - '0' as u8) as u32);
        v = if raw > 999 {
            999
        } else {
            raw
        };
        proof {
            if dec_value(t.subrange(0, i - start)) >= 256 {
                crate::numfmt::lemma_dec_value_nonneg(t.subrange(0, i + 1 - start));
            }
        }
        i = i + 1;
    }
    proof {
        assert(t.subrange(0, i - start) =~= t);
    }
    v <= 255
}

/// The decimal value of an all-digit sequence grows with each digit.
pub proof fn lemma_dec_value_nonneg(s: Seq<char>)
    requires
        all_digits(s),
    ensures
        dec_value(s) >= 0,
        s.len() >= 1 ==> dec_value(s) >= dec_value(s.drop_last()) * 10,
    decreases s.len(),
{
    if s.len() >= 1 {
        assert(all_digits(s.drop_last())) by {
            assert(forall|i: int|
                0 <= i < s.len() - 1 ==> s.drop_last()[i] == #[trigger] s[i]);
        }
        lemma_dec_value_nonneg(s.drop_last());
        assert(s.last() as int - '0' as int >= 0);
    }
}

} // verus!
