//! Decimal notation of natural numbers.
//!
//! Amounts and timestamps leave the crate as decimal strings. This module says
//! what such a string is, how it is read back, and proves that reading back
//! what was written gives the number that was written.

use vstd::prelude::*;

verus! {

/// The character that stands for a digit below ten.
pub open spec fn digit_char(d: nat) -> char
    recommends
        d < 10,
{
    ('0' as nat + d) as char
}

/// Whether a character is one of `'0'` to `'9'`.
pub open spec fn is_digit(c: char) -> bool {
    '0' <= c <= '9'
}

/// The digit that a character between `'0'` and `'9'` stands for.
pub open spec fn digit_value(c: char) -> nat
    recommends
        is_digit(c),
{
    (c as nat - '0' as nat) as nat
}

/// The decimal notation of `n`: most significant digit first, `"0"` for zero
/// and no leading zero otherwise.
pub open spec fn decimal(n: nat) -> Seq<char>
    decreases n,
{
    if n < 10 {
        seq![digit_char(n)]
    } else {
        decimal(n / 10).push(digit_char(n % 10))
    }
}

/// The number that a string of digits denotes, leading zeros allowed; `None`
/// for the empty string and for a string that holds anything but digits.
pub open spec fn decimal_value(s: Seq<char>) -> Option<nat>
    decreases s.len(),
{
    if s.len() == 0 || !is_digit(s.last()) {
        None
    } else if s.len() == 1 {
        Some(digit_value(s.last()))
    } else {
        match decimal_value(s.drop_last()) {
            Some(high) => Some(10 * high + digit_value(s.last())),
            None => None,
        }
    }
}

/// Whether a string is the notation that `decimal` writes: not empty, digits
/// only, and no leading zero but in `"0"` itself.
pub open spec fn is_canonical(s: Seq<char>) -> bool {
    &&& s.len() >= 1
    &&& forall|i: int| 0 <= i < s.len() ==> is_digit(#[trigger] s[i])
    &&& s.len() > 1 ==> s[0] != '0'
}

/// A digit's character is a digit and stands for that digit.
proof fn lemma_digit_char(d: nat)
    requires
        d < 10,
    ensures
        is_digit(digit_char(d)),
        digit_value(digit_char(d)) == d,
        digit_char(d) == '0' <==> d == 0,
{
}

/// Zero is written "0": one character, the digit zero.
pub proof fn lemma_zero_notation()
    ensures
        decimal(0) == "0"@,
        decimal(0) == seq!['0'],
{
    reveal_strlit("0");
    assert("0"@ =~= seq!['0']);
    assert(decimal(0) =~= seq!['0']);
}

/// The notation of a number is canonical.
pub proof fn lemma_decimal_is_canonical(n: nat)
    ensures
        is_canonical(decimal(n)),
        n != 0 ==> decimal(n)[0] != '0',
    decreases n,
{
    if n < 10 {
        lemma_digit_char(n);
    } else {
        lemma_decimal_is_canonical(n / 10);
        lemma_digit_char(n % 10);
    }
}

/// Reading back the notation of a number gives that number.
pub proof fn lemma_decimal_round_trip(n: nat)
    ensures
        decimal_value(decimal(n)) == Some(n),
    decreases n,
{
    if n < 10 {
        lemma_digit_char(n);
    } else {
        lemma_decimal_round_trip(n / 10);
        lemma_digit_char(n % 10);
        assert(decimal(n).drop_last() == decimal(n / 10));
    }
}

/// Two numbers with the same notation are the same number.
pub proof fn lemma_decimal_injective(a: nat, b: nat)
    requires
        decimal(a) == decimal(b),
    ensures
        a == b,
{
    lemma_decimal_round_trip(a);
    lemma_decimal_round_trip(b);
}

/// Writing the number that a canonical string denotes gives that string.
pub proof fn lemma_canonical_round_trip(s: Seq<char>)
    requires
        is_canonical(s),
    ensures
        decimal_value(s) is Some,
        decimal(decimal_value(s).unwrap()) == s,
    decreases s.len(),
{
    if s.len() == 1 {
        let d = digit_value(s.last());
        assert(digit_char(d) == s[0]);
        assert(decimal(d) == s);
    } else {
        let high = s.drop_last();
        if high.len() == 1 {
            assert(is_canonical(high));
        } else {
            assert(high[0] == s[0]);
            assert(is_canonical(high));
        }
        lemma_canonical_round_trip(high);
        let h = decimal_value(high).unwrap();
        let d = digit_value(s.last());
        assert(h != 0) by {
            if h == 0 {
                assert(decimal(0)[0] == '0');
                assert(high[0] == s[0]);
            }
        }
        let n = 10 * h + d;
        assert(n / 10 == h && n % 10 == d);
        assert(digit_char(d) == s.last());
        assert(decimal(n) == high.push(s.last()));
        assert(high.push(s.last()) == s);
    }
}

} // verus!
