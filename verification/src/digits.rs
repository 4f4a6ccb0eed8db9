//! Decimal digit strings: the numeric value of a digit sequence, the
//! canonical digit sequence of a number, parsing with overflow detection,
//! and the round-trip facts that tie the two together.
//!
//! Region geometry travels between external tools as decimal text; this
//! module is the verified core of that translation.

use vstd::prelude::*;
use vstd::arithmetic::div_mod::lemma_fundamental_div_mod;

verus! {

/// A decimal digit character.
pub open spec fn is_dec_digit(c: char) -> bool {
    48 <= c as u32 && c as u32 <= 57
}

/// The value of one decimal digit character.
pub open spec fn digit_val(c: char) -> nat
    recommends
        is_dec_digit(c),
{
    (c as u32 - 48) as nat
}

/// The digit character of one value below ten.
pub open spec fn digit_char(d: nat) -> char
    recommends
        d < 10,
{
    if d == 0 {
        '0'
    } else if d == 1 {
        '1'
    } else if d == 2 {
        '2'
    } else if d == 3 {
        '3'
    } else if d == 4 {
        '4'
    } else if d == 5 {
        '5'
    } else if d == 6 {
        '6'
    } else if d == 7 {
        '7'
    } else if d == 8 {
        '8'
    } else {
        '9'
    }
}

/// Every character of the sequence is a decimal digit.
pub open spec fn all_dec_digits(s: Seq<char>) -> bool {
    forall|i: int| 0 <= i < s.len() ==> is_dec_digit(#[trigger] s[i])
}

/// The numeric value of a digit string, most significant digit first.
pub open spec fn digits_value(s: Seq<char>) -> nat
    decreases s.len(),
{
    if s.len() == 0 {
        0
    } else {
        digits_value(s.drop_last()) * 10 + digit_val(s.last())
    }
}

/// The canonical decimal digit string of a number: nonempty, and without
/// leading zeros except for the number zero itself.
pub open spec fn dec_digits(n: nat) -> Seq<char>
    decreases n,
{
    if n < 10 {
        seq![digit_char(n)]
    } else {
        dec_digits(n / 10).push(digit_char(n % 10))
    }
}

/// What parsing a digit string into a 32-bit number returns: the string's
/// value when the string is nonempty, all digits, and the value fits.
pub open spec fn spec_parse_u32(s: Seq<char>) -> Option<u32> {
    if s.len() > 0 && all_dec_digits(s) && digits_value(s) <= u32::MAX {
        Some(digits_value(s) as u32)
    } else {
        None
    }
}

/// `digit_char` and `digit_val` invert each other on digit values.
pub proof fn lemma_digit_char_val(d: nat)
    requires
        d < 10,
    ensures
        is_dec_digit(digit_char(d)),
        digit_val(digit_char(d)) == d,
{
}

/// The canonical digit string of a number is made of digits and carries
/// exactly that number as its value.
pub proof fn lemma_dec_digits_value(n: nat)
    ensures
        dec_digits(n).len() >= 1,
        all_dec_digits(dec_digits(n)),
        digits_value(dec_digits(n)) == n,
    decreases n,
{
    if n < 10 {
        lemma_digit_char_val(n);
        assert(dec_digits(n) == seq![digit_char(n)]);
        assert(dec_digits(n).drop_last() =~= Seq::<char>::empty());
        assert(dec_digits(n).last() == digit_char(n));
        assert(digits_value(Seq::<char>::empty()) == 0);
        assert(digits_value(dec_digits(n)) == 0 * 10 + digit_val(digit_char(n)));
    } else {
        lemma_dec_digits_value(n / 10);
        lemma_digit_char_val(n % 10);
        let prefix = dec_digits(n / 10);
        let whole = prefix.push(digit_char(n % 10));
        assert(whole.drop_last() =~= prefix);
        assert(whole.last() == digit_char(n % 10));
        assert(forall|i: int|
            0 <= i < whole.len() ==> is_dec_digit(#[trigger] whole[i])) by {
            assert(forall|i: int|
                0 <= i < prefix.len() ==> is_dec_digit(#[trigger] prefix[i]));
        }
        assert(digits_value(whole) == digits_value(prefix) * 10 + digit_val(digit_char(n % 10)));
        assert(digits_value(whole) == (n / 10) * 10 + (n % 10));
        assert(n == 10 * (n / 10) + n % 10) by {
            lemma_fundamental_div_mod(n as int, 10);
        }
    }
}

/// One scanning step: extending a prefix by a character multiplies the
/// prefix's value by ten and adds the character's digit value.
pub proof fn lemma_digits_value_take_step(s: Seq<char>, i: int)
    requires
        0 <= i < s.len(),
    ensures
        digits_value(s.take(i + 1)) == digits_value(s.take(i)) * 10 + digit_val(s[i]),
{
    assert(s.take(i + 1).drop_last() =~= s.take(i));
    assert(s.take(i + 1).last() == s[i]);
}

/// The value of a prefix of a digit string never exceeds the whole
/// string's value.
pub proof fn lemma_digits_value_prefix_le(s: Seq<char>, i: int)
    requires
        0 <= i <= s.len(),
    ensures
        digits_value(s.take(i)) <= digits_value(s),
    decreases s.len() - i,
{
    if i == s.len() {
        assert(s.take(i) =~= s);
    } else {
        lemma_digits_value_take_step(s, i);
        lemma_digits_value_prefix_le(s, i + 1);
    }
}

/// Parses the characters of `v` between `start` and `end` as a decimal
/// number: the digits' value when all of them are digits, there is at least
/// one, and the value fits in 32 bits; `None` otherwise.
pub fn parse_u32(v: &Vec<char>, start: usize, end: usize) -> (r: Option<u32>)
    requires
        start <= end <= v@.len(),
    ensures
        r == spec_parse_u32(v@.subrange(start as int, end as int)),
{
    let ghost s = v@.subrange(start as int, end as int);
    if start == end {
        return None;
    }
    let mut acc: u64 = 0;
    let mut i: usize = start;
    while i < end
        invariant
            start <= i <= end <= v@.len(),
            s == v@.subrange(start as int, end as int),
            all_dec_digits(s.take(i - start)),
            acc == digits_value(s.take(i - start)),
            acc <= u32::MAX,
        decreases end - i,
    {
        let c = v[i];
        let code = c as u32;
        if code < 48 || code > 57 {
            assert(!is_dec_digit(s[i - start]));
            return None;
        }
        let d = code - 48;
        proof {
            lemma_digits_value_take_step(s, i - start);
            assert(s[i - start] == c);
            assert(is_dec_digit(s[i - start]));
            assert(digit_val(s[i - start]) == d as nat);
        }
        let next: u64 = acc * 10 + d as u64;
        if next > 0xffff_ffff {
            proof {
                lemma_digits_value_prefix_le(s, i + 1 - start);
            }
            return None;
        }
        proof {
            assert(s.take(i + 1 - start) =~= s.take(i - start).push(s[i - start]));
            assert forall|j: int| 0 <= j < s.take(i + 1 - start).len() implies is_dec_digit(
                #[trigger] s.take(i + 1 - start)[j],
            ) by {
                if j < i - start {
                    assert(s.take(i + 1 - start)[j] == s.take(i - start)[j]);
                } else {
                    assert(s.take(i + 1 - start)[j] == s[i - start]);
                }
            }
        }
        acc = next;
        i = i + 1;
    }
    assert(s.take(i - start) =~= s);
    Some(acc as u32)
}

/// Appends the canonical decimal digits of `n` to `out`.
fn push_dec_digits(n: u32, out: &mut Vec<char>)
    ensures
        final(out)@ == old(out)@ + dec_digits(n as nat),
    decreases n,
{
    if n < 10 {
        let c = match n {
            0 => '0',
            1 => '1',
            2 => '2',
            3 => '3',
            4 => '4',
            5 => '5',
            6 => '6',
            7 => '7',
            8 => '8',
            _ => '9',
        };
        out.push(c);
        assert(final(out)@ =~= old(out)@ + dec_digits(n as nat));
    } else {
        push_dec_digits(n / 10, out);
        let d = n % 10;
        let c = match d {
            0 => '0',
            1 => '1',
            2 => '2',
            3 => '3',
            4 => '4',
            5 => '5',
            6 => '6',
            7 => '7',
            8 => '8',
            _ => '9',
        };
        out.push(c);
        assert(final(out)@ =~= old(out)@ + dec_digits(n as nat));
    }
}

/// The canonical decimal digit string of a 32-bit number.
pub fn format_u32(n: u32) -> (r: Vec<char>)
    ensures
        r@ == dec_digits(n as nat),
{
    let mut out: Vec<char> = Vec::new();
    push_dec_digits(n, &mut out);
    assert(out@ =~= dec_digits(n as nat));
    out
}

} // verus!
