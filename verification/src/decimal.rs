//! Decimal text for unsigned numbers: how a count is written, and how written
//! text is read back.

use vstd::prelude::*;

verus! {

/// Whether `c` is one of the ten decimal digits.
pub open spec fn is_digit(c: char) -> bool {
    '0' <= c && c <= '9'
}

/// The character that writes the digit `d`.
pub open spec fn digit_char(d: nat) -> char
    recommends
        d < 10,
{
    (d + 48) as char
}

/// The digit that `c` writes; zero for any other character.
pub open spec fn digit_value(c: char) -> nat {
    if is_digit(c) {
        (c as nat - 48) as nat
    } else {
        0
    }
}

/// Whether every character of `s` is a decimal digit.
pub open spec fn all_digits(s: Seq<char>) -> bool {
    forall|i: int| 0 <= i < s.len() ==> is_digit(#[trigger] s[i])
}

/// The number that a run of digits writes, most significant digit first.
pub open spec fn digits_value(s: Seq<char>) -> nat
    decreases s.len(),
{
    if s.len() == 0 {
        0
    } else {
        digits_value(s.drop_last()) * 10 + digit_value(s.last())
    }
}

/// The digits that write `n`, without leading zeros; zero is written `0`.
pub open spec fn decimal_digits(n: nat) -> Seq<char>
    decreases n,
{
    if n < 10 {
        seq![digit_char(n)]
    } else {
        decimal_digits(n / 10).push(digit_char(n % 10))
    }
}

/// What is left of `s` once one leading plus sign is dropped.
pub open spec fn unsigned_part(s: Seq<char>) -> Seq<char> {
    if s.len() > 0 && s[0] == '+' {
        s.skip(1)
    } else {
        s
    }
}

/// The number that `s` writes: an optional plus sign followed by one or more
/// digits and nothing else. Any other text writes no number.
pub open spec fn parsed_number(s: Seq<char>) -> Option<nat> {
    let d = unsigned_part(s);
    if d.len() > 0 && all_digits(d) {
        Some(digits_value(d))
    } else {
        None
    }
}

/// The number that `s` writes, where it fits the machine's word.
pub open spec fn parsed_usize(s: Seq<char>) -> Option<usize> {
    match parsed_number(s) {
        Some(n) => if n <= usize::MAX {
            Some(n as usize)
        } else {
            None
        },
        None => None,
    }
}

/// The number that `s` writes, and zero where it writes none that fits.
pub open spec fn number_or_zero(s: Seq<char>) -> usize {
    match parsed_usize(s) {
        Some(n) => n,
        None => 0,
    }
}

/// What writes a number is digits and nothing else, and at least one of
/// them.
pub proof fn lemma_decimal_digits_shape(n: nat)
    ensures
        decimal_digits(n).len() >= 1,
        all_digits(decimal_digits(n)),
    decreases n,
{
    if n >= 10 {
        lemma_decimal_digits_shape(n / 10);
    }
}

/// Reading the digits of a number gives the number back.
pub proof fn lemma_digits_round_trip(n: nat)
    ensures
        digits_value(decimal_digits(n)) == n,
    decreases n,
{
    let s = decimal_digits(n);
    if n < 10 {
        assert(s.drop_last() =~= Seq::<char>::empty());
        assert(digits_value(s.drop_last()) == 0);
    } else {
        lemma_digits_round_trip(n / 10);
        assert(s.drop_last() =~= decimal_digits(n / 10));
    }
}

/// Writing a number and parsing the text gives the number back.
pub proof fn lemma_number_round_trip(n: nat)
    ensures
        parsed_number(decimal_digits(n)) == Some(n),
{
    lemma_decimal_digits_shape(n);
    lemma_digits_round_trip(n);
    assert(is_digit(decimal_digits(n)[0]));
}

/// A run of digits is worth at least as much as any of its prefixes.
pub proof fn lemma_prefix_value(s: Seq<char>, k: int)
    requires
        0 <= k <= s.len(),
    ensures
        digits_value(s.take(k)) <= digits_value(s),
    decreases s.len() - k,
{
    if k < s.len() {
        lemma_prefix_value(s, k + 1);
        assert(s.take(k + 1).drop_last() =~= s.take(k));
    } else {
        assert(s.take(k) =~= s);
    }
}

/// The character that writes the digit `d`.
pub fn digit_of(d: usize) -> (c: char)
    requires
        d < 10,
    ensures
        c == digit_char(d as nat),
{
    ((d as u8) + 48u8) as char
}

/// Appends the decimal digits of `n` to `out`.
pub fn push_number(out: &mut String, n: usize)
    ensures
        final(out)@ == old(out)@ + decimal_digits(n as nat),
    decreases n,
{
    if n >= 10 {
        push_number(out, n / 10);
    }
    out.push(digit_of(n % 10));
}

/// Writes `n` in decimal.
pub fn encode_number(n: usize) -> (s: String)
    ensures
        s@ == decimal_digits(n as nat),
{
    let mut s = String::new();
    push_number(&mut s, n);
    s
}

/// Parses `text` as an unsigned number: an optional plus sign, then digits
/// only. Gives `None` where the text is anything else, or where the number
/// does not fit the machine's word.
pub fn decode_number(text: &str) -> (r: Option<usize>)
    ensures
        r == parsed_usize(text@),
{
    let mut acc: usize = 0;
    let mut any: bool = false;
    let mut signed: bool = false;
    let ghost digits = unsigned_part(text@);
    let ghost mut seen: int = 0;
    for c in it: text.chars()
        invariant
            it.seq() == text@,
            digits == unsigned_part(text@),
            signed <==> (it.index() > 0 && text@[0] == '+'),
            seen == (if signed { it.index() - 1 } else { it.index() as int }),
            any <==> seen > 0,
            0 <= seen <= digits.len(),
            all_digits(digits.take(seen)),
            acc == digits_value(digits.take(seen)),
    {
        if !any && !signed && c == '+' {
            signed = true;
        } else {
            assert(digits[seen] == c);
            if !('0' <= c && c <= '9') {
                return None;
            }
            let v: usize = ((c as u8) - 48u8) as usize;
            proof {
                assert(digits.take(seen + 1).drop_last() =~= digits.take(seen));
                lemma_prefix_value(digits, seen + 1);
            }
            let next = match acc.checked_mul(10) {
                Some(m) => m.checked_add(v),
                None => None,
            };
            match next {
                Some(m) => {
                    acc = m;
                },
                None => {
                    return None;
                },
            }
            any = true;
            proof {
                seen = seen + 1;
            }
        }
    }
    assert(digits.take(seen) =~= digits);
    if any {
        Some(acc)
    } else {
        None
    }
}

} // verus!
