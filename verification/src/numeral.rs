//! Decimal numerals.

use vstd::prelude::*;
use vstd::string::*;

verus! {

/// The character that writes the digit `d`.
pub open spec fn digit(d: int) -> char {
    if d == 0 {
        '0'
    } else if d == 1 {
        '1'
    } else if d == 2 {
        '2'
    } else if d == 3 {
        '3'
    } else if d == 4 {
        '4'
    } else if d == 5 {
        '5'
    } else if d == 6 {
        '6'
    } else if d == 7 {
        '7'
    } else if d == 8 {
        '8'
    } else {
        '9'
    }
}

/// The decimal numeral of a natural number, most significant digit first,
/// without leading zeros.
pub open spec fn digits(n: nat) -> Seq<char>
    decreases n,
{
    if n < 10 {
        seq![digit(n as int)]
    } else {
        digits(n / 10).push(digit((n % 10) as int))
    }
}

/// The decimal numeral of an integer: a minus sign before the numeral of a
/// negative number, no sign otherwise.
pub open spec fn decimal(i: int) -> Seq<char> {
    if i < 0 {
        seq!['-'] + digits((-i) as nat)
    } else {
        digits(i as nat)
    }
}

/// The numeral of `n` with zeros in front until it is `width` characters
/// long; longer numerals stay as they are.
pub open spec fn zero_padded(n: nat, width: nat) -> Seq<char> {
    let numeral = digits(n);
    if numeral.len() < width {
        Seq::new((width - numeral.len()) as nat, |i: int| '0') + numeral
    } else {
        numeral
    }
}

/// True for the ten digits.
pub open spec fn is_digit(c: char) -> bool {
    exists|d: int| 0 <= d < 10 && c == #[trigger] digit(d)
}

/// The one-character string that writes the digit `d`.
fn digit_str(d: u8) -> (s: &'static str)
    requires
        d < 10,
    ensures
        s@ == seq![digit(d as int)],
{
    proof {
        reveal_strlit("0");
        reveal_strlit("1");
        reveal_strlit("2");
        reveal_strlit("3");
        reveal_strlit("4");
        reveal_strlit("5");
        reveal_strlit("6");
        reveal_strlit("7");
        reveal_strlit("8");
        reveal_strlit("9");
    }
    if d == 0 {
        "0"
    } else if d == 1 {
        "1"
    } else if d == 2 {
        "2"
    } else if d == 3 {
        "3"
    } else if d == 4 {
        "4"
    } else if d == 5 {
        "5"
    } else if d == 6 {
        "6"
    } else if d == 7 {
        "7"
    } else if d == 8 {
        "8"
    } else {
        "9"
    }
}

/// Appends the decimal numeral of `n` to `out`.
pub fn push_digits(out: &mut String, n: u64)
    ensures
        final(out)@ == old(out)@ + digits(n as nat),
    decreases n,
{
    if n >= 10 {
        push_digits(out, n / 10);
    }
    out.append(digit_str((n % 10) as u8));
}

/// Appends the decimal numeral of `i` to `out`.
pub fn push_decimal(out: &mut String, i: i32)
    ensures
        final(out)@ == old(out)@ + decimal(i as int),
{
    let wide: i64 = i as i64;
    if wide < 0 {
        proof {
            reveal_strlit("-");
            assert("-"@ =~= seq!['-']);
            assert(old(out)@ + seq!['-'] + digits((-wide) as nat) =~= old(out)@ + (seq!['-']
                + digits((-wide) as nat)));
        }
        out.append("-");
        push_digits(out, (0 - wide) as u64);
    } else {
        push_digits(out, wide as u64);
    }
}

/// A numeral is not empty and holds digits only.
pub proof fn lemma_digits_are_digits(n: nat)
    ensures
        digits(n).len() >= 1,
        forall|k: int| 0 <= k < digits(n).len() ==> is_digit(#[trigger] digits(n)[k]),
    decreases n,
{
    if n < 10 {
        assert(is_digit(digit(n as int)));
    } else {
        lemma_digits_are_digits(n / 10);
        assert(is_digit(digit((n % 10) as int)));
    }
}

/// Two numbers with the same numeral are the same number.
pub proof fn lemma_digits_injective(a: nat, b: nat)
    requires
        digits(a) == digits(b),
    ensures
        a == b,
    decreases a,
{
    lemma_digits_are_digits(a / 10);
    lemma_digits_are_digits(b / 10);
    if a >= 10 && b >= 10 {
        let front_a = digits(a / 10);
        let front_b = digits(b / 10);
        let last_a = digit((a % 10) as int);
        let last_b = digit((b % 10) as int);
        assert(front_a.push(last_a).drop_last() =~= front_a);
        assert(front_b.push(last_b).drop_last() =~= front_b);
        assert(front_a.push(last_a).last() == last_a);
        assert(front_b.push(last_b).last() == last_b);
        lemma_digits_injective(a / 10, b / 10);
        assert(a % 10 == b % 10);
    } else if a < 10 && b < 10 {
        assert(seq![digit(a as int)][0] == seq![digit(b as int)][0]);
    } else if a < 10 {
        assert(digits(a).len() == 1);
        assert(digits(b).len() == digits(b / 10).len() + 1);
    } else {
        assert(digits(b).len() == 1);
        assert(digits(a).len() == digits(a / 10).len() + 1);
    }
}

/// The numeral of an integer holds digits and, in front of a negative
/// number, a minus sign.
pub proof fn lemma_decimal_chars(i: int)
    ensures
        decimal(i).len() >= 1,
        forall|k: int|
            0 <= k < decimal(i).len() ==> is_digit(#[trigger] decimal(i)[k]) || decimal(i)[k]
                == '-',
{
    if i < 0 {
        lemma_digits_are_digits((-i) as nat);
    } else {
        lemma_digits_are_digits(i as nat);
    }
}

/// Two integers with the same numeral are the same integer.
pub proof fn lemma_decimal_injective(a: int, b: int)
    requires
        decimal(a) == decimal(b),
    ensures
        a == b,
{
    let na = if a < 0 { (-a) as nat } else { a as nat };
    let nb = if b < 0 { (-b) as nat } else { b as nat };
    lemma_digits_are_digits(na);
    lemma_digits_are_digits(nb);
    assert(!is_digit('-'));
    if a < 0 && b < 0 {
        assert((seq!['-'] + digits(na)).skip(1) =~= digits(na));
        assert((seq!['-'] + digits(nb)).skip(1) =~= digits(nb));
        lemma_digits_injective(na, nb);
    } else if a >= 0 && b >= 0 {
        lemma_digits_injective(na, nb);
    } else if a < 0 {
        assert(decimal(a)[0] == '-');
        assert(is_digit(digits(nb)[0]));
    } else {
        assert(decimal(b)[0] == '-');
        assert(is_digit(digits(na)[0]));
    }
}

} // verus!
