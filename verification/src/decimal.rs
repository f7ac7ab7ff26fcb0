//! Decimal literals of natural numbers: which strings the venue's integer
//! prices are read from, the number that each denotes, and the canonical
//! literal of a number.

use vstd::prelude::*;

verus! {

/// Whether `c` is one of the ten decimal digits.
pub open spec fn is_digit(c: char) -> bool {
    c == '0' || c == '1' || c == '2' || c == '3' || c == '4' || c == '5' || c == '6' || c == '7'
        || c == '8' || c == '9'
}

/// The number that a decimal digit denotes.
pub open spec fn digit_value(c: char) -> nat {
    if c == '1' {
        1
    } else if c == '2' {
        2
    } else if c == '3' {
        3
    } else if c == '4' {
        4
    } else if c == '5' {
        5
    } else if c == '6' {
        6
    } else if c == '7' {
        7
    } else if c == '8' {
        8
    } else if c == '9' {
        9
    } else {
        0
    }
}

/// The digit that denotes `d`, for `d` below ten.
pub open spec fn digit_char(d: nat) -> char {
    if d == 1 {
        '1'
    } else if d == 2 {
        '2'
    } else if d == 3 {
        '3'
    } else if d == 4 {
        '4'
    } else if d == 5 {
        '5'
    } else if d == 6 {
        '6'
    } else if d == 7 {
        '7'
    } else if d == 8 {
        '8'
    } else if d == 9 {
        '9'
    } else {
        '0'
    }
}

/// What is left of a literal once one leading plus sign is taken off.
pub open spec fn unsigned_part(s: Seq<char>) -> Seq<char> {
    if s.len() > 0 && s[0] == '+' {
        s.subrange(1, s.len() as int)
    } else {
        s
    }
}

/// Whether every character of `s` is a digit or an underscore.
pub open spec fn all_digits_or_underscores(s: Seq<char>) -> bool {
    forall|i: int| 0 <= i < s.len() ==> is_digit(#[trigger] s[i]) || s[i] == '_'
}

/// Whether `s` is a decimal literal: an optional plus sign, then a digit,
/// then digits and underscores in any number.
pub open spec fn is_decimal(s: Seq<char>) -> bool {
    let t = unsigned_part(s);
    t.len() > 0 && is_digit(t[0]) && all_digits_or_underscores(t)
}

/// The number that the digits of `s` denote, most significant first.
/// Underscores separate digits and add nothing.
pub open spec fn digits_value(s: Seq<char>) -> nat
    decreases s.len(),
{
    if s.len() == 0 {
        0
    } else if s.last() == '_' {
        digits_value(s.drop_last())
    } else {
        digits_value(s.drop_last()) * 10 + digit_value(s.last())
    }
}

/// The number that a decimal literal denotes.
pub open spec fn decimal_value(s: Seq<char>) -> nat {
    digits_value(unsigned_part(s))
}

/// The canonical literal of `n`: its decimal digits, most significant
/// first, without sign, separators or leading zeros; `"0"` for zero.
pub open spec fn decimal_repr(n: nat) -> Seq<char>
    decreases n,
{
    if n < 10 {
        seq![digit_char(n)]
    } else {
        decimal_repr(n / 10).push(digit_char(n % 10))
    }
}

/// The canonical literal of a number is a decimal literal made of digits
/// only, and it denotes that number.
pub proof fn lemma_repr_denotes(n: nat)
    ensures
        decimal_repr(n).len() > 0,
        forall|i: int| 0 <= i < decimal_repr(n).len() ==> is_digit(#[trigger] decimal_repr(n)[i]),
        is_decimal(decimal_repr(n)),
        decimal_value(decimal_repr(n)) == n,
    decreases n,
{
    let r = decimal_repr(n);
    if n < 10 {
        assert(r.len() == 1);
        assert(r[0] == digit_char(n));
        assert(r.drop_last() =~= Seq::<char>::empty());
        assert(digits_value(r.drop_last()) == 0);
        assert(digits_value(r) == n);
    } else {
        let q = decimal_repr(n / 10);
        lemma_repr_denotes(n / 10);
        assert(r == q.push(digit_char(n % 10)));
        assert(r.drop_last() =~= q);
        assert(r.last() == digit_char(n % 10));
        assert forall|i: int| 0 <= i < r.len() implies is_digit(#[trigger] r[i]) by {
            if i < q.len() {
                assert(r[i] == q[i]);
            }
        }
        assert(r[0] == q[0]);
        assert(unsigned_part(q) == q);
        assert(digits_value(r) == digits_value(q) * 10 + digit_value(r.last()));
    }
    assert(unsigned_part(r) == r);
}

} // verus!
