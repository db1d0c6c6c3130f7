//! Numerals.

use vstd::prelude::*;

verus! {

/// `String::push`: appends the character to the end of the string.
pub assume_specification[ String::push ](s: &mut String, c: char)
    ensures
        final(s)@ == old(s)@.push(c),
;

/// The character of one digit below sixteen, in lower case.
pub open spec fn digit(d: int) -> char
    recommends
        0 <= d < 16,
{
    if d < 10 {
        (0x30 + d) as char
    } else {
        (0x57 + d) as char
    }
}

/// The numeral of `n` in `base`, most significant digit first and without
/// leading zeros.
pub open spec fn numeral(n: nat, base: nat) -> Seq<char>
    recommends
        2 <= base <= 16,
    decreases n,
{
    if base < 2 || n < base {
        seq![digit(n as int)]
    } else {
        proof {
            assert(n / base < n) by (nonlinear_arith)
                requires
                    n >= base,
                    base >= 2,
            ;
        }
        numeral(n / base, base).push(digit((n % base) as int))
    }
}

/// The decimal numeral of `n`.
pub open spec fn decimal(n: nat) -> Seq<char> {
    numeral(n, 10)
}

/// The hexadecimal numeral of `n`, in lower case and without a prefix.
pub open spec fn hexadecimal(n: nat) -> Seq<char> {
    numeral(n, 16)
}

/// Returns the character of one digit below sixteen.
pub(crate) fn digit_char(d: u8) -> (c: char)
    requires
        d < 16,
    ensures
        c == digit(d as int),
{
    if d < 10 {
        (0x30 + d) as char
    } else {
        (0x57 + d) as char
    }
}

/// Appends the numeral of `n` in `base` to `out`.
fn push_numeral(out: &mut String, n: u64, base: u64)
    requires
        2 <= base <= 16,
    ensures
        final(out)@ == old(out)@ + numeral(n as nat, base as nat),
    decreases n,
{
    if n >= base {
        let head: u64 = n / base;
        proof {
            assert((n as int) / (base as int) < n) by (nonlinear_arith)
                requires
                    n >= base,
                    base >= 2,
            ;
        }
        push_numeral(out, head, base);
    }
    let last: u64 = n % base;
    proof {
        assert(n < base ==> n % base == n) by (nonlinear_arith)
            requires
                base >= 2,
        ;
    }
    out.push(digit_char(last as u8));
}

/// Appends the decimal numeral of `n` to `out`.
pub fn push_decimal(out: &mut String, n: u64)
    ensures
        final(out)@ == old(out)@ + decimal(n as nat),
{
    push_numeral(out, n, 10);
}

/// Appends the hexadecimal numeral of `n` to `out`.
pub fn push_hexadecimal(out: &mut String, n: u64)
    ensures
        final(out)@ == old(out)@ + hexadecimal(n as nat),
{
    push_numeral(out, n, 16);
}

/// Whether every character of `s` is a decimal digit.
pub open spec fn all_digits(s: Seq<char>) -> bool {
    forall|i: int| 0 <= i < s.len() ==> '0' <= #[trigger] s[i] <= '9'
}

/// The value of a sequence of decimal digits.
pub open spec fn digits_value(s: Seq<char>) -> nat
    decreases s.len(),
{
    if s.len() == 0 {
        0
    } else {
        digits_value(s.drop_last()) * 10 + (s.last() as int - '0' as int) as nat
    }
}

/// A decimal numeral is made of digits, has at least one, and denotes the number
/// it was made from.
pub proof fn decimal_denotes_its_number(n: nat)
    ensures
        all_digits(decimal(n)),
        decimal(n).len() >= 1,
        digits_value(decimal(n)) == n,
    decreases n,
{
    if n < 10 {
        assert(decimal(n) =~= seq![digit(n as int)]);
        assert(decimal(n).drop_last() =~= seq![]);
        assert(digits_value(decimal(n).drop_last()) == 0);
    } else {
        decimal_denotes_its_number(n / 10);
        let head = decimal(n / 10);
        let last = digit((n % 10) as int);
        assert(decimal(n) == head.push(last));
        assert(decimal(n).drop_last() =~= head);
        assert(decimal(n).last() == last);
    }
}

/// A decimal numeral is built up digit by digit from the characters `0` to `9`,
/// and the one of zero is the only one that begins with `0`.
pub proof fn decimal_digits_follow_each_other(n: nat, d: nat)
    requires
        d < 10,
    ensures
        decimal(d) == seq![(0x30 + d) as char],
        n > 0 ==> decimal(n * 10 + d) == decimal(n).push((0x30 + d) as char),
        decimal(n)[0] == '0' <==> n == 0,
    decreases n,
{
    assert((n * 10 + d) / 10 == n);
    assert((n * 10 + d) % 10 == d);
    decimal_denotes_its_number(n);
    if n >= 10 {
        decimal_digits_follow_each_other(n / 10, 0);
        decimal_denotes_its_number(n / 10);
        assert(decimal(n)[0] == decimal(n / 10)[0]);
    }
}

/// A hexadecimal numeral is built up digit by digit from the characters `0` to
/// `9` and `a` to `f`, and the one of zero is the only one that begins with `0`.
pub proof fn hexadecimal_digits_follow_each_other(n: nat, d: nat)
    requires
        d < 16,
    ensures
        d < 10 ==> hexadecimal(d) == seq![(0x30 + d) as char],
        d >= 10 ==> hexadecimal(d) == seq![(0x61 + d - 10) as char],
        n > 0 ==> hexadecimal(n * 16 + d) == hexadecimal(n) + hexadecimal(d),
        hexadecimal(n).len() > 0,
        hexadecimal(n)[0] == '0' <==> n == 0,
    decreases n,
{
    assert((n * 16 + d) / 16 == n);
    assert((n * 16 + d) % 16 == d);
    assert(hexadecimal(n).push(digit(d as int)) =~= hexadecimal(n) + seq![digit(d as int)]);
    if n >= 16 {
        hexadecimal_digits_follow_each_other(n / 16, 0);
        assert(hexadecimal(n)[0] == hexadecimal(n / 16)[0]);
    }
}

/// Decimal digits are read from the most significant one down.
pub proof fn digits_count_by_their_places(s: Seq<char>, c: char)
    requires
        '0' <= c <= '9',
    ensures
        digits_value(s.push(c)) == 10 * digits_value(s) + (c as int - 0x30),
        digits_value(Seq::<char>::empty()) == 0,
        all_digits(s.push(c)) == all_digits(s),
{
    assert(s.push(c).drop_last() =~= s);
    if all_digits(s.push(c)) {
        assert forall|i: int| 0 <= i < s.len() implies '0' <= #[trigger] s[i] <= '9' by {
            assert(s.push(c)[i] == s[i]);
        }
    }
}

} // verus!
