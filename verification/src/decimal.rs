//! Decimal rendering of integers, as used for the peak meter's tick labels.

use vstd::prelude::*;
use vstd::string::*;

verus! {

/// The character of a decimal digit `d` (`0 <= d < 10`).
pub open spec fn digit_char(d: int) -> char {
    if d == 0 {
        '0'
    } else if d == 1 {
        '1'
    } else if d == 2 {
        '2'
    } else if d == 3 {
        '3'
    } else if d == 4 {
        '4'
    } else if d == 5 {
        '5'
    } else if d == 6 {
        '6'
    } else if d == 7 {
        '7'
    } else if d == 8 {
        '8'
    } else {
        '9'
    }
}

/// The decimal digits of `n`, most significant first, without leading zeros
/// (zero is the single digit `0`).
pub open spec fn decimal_digits(n: nat) -> Seq<char>
    decreases n,
{
    if n < 10 {
        seq![digit_char(n as int)]
    } else {
        decimal_digits(n / 10).push(digit_char((n % 10) as int))
    }
}

/// The decimal representation of `x`: a `-` before the digits of `|x|` when
/// `x` is negative.
pub open spec fn decimal(x: int) -> Seq<char> {
    if x < 0 {
        seq!['-'] + decimal_digits((-x) as nat)
    } else {
        decimal_digits(x as nat)
    }
}

/// Whether every character of `s` is a decimal digit.
pub open spec fn all_digits(s: Seq<char>) -> bool {
    forall|i: int| 0 <= i < s.len() ==> '0' <= #[trigger] s[i] <= '9'
}

/// The number that a string of decimal digits stands for, most significant
/// digit first.
pub open spec fn digits_value(s: Seq<char>) -> int
    decreases s.len(),
{
    if s.len() == 0 {
        0
    } else {
        digits_value(s.drop_last()) * 10 + (s.last() as int - '0' as int)
    }
}

/// The digits of `n` are decimal digits that read back as `n`, with no
/// leading zero unless `n` is zero.
pub proof fn law_digits_read_back(n: nat)
    ensures
        decimal_digits(n).len() >= 1,
        all_digits(decimal_digits(n)),
        digits_value(decimal_digits(n)) == n,
        n > 0 ==> decimal_digits(n)[0] != '0',
        n == 0 ==> decimal_digits(n) == seq!['0'],
    decreases n,
{
    lemma_digit_char_value((n % 10) as int);
    let d = decimal_digits(n);
    assert(d.last() == digit_char((n % 10) as int));
    assert(digits_value(d) == digits_value(d.drop_last()) * 10 + (d.last() as int - '0' as int));
    if n < 10 {
        assert(d.drop_last() =~= Seq::<char>::empty());
        assert(digits_value(d.drop_last()) == 0);
    } else {
        law_digits_read_back(n / 10);
        assert(d.drop_last() =~= decimal_digits(n / 10));
        assert(d[0] == decimal_digits(n / 10)[0]);
        assert(n == (n / 10) * 10 + n % 10);
    }
}

proof fn lemma_digit_char_value(d: int)
    requires
        0 <= d < 10,
    ensures
        digit_char(d) as int == '0' as int + d,
        '0' <= digit_char(d) <= '9',
        d > 0 ==> digit_char(d) != '0',
{
}

/// The decimal representation of `x` starts with a minus sign exactly when
/// `x` is negative, and the digits after it read back as the magnitude of `x`.
pub proof fn law_decimal_reads_back(x: int)
    ensures
        x < 0 ==> decimal(x)[0] == '-' && decimal(x).drop_first() == decimal_digits((-x) as nat)
            && digits_value(decimal(x).drop_first()) == -x && all_digits(decimal(x).drop_first()),
        x >= 0 ==> decimal(x) == decimal_digits(x as nat) && digits_value(decimal(x)) == x
            && all_digits(decimal(x)),
{
    if x < 0 {
        law_digits_read_back((-x) as nat);
        assert(decimal(x).drop_first() =~= decimal_digits((-x) as nat));
    } else {
        law_digits_read_back(x as nat);
    }
}

/// Appends the character of the digit `d` to `s`.
fn push_digit(s: &mut String, d: u64)
    requires
        d < 10,
    ensures
        final(s)@ == old(s)@.push(digit_char(d as int)),
{
    proof {
        reveal_strlit("0");
        reveal_strlit("1");
        reveal_strlit("2");
        reveal_strlit("3");
        reveal_strlit("4");
        reveal_strlit("5");
        reveal_strlit("6");
        reveal_strlit("7");
        reveal_strlit("8");
        reveal_strlit("9");
    }
    let lit = if d == 0 {
        "0"
    } else if d == 1 {
        "1"
    } else if d == 2 {
        "2"
    } else if d == 3 {
        "3"
    } else if d == 4 {
        "4"
    } else if d == 5 {
        "5"
    } else if d == 6 {
        "6"
    } else if d == 7 {
        "7"
    } else if d == 8 {
        "8"
    } else {
        "9"
    };
    assert(lit@ =~= seq![digit_char(d as int)]);
    s.append(lit);
}

/// Appends the decimal digits of `n` to `s`.
fn push_decimal_digits(s: &mut String, n: u64)
    ensures
        final(s)@ == old(s)@ + decimal_digits(n as nat),
    decreases n,
{
    let ghost start = s@;
    if n >= 10 {
        push_decimal_digits(s, n / 10);
    }
    push_digit(s, n % 10);
    assert(s@ =~= start + decimal_digits(n as nat));
}

/// Renders `x` in decimal, as `x.to_string()` does for an `i32`.
pub fn i32_to_decimal(x: i32) -> (res: String)
    ensures
        res@ == decimal(x as int),
{
    let mut s = String::new();
    if x < 0 {
        proof {
            reveal_strlit("-");
        }
        s.append("-");
        let magnitude: u64 = (0i64 - (x as i64)) as u64;
        push_decimal_digits(&mut s, magnitude);
    } else {
        push_decimal_digits(&mut s, x as u64);
    }
    s
}

} // verus!
