//! Decimal notation of unsigned numbers.

use vstd::prelude::*;
use vstd::string::*;

verus! {

/// The character that stands for the digit `d`, for `d` from 0 to 9.
pub open spec fn digit_char(d: int) -> char {
    if d == 0 {
        '0'
    } else if d == 1 {
        '1'
    } else if d == 2 {
        '2'
    } else if d == 3 {
        '3'
    } else if d == 4 {
        '4'
    } else if d == 5 {
        '5'
    } else if d == 6 {
        '6'
    } else if d == 7 {
        '7'
    } else if d == 8 {
        '8'
    } else {
        '9'
    }
}

/// Whether `c` is one of the ten decimal digits.
pub open spec fn is_digit(c: char) -> bool {
    c == '0' || c == '1' || c == '2' || c == '3' || c == '4' || c == '5' || c == '6' || c == '7'
        || c == '8' || c == '9'
}

/// Whether `text` is made of decimal digits, at least one.
pub open spec fn is_number(text: Seq<char>) -> bool {
    &&& text.len() > 0
    &&& forall|i: int| 0 <= i < text.len() ==> is_digit(#[trigger] text[i])
}

/// The decimal notation of `n`, most significant digit first, without
/// leading zeros; zero is written as a single `0`.
pub open spec fn decimal_digits(n: nat) -> Seq<char>
    decreases n,
{
    if n < 10 {
        seq![digit_char(n as int)]
    } else {
        decimal_digits(n / 10).push(digit_char((n % 10) as int))
    }
}

/// The digit that `c` stands for; zero for a character that is no digit.
pub open spec fn digit_value(c: char) -> nat {
    if c == '1' {
        1
    } else if c == '2' {
        2
    } else if c == '3' {
        3
    } else if c == '4' {
        4
    } else if c == '5' {
        5
    } else if c == '6' {
        6
    } else if c == '7' {
        7
    } else if c == '8' {
        8
    } else if c == '9' {
        9
    } else {
        0
    }
}

/// The number that `text` is the decimal notation of.
pub open spec fn number_value(text: Seq<char>) -> nat
    decreases text.len(),
{
    if text.len() == 0 {
        0
    } else {
        10 * number_value(text.drop_last()) + digit_value(text.last())
    }
}

/// Ten to the power of `exponent`.
pub open spec fn power_of_ten(exponent: nat) -> nat
    decreases exponent,
{
    if exponent == 0 {
        1
    } else {
        10 * power_of_ten((exponent - 1) as nat)
    }
}

/// The one-character text of the digit `d`.
fn digit_text(d: u32) -> (text: &'static str)
    requires
        d < 10,
    ensures
        text@ == seq![digit_char(d as int)],
{
    proof {
        reveal_strlit("0");
        reveal_strlit("1");
        reveal_strlit("2");
        reveal_strlit("3");
        reveal_strlit("4");
        reveal_strlit("5");
        reveal_strlit("6");
        reveal_strlit("7");
        reveal_strlit("8");
        reveal_strlit("9");
    }
    let text = match d {
        0 => "0",
        1 => "1",
        2 => "2",
        3 => "3",
        4 => "4",
        5 => "5",
        6 => "6",
        7 => "7",
        8 => "8",
        _ => "9",
    };
    assert(text@ =~= seq![digit_char(d as int)]);
    text
}

/// Appends the decimal notation of `n` to `out`.
pub fn push_decimal(out: &mut String, n: u32)
    ensures
        final(out)@ == old(out)@ + decimal_digits(n as nat),
    decreases n,
{
    if n >= 10 {
        push_decimal(out, n / 10);
    }
    out.append(digit_text(n % 10));
}

/// The decimal notation of `n`.
pub fn decimal(n: u32) -> (text: String)
    ensures
        text@ == decimal_digits(n as nat),
{
    let mut text = String::new();
    push_decimal(&mut text, n);
    text
}

/// A decimal notation is made of digits, at least one.
pub proof fn law_decimal_is_number(n: nat)
    ensures
        is_number(decimal_digits(n)),
    decreases n,
{
    if n >= 10 {
        law_decimal_is_number(n / 10);
    }
}

/// Read as a number, the decimal notation of `n` is `n` again; and it
/// begins with `0` only where `n` is zero.
pub proof fn law_decimal_reads_back(n: nat)
    ensures
        number_value(decimal_digits(n)) == n,
        decimal_digits(n)[0] == '0' <==> n == 0,
    decreases n,
{
    if n < 10 {
        let text = decimal_digits(n);
        assert(text.drop_last() =~= Seq::<char>::empty());
        assert(number_value(text.drop_last()) == 0);
    } else {
        let front = decimal_digits(n / 10);
        let text = front.push(digit_char((n % 10) as int));
        law_decimal_reads_back(n / 10);
        law_decimal_is_number(n / 10);
        assert(text.drop_last() =~= front);
        assert(text[0] == front[0]);
    }
}

/// A number below ten to the power of `width` is written with `width`
/// digits at most.
pub proof fn law_decimal_width(n: nat, width: nat)
    requires
        width >= 1,
        n < power_of_ten(width),
    ensures
        decimal_digits(n).len() <= width,
    decreases width,
{
    reveal_with_fuel(power_of_ten, 2);
    if n >= 10 {
        law_decimal_width(n / 10, (width - 1) as nat);
    }
}

/// A number of 32 bits is written with ten digits at most.
pub proof fn law_decimal_of_u32_is_short(n: u32)
    ensures
        1 <= decimal_digits(n as nat).len() <= 10,
{
    reveal_with_fuel(power_of_ten, 11);
    law_decimal_width(n as nat, 10);
    law_decimal_is_number(n as nat);
}

} // verus!
