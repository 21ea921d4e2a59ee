//! Numbers written out in binary and decimal digits, for diagnostics.

use vstd::prelude::*;
use vstd::string::StringExecFns;

verus! {

/// The character for a single digit below ten.
pub open spec fn digit_char(digit: nat) -> char {
    if digit == 0 {
        '0'
    } else if digit == 1 {
        '1'
    } else if digit == 2 {
        '2'
    } else if digit == 3 {
        '3'
    } else if digit == 4 {
        '4'
    } else if digit == 5 {
        '5'
    } else if digit == 6 {
        '6'
    } else if digit == 7 {
        '7'
    } else if digit == 8 {
        '8'
    } else {
        '9'
    }
}

/// The binary digits of `n`, most significant first, without leading zeros;
/// a single `0` for zero.
pub open spec fn binary_digits(n: nat) -> Seq<char>
    decreases n,
{
    if n < 2 {
        seq![digit_char(n)]
    } else {
        binary_digits(n / 2).push(digit_char(n % 2))
    }
}

/// The decimal digits of `n`, most significant first, without leading zeros;
/// a single `0` for zero.
pub open spec fn decimal_digits(n: nat) -> Seq<char>
    decreases n,
{
    if n < 10 {
        seq![digit_char(n)]
    } else {
        decimal_digits(n / 10).push(digit_char(n % 10))
    }
}

/// A number in decimal digits, with a minus sign in front where it is
/// negative.
pub open spec fn signed_decimal_digits(n: int) -> Seq<char> {
    if n < 0 {
        seq!['-'] + decimal_digits((-n) as nat)
    } else {
        decimal_digits(n as nat)
    }
}

/// `count` zeros.
pub open spec fn zeros(count: nat) -> Seq<char> {
    Seq::new(count, |i: int| '0')
}

/// The binary digits of `n`, with zeros in front where they are fewer than
/// `width`.
pub open spec fn padded_binary_digits(n: nat, width: nat) -> Seq<char> {
    let plain = binary_digits(n);
    if plain.len() >= width {
        plain
    } else {
        zeros((width - plain.len()) as nat) + plain
    }
}

/// The text of a single digit.
fn digit_text(digit: usize) -> (text: &'static str)
    requires
        digit < 10,
    ensures
        text@ == seq![digit_char(digit as nat)],
{
    proof {
        reveal_strlit("0");
        reveal_strlit("1");
        reveal_strlit("2");
        reveal_strlit("3");
        reveal_strlit("4");
        reveal_strlit("5");
        reveal_strlit("6");
        reveal_strlit("7");
        reveal_strlit("8");
        reveal_strlit("9");
    }
    let text = if digit == 0 {
        "0"
    } else if digit == 1 {
        "1"
    } else if digit == 2 {
        "2"
    } else if digit == 3 {
        "3"
    } else if digit == 4 {
        "4"
    } else if digit == 5 {
        "5"
    } else if digit == 6 {
        "6"
    } else if digit == 7 {
        "7"
    } else if digit == 8 {
        "8"
    } else {
        "9"
    };
    assert(text@ =~= seq![digit_char(digit as nat)]);
    text
}

/// The number of binary digits that `n` has.
pub fn binary_digit_count(n: usize) -> (count: usize)
    ensures
        count == binary_digits(n as nat).len(),
        count >= 1,
{
    let mut rest: usize = n;
    let mut count: usize = 1;
    while rest >= 2
        invariant
            1 <= count,
            count + rest <= n + 1,
            count + binary_digits(rest as nat).len() == binary_digits(n as nat).len() + 1,
        decreases rest,
    {
        rest = rest / 2;
        count += 1;
    }
    count
}

/// Appends the binary digits of `n` to `out`.
pub fn push_binary(out: &mut String, n: usize)
    ensures
        final(out)@ == old(out)@ + binary_digits(n as nat),
    decreases n,
{
    if n >= 2 {
        push_binary(out, n / 2);
    }
    out.append(digit_text(n % 2));
    assert(out@ =~= old(out)@ + binary_digits(n as nat));
}

/// Appends the decimal digits of `n` to `out`.
pub fn push_decimal(out: &mut String, n: usize)
    ensures
        final(out)@ == old(out)@ + decimal_digits(n as nat),
    decreases n,
{
    if n >= 10 {
        push_decimal(out, n / 10);
    }
    out.append(digit_text(n % 10));
    assert(out@ =~= old(out)@ + decimal_digits(n as nat));
}

/// Appends `n` in decimal digits to `out`, with a minus sign in front where
/// it is negative.
pub fn push_signed_decimal(out: &mut String, n: i32)
    ensures
        final(out)@ == old(out)@ + signed_decimal_digits(n as int),
{
    if n < 0 {
        proof {
            reveal_strlit("-");
        }
        out.append("-");
        assert(out@ =~= old(out)@ + seq!['-']);
        let magnitude: i64 = -(n as i64);
        push_decimal(out, magnitude as usize);
        assert(out@ =~= old(out)@ + signed_decimal_digits(n as int));
    } else {
        push_decimal(out, n as usize);
    }
}

/// Appends the binary digits of `n` to `out`, with zeros in front where they
/// are fewer than `width`.
pub fn push_padded_binary(out: &mut String, n: usize, width: usize)
    ensures
        final(out)@ == old(out)@ + padded_binary_digits(n as nat, width as nat),
{
    let count: usize = binary_digit_count(n);
    let mut written: usize = count;
    while written < width
        invariant
            count <= written,
            written <= width || written == count,
            out@ == old(out)@ + zeros((written - count) as nat),
        decreases width - written,
    {
        proof {
            reveal_strlit("0");
        }
        out.append("0");
        written += 1;
        assert(out@ =~= old(out)@ + zeros((written - count) as nat));
    }
    push_binary(out, n);
    assert(out@ =~= old(out)@ + padded_binary_digits(n as nat, width as nat));
}

} // verus!
