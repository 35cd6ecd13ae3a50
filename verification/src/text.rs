//! The decimal and list notations that appear in error messages.

use vstd::prelude::*;
use vstd::string::*;

verus! {

/// The digit characters, by value.
pub open spec fn digit_char(digit: nat) -> char {
    if digit == 0 {
        '0'
    } else if digit == 1 {
        '1'
    } else if digit == 2 {
        '2'
    } else if digit == 3 {
        '3'
    } else if digit == 4 {
        '4'
    } else if digit == 5 {
        '5'
    } else if digit == 6 {
        '6'
    } else if digit == 7 {
        '7'
    } else if digit == 8 {
        '8'
    } else {
        '9'
    }
}

/// A natural number in decimal, without leading zeros.
pub open spec fn decimal(n: nat) -> Seq<char>
    decreases n,
{
    if n < 10 {
        seq![digit_char(n)]
    } else {
        decimal(n / 10).push(digit_char(n % 10))
    }
}

/// An integer in decimal, with a leading minus sign where it is negative.
pub open spec fn signed_decimal(n: int) -> Seq<char> {
    if n < 0 {
        seq!['-'] + decimal((-n) as nat)
    } else {
        decimal(n as nat)
    }
}

/// The numbers in decimal, a comma and a space between two of them.
pub open spec fn comma_separated(numbers: Seq<u32>) -> Seq<char>
    decreases numbers.len(),
{
    if numbers.len() == 0 {
        seq![]
    } else if numbers.len() == 1 {
        decimal(numbers[0] as nat)
    } else {
        comma_separated(numbers.drop_last()) + seq![',', ' '] + decimal(numbers.last() as nat)
    }
}

/// The numbers as a list in square brackets.
pub open spec fn list_text(numbers: Seq<u32>) -> Seq<char> {
    seq!['['] + comma_separated(numbers) + seq![']']
}

/// The one-character text of a digit.
fn digit_text(digit: u64) -> (text: &'static str)
    requires
        digit < 10,
    ensures
        text@ == seq![digit_char(digit as nat)],
{
    proof {
        reveal_strlit("0");
        reveal_strlit("1");
        reveal_strlit("2");
        reveal_strlit("3");
        reveal_strlit("4");
        reveal_strlit("5");
        reveal_strlit("6");
        reveal_strlit("7");
        reveal_strlit("8");
        reveal_strlit("9");
    }
    let text = match digit {
        0 => "0",
        1 => "1",
        2 => "2",
        3 => "3",
        4 => "4",
        5 => "5",
        6 => "6",
        7 => "7",
        8 => "8",
        _ => "9",
    };
    assert(text@ =~= seq![digit_char(digit as nat)]);
    text
}

/// Appends `n` in decimal.
pub fn push_decimal(out: &mut String, n: u64)
    ensures
        final(out)@ == old(out)@ + decimal(n as nat),
    decreases n,
{
    if n >= 10 {
        push_decimal(out, n / 10);
    }
    out.append(digit_text(n % 10));
    assert(out@ =~= old(out)@ + decimal(n as nat));
}

/// Appends the numbers as a list in square brackets.
pub fn push_list(out: &mut String, numbers: &Vec<u32>)
    ensures
        final(out)@ == old(out)@ + list_text(numbers@),
{
    proof {
        reveal_strlit("[");
        reveal_strlit(", ");
        reveal_strlit("]");
    }
    let ghost start = out@;
    out.append("[");
    let mut i: usize = 0;
    assert(out@ =~= start + seq!['['] + comma_separated(numbers@.take(0)));
    while i < numbers.len()
        invariant
            i <= numbers.len(),
            out@ == start + seq!['['] + comma_separated(numbers@.take(i as int)),
        decreases numbers.len() - i,
    {
        let ghost before = numbers@.take(i as int);
        let ghost after = numbers@.take(i + 1);
        assert(after.drop_last() =~= before);
        proof {
            reveal_strlit(", ");
        }
        if i > 0 {
            out.append(", ");
        }
        push_decimal(out, numbers[i] as u64);
        assert(out@ =~= start + seq!['['] + comma_separated(after));
        i = i + 1;
    }
    assert(numbers@.take(numbers@.len() as int) =~= numbers@);
    out.append("]");
    assert(out@ =~= start + list_text(numbers@));
}

} // verus!
