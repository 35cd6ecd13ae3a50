//! Numbers and lists of numbers in messages.

use vstd::prelude::*;

use crate::outside::{all_digits, digits_value};
use crate::text::{comma_separated, decimal, list_text, signed_decimal};

verus! {

/// The number that decimal digits stand for, each ten times as much as the one
/// behind it.
pub open spec fn worth(digits: Seq<char>) -> int
    decreases digits.len(),
{
    if digits.len() == 0 {
        0
    } else {
        10 * worth(digits.drop_last()) + (digits.last() as int - '0' as int)
    }
}

/// A natural number in decimal consists of digits, stands for the number, and
/// does not start with a zero unless it is one.
pub proof fn law_decimal(n: nat)
    ensures
        decimal(n).len() > 0,
        forall|i: int| 0 <= i < decimal(n).len() ==> '0' <= #[trigger] decimal(n)[i] <= '9',
        worth(decimal(n)) == n,
        decimal(n)[0] == '0' ==> n == 0 && decimal(n).len() == 1,
    decreases n,
{
    reveal_with_fuel(worth, 2);
    if n >= 10 {
        law_decimal(n / 10);
        assert(decimal(n).drop_last() =~= decimal(n / 10));
        assert(decimal(n)[0] == decimal(n / 10)[0]);
    } else {
        assert(decimal(n).drop_last() =~= seq![]);
    }
}

/// A negative number is a minus sign before the decimal of its opposite.
pub proof fn law_signed_decimal(n: nat)
    ensures
        signed_decimal(n as int) == decimal(n),
        n > 0 ==> signed_decimal(-n) == seq!['-'] + decimal(n),
{
}

/// A list stands in square brackets; its numbers are in decimal, and there is a
/// comma and a space before each number but the first.
pub proof fn law_list_text(numbers: Seq<u32>, last: u32)
    ensures
        list_text(seq![]) == seq!['[', ']'],
        list_text(seq![last]) == seq!['['] + decimal(last as nat) + seq![']'],
        numbers.len() > 0 ==> list_text(numbers.push(last)) == list_text(numbers).drop_last()
            + seq![',', ' '] + decimal(last as nat) + seq![']'],
{
    reveal_with_fuel(comma_separated, 2);
    assert(list_text(seq![]) =~= seq!['[', ']']);
    assert(numbers.push(last).drop_last() =~= numbers);
    if numbers.len() > 0 {
        assert(list_text(numbers).drop_last() =~= seq!['['] + comma_separated(numbers));
        assert(list_text(numbers.push(last)) =~= list_text(numbers).drop_last() + seq![',', ' ']
            + decimal(last as nat) + seq![']']);
    }
}

/// Digits stand for the same number wherever they are read.
pub(crate) proof fn lemma_worth(digits: Seq<char>)
    requires
        all_digits(digits),
    ensures
        worth(digits) == digits_value(digits),
    decreases digits.len(),
{
    if digits.len() > 0 {
        assert forall|i: int| 0 <= i < digits.drop_last().len() implies '0'
            <= #[trigger] digits.drop_last()[i] <= '9' by {
            assert(digits.drop_last()[i] == digits[i]);
        }
        lemma_worth(digits.drop_last());
        assert('0' <= digits[digits.len() - 1] <= '9');
    }
}

} // verus!
