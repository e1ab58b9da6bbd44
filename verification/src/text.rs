//! Comparing texts, and writing numbers as text.

use vstd::prelude::*;
use vstd::string::StringExecFns;

verus! {

/// Whether two strings hold the same characters.
pub fn same_text(a: &str, b: &str) -> (same: bool)
    ensures
        same == (a@ == b@),
{
    a.to_owned() == b.to_owned()
}

/// The digit that stands for a number below ten.
pub open spec fn digit(number: nat) -> Seq<char> {
    if number == 0 {
        "0"@
    } else if number == 1 {
        "1"@
    } else if number == 2 {
        "2"@
    } else if number == 3 {
        "3"@
    } else if number == 4 {
        "4"@
    } else if number == 5 {
        "5"@
    } else if number == 6 {
        "6"@
    } else if number == 7 {
        "7"@
    } else if number == 8 {
        "8"@
    } else {
        "9"@
    }
}

/// A number in decimal digits, without leading zeros.
pub open spec fn decimal(number: nat) -> Seq<char>
    decreases number,
{
    if number < 10 {
        digit(number)
    } else {
        decimal(number / 10) + digit(number % 10)
    }
}

/// Writes a number in decimal digits, without leading zeros.
pub fn to_decimal(number: u64) -> (text: String)
    ensures
        text@ == decimal(number as nat),
    decreases number,
{
    let last = match number % 10 {
        0 => "0",
        1 => "1",
        2 => "2",
        3 => "3",
        4 => "4",
        5 => "5",
        6 => "6",
        7 => "7",
        8 => "8",
        _ => "9",
    };
    if number < 10 {
        last.to_owned()
    } else {
        to_decimal(number / 10).concat(last)
    }
}

/// Whether a text is made of decimal digits.
pub open spec fn is_numeral(text: Seq<char>) -> bool {
    &&& text.len() > 0
    &&& forall|i: int| 0 <= i < text.len() ==> '0' <= #[trigger] text[i] <= '9'
}

/// The number that a text of decimal digits stands for.
pub open spec fn numeral_value(text: Seq<char>) -> int
    decreases text.len(),
{
    if text.len() == 0 {
        0
    } else {
        10 * numeral_value(text.drop_last()) + (text.last() as int - '0' as int)
    }
}

/// A digit is one character, and stands for its number.
proof fn lemma_digit(number: nat)
    requires
        number < 10,
    ensures
        digit(number).len() == 1,
        '0' <= digit(number)[0] <= '9',
        digit(number)[0] as int - '0' as int == number,
{
    reveal_strlit("0");
    reveal_strlit("1");
    reveal_strlit("2");
    reveal_strlit("3");
    reveal_strlit("4");
    reveal_strlit("5");
    reveal_strlit("6");
    reveal_strlit("7");
    reveal_strlit("8");
    reveal_strlit("9");
}

/// A number written in decimal reads back as that number, and has a leading zero only if it is zero.
pub proof fn law_decimal(number: nat)
    ensures
        is_numeral(decimal(number)),
        numeral_value(decimal(number)) == number,
        decimal(number)[0] == '0' ==> decimal(number).len() == 1 && number == 0,
    decreases number,
{
    let text = decimal(number);
    lemma_digit(number % 10);
    let last = digit(number % 10);
    if number < 10 {
        assert(text.drop_last() =~= Seq::<char>::empty());
        assert(numeral_value(text.drop_last()) == 0);
    } else {
        let front = decimal(number / 10);
        law_decimal(number / 10);
        assert(text.drop_last() =~= front);
        assert(text.last() == last[0]);
        assert(text[0] == front[0]);
        assert forall|i: int| 0 <= i < text.len() implies '0' <= #[trigger] text[i] <= '9' by {
            if i < front.len() {
                assert(text[i] == front[i]);
            }
        }
    }
}

} // verus!
