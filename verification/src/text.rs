//! Numbers and command lines as text, for messages.

use vstd::prelude::*;
use vstd::string::*;

verus! {

/// The character of a decimal digit.
pub open spec fn digit_spec(d: nat) -> char {
    if d == 0 {
        '0'
    } else if d == 1 {
        '1'
    } else if d == 2 {
        '2'
    } else if d == 3 {
        '3'
    } else if d == 4 {
        '4'
    } else if d == 5 {
        '5'
    } else if d == 6 {
        '6'
    } else if d == 7 {
        '7'
    } else if d == 8 {
        '8'
    } else {
        '9'
    }
}

/// A natural number in decimal notation, without leading zeros.
pub open spec fn decimal_spec(n: nat) -> Seq<char>
    decreases n,
{
    if n < 10 {
        seq![digit_spec(n)]
    } else {
        decimal_spec(n / 10).push(digit_spec(n % 10))
    }
}

/// An integer in decimal notation, with a minus sign if it is negative.
pub open spec fn signed_spec(n: int) -> Seq<char> {
    if n < 0 {
        seq!['-'] + decimal_spec((-n) as nat)
    } else {
        decimal_spec(n as nat)
    }
}

/// `head` followed by each of `rest`, with one space before each.
pub open spec fn words_spec(head: Seq<char>, rest: Seq<Seq<char>>) -> Seq<char>
    decreases rest.len(),
{
    if rest.len() == 0 {
        head
    } else {
        words_spec(head, rest.drop_last()) + seq![' '] + rest.last()
    }
}

fn digit(d: u8) -> (text: &'static str)
    requires
        d < 10,
    ensures
        text@ == seq![digit_spec(d as nat)],
{
    proof {
        reveal_strlit("0");
        reveal_strlit("1");
        reveal_strlit("2");
        reveal_strlit("3");
        reveal_strlit("4");
        reveal_strlit("5");
        reveal_strlit("6");
        reveal_strlit("7");
        reveal_strlit("8");
        reveal_strlit("9");
    }
    let text = if d == 0 {
        "0"
    } else if d == 1 {
        "1"
    } else if d == 2 {
        "2"
    } else if d == 3 {
        "3"
    } else if d == 4 {
        "4"
    } else if d == 5 {
        "5"
    } else if d == 6 {
        "6"
    } else if d == 7 {
        "7"
    } else if d == 8 {
        "8"
    } else {
        "9"
    };
    assert(text@ =~= seq![digit_spec(d as nat)]);
    text
}

/// Writes `n` in decimal notation.
pub fn decimal(n: u128) -> (text: String)
    ensures
        text@ == decimal_spec(n as nat),
    decreases n,
{
    if n < 10 {
        String::from_str(digit(n as u8))
    } else {
        let mut text = decimal(n / 10);
        text.append(digit((n % 10) as u8));
        assert(text@ =~= decimal_spec(n as nat));
        text
    }
}

/// Writes `n` in decimal notation, with its sign.
pub fn signed(n: i32) -> (text: String)
    ensures
        text@ == signed_spec(n as int),
{
    if n < 0 {
        proof {
            reveal_strlit("-");
        }
        let mut text = String::from_str("-");
        let magnitude = decimal((-(n as i64)) as u128);
        text.append(magnitude.as_str());
        assert(text@ =~= signed_spec(n as int));
        text
    } else {
        decimal(n as u128)
    }
}

/// Writes `head` and the words of `rest` on one line, separated by spaces.
pub fn words(head: &str, rest: &Vec<String>) -> (line: String)
    ensures
        line@ == words_spec(head@, rest.deep_view()),
{
    let mut line = String::from_str(head);
    let mut i: usize = 0;
    while i < rest.len()
        invariant
            i <= rest.len(),
            line@ == words_spec(head@, rest.deep_view().take(i as int)),
        decreases rest.len() - i,
    {
        proof {
            reveal_strlit(" ");
            let before = rest.deep_view().take(i as int);
            let with = rest.deep_view().take(i + 1);
            assert(with.drop_last() =~= before);
            assert(with.last() == rest@[i as int]@);
        }
        line.append(" ");
        line.append(rest[i].as_str());
        i += 1;
    }
    assert(rest.deep_view().take(rest.len() as int) =~= rest.deep_view());
    line
}

} // verus!
