//! The wording of the pieces that the line makes up itself.

use vstd::prelude::*;
use vstd::string::*;

verus! {

/// The character that stands for the digit `d`.
pub open spec fn digit_char(d: nat) -> char {
    if d == 0 {
        '0'
    } else if d == 1 {
        '1'
    } else if d == 2 {
        '2'
    } else if d == 3 {
        '3'
    } else if d == 4 {
        '4'
    } else if d == 5 {
        '5'
    } else if d == 6 {
        '6'
    } else if d == 7 {
        '7'
    } else if d == 8 {
        '8'
    } else {
        '9'
    }
}

/// `n` written in base ten, without leading zeros.
pub open spec fn decimal(n: nat) -> Seq<char>
    decreases n,
{
    if n < 10 {
        seq![digit_char(n)]
    } else {
        decimal(n / 10).push(digit_char(n % 10))
    }
}

/// What the indicator for `count` hidden tabs on the left says.
pub open spec fn left_more_text(count: nat) -> Seq<char> {
    if count < 10000 {
        " ← +"@ + decimal(count) + " "@
    } else {
        " ← +many "@
    }
}

/// What the indicator for `count` hidden tabs on the right says.
pub open spec fn right_more_text(count: nat) -> Seq<char> {
    if count < 10000 {
        " +"@ + decimal(count) + " → "@
    } else {
        " +many → "@
    }
}

fn digit_str(d: usize) -> (s: &'static str)
    requires
        d < 10,
    ensures
        s@ == seq![digit_char(d as nat)],
{
    proof {
        reveal_strlit("0");
        reveal_strlit("1");
        reveal_strlit("2");
        reveal_strlit("3");
        reveal_strlit("4");
        reveal_strlit("5");
        reveal_strlit("6");
        reveal_strlit("7");
        reveal_strlit("8");
        reveal_strlit("9");
    }
    let s = if d == 0 {
        "0"
    } else if d == 1 {
        "1"
    } else if d == 2 {
        "2"
    } else if d == 3 {
        "3"
    } else if d == 4 {
        "4"
    } else if d == 5 {
        "5"
    } else if d == 6 {
        "6"
    } else if d == 7 {
        "7"
    } else if d == 8 {
        "8"
    } else {
        "9"
    };
    assert(s@ =~= seq![digit_char(d as nat)]);
    s
}

/// Writes `n` in base ten.
pub fn decimal_string(n: usize) -> (s: String)
    ensures
        s@ == decimal(n as nat),
    decreases n,
{
    if n < 10 {
        String::from_str(digit_str(n))
    } else {
        let mut s = decimal_string(n / 10);
        s.append(digit_str(n % 10));
        assert(s@ =~= decimal((n / 10) as nat).push(digit_char((n % 10) as nat)));
        s
    }
}

/// Words the indicator for `count` hidden tabs on the left.
pub fn left_more_string(count: usize) -> (s: String)
    ensures
        s@ == left_more_text(count as nat),
{
    if count < 10000 {
        let mut s = String::from_str(" ← +");
        let digits = decimal_string(count);
        s.append(digits.as_str());
        s.append(" ");
        s
    } else {
        String::from_str(" ← +many ")
    }
}

/// Words the indicator for `count` hidden tabs on the right.
pub fn right_more_string(count: usize) -> (s: String)
    ensures
        s@ == right_more_text(count as nat),
{
    if count < 10000 {
        let mut s = String::from_str(" +");
        let digits = decimal_string(count);
        s.append(digits.as_str());
        s.append(" → ");
        s
    } else {
        String::from_str(" +many → ")
    }
}

} // verus!
