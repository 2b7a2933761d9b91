//! The line of text that shows the score.

use vstd::prelude::*;
use crate::score::{canonical, digits_value, Score};
use vstd::string::StringExecFns;

verus! {

/// The character of a decimal digit.
pub open spec fn digit(d: int) -> char {
    if d == 0 {
        '0'
    } else if d == 1 {
        '1'
    } else if d == 2 {
        '2'
    } else if d == 3 {
        '3'
    } else if d == 4 {
        '4'
    } else if d == 5 {
        '5'
    } else if d == 6 {
        '6'
    } else if d == 7 {
        '7'
    } else if d == 8 {
        '8'
    } else {
        '9'
    }
}

/// A number in decimal digits, without leading zeros.
pub open spec fn decimal(n: nat) -> Seq<char>
    decreases n,
{
    if n < 10 {
        seq![digit(n as int)]
    } else {
        decimal(n / 10).push(digit((n % 10) as int))
    }
}

/// The score line: the word, a blank and the score in decimal digits.
pub open spec fn score_line(score: nat) -> Seq<char> {
    "Score "@ + decimal(score)
}

/// The characters of decimal digits, the most significant first, for digits
/// that are given the least significant first.
pub open spec fn top_down(digits: Seq<u8>) -> Seq<char>
    decreases digits.len(),
{
    if digits.len() == 0 {
        Seq::empty()
    } else {
        top_down(digits.skip(1)).push(digit(digits[0] as int))
    }
}

proof fn lemma_higher_digits_canonical(digits: Seq<u8>)
    requires
        canonical(digits),
        digits.len() > 0,
    ensures
        canonical(digits.skip(1)),
{
    let higher = digits.skip(1);
    if higher.len() > 0 {
        assert(higher.last() == digits.last());
    }
    assert forall|i: int| 0 <= i < higher.len() implies #[trigger] higher[i] < 10 by {
        assert(higher[i] == digits[i + 1]);
    }
}

proof fn lemma_value_is_positive(digits: Seq<u8>)
    requires
        canonical(digits),
        digits.len() > 0,
    ensures
        digits_value(digits) >= 1,
    decreases digits.len(),
{
    if digits.len() > 1 {
        lemma_higher_digits_canonical(digits);
        lemma_value_is_positive(digits.skip(1));
    } else {
        assert(digits[0] == digits.last());
    }
}

/// Canonical digits, read from the most significant one down, are the
/// decimal form of their value.
pub proof fn lemma_digits_are_decimal(digits: Seq<u8>)
    requires
        canonical(digits),
        digits.len() > 0,
    ensures
        decimal(digits_value(digits)) == top_down(digits),
    decreases digits.len(),
{
    let higher = digits.skip(1);
    if higher.len() == 0 {
        assert(digits_value(higher) == 0);
        assert(top_down(higher) =~= Seq::<char>::empty());
        assert(top_down(digits) =~= seq![digit(digits[0] as int)]);
    } else {
        lemma_higher_digits_canonical(digits);
        lemma_value_is_positive(higher);
        lemma_digits_are_decimal(higher);
        let value = digits_value(digits);
        assert(value == digits[0] + 10 * digits_value(higher));
        assert(value / 10 == digits_value(higher));
        assert(value % 10 == digits[0]);
    }
}

fn digit_str(d: usize) -> (t: &'static str)
    requires
        d < 10,
    ensures
        t@ == seq![digit(d as int)],
{
    proof {
        reveal_strlit("0");
        reveal_strlit("1");
        reveal_strlit("2");
        reveal_strlit("3");
        reveal_strlit("4");
        reveal_strlit("5");
        reveal_strlit("6");
        reveal_strlit("7");
        reveal_strlit("8");
        reveal_strlit("9");
    }
    let t = if d == 0 {
        "0"
    } else if d == 1 {
        "1"
    } else if d == 2 {
        "2"
    } else if d == 3 {
        "3"
    } else if d == 4 {
        "4"
    } else if d == 5 {
        "5"
    } else if d == 6 {
        "6"
    } else if d == 7 {
        "7"
    } else if d == 8 {
        "8"
    } else {
        "9"
    };
    assert(t@ =~= seq![digit(d as int)]);
    t
}

/// The score line for a score.
pub fn score_text(score: &Score) -> (s: String)
    requires
        score.wf(),
    ensures
        s@ == score_line(score@),
{
    let mut s = String::from_str("Score ");
    let len: usize = score.digits.len();
    if len == 0 {
        s.append(digit_str(0));
        assert(s@ =~= score_line(0));
        return s;
    }
    let mut i: usize = len;
    proof {
        assert(score.digits@.skip(len as int) =~= Seq::<u8>::empty());
        assert(s@ =~= "Score "@ + top_down(score.digits@.skip(len as int)));
    }
    while i > 0
        invariant
            i <= len,
            len == score.digits@.len(),
            score.wf(),
            s@ == "Score "@ + top_down(score.digits@.skip(i as int)),
        decreases i,
    {
        i -= 1;
        s.append(digit_str(score.digits[i] as usize));
        proof {
            let here = score.digits@.skip(i as int);
            assert(here.skip(1) =~= score.digits@.skip(i + 1));
            assert(here[0] == score.digits@[i as int]);
            assert(s@ =~= "Score "@ + top_down(here));
        }
    }
    proof {
        assert(score.digits@.skip(0) =~= score.digits@);
        lemma_digits_are_decimal(score.digits@);
    }
    s
}

} // verus!
