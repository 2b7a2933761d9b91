//! The score: a count that has no greatest value. It is kept in decimal
//! digits, so that counting a collected coin can never overflow.

use vstd::prelude::*;

verus! {

/// The number that decimal digits stand for, the least significant first.
pub open spec fn digits_value(digits: Seq<u8>) -> nat
    decreases digits.len(),
{
    if digits.len() == 0 {
        0
    } else {
        digits[0] as nat + 10 * digits_value(digits.skip(1))
    }
}

/// The digits of a number with `carry` added to it. A number without
/// digits is zero.
pub open spec fn carried(digits: Seq<u8>, carry: nat) -> Seq<u8>
    decreases digits.len(), carry,
{
    if digits.len() == 0 && carry == 0 {
        Seq::empty()
    } else {
        let sum = first_digit(digits) + carry % 10;
        seq![(sum % 10) as u8] + carried(higher_digits(digits), carry / 10 + sum / 10)
    }
}

/// The least significant digit; zero where there is none.
pub open spec fn first_digit(digits: Seq<u8>) -> nat {
    if digits.len() == 0 {
        0
    } else {
        digits[0] as nat
    }
}

/// The digits above the least significant one.
pub open spec fn higher_digits(digits: Seq<u8>) -> Seq<u8> {
    if digits.len() == 0 {
        digits
    } else {
        digits.skip(1)
    }
}

/// Whether every digit is below ten and the most significant one, if there
/// is any, is not zero.
pub open spec fn canonical(digits: Seq<u8>) -> bool {
    &&& forall|i: int| 0 <= i < digits.len() ==> #[trigger] digits[i] < 10
    &&& digits.len() > 0 ==> digits.last() != 0
}

/// Adding with carry adds.
pub proof fn lemma_carried_value(digits: Seq<u8>, carry: nat)
    ensures
        digits_value(carried(digits, carry)) == digits_value(digits) + carry,
    decreases digits.len(), carry,
{
    if digits.len() == 0 && carry == 0 {
    } else {
        let sum = first_digit(digits) + carry % 10;
        let rest = carried(higher_digits(digits), carry / 10 + sum / 10);
        let all = seq![(sum % 10) as u8] + rest;
        lemma_carried_value(higher_digits(digits), carry / 10 + sum / 10);
        assert(all.skip(1) =~= rest);
        assert(all[0] == (sum % 10) as u8);
        assert(digits_value(all) == sum % 10 + 10 * digits_value(rest));
    }
}

/// Adding with carry keeps digits canonical.
pub proof fn lemma_carried_canonical(digits: Seq<u8>, carry: nat)
    requires
        canonical(digits),
    ensures
        canonical(carried(digits, carry)),
    decreases digits.len(), carry,
{
    if digits.len() == 0 && carry == 0 {
    } else {
        let sum = first_digit(digits) + carry % 10;
        let higher = higher_digits(digits);
        let rest = carried(higher, carry / 10 + sum / 10);
        let all = seq![(sum % 10) as u8] + rest;
        assert(canonical(higher)) by {
            if digits.len() > 1 {
                assert(higher.last() == digits.last());
            }
            assert forall|i: int| 0 <= i < higher.len() implies #[trigger] higher[i] < 10 by {
                assert(higher[i] == digits[i + 1]);
            }
        }
        lemma_carried_canonical(higher, carry / 10 + sum / 10);
        assert forall|i: int| 0 <= i < all.len() implies #[trigger] all[i] < 10 by {
            if i > 0 {
                assert(all[i] == rest[i - 1]);
            }
        }
        if rest.len() > 0 {
            assert(all.last() == rest.last());
        } else {
            assert(higher.len() == 0 && carry / 10 + sum / 10 == 0);
            if digits.len() > 0 {
                assert(digits[0] == digits.last());
            }
            assert(all.last() == (sum % 10) as u8);
        }
    }
}

/// A count of collected coins.
#[derive(Clone, Debug, PartialEq, Eq)]
pub struct Score {
    /// The count in decimal digits, the least significant first, without
    /// leading zeros. Zero has no digit.
    pub digits: Vec<u8>,
}

impl View for Score {
    type V = nat;

    open spec fn view(&self) -> nat {
        digits_value(self.digits@)
    }
}

impl Score {
    pub open spec fn wf(&self) -> bool {
        canonical(self.digits@)
    }

    /// The score zero.
    pub fn new() -> (s: Score)
        ensures
            s.wf(),
            s@ == 0,
            s.digits@ == Seq::<u8>::empty(),
    {
        Score { digits: Vec::new() }
    }

    /// The score `n`.
    pub fn from_usize(n: usize) -> (s: Score)
        ensures
            s.wf(),
            s@ == n,
    {
        let mut s = Score::new();
        s.increase(n);
        s
    }

    /// Counts `by` more.
    pub fn increase(&mut self, by: usize)
        requires
            old(self).wf(),
        ensures
            final(self).wf(),
            final(self)@ == old(self)@ + by,
            final(self).digits@ == carried(old(self).digits@, by as nat),
    {
        let mut out: Vec<u8> = Vec::new();
        let mut carry: usize = by;
        let mut i: usize = 0;
        let len: usize = self.digits.len();
        proof {
            assert(self.digits@.skip(0) =~= self.digits@);
        }
        while i < len || carry > 0
            invariant
                *self == *old(self),
                len == self.digits@.len(),
                i <= len,
                self.wf(),
                out@ + carried(self.digits@.skip(i as int), carry as nat) == carried(
                    self.digits@,
                    by as nat,
                ),
            decreases len - i, carry,
        {
            let ghost here = self.digits@.skip(i as int);
            let digit: usize = if i < len {
                self.digits[i] as usize
            } else {
                0
            };
            let sum: usize = digit + carry % 10;
            let ghost before = out@;
            out.push((sum % 10) as u8);
            let next: usize = carry / 10 + sum / 10;
            proof {
                assert(first_digit(here) == digit);
                let rest = carried(higher_digits(here), next as nat);
                assert(carried(here, carry as nat) == seq![(sum % 10) as u8] + rest);
                assert(out@ + rest =~= before + (seq![(sum % 10) as u8] + rest));
                if i < len {
                    assert(higher_digits(here) =~= self.digits@.skip(i + 1));
                }
            }
            carry = next;
            if i < len {
                i += 1;
            }
        }
        proof {
            assert(self.digits@.skip(i as int) =~= Seq::<u8>::empty());
            assert(out@ + Seq::<u8>::empty() =~= out@);
            lemma_carried_value(self.digits@, by as nat);
            lemma_carried_canonical(self.digits@, by as nat);
        }
        self.digits = out;
    }
}

} // verus!
