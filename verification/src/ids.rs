//! The numbers of which identifiers are made.

use vstd::prelude::*;

verus! {

/// The number that is given out after `issued` others: they are counted from 1 and
/// wrap around after `u64::MAX`.
pub open spec fn number(issued: nat) -> u64 {
    ((issued + 1) % 0x1_0000_0000_0000_0000) as u64
}

/// Every key is among the numbers up to the bound.
pub open spec fn at_most<V>(m: Map<u64, V>, bound: nat) -> bool {
    forall|k: u64| #[trigger] m.contains_key(k) ==> k <= bound
}

/// Gives out numbers. All the identifiers of a backend come from one counter.
pub struct IdCounter {
    next: u64,
    issued: Ghost<nat>,
}

impl View for IdCounter {
    type V = nat;

    /// How many numbers were given out.
    closed spec fn view(&self) -> nat {
        self.issued@
    }
}

impl IdCounter {
    #[verifier::type_invariant]
    spec fn counts(self) -> bool {
        self.next == number(self.issued@)
    }

    /// Nothing was given out.
    pub fn new() -> (counter: Self)
        ensures
            counter@ == 0,
    {
        IdCounter { next: 1, issued: Ghost(0) }
    }

    /// The next number.
    pub fn next_u64(&mut self) -> (n: u64)
        ensures
            n == number(old(self)@),
            final(self)@ == old(self)@ + 1,
    {
        proof {
            use_type_invariant(&*self);
        }
        let n = self.next;
        *self = IdCounter { next: n.wrapping_add(1), issued: Ghost(self.issued@ + 1) };
        n
    }

    /// The next number, where it must not be zero.
    pub fn next_id(&mut self) -> (n: u64)
        requires
            number(old(self)@) != 0,
        ensures
            n != 0,
            n == number(old(self)@),
            final(self)@ == old(self)@ + 1,
    {
        self.next_u64()
    }

    /// Whether the next number is not zero.
    pub fn has_id(&self) -> (left: bool)
        ensures
            left == (number(self@) != 0),
    {
        proof {
            use_type_invariant(self);
        }
        self.next != 0
    }
}

/// From a fresh counter the numbers are 1, 2, 3 and so on: until it wraps around,
/// the number given out after `issued` others is the next natural number. None is
/// zero.
pub proof fn law_numbers_count_up(issued: nat)
    requires
        issued < u64::MAX,
    ensures
        number(issued) == issued + 1,
        number(issued) != 0,
{
}

/// No number is given out twice until all `u64` values were.
pub proof fn law_numbers_differ(a: nat, b: nat)
    requires
        a < b < a + 0x1_0000_0000_0000_0000,
    ensures
        number(a) != number(b),
{
}

} // verus!
