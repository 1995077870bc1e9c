//! A cursor that counts upwards and wraps to zero before reaching its limit.

use vstd::prelude::*;
use vstd::arithmetic::div_mod::{lemma_add_mod_noop, lemma_mod_self_0, lemma_small_mod};

verus! {

/// The position that follows `value` among the positions `0 .. limit`.
pub open spec fn wrap_next(value: nat, limit: nat) -> nat {
    (value + 1) % limit
}

/// The position reached from `value` after `steps` advances.
pub open spec fn wrap_advance(value: nat, limit: nat, steps: nat) -> nat
    decreases steps,
{
    if steps == 0 {
        value
    } else {
        wrap_next(wrap_advance(value, limit, (steps - 1) as nat), limit)
    }
}

/// Advancing stays below the limit, and wraps to zero exactly at the last
/// position.
pub proof fn lemma_wrap_next(value: nat, limit: nat)
    requires
        value < limit,
    ensures
        wrap_next(value, limit) < limit,
        value + 1 < limit ==> wrap_next(value, limit) == value + 1,
        value + 1 == limit ==> wrap_next(value, limit) == 0,
{
    if value + 1 < limit {
        lemma_small_mod(value + 1, limit);
    } else {
        lemma_mod_self_0(limit as int);
    }
}

/// `steps` advances add `steps` to the position, modulo the limit.
pub proof fn lemma_wrap_advance(value: nat, limit: nat, steps: nat)
    requires
        value < limit,
    ensures
        wrap_advance(value, limit, steps) == (value + steps) % limit,
        wrap_advance(value, limit, steps) < limit,
    decreases steps,
{
    if steps == 0 {
        lemma_small_mod(value, limit);
    } else {
        let before = wrap_advance(value, limit, (steps - 1) as nat);
        lemma_wrap_advance(value, limit, (steps - 1) as nat);
        lemma_wrap_next(before, limit);
        lemma_add_mod_noop(value + steps - 1, 1, limit as int);
        if limit == 1 {
            lemma_mod_self_0(1);
        } else {
            lemma_small_mod(1, limit);
        }
    }
}

/// A cursor with limit `L` is back at its starting position after `L`
/// advances.
pub proof fn lemma_wrap_full_cycle(value: nat, limit: nat)
    requires
        value < limit,
    ensures
        wrap_advance(value, limit, limit) == value,
{
    lemma_wrap_advance(value, limit, limit);
    lemma_add_mod_noop(value as int, limit as int, limit as int);
    lemma_mod_self_0(limit as int);
    lemma_small_mod(value, limit);
}

/// A wrapping cursor. Its value is always smaller than its limit.
pub struct Index {
    limit: usize,
    val: usize,
}

impl View for Index {
    type V = nat;

    /// The current position.
    closed spec fn view(&self) -> nat {
        self.val as nat
    }
}

impl Index {
    /// The exclusive upper bound of the position, fixed at construction.
    pub closed spec fn limit(&self) -> nat {
        self.limit as nat
    }

    #[verifier::type_invariant]
    spec fn bounded(&self) -> bool {
        self.val < self.limit
    }

    /// A cursor at position zero that wraps at `limit`.
    pub fn new(limit: usize) -> (index: Index)
        requires
            limit > 0,
        ensures
            index@ == 0,
            index.limit() == limit,
    {
        Index { limit, val: 0 }
    }

    /// Moves the cursor one position on, back to zero from the last one.
    pub fn increment(&mut self)
        ensures
            final(self)@ == wrap_next(old(self)@, old(self).limit()),
            final(self).limit() == old(self).limit(),
            final(self)@ < final(self).limit(),
        no_unwind
    {
        self.val = self.next();
    }

    /// The current position.
    pub fn current(&self) -> (value: usize)
        ensures
            value == self@,
            value < self.limit(),
    {
        proof {
            use_type_invariant(self);
        }
        self.val
    }

    /// The position that `increment` would move to; the cursor stays.
    pub fn next(&self) -> (value: usize)
        ensures
            value == wrap_next(self@, self.limit()),
            value < self.limit(),
        no_unwind
    {
        proof {
            use_type_invariant(self);
            lemma_wrap_next(self@, self.limit());
        }
        if self.val + 1 >= self.limit {
            0
        } else {
            self.val + 1
        }
    }
}

} // verus!
