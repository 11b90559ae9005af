//! The running aggregate: one signed 32-bit total.
//!
//! Overflow policy: both operations wrap around modulo 2^32, so the stored
//! total is always the exact signed sum of every delta applied, reduced into
//! the `i32` range.

use vstd::prelude::*;
use vstd::arithmetic::div_mod::{
    lemma_add_mod_noop, lemma_add_mod_noop_right, lemma_mod_add_multiples_vanish,
    lemma_mod_sub_multiples_vanish, lemma_small_mod,
};

verus! {

/// 2^32, the modulus of the running total.
pub open spec fn modulus() -> int {
    0x1_0000_0000
}

/// The unique `i32` value congruent to `x` modulo 2^32.
pub open spec fn wrap_i32(x: int) -> int {
    let r = x % modulus();
    if r > i32::MAX as int {
        r - modulus()
    } else {
        r
    }
}

/// Wrapping a sum whose left term was already wrapped changes nothing.
pub proof fn lemma_wrap_absorbs(x: int, y: int)
    ensures
        wrap_i32(wrap_i32(x) + y) == wrap_i32(x + y),
{
    let m = modulus();
    let r = x % m;
    lemma_add_mod_noop(x, y, m);
    lemma_add_mod_noop_right(r, y, m);
    lemma_mod_sub_multiples_vanish(r + y, m);
    assert(-m + (r + y) == (r - m) + y);
}

/// A value already in the `i32` range is its own wrap.
pub proof fn lemma_wrap_in_range(x: int)
    requires
        i32::MIN <= x <= i32::MAX,
    ensures
        wrap_i32(x) == x,
{
    let m = modulus();
    if x >= 0 {
        lemma_small_mod(x as nat, m as nat);
    } else {
        lemma_mod_add_multiples_vanish(x, m);
        lemma_small_mod((m + x) as nat, m as nat);
    }
}

/// The running total of the pipeline, starting from an explicit value.
pub struct Amount {
    value: i32,
}

impl View for Amount {
    type V = int;

    closed spec fn view(&self) -> int {
        self.value as int
    }
}

impl Amount {
    /// A total holding `amount`.
    pub fn new(amount: i32) -> (r: Amount)
        ensures
            r@ == amount as int,
    {
        Amount { value: amount }
    }

    /// The current total.
    pub fn value(&self) -> (r: i32)
        ensures
            r as int == self@,
    {
        self.value
    }

    /// Adds `amount` to the total, wrapping on overflow.
    pub fn add(&mut self, amount: i32)
        ensures
            final(self)@ == wrap_i32(old(self)@ + amount as int),
    {
        self.value = self.value.wrapping_add(amount);
    }

    /// Subtracts `amount` from the total, wrapping on overflow.
    pub fn sub(&mut self, amount: i32)
        ensures
            final(self)@ == wrap_i32(old(self)@ - amount as int),
    {
        self.value = self.value.wrapping_sub(amount);
    }
}

} // verus!
