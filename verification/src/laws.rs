//! Algebraic laws of the counter operations, proved for every counter
//! value, wraparound included.

use vstd::prelude::*;

use crate::Counter;
use crate::counter_modulus;
use crate::wrap;
use crate::spec_add;
use crate::spec_subtract;
use crate::spec_increment;
use crate::spec_decrement;
use crate::lemma_wrap_in_range;

verus! {

use vstd::arithmetic::div_mod::lemma_add_mod_noop_right;
use vstd::arithmetic::div_mod::lemma_sub_mod_noop_right;

/// Decrementing the increment of any counter gives the counter back,
/// even when the increment wraps.
pub proof fn lemma_decrement_increment(c: Counter)
    ensures
        spec_decrement(spec_increment(c)) == c,
{
    lemma_add_mod_noop_right(-1, c + 1, counter_modulus());
    lemma_wrap_in_range(c as int);
}

/// Incrementing the decrement of any counter gives the counter back,
/// even when the decrement wraps.
pub proof fn lemma_increment_decrement(c: Counter)
    ensures
        spec_increment(spec_decrement(c)) == c,
{
    lemma_add_mod_noop_right(1, c - 1, counter_modulus());
    lemma_wrap_in_range(c as int);
}

/// Adding or subtracting zero leaves any counter unchanged.
pub proof fn lemma_zero_identity(c: Counter)
    ensures
        spec_add(c, 0) == c,
        spec_subtract(c, 0) == c,
{
    lemma_wrap_in_range(c as int);
}

/// Adding one is incrementing, and subtracting one is decrementing.
pub proof fn lemma_one_is_step(c: Counter)
    ensures
        spec_add(c, 1) == spec_increment(c),
        spec_subtract(c, 1) == spec_decrement(c),
{
}

/// Two additions in a row amount to one addition of the modular sum of
/// the two amounts.
pub proof fn lemma_add_chain(c: Counter, n: Counter, m: Counter)
    ensures
        spec_add(spec_add(c, n), m) == spec_add(c, wrap(n + m)),
{
    lemma_add_mod_noop_right(m as int, c + n, counter_modulus());
    lemma_add_mod_noop_right(c as int, n + m, counter_modulus());
}

/// Two subtractions in a row amount to one subtraction of the modular
/// sum of the two amounts.
pub proof fn lemma_subtract_chain(c: Counter, n: Counter, m: Counter)
    ensures
        spec_subtract(spec_subtract(c, n), m) == spec_subtract(c, wrap(n + m)),
{
    lemma_add_mod_noop_right(-(m as int), c - n, counter_modulus());
    lemma_sub_mod_noop_right(c as int, n + m, counter_modulus());
}

} // verus!
