//! Pure counter operations over an unsigned 32-bit value.
//!
//! A counter is a plain `u32`. The six operations are total, deterministic
//! and side-effect free; a result out of range is defined by wraparound
//! modulo 2^32, never treated as an error. Each operation's contract pins
//! its result to the modular model `wrap`; the algebraic laws the
//! operations obey are proved in `laws`.

use vstd::prelude::*;

pub mod laws;

verus! {

use vstd::arithmetic::div_mod::lemma_small_mod;
use vstd::arithmetic::div_mod::lemma_mod_add_multiples_vanish;

/// A counter value: an unsigned 32-bit integer with wraparound arithmetic.
pub type Counter = u32;

/// The number of distinct counter values; all counter arithmetic is
/// performed modulo this.
pub open spec fn counter_modulus() -> int {
    0x1_0000_0000
}

/// The counter value that the unbounded integer `v` wraps to.
pub open spec fn wrap(v: int) -> Counter {
    (v % counter_modulus()) as Counter
}

/// What `add` returns: the modular sum of `c` and `n`.
pub open spec fn spec_add(c: Counter, n: Counter) -> Counter {
    wrap(c + n)
}

/// What `subtract` returns: the modular difference of `c` and `n`.
pub open spec fn spec_subtract(c: Counter, n: Counter) -> Counter {
    wrap(c - n)
}

/// What `increment` returns: the modular successor of `c`.
pub open spec fn spec_increment(c: Counter) -> Counter {
    wrap(c + 1)
}

/// What `decrement` returns: the modular predecessor of `c`.
pub open spec fn spec_decrement(c: Counter) -> Counter {
    wrap(c - 1)
}

/// A value already in counter range wraps to itself.
pub proof fn lemma_wrap_in_range(v: int)
    requires
        0 <= v < counter_modulus(),
    ensures
        wrap(v) == v,
{
    lemma_small_mod(v as nat, counter_modulus() as nat);
}

/// Wrapping is unchanged by shifting the argument up by the modulus.
pub proof fn lemma_wrap_shift(v: int)
    ensures
        wrap(v + counter_modulus()) == wrap(v),
{
    lemma_mod_add_multiples_vanish(v, counter_modulus());
}

/// Creates a new counter initialized to zero.
pub fn new_counter() -> (result: Counter)
    ensures
        result == 0,
{
    0
}

/// Increments a counter by one, wrapping on overflow.
pub fn increment(c: Counter) -> (result: Counter)
    ensures
        result == spec_increment(c),
{
    proof {
        lemma_wrapping_add_models_wrap(c, 1);
    }
    c.wrapping_add(1)
}

/// Decrements a counter by one, wrapping on underflow.
pub fn decrement(c: Counter) -> (result: Counter)
    ensures
        result == spec_decrement(c),
{
    proof {
        lemma_wrapping_sub_models_wrap(c, 1);
    }
    c.wrapping_sub(1)
}

/// Adds `n` to the counter, wrapping on overflow.
pub fn add(c: Counter, n: Counter) -> (result: Counter)
    ensures
        result == spec_add(c, n),
{
    proof {
        lemma_wrapping_add_models_wrap(c, n);
    }
    c.wrapping_add(n)
}

/// Subtracts `n` from the counter, wrapping on underflow.
pub fn subtract(c: Counter, n: Counter) -> (result: Counter)
    ensures
        result == spec_subtract(c, n),
{
    proof {
        lemma_wrapping_sub_models_wrap(c, n);
    }
    c.wrapping_sub(n)
}

/// Resets the counter to zero, whatever its value.
pub fn reset(_c: Counter) -> (result: Counter)
    ensures
        result == 0,
{
    0
}

/// The machine's wrapping addition computes the modular sum.
proof fn lemma_wrapping_add_models_wrap(x: Counter, y: Counter)
    ensures
        vstd::wrapping::u32_specs::wrapping_add(x, y) == wrap(x + y),
{
    if x + y < counter_modulus() {
        lemma_wrap_in_range(x + y);
    } else {
        lemma_wrap_shift(x + y - counter_modulus());
        lemma_wrap_in_range(x + y - counter_modulus());
    }
}

/// The machine's wrapping subtraction computes the modular difference.
proof fn lemma_wrapping_sub_models_wrap(x: Counter, y: Counter)
    ensures
        vstd::wrapping::u32_specs::wrapping_sub(x, y) == wrap(x - y),
{
    if x >= y {
        lemma_wrap_in_range(x - y);
    } else {
        lemma_wrap_shift(x - y);
        lemma_wrap_in_range(x - y + counter_modulus());
    }
}

} // verus!
