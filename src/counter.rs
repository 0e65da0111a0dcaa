//! The contract's state and its three operations.
use vstd::prelude::*;

use crate::event::Event;

verus! {

/// The number of distinct values a `u32` holds; increments wrap modulo it.
pub open spec fn modulus() -> int {
    0x1_0000_0000
}

/// The state that the contract stores: a single counter.
#[derive(Clone, Copy, Debug, PartialEq, Eq, Structural)]
pub struct Counter {
    pub value: u32,
}

impl Counter {
    /// What `read_value` returns on this state.
    pub open spec fn spec_read(self) -> u32 {
        self.value
    }

    /// The state after one `increment`.
    pub open spec fn spec_increment(self) -> Counter {
        Counter { value: ((self.value + 1) % modulus()) as u32 }
    }

    /// The state after `init(x)`: the old value is discarded.
    pub open spec fn spec_init(self, x: u32) -> Counter {
        Counter { value: x }
    }

    /// The state after `n` successive increments.
    pub open spec fn spec_increment_n(self, n: nat) -> Counter
        decreases n,
    {
        if n == 0 {
            self
        } else {
            self.spec_increment_n((n - 1) as nat).spec_increment()
        }
    }

    /// The state at module load: the counter holds zero.
    pub fn new() -> (c: Counter)
        ensures
            c.value == 0,
    {
        Counter { value: 0 }
    }

    /// Reads the value of the counter; the state is left as it is.
    pub fn read_value(&self) -> (r: u32)
        ensures
            r == self.spec_read(),
    {
        self.value
    }

    /// Adds one to the counter, wrapping from `u32::MAX` to zero.
    pub fn increment(&mut self)
        ensures
            *final(self) == old(self).spec_increment(),
    {
        self.value = self.value.wrapping_add(1);
    }

    /// Sets the counter to `value`, whatever it held before, and returns the
    /// event that announces the new value. Nothing stops a second call.
    pub fn init(&mut self, value: u32) -> (ev: Event)
        ensures
            *final(self) == old(self).spec_init(value),
            ev == Event::Init(value),
            ev.spec_topic() == "INIT"@,
            ev.spec_payload() == value,
    {
        self.value = value;
        Event::Init(value)
    }
}

/// After `n` increments from any state, the counter holds its old value plus
/// `n`, modulo 2^32.
pub proof fn lemma_increment_n_wraps(c: Counter, n: nat)
    ensures
        c.spec_increment_n(n).value == (c.value + n) % modulus(),
    decreases n,
{
    if n > 0 {
        lemma_increment_n_wraps(c, (n - 1) as nat);
        let k = (c.value + n - 1) % modulus();
        assert(((k + 1) % modulus()) == (c.value + n) % modulus()) by {
            vstd::arithmetic::div_mod::lemma_add_mod_noop(c.value + n - 1, 1, modulus());
        }
    }
}

/// Reading after `init(x)` gives exactly `x`, whatever the counter held.
pub proof fn lemma_read_after_init(c: Counter, x: u32)
    ensures
        c.spec_init(x).spec_read() == x,
{
}

/// Of two calls of `init`, the last one decides the value.
pub proof fn lemma_init_last_wins(c: Counter, x: u32, y: u32)
    ensures
        c.spec_init(x).spec_init(y) == c.spec_init(y),
        c.spec_init(x).spec_init(y).value == y,
{
}

} // verus!
