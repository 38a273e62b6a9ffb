//! The pluggable CSPRNG capability: the minimal operation set any
//! randomness source must implement to serve security-critical
//! generation, together with a bounded deterministic provider and a
//! generic caller that enforces the exhaustion policy.
//!
//! A provider implements the two operations for its own state type, so a
//! state is usable only through the operations it was constructed with:
//! no code path can pair the state of one provider with the operations
//! of another.

use vstd::prelude::*;
use crate::uint128::Uint128;

verus! {

/// The capability contract of a cryptographically-secure random
/// generator.  `remaining()` is the abstract count of bytes the
/// generator can still produce; both operations are specified against
/// it.  Nothing is promised of the produced bytes themselves.
pub trait Csprng {
    /// Abstract model: how many bytes this generator can still produce
    /// before exhaustion.
    spec fn remaining(&self) -> nat;

    /// Upper bound on the bytes still producible before exhaustion.
    /// Read-only: it may be called any number of times without changing
    /// the state.
    fn remaining_bytes(&self) -> (r: Uint128)
        ensures
            r.value() as nat == self.remaining(),
    ;

    /// Writes up to `byte_count` random bytes into the front of the
    /// caller-supplied buffer and returns the number actually produced:
    /// the full request if the remaining capacity suffices, the whole
    /// remaining capacity otherwise.  A request for zero bytes is a
    /// no-op.  Bytes beyond the returned count are not written, and must
    /// not be treated as valid output by either side.
    fn next_bytes(&mut self, byte_array: &mut Vec<u8>, byte_count: usize) -> (produced: usize)
        requires
            byte_count <= old(byte_array).len(),
        ensures
            produced as int == if byte_count as int <= old(self).remaining() {
                byte_count as int
            } else {
                old(self).remaining() as int
            },
            final(self).remaining() as int == old(self).remaining() - produced,
            final(byte_array)@.len() == old(byte_array)@.len(),
            forall|i: int|
                produced <= i < final(byte_array)@.len() ==> final(byte_array)@[i] == old(
                    byte_array,
                )@[i],
    ;
}

/// A bounded deterministic provider: it produces a fixed budget of bytes
/// from a running counter, then is exhausted.  It exercises the
/// capability contract exactly — exhaustion accounting included — but
/// its output is a predictable sequence, of no cryptographic worth.
pub struct CounterCsprng {
    budget: usize,
    counter: u8,
}

impl CounterCsprng {
    /// A generator able to produce exactly `budget` bytes.
    pub fn new(budget: usize) -> (r: CounterCsprng)
        ensures
            r.remaining() == budget as nat,
    {
        CounterCsprng { budget, counter: 0 }
    }
}

impl Csprng for CounterCsprng {
    closed spec fn remaining(&self) -> nat {
        self.budget as nat
    }

    fn remaining_bytes(&self) -> (r: Uint128) {
        Uint128::from_u128(self.budget as u128)
    }

    fn next_bytes(&mut self, byte_array: &mut Vec<u8>, byte_count: usize) -> (produced: usize) {
        let n = if byte_count <= self.budget {
            byte_count
        } else {
            self.budget
        };
        let mut i: usize = 0;
        while i < n
            invariant
                i <= n,
                n <= byte_array@.len(),
                self.budget == old(self).budget,
                byte_array@.len() == old(byte_array)@.len(),
                forall|j: int|
                    i <= j < byte_array@.len() ==> byte_array@[j] == old(byte_array)@[j],
            decreases n - i,
        {
            byte_array.set(i, self.counter);
            self.counter = if self.counter == 255 {
                0
            } else {
                self.counter + 1
            };
            i = i + 1;
        }
        self.budget = self.budget - n;
        n
    }
}

/// Draws exactly `byte_count` bytes through the capability, or refuses.
/// Exhaustion is signalled only by a short return from `next_bytes`, and
/// a caller must abort the cryptographic operation rather than proceed
/// with insufficient randomness; this caller therefore checks the
/// remaining capacity first and draws only when the full request can be
/// served.  On refusal the generator and the buffer are untouched.
pub fn try_fill_exact<C: Csprng>(source: &mut C, byte_array: &mut Vec<u8>, byte_count: usize) -> (ok:
    bool)
    requires
        byte_count <= old(byte_array).len(),
    ensures
        ok <==> byte_count as nat <= old(source).remaining(),
        ok ==> final(source).remaining() as int == old(source).remaining() - byte_count,
        !ok ==> *final(source) == *old(source),
        !ok ==> final(byte_array)@ == old(byte_array)@,
        final(byte_array)@.len() == old(byte_array)@.len(),
        forall|i: int|
            byte_count <= i < final(byte_array)@.len() ==> final(byte_array)@[i] == old(
                byte_array,
            )@[i],
{
    let available = source.remaining_bytes().to_u128();
    if (byte_count as u128) > available {
        return false;
    }
    let _produced = source.next_bytes(byte_array, byte_count);
    true
}

} // verus!
