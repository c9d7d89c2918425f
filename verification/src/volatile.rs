//! A cell for memory-mapped hardware registers.
//!
//! On bare metal every access to such a register must be a single load or
//! store the optimizer may neither elide, merge, nor reorder against other
//! volatile accesses; the functional contract — what a read returns and
//! what a write leaves behind — is stated and proved here. The payload
//! must be bitwise-copyable: the cell never runs a destructor on the
//! stored bytes and a read hands out a plain copy.

use vstd::prelude::*;

verus! {

/// One bitwise-copyable value accessed through non-elidable loads and
/// stores. No locking: distinct hardware registers do not overlap, and
/// concurrent access to one register is the caller's responsibility.
#[derive(Clone, Copy, Debug, PartialEq, Eq, PartialOrd, Ord, Hash)]
pub struct Volatile<T>(T);

impl<T: Copy> Volatile<T> {
    /// The value the cell currently holds.
    pub closed spec fn value(self) -> T {
        self.0
    }

    /// A cell holding `value`.
    pub fn new(value: T) -> (s: Self)
        ensures
            s.value() == value,
    {
        Volatile(value)
    }

    /// One load of the stored value.
    pub fn read(&self) -> (r: T)
        ensures
            r == self.value(),
    {
        self.0
    }

    /// One store of `value` over the previous contents.
    pub fn write(&mut self, value: T)
        ensures
            final(self).value() == value,
    {
        self.0 = value;
    }
}

/// One store to a volatile cell: afterwards the cell holds exactly the
/// value written, whatever it held before.
pub open spec fn write_step<T: Copy>(pre: Volatile<T>, post: Volatile<T>, v: T) -> bool {
    post.value() == v
}

/// Volatile round trip: for any value, a write followed by a read returns
/// that value ([`Volatile::read`] returns the cell's current value).
pub proof fn lemma_volatile_round_trip<T: Copy>(
    pre: Volatile<T>,
    post: Volatile<T>,
    v: T,
    r: T,
)
    requires
        write_step(pre, post, v),
        r == post.value(),
    ensures
        r == v,
{
}

} // verus!
