//! Layer identifiers and their allocator.

use vstd::prelude::*;

verus! {

/// Identifier of a layer: unique within a session, never reused, and
/// ordered by the moment of issue.
#[derive(Debug, Clone, Copy, PartialEq, Eq, PartialOrd, Ord, Hash, Structural)]
pub struct Id(u32);

impl View for Id {
    type V = nat;

    /// The number that the identifier carries.
    closed spec fn view(&self) -> nat {
        self.0 as nat
    }
}

impl Id {
    /// The number that the identifier carries.
    pub fn value(&self) -> (n: u32)
        ensures
            n == self@,
    {
        self.0
    }
}

/// Issues identifiers in increasing order, starting at zero.
pub struct IdGenerator {
    next_id: u32,
}

impl IdGenerator {
    /// The number of the identifier that `generate` will issue next, which is
    /// also the count of identifiers issued so far.
    pub closed spec fn next(&self) -> nat {
        self.next_id as nat
    }

    pub fn new() -> (g: Self)
        ensures
            g.next() == 0,
    {
        Self { next_id: 0 }
    }

    /// Whether the generator has run out of identifiers.
    pub fn is_exhausted(&self) -> (b: bool)
        ensures
            b == (self.next() >= u32::MAX),
    {
        self.next_id == u32::MAX
    }

    /// Issues the next identifier. Every identifier issued earlier is smaller.
    pub fn generate(&mut self) -> (id: Id)
        requires
            old(self).next() < u32::MAX,
        ensures
            id@ == old(self).next(),
            final(self).next() == old(self).next() + 1,
    {
        let id = Id(self.next_id);
        self.next_id += 1;
        id
    }
}

} // verus!
