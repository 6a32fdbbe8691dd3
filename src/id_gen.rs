use vstd::prelude::*;

verus! {

/// Issues the ids of one node's outgoing messages: 1, 2, 3, ... in turn.
/// Each node owns its own generator; it is never reset or shared.
pub struct IdGenerator {
    n: u32,
}

impl View for IdGenerator {
    /// How many ids have been issued so far, which is also the last one issued.
    type V = nat;

    closed spec fn view(&self) -> nat {
        self.n as nat
    }
}

impl IdGenerator {
    /// The largest number of ids one generator can issue.
    pub open spec fn capacity() -> nat {
        u32::MAX as nat
    }

    /// A generator that has issued nothing yet.
    pub fn new() -> (r: Self)
        ensures
            r@ == 0,
    {
        IdGenerator { n: 0 }
    }

    /// How many more ids can be issued.
    pub fn remaining(&self) -> (r: u32)
        ensures
            r == Self::capacity() - self@,
            self@ <= Self::capacity(),
    {
        u32::MAX - self.n
    }

    /// Issues the next id: one more than the last one issued.
    pub fn next_id(&mut self) -> (r: u32)
        requires
            old(self)@ < Self::capacity(),
        ensures
            final(self)@ == old(self)@ + 1,
            r == final(self)@,
    {
        self.n = self.n + 1;
        self.n
    }
}

} // verus!
