use vstd::prelude::*;

verus! {

/// The number of return addresses the call stack can hold.
pub const STACK_LIMIT: usize = 16;

/// Bounded stack of return addresses for subroutine call and return.
///
/// Pushing onto a full stack and popping from an empty stack are refused and
/// leave the stack unchanged; the interpreter turns those refusals into the
/// fatal `StackOverflow` and `StackUnderflow` faults.
pub struct CallStack {
    pub slots: Vec<u16>,
}

impl CallStack {
    pub open spec fn wf(self) -> bool {
        self.slots@.len() <= 16
    }

    pub fn new() -> (r: CallStack)
        ensures
            r.wf(),
            r.slots@ == Seq::<u16>::empty(),
    {
        CallStack { slots: Vec::new() }
    }

    /// Pushes a return address; fails (returning `false`) exactly when the
    /// stack already holds sixteen entries.
    pub fn push_addr(&mut self, addr: u16) -> (ok: bool)
        requires
            old(self).wf(),
        ensures
            final(self).wf(),
            ok == (old(self).slots@.len() < 16),
            ok ==> final(self).slots@ == old(self).slots@.push(addr),
            !ok ==> final(self).slots@ == old(self).slots@,
    {
        if self.slots.len() < STACK_LIMIT {
            self.slots.push(addr);
            true
        } else {
            false
        }
    }

    /// Pops the most recently pushed return address; `None` exactly when the
    /// stack is empty.
    pub fn pop_addr(&mut self) -> (r: Option<u16>)
        requires
            old(self).wf(),
        ensures
            final(self).wf(),
            old(self).slots@.len() == 0 ==> r is None && final(self).slots@ == old(self).slots@,
            old(self).slots@.len() > 0 ==> r == Some(old(self).slots@.last())
                && final(self).slots@ == old(self).slots@.drop_last(),
    {
        self.slots.pop()
    }

    pub fn depth(&self) -> (r: usize)
        ensures
            r == self.slots@.len(),
    {
        self.slots.len()
    }
}

} // verus!
