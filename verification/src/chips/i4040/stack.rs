//! The 4040's call stack: seven levels, strictly bounded.

use vstd::prelude::*;

verus! {

/// The number of levels.
pub const STACK_DEPTH: usize = 7;

/// Call stack of the 4040. Its view is the sequence of return
/// addresses, the oldest first; each has 12 bits.
#[derive(Debug)]
pub struct CallStack {
    stack: [u16; 7],
    /// The next free slot, 0 to 7.
    sp: usize,
}

impl View for CallStack {
    type V = Seq<u16>;

    closed spec fn view(&self) -> Seq<u16> {
        self.stack@.subrange(0, self.sp as int)
    }
}

impl CallStack {
    #[verifier::type_invariant]
    spec fn bounded(self) -> bool {
        &&& self.sp <= 7
        &&& forall|i: int| 0 <= i < self.sp ==> #[trigger] self.stack@[i] < 4096
    }

    /// An empty stack.
    pub fn new() -> (stack: CallStack)
        ensures
            stack@.len() == 0,
    {
        CallStack { stack: [0;7], sp: 0 }
    }

    /// The number of return addresses on the stack, at most 7.
    #[inline]
    pub fn depth(&self) -> (depth: usize)
        ensures
            depth == self@.len(),
            depth <= 7,
    {
        proof {
            use_type_invariant(self);
        }
        self.sp
    }

    /// Whether the stack holds 7 addresses.
    #[inline]
    pub fn is_full(&self) -> (full: bool)
        ensures
            full == (self@.len() == 7),
    {
        proof {
            use_type_invariant(self);
        }
        self.sp >= 7
    }

    /// Whether the stack is empty.
    #[inline]
    pub fn is_empty(&self) -> (empty: bool)
        ensures
            empty == (self@.len() == 0),
    {
        proof {
            use_type_invariant(self);
        }
        self.sp == 0
    }

    /// Pushes `addr` modulo 4096. On a full stack it fails with
    /// "stack_overflow" and leaves the stack as it is.
    pub fn push(&mut self, addr: u16) -> (result: Result<(), &'static str>)
        ensures
            old(self)@.len() < 7 ==> result is Ok && final(self)@ == old(self)@.push(addr % 4096),
            old(self)@.len() >= 7 ==> result is Err && result->Err_0@ == "stack_overflow"@ && final(self)@ == old(self)@,
    {
        proof {
            use_type_invariant(&*self);
        }
        if self.is_full() {
            return Err("stack_overflow");
        }
        let ghost before = self@;
        let ghost stack_before = self.stack@;
        let sp: usize = self.sp;
        let mut stack: [u16; 7] = self.stack;
        stack[sp] = addr % 4096;
        assert forall|i: int| 0 <= i < sp + 1 implies #[trigger] stack@[i] < 4096 by {
            if i < sp {
                assert(stack@[i] == stack_before[i]);
            }
        }
        *self = CallStack { stack, sp: sp + 1 };
        assert(self@ =~= before.push(addr % 4096));
        Ok(())
    }

    /// Pops the address pushed last. On an empty stack it fails with
    /// "stack_underflow".
    pub fn pop(&mut self) -> (result: Result<u16, &'static str>)
        ensures
            old(self)@.len() > 0 ==> result == Ok::<u16, &'static str>(old(self)@.last()) && final(self)@ == old(self)@.drop_last() && old(self)@.last() < 4096,
            old(self)@.len() == 0 ==> result is Err && result->Err_0@ == "stack_underflow"@ && final(self)@ == old(self)@,
    {
        proof {
            use_type_invariant(&*self);
        }
        if self.is_empty() {
            return Err("stack_underflow");
        }
        let ghost before = self@;
        let sp: usize = self.sp - 1;
        let stack: [u16; 7] = self.stack;
        let top: u16 = stack[sp];
        assert(top == before.last());
        *self = CallStack { stack, sp };
        assert(self@ =~= before.drop_last());
        Ok(top)
    }

    /// The address pushed last, if there is one.
    pub fn peek(&self) -> (top: Option<u16>)
        ensures
            top == (if self@.len() == 0 {
                None
            } else {
                Some(self@.last())
            }),
    {
        proof {
            use_type_invariant(self);
        }
        if self.is_empty() {
            None
        } else {
            Some(self.stack[self.sp - 1])
        }
    }
}

impl Clone for CallStack {
    fn clone(&self) -> (stack: CallStack)
        ensures
            stack@ == self@,
    {
        proof {
            use_type_invariant(self);
        }
        CallStack { stack: self.stack, sp: self.sp }
    }
}

impl Default for CallStack {
    fn default() -> (stack: CallStack)
        ensures
            stack@.len() == 0,
    {
        CallStack::new()
    }
}

/// A push followed by a pop gives back the address, modulo 4096, and
/// the stack as it was.
pub proof fn lemma_push_then_pop(stack: Seq<u16>, addr: u16)
    ensures
        stack.push((addr % 4096) as u16).last() == addr % 4096,
        stack.push((addr % 4096) as u16).drop_last() == stack,
{
    assert(stack.push((addr % 4096) as u16).drop_last() =~= stack);
}

} // verus!
