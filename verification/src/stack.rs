use vstd::prelude::*;

verus! {

/// Number of return addresses the call stack holds.
pub const STACK_SIZE: usize = 16;

/// The call stack: `stack[0..pointer]` are the return addresses, the last one
/// on top.
pub struct Stack {
    stack: [u16; 16],
    pointer: usize,
}

impl View for Stack {
    type V = Seq<u16>;

    /// The return addresses, bottom first.
    closed spec fn view(&self) -> Seq<u16> {
        self.stack@.subrange(0, self.pointer as int)
    }
}

impl Stack {
    /// The pointer stays within the storage.
    #[verifier::type_invariant]
    spec fn pointer_in_bounds(self) -> bool {
        self.pointer <= STACK_SIZE
    }

    /// An empty stack.
    pub fn new() -> (r: Stack)
        ensures
            r@ == Seq::<u16>::empty(),
    {
        let r = Stack { stack: [0u16; 16], pointer: 0 };
        assert(r@ =~= Seq::<u16>::empty());
        r
    }

    /// Number of addresses on the stack.
    pub fn pointer(&self) -> (r: usize)
        ensures
            r == self@.len(),
    {
        proof {
            use_type_invariant(self);
        }
        self.pointer
    }

    /// The `k`-th address from the bottom.
    pub fn entry(&self, k: usize) -> (r: u16)
        requires
            k < self@.len(),
        ensures
            r == self@[k as int],
    {
        proof {
            use_type_invariant(self);
        }
        self.stack[k]
    }

    /// Put `value` on top of the stack.
    pub fn push(&mut self, value: u16)
        requires
            old(self)@.len() < STACK_SIZE,
        ensures
            final(self)@ == old(self)@.push(value),
    {
        proof {
            use_type_invariant(&*self);
        }
        self.stack[self.pointer] = value;
        self.pointer = self.pointer + 1;
        assert(self@ =~= old(self)@.push(value));
    }

    /// Take the value on top of the stack.
    pub fn pop(&mut self) -> (r: u16)
        requires
            old(self)@.len() > 0,
        ensures
            r == old(self)@.last(),
            final(self)@ == old(self)@.drop_last(),
    {
        proof {
            use_type_invariant(&*self);
        }
        self.pointer = self.pointer - 1;
        assert(self@ =~= old(self)@.drop_last());
        self.stack[self.pointer]
    }
}

} // verus!
