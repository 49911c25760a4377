use vstd::prelude::*;

verus! {

/// The number of return addresses the call stack can hold.
pub const STACK_SIZE: usize = 128;

/// The call stack: a fixed number of places for return addresses, and a
/// count of the places in use.
pub struct Stack {
    stack: [u16; 128],
    sp: u16,
}

impl View for Stack {
    type V = Seq<u16>;

    /// The return addresses of the calls under way, the latest one last.
    closed spec fn view(&self) -> Seq<u16> {
        self.stack@.take(self.sp as int)
    }
}

impl Stack {
    /// The count of the places in use is within the stack.
    #[verifier::type_invariant]
    spec fn within_capacity(self) -> bool {
        self.sp <= STACK_SIZE
    }

    /// An empty stack.
    pub fn new() -> (stack: Stack)
        ensures
            stack@ == Seq::<u16>::empty(),
    {
        Stack { stack: [0u16; 128], sp: 0 }
    }

    /// The number of return addresses on the stack.
    pub fn depth(&self) -> (depth: usize)
        ensures
            depth == self@.len(),
            depth <= STACK_SIZE,
    {
        proof {
            use_type_invariant(self);
        }
        self.sp as usize
    }

    /// Puts `value` on top of the stack.
    pub fn push(&mut self, value: u16)
        requires
            old(self)@.len() < STACK_SIZE,
        ensures
            final(self)@ == old(self)@.push(value),
    {
        proof {
            use_type_invariant(&*self);
        }
        self.stack[self.sp as usize] = value;
        self.sp += 1;
    }

    /// Takes the top off the stack.
    pub fn pop(&mut self) -> (value: u16)
        requires
            old(self)@.len() > 0,
        ensures
            value == old(self)@.last(),
            final(self)@ == old(self)@.drop_last(),
    {
        proof {
            use_type_invariant(&*self);
        }
        let value = self.stack[(self.sp - 1) as usize];
        self.sp -= 1;
        value
    }
}

impl Default for Stack {
    fn default() -> (stack: Stack)
        ensures
            stack@ == Seq::<u16>::empty(),
    {
        Stack::new()
    }
}

} // verus!
