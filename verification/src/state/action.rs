//! Actions, which change a state, and the queue of actions waiting to be applied.

use vstd::prelude::*;

verus! {

/// A change to a state of type `Self::State`, described by `spec_reduce`.
pub trait Action {
    type State;

    /// The state after this action, from the state before it.
    spec fn spec_reduce(&self, state: Self::State) -> Self::State;

    fn name(&self) -> &'static str;

    fn reduce(&self, state: &mut Self::State)
        ensures
            *final(state) == self.spec_reduce(*old(state)),
    ;
}

/// The state after applying `actions` to `state`, first to last.
pub open spec fn apply_all<A: Action>(actions: Seq<A>, state: A::State) -> A::State
    decreases actions.len(),
{
    if actions.len() == 0 {
        state
    } else {
        actions.last().spec_reduce(apply_all(actions.drop_last(), state))
    }
}

/// The actions waiting for the next flush, oldest first.
pub struct Next<A> {
    items: Vec<A>,
    capacity: usize,
}

impl<A> View for Next<A> {
    type V = Seq<A>;

    closed spec fn view(&self) -> Seq<A> {
        self.items@
    }
}

impl<A> Next<A> {
    /// The room reserved for waiting actions.
    pub closed spec fn spec_capacity(&self) -> usize {
        self.capacity
    }

    /// An empty queue with room for `capacity` actions reserved.
    pub fn with_capacity(capacity: usize) -> (n: Self)
        ensures
            n@ == Seq::<A>::empty(),
            n.spec_capacity() == capacity,
    {
        Next { items: Vec::new(), capacity }
    }

    pub fn capacity(&self) -> (c: usize)
        ensures
            c == self.spec_capacity(),
    {
        self.capacity
    }

    /// Queues `action` after the actions already waiting.
    pub fn dispatch(&mut self, action: A)
        ensures
            final(self)@ == old(self)@.push(action),
            final(self).spec_capacity() == old(self).spec_capacity(),
    {
        self.items.push(action);
    }

    pub fn len(&self) -> (n: usize)
        ensures
            n == self@.len(),
    {
        self.items.len()
    }

    pub fn is_empty(&self) -> (r: bool)
        ensures
            r == (self@.len() == 0),
    {
        self.items.len() == 0
    }

    /// Takes every waiting action, leaving the queue empty.
    pub fn drain(&mut self) -> (taken: Vec<A>)
        ensures
            taken@ == old(self)@,
            final(self)@ == Seq::<A>::empty(),
            final(self).spec_capacity() == old(self).spec_capacity(),
    {
        let mut taken: Vec<A> = Vec::new();
        std::mem::swap(&mut taken, &mut self.items);
        taken
    }
}

} // verus!
