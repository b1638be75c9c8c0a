//! Reading one part of a state.

use vstd::prelude::*;
use std::marker::PhantomData;

verus! {

/// A part of a state that can be read out of it.
pub trait Selector<S>: Sized {
    /// The part of `state` that this selector reads.
    spec fn spec_select(state: S) -> Self;

    fn select(state: &S) -> (r: &Self)
        ensures
            *r == Self::spec_select(*state),
    ;
}

/// A reading of one part of a state, taken when the state was selected.
pub struct Select<'a, S, T> {
    state: &'a S,
    marker: PhantomData<T>,
}

impl<'a, S, T> Select<'a, S, T> {
    /// The state that was read.
    pub closed spec fn source(&self) -> S {
        *self.state
    }

    pub fn from(state: &'a S) -> (s: Self)
        ensures
            s.source() == *state,
    {
        Select { state, marker: PhantomData }
    }
}

impl<'a, S, T: Selector<S>> Select<'a, S, T> {
    /// The selected part.
    pub fn get(&self) -> (r: &T)
        ensures
            *r == T::spec_select(self.source()),
    {
        T::select(self.state)
    }
}

impl<'a, S, T: Selector<S>> std::ops::Deref for Select<'a, S, T> {
    type Target = T;

    fn deref(&self) -> (r: &T)
        ensures
            *r == T::spec_select(self.source()),
    {
        T::select(self.state)
    }
}

} // verus!
