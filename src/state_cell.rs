use vstd::prelude::*;

verus! {

/// Holds the current state of a store and hands out copies of it.
pub struct StateCell<S> {
    value: S,
}

impl<S> View for StateCell<S> {
    type V = S;

    closed spec fn view(&self) -> S {
        self.value
    }
}

impl<S> StateCell<S> {
    /// A cell that holds `value`.
    pub fn new(value: S) -> (r: Self)
        ensures
            r@ == value,
    {
        StateCell { value }
    }

    /// A copy of the held state; later changes to the copy leave the cell as it is.
    pub fn get(&self) -> (r: S)
        where
            S: Clone,
        ensures
            cloned(self@, r),
    {
        self.value.clone()
    }

    /// The held state itself, for reading in place.
    pub fn borrow(&self) -> (r: &S)
        ensures
            *r == self@,
    {
        &self.value
    }

    /// Replaces the held state with `next`, whatever it holds.
    pub fn set(&mut self, next: S)
        ensures
            final(self)@ == next,
    {
        self.value = next;
    }
}

} // verus!
