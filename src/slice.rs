use vstd::prelude::*;

verus! {

/// A run of values handed across the boundary, held as the callee's own copy
/// so that nothing of the caller's memory is kept past the call.
pub struct FFISlice<T> {
    items: Vec<T>,
}

impl<T> View for FFISlice<T> {
    type V = Seq<T>;

    closed spec fn view(&self) -> Seq<T> {
        self.items@
    }
}

impl<T> FFISlice<T> {
    /// A sequence holding `items`, in order; an empty one is valid.
    pub fn new(items: Vec<T>) -> (r: FFISlice<T>)
        ensures
            r@ == items@,
    {
        FFISlice { items }
    }

    /// The values, in order.
    pub fn as_slice(&self) -> (r: &[T])
        ensures
            r@ == self@,
    {
        self.items.as_slice()
    }

    /// How many values there are.
    pub fn len(&self) -> (r: usize)
        ensures
            r == self@.len(),
    {
        self.items.len()
    }
}

} // verus!
