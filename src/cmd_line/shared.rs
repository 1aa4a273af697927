use std::marker::PhantomData;
use vstd::prelude::*;

verus! {

/// Identifies one argument added to a parser; `T` is the type of its value.
pub struct ArgId<T> {
    _phantom: PhantomData<T>,
    pub id: usize,
}

impl<T> ArgId<T> {
    /// The position of the argument among those added to its parser.
    pub closed spec fn index(&self) -> usize {
        self.id
    }

    pub fn new(id: usize) -> (r: Self)
        ensures
            r.index() == id,
    {
        ArgId { _phantom: PhantomData, id }
    }
}

} // verus!
