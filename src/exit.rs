//! Exiting the program, where the platform supports it.
use vstd::prelude::*;

verus! {

/// Ends the program.
pub trait Exiter {
    fn exit(&mut self);
}

} // verus!
