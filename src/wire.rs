//! References to the slots of an assignment vector.
use vstd::prelude::*;

verus! {

/// A slot of the assignment `(1, x, w)`: the constant, a public value, or a
/// private value, each namespace indexed from zero.
#[derive(Debug, Clone, Copy, PartialEq, Eq, Structural)]
pub enum Wire {
    /// the constant slot
    One,
    /// public input and output
    Instance(usize),
    /// private input and intermediate value
    Witness(usize),
}

impl Wire {
    pub fn instance(index: usize) -> (r: Self)
        ensures
            r == Wire::Instance(index),
    {
        Wire::Instance(index)
    }

    pub fn witness(index: usize) -> (r: Self)
        ensures
            r == Wire::Witness(index),
    {
        Wire::Witness(index)
    }

    pub fn one() -> (r: Self)
        ensures
            r == Wire::One,
    {
        Wire::One
    }
}

} // verus!
