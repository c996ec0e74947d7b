//! Objects that take part in a model.

use vstd::prelude::*;
use crate::var::GRBVar;

pub mod builder;
pub mod expr;
pub mod genconstr;
pub mod objective;

verus! {

/// An object that the model has numbered. The number is the object's
/// position among the objects of its kind, in the order they were committed.
pub trait IsModelingObject {
    spec fn dense_index(&self) -> usize;

    fn index(&self) -> (index: usize)
        ensures
            index == self.dense_index(),
    ;
}

impl IsModelingObject for GRBVar {
    open spec fn dense_index(&self) -> usize {
        self.spec_index()
    }

    fn index(&self) -> (index: usize) {
        GRBVar::index(self)
    }
}

} // verus!
