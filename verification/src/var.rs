//! Variable handles and variable types.

use vstd::prelude::*;

verus! {

/// The integrality type of a variable.
#[allow(clippy::upper_case_acronyms, non_camel_case_types)]
#[derive(Clone, Copy, Debug, PartialEq, Eq, Structural)]
pub enum GRBVarType {
    CONTINUOUS,
    BINARY,
    INTEGER,
    SEMICONT,
    SEMIINT,
}

impl GRBVarType {
    /// The character by which the engine knows the type: `C`, `B`, `I`, `S`
    /// and `N`, in the order of the variants.
    pub open spec fn spec_grb_type(self) -> u8 {
        match self {
            GRBVarType::CONTINUOUS => 67u8,
            GRBVarType::BINARY => 66u8,
            GRBVarType::INTEGER => 73u8,
            GRBVarType::SEMICONT => 83u8,
            GRBVarType::SEMIINT => 78u8,
        }
    }

    /// The type as the ASCII byte that an engine call takes.
    pub fn grb_type(&self) -> (code: u8)
        ensures
            code == self.spec_grb_type(),
    {
        match self {
            GRBVarType::CONTINUOUS => 67u8,
            GRBVarType::BINARY => 66u8,
            GRBVarType::INTEGER => 73u8,
            GRBVarType::SEMICONT => 83u8,
            GRBVarType::SEMIINT => 78u8,
        }
    }
}

/// A committed variable: the dense index that the model gave it.
#[derive(Clone, Copy, Debug, PartialEq, Eq, Structural)]
pub struct GRBVar {
    index: usize,
}

impl GRBVar {
    pub closed spec fn spec_index(self) -> usize {
        self.index
    }

    pub fn index(&self) -> (index: usize)
        ensures
            index == self.spec_index(),
    {
        self.index
    }

    pub fn new(index: usize) -> (var: GRBVar)
        ensures
            var.spec_index() == index,
    {
        GRBVar { index }
    }
}

} // verus!
