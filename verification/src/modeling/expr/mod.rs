//! Expressions over variables, and the relation of a constraint.

use vstd::prelude::*;

pub mod lin_expr;
pub mod nonlin_expr;
pub mod product;
pub mod quad_expr;
pub mod sparse;

verus! {

/// The relation between the two sides of a constraint.
#[derive(Clone, Copy, Debug, PartialEq, Eq, Structural)]
pub enum GRBSense {
    LessEqual,
    Equal,
    GreaterEqual,
}

impl GRBSense {
    /// The character by which the engine knows the relation: `<`, `=`, `>`.
    pub open spec fn spec_grb_char(self) -> u8 {
        match self {
            GRBSense::LessEqual => 60u8,
            GRBSense::Equal => 61u8,
            GRBSense::GreaterEqual => 62u8,
        }
    }

    /// The relation as the ASCII byte that an engine call takes.
    pub fn to_grb_char(&self) -> (code: u8)
        ensures
            code == self.spec_grb_char(),
    {
        match self {
            GRBSense::LessEqual => 60u8,
            GRBSense::Equal => 61u8,
            GRBSense::GreaterEqual => 62u8,
        }
    }
}

} // verus!
