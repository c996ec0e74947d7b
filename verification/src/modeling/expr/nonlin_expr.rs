//! The operations of a nonlinear expression tree.

use vstd::prelude::*;

verus! {

/// The operation at a node of a nonlinear expression tree.
#[derive(Clone, Copy, Debug, PartialEq, Eq, Structural)]
pub enum GRBOpCode {
    Constant,
    Variable,
    Plus,
    Minus,
    Multiply,
    Divide,
    Uminus,
    Square,
    Sqrt,
    Sin,
    Cos,
    Tan,
    Pow,
    Exp,
    Log,
    Log2,
    Log10,
    Logistic,
    Tanh,
    Signpow,
}

impl GRBOpCode {
    /// The number by which the engine knows the operation.
    pub open spec fn spec_code(self) -> i32 {
        match self {
            GRBOpCode::Constant => 0i32,
            GRBOpCode::Variable => 1i32,
            GRBOpCode::Plus => 2i32,
            GRBOpCode::Minus => 3i32,
            GRBOpCode::Multiply => 4i32,
            GRBOpCode::Divide => 5i32,
            GRBOpCode::Uminus => 6i32,
            GRBOpCode::Square => 7i32,
            GRBOpCode::Sqrt => 8i32,
            GRBOpCode::Sin => 9i32,
            GRBOpCode::Cos => 10i32,
            GRBOpCode::Tan => 11i32,
            GRBOpCode::Pow => 12i32,
            GRBOpCode::Exp => 13i32,
            GRBOpCode::Log => 14i32,
            GRBOpCode::Log2 => 15i32,
            GRBOpCode::Log10 => 16i32,
            GRBOpCode::Logistic => 17i32,
            GRBOpCode::Tanh => 18i32,
            GRBOpCode::Signpow => 19i32,
        }
    }

    pub fn code(self) -> (code: i32)
        ensures
            code == self.spec_code(),
    {
        match self {
            GRBOpCode::Constant => 0,
            GRBOpCode::Variable => 1,
            GRBOpCode::Plus => 2,
            GRBOpCode::Minus => 3,
            GRBOpCode::Multiply => 4,
            GRBOpCode::Divide => 5,
            GRBOpCode::Uminus => 6,
            GRBOpCode::Square => 7,
            GRBOpCode::Sqrt => 8,
            GRBOpCode::Sin => 9,
            GRBOpCode::Cos => 10,
            GRBOpCode::Tan => 11,
            GRBOpCode::Pow => 12,
            GRBOpCode::Exp => 13,
            GRBOpCode::Log => 14,
            GRBOpCode::Log2 => 15,
            GRBOpCode::Log10 => 16,
            GRBOpCode::Logistic => 17,
            GRBOpCode::Tanh => 18,
            GRBOpCode::Signpow => 19,
        }
    }
}

} // verus!
