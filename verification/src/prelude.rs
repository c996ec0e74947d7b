//! The items that most callers need, under one path.

pub use crate::attributes::{
    attr_result, element_index, list_indices, Attribute, GRBCharAttr, GRBDblAttr, GRBIntAttr,
    GRBStrAttr,
};
pub use crate::callback::{
    select_values, shim_status, GRBCallbackCodes, GRBCallbackContext, GRB_WHAT_DOUBLE,
    GRB_WHAT_INT, GRB_WHAT_STRING,
};
pub use crate::constr::{
    ConstrArgs, ConstrCall, Expr, GRBConstr, QConstrArgs, TempConstr, TempQConstr,
};
pub use crate::error::{check_err, get_error, GRBError, PreconditionViolation};
pub use crate::model::{GRBModel, GRBModelSense};
pub use crate::modeling::builder::var::{AddVarArgs, GRBVarBuilder};
pub use crate::modeling::expr::lin_expr::LinExpr;
pub use crate::modeling::expr::nonlin_expr::GRBOpCode;
pub use crate::modeling::expr::quad_expr::QuadExpr;
pub use crate::modeling::expr::sparse::{IndexPair, SparseTerms, TermKey};
pub use crate::modeling::expr::GRBSense;
pub use crate::modeling::genconstr::{GenConstr, GenConstrArgs};
pub use crate::modeling::objective::EngineCall;
pub use crate::modeling::IsModelingObject;
pub use crate::var::{GRBVar, GRBVarType};
