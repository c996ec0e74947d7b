//! General constraints: a result variable tied to a function of other
//! variables, and the arguments of the call that adds each kind.

use vstd::prelude::*;
use crate::attributes::{element_index, indices_of, target_indices, targets_fit};
use crate::constr::{ascending, indices_fit, parallel_arrays, ConstrArgs, TempConstr};
use crate::error::PreconditionViolation;
use crate::modeling::builder::var::text_of;
use crate::modeling::expr::nonlin_expr::GRBOpCode;
use crate::var::GRBVar;

verus! {

/// A general constraint that is not yet part of a model.
#[derive(Debug)]
pub enum GenConstr {
    /// `resvar` is the greatest of `vars` and `constant`.
    Max { resvar: GRBVar, vars: Vec<GRBVar>, constant: i64 },
    /// `resvar` is the least of `vars` and `constant`.
    Min { resvar: GRBVar, vars: Vec<GRBVar>, constant: i64 },
    /// `resvar` is the absolute value of `argvar`.
    Abs { resvar: GRBVar, argvar: GRBVar },
    /// `resvar` is 1 where all of `vars` are 1, and 0 otherwise.
    And { resvar: GRBVar, vars: Vec<GRBVar> },
    /// `resvar` is 1 where one of `vars` is 1, and 0 otherwise.
    Or { resvar: GRBVar, vars: Vec<GRBVar> },
    /// `resvar` is the norm of `vars`; `which` picks the norm.
    Norm { resvar: GRBVar, vars: Vec<GRBVar>, which: i64 },
    /// `yvar` is the piecewise-linear function of `xvar` through the points
    /// `xpts`, `ypts`.
    Pwl { xvar: GRBVar, yvar: GRBVar, xpts: Vec<i64>, ypts: Vec<i64> },
    /// Where the binary variable `binvar` takes the value `binval`, the
    /// linear constraint holds.
    Indicator { binvar: GRBVar, binval: i32, constr: TempConstr },
    /// `resvar` is the value of the expression tree whose nodes are given
    /// by `opcode`, `data` and `parent`, position by position.
    Nl { resvar: GRBVar, opcode: Vec<GRBOpCode>, data: Vec<i64>, parent: Vec<i32> },
}

/// The arguments of the engine call that adds one general constraint.
#[derive(Debug)]
pub enum GenConstrArgs {
    Max { resvar: i32, vars: Vec<i32>, constant: i64 },
    Min { resvar: i32, vars: Vec<i32>, constant: i64 },
    Abs { resvar: i32, argvar: i32 },
    And { resvar: i32, vars: Vec<i32> },
    Or { resvar: i32, vars: Vec<i32> },
    Norm { resvar: i32, vars: Vec<i32>, which: i64 },
    Pwl { xvar: i32, yvar: i32, xpts: Vec<i64>, ypts: Vec<i64> },
    Indicator { binvar: i32, binval: i32, constr: ConstrArgs },
    Nl { resvar: i32, opcode: Vec<i32>, data: Vec<i64>, parent: Vec<i32> },
}

/// The variable index is one that the engine can take.
pub open spec fn var_fits(var: GRBVar) -> bool {
    var.spec_index() <= i32::MAX
}

/// `index` is the index of `var`.
pub open spec fn is_index(var: GRBVar, index: i32) -> bool {
    index as int == var.spec_index() as int
}

/// `codes` holds the number of each operation, position by position.
pub open spec fn codes_of(ops: Seq<GRBOpCode>, codes: Seq<i32>) -> bool {
    &&& codes.len() == ops.len()
    &&& forall|t: int| 0 <= t < ops.len() ==> (#[trigger] codes[t]) == ops[t].spec_code()
}

/// `args` holds the linear constraint `c` as the engine takes it.
pub open spec fn is_row(c: TempConstr, args: ConstrArgs) -> bool {
    &&& parallel_arrays(c.spec_entries(), args.inds@, args.coeffs@)
    &&& c.wf() ==> ascending(args.inds@)
    &&& args.sense == c.spec_sense().spec_grb_char()
    &&& args.rhs == c.spec_rhs()
    &&& text_of(args.name) == c.spec_name()
}

impl GenConstr {
    /// What is wrong with the constraint, if anything: lists that belong
    /// together and differ in length, a trigger value other than 0 and 1,
    /// or a variable index beyond what the engine can take, looked for in
    /// this order.
    pub open spec fn violation(self) -> Option<PreconditionViolation> {
        match self {
            GenConstr::Max { resvar, vars, constant } => if var_fits(resvar) && targets_fit(vars@) {
                None
            } else {
                Some(PreconditionViolation::IndexOutOfRange)
            },
            GenConstr::Min { resvar, vars, constant } => if var_fits(resvar) && targets_fit(vars@) {
                None
            } else {
                Some(PreconditionViolation::IndexOutOfRange)
            },
            GenConstr::Abs { resvar, argvar } => if var_fits(resvar) && var_fits(argvar) {
                None
            } else {
                Some(PreconditionViolation::IndexOutOfRange)
            },
            GenConstr::And { resvar, vars } => if var_fits(resvar) && targets_fit(vars@) {
                None
            } else {
                Some(PreconditionViolation::IndexOutOfRange)
            },
            GenConstr::Or { resvar, vars } => if var_fits(resvar) && targets_fit(vars@) {
                None
            } else {
                Some(PreconditionViolation::IndexOutOfRange)
            },
            GenConstr::Norm { resvar, vars, which } => if var_fits(resvar) && targets_fit(vars@) {
                None
            } else {
                Some(PreconditionViolation::IndexOutOfRange)
            },
            GenConstr::Pwl { xvar, yvar, xpts, ypts } => if xpts@.len() != ypts@.len() {
                Some(PreconditionViolation::LengthMismatch)
            } else if var_fits(xvar) && var_fits(yvar) {
                None
            } else {
                Some(PreconditionViolation::IndexOutOfRange)
            },
            GenConstr::Indicator { binvar, binval, constr } => if binval != 0 && binval != 1 {
                Some(PreconditionViolation::InvalidTriggerValue)
            } else if var_fits(binvar) && indices_fit(constr.spec_entries()) {
                None
            } else {
                Some(PreconditionViolation::IndexOutOfRange)
            },
            GenConstr::Nl { resvar, opcode, data, parent } => if opcode@.len() != data@.len()
                || opcode@.len() != parent@.len() {
                Some(PreconditionViolation::LengthMismatch)
            } else if var_fits(resvar) {
                None
            } else {
                Some(PreconditionViolation::IndexOutOfRange)
            },
        }
    }

    /// `args` is the constraint as the engine takes it: the same kind, each
    /// variable by its index, every scalar and list as it is.
    pub open spec fn is_args(self, args: GenConstrArgs) -> bool {
        match (self, args) {
            (
                GenConstr::Max { resvar, vars, constant },
                GenConstrArgs::Max { resvar: r, vars: v, constant: c },
            ) => is_index(resvar, r) && indices_of(vars@, v@) && c == constant,
            (
                GenConstr::Min { resvar, vars, constant },
                GenConstrArgs::Min { resvar: r, vars: v, constant: c },
            ) => is_index(resvar, r) && indices_of(vars@, v@) && c == constant,
            (GenConstr::Abs { resvar, argvar }, GenConstrArgs::Abs { resvar: r, argvar: a }) => {
                is_index(resvar, r) && is_index(argvar, a)
            },
            (GenConstr::And { resvar, vars }, GenConstrArgs::And { resvar: r, vars: v }) => {
                is_index(resvar, r) && indices_of(vars@, v@)
            },
            (GenConstr::Or { resvar, vars }, GenConstrArgs::Or { resvar: r, vars: v }) => {
                is_index(resvar, r) && indices_of(vars@, v@)
            },
            (
                GenConstr::Norm { resvar, vars, which },
                GenConstrArgs::Norm { resvar: r, vars: v, which: w },
            ) => is_index(resvar, r) && indices_of(vars@, v@) && w == which,
            (
                GenConstr::Pwl { xvar, yvar, xpts, ypts },
                GenConstrArgs::Pwl { xvar: x, yvar: y, xpts: xs, ypts: ys },
            ) => is_index(xvar, x) && is_index(yvar, y) && xs@ == xpts@ && ys@ == ypts@,
            (
                GenConstr::Indicator { binvar, binval, constr },
                GenConstrArgs::Indicator { binvar: b, binval: v, constr: row },
            ) => is_index(binvar, b) && v == binval && is_row(constr, row),
            (
                GenConstr::Nl { resvar, opcode, data, parent },
                GenConstrArgs::Nl { resvar: r, opcode: o, data: d, parent: p },
            ) => is_index(resvar, r) && codes_of(opcode@, o@) && d@ == data@ && p@ == parent@,
            _ => false,
        }
    }

    /// Ends the building: turns the constraint into the arguments of the
    /// call that adds it, or names what is wrong with it.
    pub fn add_to_model(self) -> (result: Result<GenConstrArgs, PreconditionViolation>)
        ensures
            self.violation() matches Some(v) ==> result == Err::<
                GenConstrArgs,
                PreconditionViolation,
            >(v),
            self.violation() is None ==> result is Ok && self.is_args(result.unwrap()),
    {
        let out_of_range = Err(PreconditionViolation::IndexOutOfRange);
        match self {
            GenConstr::Max { resvar, vars, constant } => {
                match (element_index(&resvar), target_indices(&vars)) {
                    (Some(resvar), Some(vars)) => Ok(GenConstrArgs::Max { resvar, vars, constant }),
                    _ => out_of_range,
                }
            },
            GenConstr::Min { resvar, vars, constant } => {
                match (element_index(&resvar), target_indices(&vars)) {
                    (Some(resvar), Some(vars)) => Ok(GenConstrArgs::Min { resvar, vars, constant }),
                    _ => out_of_range,
                }
            },
            GenConstr::Abs { resvar, argvar } => {
                match (element_index(&resvar), element_index(&argvar)) {
                    (Some(resvar), Some(argvar)) => Ok(GenConstrArgs::Abs { resvar, argvar }),
                    _ => out_of_range,
                }
            },
            GenConstr::And { resvar, vars } => {
                match (element_index(&resvar), target_indices(&vars)) {
                    (Some(resvar), Some(vars)) => Ok(GenConstrArgs::And { resvar, vars }),
                    _ => out_of_range,
                }
            },
            GenConstr::Or { resvar, vars } => {
                match (element_index(&resvar), target_indices(&vars)) {
                    (Some(resvar), Some(vars)) => Ok(GenConstrArgs::Or { resvar, vars }),
                    _ => out_of_range,
                }
            },
            GenConstr::Norm { resvar, vars, which } => {
                match (element_index(&resvar), target_indices(&vars)) {
                    (Some(resvar), Some(vars)) => Ok(GenConstrArgs::Norm { resvar, vars, which }),
                    _ => out_of_range,
                }
            },
            GenConstr::Pwl { xvar, yvar, xpts, ypts } => {
                if xpts.len() != ypts.len() {
                    return Err(PreconditionViolation::LengthMismatch);
                }
                match (element_index(&xvar), element_index(&yvar)) {
                    (Some(xvar), Some(yvar)) => Ok(GenConstrArgs::Pwl { xvar, yvar, xpts, ypts }),
                    _ => out_of_range,
                }
            },
            GenConstr::Indicator { binvar, binval, constr } => {
                if binval != 0 && binval != 1 {
                    return Err(PreconditionViolation::InvalidTriggerValue);
                }
                match (element_index(&binvar), constr.add_to_model()) {
                    (Some(binvar), Some(constr)) => Ok(
                        GenConstrArgs::Indicator { binvar, binval, constr },
                    ),
                    _ => out_of_range,
                }
            },
            GenConstr::Nl { resvar, opcode, data, parent } => {
                if opcode.len() != data.len() || opcode.len() != parent.len() {
                    return Err(PreconditionViolation::LengthMismatch);
                }
                let resvar = match element_index(&resvar) {
                    Some(resvar) => resvar,
                    None => {
                        return out_of_range;
                    },
                };
                let n = opcode.len();
                let mut codes: Vec<i32> = Vec::new();
                let mut t: usize = 0;
                while t < n
                    invariant
                        n == opcode@.len(),
                        t <= n,
                        codes@.len() == t,
                        forall|s: int| 0 <= s < t ==> (#[trigger] codes@[s]) == opcode@[s].spec_code(),
                    decreases n - t,
                {
                    codes.push(opcode[t].code());
                    t += 1;
                }
                Ok(GenConstrArgs::Nl { resvar, opcode: codes, data, parent })
            },
        }
    }
}

} // verus!
