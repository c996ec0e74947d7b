//! The objective of a model as the engine calls that set it.

use vstd::prelude::*;
use crate::attributes::{GRBDblAttr, GRBIntAttr};
use crate::constr::{indices_fit, pairs_fit, quad_arrays, sparse_arrays, triplets};
use crate::model::GRBModelSense;
use crate::modeling::expr::quad_expr::QuadExpr;
use crate::modeling::expr::sparse::IndexPair;

verus! {

/// One call that writes a part of the state of a model.
#[allow(inconsistent_fields)]
#[derive(Debug)]
pub enum EngineCall {
    /// Sets a real-valued attribute of the model.
    SetDblAttr { attr: GRBDblAttr, value: i64 },
    /// Sets a real-valued attribute of the variable or constraint that the
    /// engine keeps under the index `element`.
    SetDblAttrElement { attr: GRBDblAttr, element: i32, value: i64 },
    /// Adds quadratic terms to the objective.
    AddQpTerms { rows: Vec<i32>, cols: Vec<i32>, vals: Vec<i64> },
    /// Sets an integer-valued attribute of the model.
    SetIntAttr { attr: GRBIntAttr, value: i32 },
}

/// The call writes `constant` as the constant of the objective.
pub open spec fn is_constant_call(call: EngineCall, constant: i64) -> bool {
    match call {
        EngineCall::SetDblAttr { attr, value } => attr == GRBDblAttr::Objcon && value == constant,
        _ => false,
    }
}

/// The call writes the coefficient of one linear term of the objective.
pub open spec fn is_coefficient_call(call: EngineCall, term: (usize, i64)) -> bool {
    match call {
        EngineCall::SetDblAttrElement { attr, element, value } => attr == GRBDblAttr::Obj
            && element as int == term.0 as int && value == term.1,
        _ => false,
    }
}

/// The call adds the quadratic terms of the objective.
pub open spec fn is_quadratic_call(call: EngineCall, quad: Seq<(IndexPair, i64)>) -> bool {
    match call {
        EngineCall::AddQpTerms { rows, cols, vals } => triplets(quad, rows@, cols@, vals@),
        _ => false,
    }
}

/// The call writes the direction of the optimisation.
pub open spec fn is_sense_call(call: EngineCall, sense: GRBModelSense) -> bool {
    match call {
        EngineCall::SetIntAttr { attr, value } => attr == GRBIntAttr::Modelsense && value
            == GRBModelSense::spec_get(sense),
        _ => false,
    }
}

/// `calls` sets the objective with the given linear terms, constant and
/// quadratic terms: first the constant, then one call per linear term in
/// the order of the terms, then one call with all quadratic terms if there
/// are any, and last the direction.
pub open spec fn is_objective_calls(
    calls: Seq<EngineCall>,
    linear: Seq<(usize, i64)>,
    constant: i64,
    quad: Seq<(IndexPair, i64)>,
    sense: GRBModelSense,
) -> bool {
    let n = linear.len() as int;
    let q: int = if quad.len() > 0 {
        1
    } else {
        0
    };
    &&& calls.len() == n + q + 2
    &&& is_constant_call(calls[0], constant)
    &&& forall|s: int| 1 <= s <= n ==> is_coefficient_call(#[trigger] calls[s], linear[s - 1])
    &&& quad.len() > 0 ==> is_quadratic_call(calls[n + 1], quad)
    &&& is_sense_call(calls[n + q + 1], sense)
}

/// The calls that make `obj` the objective of a model, to be made in their
/// order; the caller stops at the first that the engine rejects. The
/// direction is written last, so that it never stands beside the terms of
/// an older objective. `None` where a variable index is beyond what the
/// engine can take.
pub fn objective_calls(obj: &QuadExpr, sense: GRBModelSense) -> (result: Option<Vec<EngineCall>>)
    ensures
        result.is_some() <==> indices_fit(obj.linear().entries()) && pairs_fit(obj.quad_entries()),
        result matches Some(calls) ==> is_objective_calls(
            calls@,
            obj.linear().entries(),
            obj.linear().constant(),
            obj.quad_entries(),
            sense,
        ),
{
    let linear = obj.linear_part();
    let (inds, coeffs) = match sparse_arrays(linear) {
        Some(arrays) => arrays,
        None => {
            return None;
        },
    };
    let (rows, cols, vals) = match quad_arrays(obj) {
        Some(arrays) => arrays,
        None => {
            return None;
        },
    };
    let n = inds.len();
    let mut calls: Vec<EngineCall> = Vec::new();
    calls.push(EngineCall::SetDblAttr { attr: GRBDblAttr::Objcon, value: linear.scalar() });
    let mut t: usize = 0;
    while t < n
        invariant
            n == inds@.len(),
            n == coeffs@.len(),
            n == obj.linear().entries().len(),
            forall|s: int|
                0 <= s < n ==> (#[trigger] inds@[s]) as int == obj.linear().entries()[s].0 as int,
            forall|s: int| 0 <= s < n ==> (#[trigger] coeffs@[s]) == obj.linear().entries()[s].1,
            t <= n,
            calls@.len() == t + 1,
            is_constant_call(calls@[0], obj.linear().constant()),
            forall|s: int|
                1 <= s <= t ==> is_coefficient_call(
                    #[trigger] calls@[s],
                    obj.linear().entries()[s - 1],
                ),
        decreases n - t,
    {
        calls.push(
            EngineCall::SetDblAttrElement {
                attr: GRBDblAttr::Obj,
                element: inds[t],
                value: coeffs[t],
            },
        );
        t += 1;
    }
    if rows.len() > 0 {
        calls.push(EngineCall::AddQpTerms { rows, cols, vals });
    }
    calls.push(EngineCall::SetIntAttr { attr: GRBIntAttr::Modelsense, value: GRBModelSense::get(sense) });
    Some(calls)
}

} // verus!
