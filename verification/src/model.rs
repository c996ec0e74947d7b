//! The model's side of the commit protocol: it numbers what the engine has
//! accepted.
//!
//! The engine numbers the variables, and the constraints, in the order in
//! which they are added, from zero and without gaps. The model keeps the
//! same count, so the handle it returns for an accepted object carries the
//! number by which the engine knows that object.

use vstd::prelude::*;
use crate::constr::{indices_fit, ConstrArgs, ConstrCall, GRBConstr};
use crate::error::{check_err, is_error_code};
use crate::modeling::builder::var::AddVarArgs;
use crate::modeling::expr::lin_expr::LinExpr;
use crate::modeling::expr::quad_expr::QuadExpr;
use crate::modeling::expr::sparse::IndexPair;
use crate::modeling::genconstr::GenConstrArgs;
use crate::modeling::objective::{is_objective_calls, objective_calls, EngineCall};
use crate::var::GRBVar;

verus! {

/// The direction of the optimisation.
#[allow(clippy::upper_case_acronyms, non_camel_case_types)]
#[derive(Clone, Copy, Debug, PartialEq, Eq, Structural)]
pub enum GRBModelSense {
    MAXIMIZE,
    MINIMIZE,
}

impl GRBModelSense {
    /// The number by which the engine knows the direction: 1 to minimise,
    /// -1 to maximise.
    pub open spec fn spec_get(sense: GRBModelSense) -> i32 {
        match sense {
            GRBModelSense::MINIMIZE => 1i32,
            GRBModelSense::MAXIMIZE => -1i32,
        }
    }

    pub fn get(sense: GRBModelSense) -> (code: i32)
        ensures
            code == Self::spec_get(sense),
    {
        match sense {
            GRBModelSense::MINIMIZE => 1,
            GRBModelSense::MAXIMIZE => -1,
        }
    }
}

/// What a model has committed so far.
pub struct ModelState {
    /// The number of variables.
    pub vars: nat,
    /// The number of linear constraints.
    pub constrs: nat,
    /// The number of quadratic constraints.
    pub qconstrs: nat,
    /// The number of general constraints.
    pub genconstrs: nat,
}

/// The state after the engine has answered a call that adds one variable
/// with `status`, and the index of the new variable. A failure leaves the
/// state as it is and yields no index.
pub open spec fn commit_var(s: ModelState, status: i32) -> (ModelState, Option<nat>) {
    if is_error_code(status) {
        (s, None)
    } else {
        (ModelState { vars: s.vars + 1, ..s }, Some(s.vars))
    }
}

/// As `commit_var`, for a call that adds one linear constraint.
pub open spec fn commit_constr(s: ModelState, status: i32) -> (ModelState, Option<nat>) {
    if is_error_code(status) {
        (s, None)
    } else {
        (ModelState { constrs: s.constrs + 1, ..s }, Some(s.constrs))
    }
}

/// As `commit_var`, for a call that adds one quadratic constraint. The
/// engine numbers the quadratic constraints by themselves.
pub open spec fn commit_qconstr(s: ModelState, status: i32) -> (ModelState, Option<nat>) {
    if is_error_code(status) {
        (s, None)
    } else {
        (ModelState { qconstrs: s.qconstrs + 1, ..s }, Some(s.qconstrs))
    }
}

/// As `commit_var`, for a call that adds one general constraint. The
/// engine numbers the general constraints by themselves.
pub open spec fn commit_genconstr(s: ModelState, status: i32) -> (ModelState, Option<nat>) {
    if is_error_code(status) {
        (s, None)
    } else {
        (ModelState { genconstrs: s.genconstrs + 1, ..s }, Some(s.genconstrs))
    }
}

/// The index that a handle carries, where there is a handle.
pub open spec fn var_index_of(result: Result<GRBVar, i32>) -> Option<nat> {
    match result {
        Ok(v) => Some(v.spec_index() as nat),
        Err(_) => None,
    }
}

/// The index that a handle carries, where there is a handle.
pub open spec fn constr_index_of(result: Result<GRBConstr, i32>) -> Option<nat> {
    match result {
        Ok(c) => Some(c.index as nat),
        Err(_) => None,
    }
}

/// The counters of one model of the engine.
#[derive(Debug)]
pub struct GRBModel {
    var_index: usize,
    cons_index: usize,
    qcons_index: usize,
    gencons_index: usize,
}

impl View for GRBModel {
    type V = ModelState;

    closed spec fn view(&self) -> ModelState {
        ModelState {
            vars: self.var_index as nat,
            constrs: self.cons_index as nat,
            qconstrs: self.qcons_index as nat,
            genconstrs: self.gencons_index as nat,
        }
    }
}

impl GRBModel {
    /// The counters of a model that the engine has just created: nothing
    /// committed.
    pub fn new() -> (model: GRBModel)
        ensures
            model@ == (ModelState { vars: 0, constrs: 0, qconstrs: 0, genconstrs: 0 }),
    {
        GRBModel { var_index: 0, cons_index: 0, qcons_index: 0, gencons_index: 0 }
    }

    /// The number of variables committed so far.
    pub fn num_vars(&self) -> (n: usize)
        ensures
            n == self@.vars,
    {
        self.var_index
    }

    /// The number of constraints committed so far.
    pub fn num_constrs(&self) -> (n: usize)
        ensures
            n == self@.constrs,
    {
        self.cons_index
    }

    /// Commits a variable: `var` holds the arguments of the call that was
    /// made to add it, `status` is what the engine answered. On success the
    /// variable gets the next index; on failure the error code comes back
    /// and no index is used up.
    pub fn add_var(&mut self, var: AddVarArgs, status: i32) -> (result: Result<GRBVar, i32>)
        requires
            old(self)@.vars < usize::MAX,
        ensures
            (final(self)@, var_index_of(result)) == commit_var(old(self)@, status),
            result is Err <==> is_error_code(status),
            result matches Err(code) ==> code == status,
    {
        match check_err(status) {
            Err(code) => Err(code),
            Ok(_) => {
                let var = GRBVar::new(self.var_index);
                self.var_index += 1;
                Ok(var)
            },
        }
    }

    /// Commits a constraint, as `add_var` commits a variable.
    pub fn add_constr(&mut self, expr: ConstrArgs, status: i32) -> (result: Result<GRBConstr, i32>)
        requires
            old(self)@.constrs < usize::MAX,
        ensures
            (final(self)@, constr_index_of(result)) == commit_constr(old(self)@, status),
            result is Err <==> is_error_code(status),
            result matches Err(code) ==> code == status,
    {
        match check_err(status) {
            Err(code) => Err(code),
            Ok(_) => {
                let constr = GRBConstr { index: self.cons_index };
                self.cons_index += 1;
                Ok(constr)
            },
        }
    }

    /// The number of quadratic constraints committed so far.
    pub fn num_qconstrs(&self) -> (n: usize)
        ensures
            n == self@.qconstrs,
    {
        self.qcons_index
    }

    /// Commits a constraint that was built from a quadratic expression. A
    /// call that added a linear constraint is counted with the linear
    /// constraints, one that added a quadratic constraint with the
    /// quadratic ones.
    pub fn add_qconstr(&mut self, expr: ConstrCall, status: i32) -> (result: Result<GRBConstr, i32>)
        requires
            old(self)@.constrs < usize::MAX,
            old(self)@.qconstrs < usize::MAX,
        ensures
            expr is Linear ==> (final(self)@, constr_index_of(result)) == commit_constr(
                old(self)@,
                status,
            ),
            expr is Quadratic ==> (final(self)@, constr_index_of(result)) == commit_qconstr(
                old(self)@,
                status,
            ),
            result is Err <==> is_error_code(status),
            result matches Err(code) ==> code == status,
    {
        match expr {
            ConstrCall::Linear(args) => self.add_constr(args, status),
            ConstrCall::Quadratic(_) => match check_err(status) {
                Err(code) => Err(code),
                Ok(_) => {
                    let constr = GRBConstr { index: self.qcons_index };
                    self.qcons_index += 1;
                    Ok(constr)
                },
            },
        }
    }

    /// The number of general constraints committed so far.
    pub fn num_genconstrs(&self) -> (n: usize)
        ensures
            n == self@.genconstrs,
    {
        self.gencons_index
    }

    /// Commits a general constraint, as `add_var` commits a variable.
    pub fn add_genconstr(&mut self, expr: GenConstrArgs, status: i32) -> (result: Result<
        GRBConstr,
        i32,
    >)
        requires
            old(self)@.genconstrs < usize::MAX,
        ensures
            (final(self)@, constr_index_of(result)) == commit_genconstr(old(self)@, status),
            result is Err <==> is_error_code(status),
            result matches Err(code) ==> code == status,
    {
        match check_err(status) {
            Err(code) => Err(code),
            Ok(_) => {
                let constr = GRBConstr { index: self.gencons_index };
                self.gencons_index += 1;
                Ok(constr)
            },
        }
    }

    /// The calls that make the linear expression `obj` the objective, to
    /// be made in their order: the constant, the coefficient of each
    /// variable, and last the direction. `None` where a variable index is
    /// beyond what the engine can take.
    pub fn set_objective(&mut self, obj: LinExpr, sense: GRBModelSense) -> (result: Option<
        Vec<EngineCall>,
    >)
        requires
            obj.wf(),
        ensures
            *final(self) == *old(self),
            result.is_some() <==> indices_fit(obj.entries()),
            result matches Some(calls) ==> is_objective_calls(
                calls@,
                obj.entries(),
                obj.constant(),
                Seq::<(IndexPair, i64)>::empty(),
                sense,
            ),
    {
        let quad = QuadExpr::from_linear(obj);
        objective_calls(&quad, sense)
    }

    /// The outcome of a solve from the status that the engine returned: a
    /// failure of the solve, with its code, or success.
    pub fn optimize(&self, status: i32) -> (result: Result<(), i32>)
        ensures
            is_error_code(status) ==> result == Err::<(), i32>(status),
            !is_error_code(status) ==> result == Ok::<(), i32>(()),
    {
        match check_err(status) {
            Err(code) => Err(code),
            Ok(_) => Ok(()),
        }
    }
}

/// How many of the statuses are successes.
pub open spec fn accepted(statuses: Seq<i32>) -> nat
    decreases statuses.len(),
{
    if statuses.len() == 0 {
        0
    } else {
        accepted(statuses.drop_last()) + if is_error_code(statuses.last()) {
            0nat
        } else {
            1nat
        }
    }
}

/// The state after a run of calls that add one variable each.
pub open spec fn commit_vars(s: ModelState, statuses: Seq<i32>) -> ModelState
    decreases statuses.len(),
{
    if statuses.len() == 0 {
        s
    } else {
        commit_var(commit_vars(s, statuses.drop_last()), statuses.last()).0
    }
}

/// The state after a run of calls that add one constraint each.
pub open spec fn commit_constrs(s: ModelState, statuses: Seq<i32>) -> ModelState
    decreases statuses.len(),
{
    if statuses.len() == 0 {
        s
    } else {
        commit_constr(commit_constrs(s, statuses.drop_last()), statuses.last()).0
    }
}

/// A run of variable commits moves the variable count by the number of
/// calls that the engine accepted, and leaves the constraint count.
pub proof fn lemma_commit_vars_count(s: ModelState, statuses: Seq<i32>)
    ensures
        commit_vars(s, statuses).vars == s.vars + accepted(statuses),
        commit_vars(s, statuses).constrs == s.constrs,
        commit_vars(s, statuses).qconstrs == s.qconstrs,
        commit_vars(s, statuses).genconstrs == s.genconstrs,
    decreases statuses.len(),
{
    if statuses.len() > 0 {
        lemma_commit_vars_count(s, statuses.drop_last());
    }
}

/// A run of constraint commits moves the constraint count by the number of
/// calls that the engine accepted, and leaves the variable count.
pub proof fn lemma_commit_constrs_count(s: ModelState, statuses: Seq<i32>)
    ensures
        commit_constrs(s, statuses).constrs == s.constrs + accepted(statuses),
        commit_constrs(s, statuses).vars == s.vars,
        commit_constrs(s, statuses).qconstrs == s.qconstrs,
        commit_constrs(s, statuses).genconstrs == s.genconstrs,
    decreases statuses.len(),
{
    if statuses.len() > 0 {
        lemma_commit_constrs_count(s, statuses.drop_last());
    }
}

/// Indices are dense and in commit order: in a run of variable commits the
/// call at position `i`, if the engine accepts it, gets as its index the
/// number of calls accepted before it, counted from the variables that the
/// model had at the start. A rejected call gets none.
pub proof fn lemma_var_indices_dense(s: ModelState, statuses: Seq<i32>, i: int)
    requires
        0 <= i < statuses.len(),
    ensures
        commit_var(commit_vars(s, statuses.take(i)), statuses[i]).1 == if is_error_code(
            statuses[i],
        ) {
            None::<nat>
        } else {
            Some(s.vars + accepted(statuses.take(i)))
        },
{
    lemma_commit_vars_count(s, statuses.take(i));
}

/// As `lemma_var_indices_dense`, for constraints.
pub proof fn lemma_constr_indices_dense(s: ModelState, statuses: Seq<i32>, i: int)
    requires
        0 <= i < statuses.len(),
    ensures
        commit_constr(commit_constrs(s, statuses.take(i)), statuses[i]).1 == if is_error_code(
            statuses[i],
        ) {
            None::<nat>
        } else {
            Some(s.constrs + accepted(statuses.take(i)))
        },
{
    lemma_commit_constrs_count(s, statuses.take(i));
}

/// Where the engine accepts every call, all of them are counted.
pub proof fn lemma_accepted_all(statuses: Seq<i32>)
    requires
        forall|i: int| 0 <= i < statuses.len() ==> !is_error_code(#[trigger] statuses[i]),
    ensures
        accepted(statuses) == statuses.len(),
    decreases statuses.len(),
{
    if statuses.len() > 0 {
        lemma_accepted_all(statuses.drop_last());
    }
}

/// In a new model, a run of `n` commits that the engine accepts gives the
/// indices `0` to `n - 1` in commit order, to variables and to constraints
/// alike.
pub proof fn lemma_fresh_indices(statuses: Seq<i32>, i: int)
    requires
        0 <= i < statuses.len(),
        forall|j: int| 0 <= j < statuses.len() ==> !is_error_code(#[trigger] statuses[j]),
    ensures
        commit_var(
            commit_vars(ModelState { vars: 0, constrs: 0, qconstrs: 0, genconstrs: 0 }, statuses.take(i)),
            statuses[i],
        ).1 == Some(i as nat),
        commit_constr(
            commit_constrs(ModelState { vars: 0, constrs: 0, qconstrs: 0, genconstrs: 0 }, statuses.take(i)),
            statuses[i],
        ).1 == Some(i as nat),
{
    let fresh = ModelState { vars: 0, constrs: 0, qconstrs: 0, genconstrs: 0 };
    lemma_var_indices_dense(fresh, statuses, i);
    lemma_constr_indices_dense(fresh, statuses, i);
    lemma_accepted_all(statuses.take(i));
}

} // verus!
