//! Constraints: an expression frozen against a right-hand side, the
//! arguments of the call that adds it, and the handle of a committed one.

use vstd::prelude::*;
use crate::modeling::builder::var::text_of;
use crate::modeling::expr::lin_expr::LinExpr;
use crate::modeling::expr::quad_expr::QuadExpr;
use crate::modeling::expr::sparse::{fits, IndexPair};
use crate::modeling::expr::GRBSense;
use crate::modeling::IsModelingObject;

verus! {

/// Every variable index of the entries is one that the engine can take.
pub open spec fn indices_fit(entries: Seq<(usize, i64)>) -> bool {
    forall|t: int| 0 <= t < entries.len() ==> (#[trigger] entries[t]).0 <= i32::MAX
}

/// `inds` and `coeffs` hold the entries position by position.
pub open spec fn parallel_arrays(entries: Seq<(usize, i64)>, inds: Seq<i32>, coeffs: Seq<i64>) -> bool {
    &&& inds.len() == entries.len()
    &&& coeffs.len() == entries.len()
    &&& forall|t: int|
        0 <= t < entries.len() ==> (#[trigger] inds[t]) as int == entries[t].0 as int
    &&& forall|t: int| 0 <= t < entries.len() ==> (#[trigger] coeffs[t]) == entries[t].1
}

/// The indices stand in strictly ascending order.
pub open spec fn ascending(inds: Seq<i32>) -> bool {
    forall|s: int, t: int| 0 <= s < t < inds.len() ==> inds[s] < inds[t]
}

/// The terms of an expression as the two parallel arrays that the engine
/// takes, in the order of the terms. `None` where a variable index is
/// beyond what the engine can take.
pub fn sparse_arrays(expr: &LinExpr) -> (result: Option<(Vec<i32>, Vec<i64>)>)
    ensures
        result.is_some() <==> indices_fit(expr.entries()),
        result matches Some(arrays) ==> {
            &&& parallel_arrays(expr.entries(), arrays.0@, arrays.1@)
            &&& expr.wf() ==> ascending(arrays.0@)
        },
{
    let n = expr.len();
    let mut inds: Vec<i32> = Vec::new();
    let mut coeffs: Vec<i64> = Vec::new();
    let mut t: usize = 0;
    while t < n
        invariant
            n == expr.entries().len(),
            t <= n,
            inds@.len() == t,
            coeffs@.len() == t,
            forall|s: int| 0 <= s < t ==> (#[trigger] expr.entries()[s]).0 <= i32::MAX,
            forall|s: int| 0 <= s < t ==> (#[trigger] inds@[s]) as int == expr.entries()[s].0 as int,
            forall|s: int| 0 <= s < t ==> (#[trigger] coeffs@[s]) == expr.entries()[s].1,
        decreases n - t,
    {
        let e = expr.entry(t);
        if e.0 > 2147483647 {
            return None;
        }
        inds.push(e.0 as i32);
        coeffs.push(e.1);
        t += 1;
    }
    proof {
        if expr.wf() {
            assert forall|s: int, u: int| 0 <= s < u < inds@.len() implies inds@[s] < inds@[u] by {
                assert(expr.entries()[s].0 < expr.entries()[u].0);
            }
        }
    }
    Some((inds, coeffs))
}

/// Every variable index of the quadratic entries is one that the engine
/// can take.
pub open spec fn pairs_fit(entries: Seq<(IndexPair, i64)>) -> bool {
    forall|t: int|
        0 <= t < entries.len() ==> (#[trigger] entries[t]).0.low <= i32::MAX && entries[t].0.high
            <= i32::MAX
}

/// `rows`, `cols` and `vals` hold the quadratic entries position by
/// position: the smaller index of the pair, the larger one, the coefficient.
pub open spec fn triplets(
    entries: Seq<(IndexPair, i64)>,
    rows: Seq<i32>,
    cols: Seq<i32>,
    vals: Seq<i64>,
) -> bool {
    &&& rows.len() == entries.len()
    &&& cols.len() == entries.len()
    &&& vals.len() == entries.len()
    &&& forall|t: int|
        0 <= t < entries.len() ==> (#[trigger] rows[t]) as int == entries[t].0.low as int
    &&& forall|t: int|
        0 <= t < entries.len() ==> (#[trigger] cols[t]) as int == entries[t].0.high as int
    &&& forall|t: int| 0 <= t < entries.len() ==> (#[trigger] vals[t]) == entries[t].1
}

/// The quadratic terms of an expression as the three parallel arrays that
/// the engine takes, in the order of the terms. `None` where a variable
/// index is beyond what the engine can take.
pub fn quad_arrays(expr: &QuadExpr) -> (result: Option<(Vec<i32>, Vec<i32>, Vec<i64>)>)
    ensures
        result.is_some() <==> pairs_fit(expr.quad_entries()),
        result matches Some(arrays) ==> triplets(
            expr.quad_entries(),
            arrays.0@,
            arrays.1@,
            arrays.2@,
        ),
{
    let n = expr.quad_len();
    let mut rows: Vec<i32> = Vec::new();
    let mut cols: Vec<i32> = Vec::new();
    let mut vals: Vec<i64> = Vec::new();
    let mut t: usize = 0;
    while t < n
        invariant
            n == expr.quad_entries().len(),
            t <= n,
            rows@.len() == t,
            cols@.len() == t,
            vals@.len() == t,
            forall|s: int|
                0 <= s < t ==> (#[trigger] expr.quad_entries()[s]).0.low <= i32::MAX
                    && expr.quad_entries()[s].0.high <= i32::MAX,
            forall|s: int|
                0 <= s < t ==> (#[trigger] rows@[s]) as int == expr.quad_entries()[s].0.low as int,
            forall|s: int|
                0 <= s < t ==> (#[trigger] cols@[s]) as int == expr.quad_entries()[s].0.high as int,
            forall|s: int| 0 <= s < t ==> (#[trigger] vals@[s]) == expr.quad_entries()[s].1,
        decreases n - t,
    {
        let e = expr.quad_entry(t);
        if e.0.low > 2147483647 || e.0.high > 2147483647 {
            return None;
        }
        rows.push(e.0.low as i32);
        cols.push(e.0.high as i32);
        vals.push(e.1);
        t += 1;
    }
    Some((rows, cols, vals))
}

/// A constraint that is not yet part of a model: the terms of its left-hand
/// side, the relation, and the right-hand side with the constant of the
/// expression already taken over to it.
#[derive(Debug)]
pub struct TempConstr {
    lhs: LinExpr,
    sense: GRBSense,
    rhs: i64,
    name: Option<String>,
}

/// The arguments of the engine call that adds one linear constraint.
#[derive(Debug)]
pub struct ConstrArgs {
    /// The variable indices of the terms.
    pub inds: Vec<i32>,
    /// The coefficients, position by position with `inds`.
    pub coeffs: Vec<i64>,
    /// The relation as the engine's character.
    pub sense: u8,
    /// The right-hand side.
    pub rhs: i64,
    /// The name, if the constraint has one.
    pub name: Option<String>,
}

impl TempConstr {
    /// The terms of the left-hand side.
    pub closed spec fn spec_entries(&self) -> Seq<(usize, i64)> {
        self.lhs.entries()
    }

    pub closed spec fn spec_sense(&self) -> GRBSense {
        self.sense
    }

    /// The right-hand side that the engine will see.
    pub closed spec fn spec_rhs(&self) -> i64 {
        self.rhs
    }

    pub closed spec fn spec_name(&self) -> Option<Seq<char>> {
        text_of(self.name)
    }

    /// The left-hand side is in canonical form.
    pub closed spec fn wf(&self) -> bool {
        self.lhs.wf()
    }

    /// Names the constraint and leaves the rest.
    pub fn name(self, name: &str) -> (c: Self)
        ensures
            c.spec_entries() == self.spec_entries(),
            c.spec_sense() == self.spec_sense(),
            c.spec_rhs() == self.spec_rhs(),
            c.spec_name() == Some(name@),
            c.wf() == self.wf(),
    {
        TempConstr { lhs: self.lhs, sense: self.sense, rhs: self.rhs, name: Some(name.to_owned()) }
    }

    /// Ends the building: turns the constraint into the arguments of the
    /// call that adds it, the terms in ascending order of the variable
    /// index. `None` where a variable index is beyond what the engine can
    /// take.
    pub fn add_to_model(self) -> (result: Option<ConstrArgs>)
        ensures
            result.is_some() <==> indices_fit(self.spec_entries()),
            result matches Some(args) ==> {
                &&& parallel_arrays(self.spec_entries(), args.inds@, args.coeffs@)
                &&& self.wf() ==> ascending(args.inds@)
                &&& args.sense == self.spec_sense().spec_grb_char()
                &&& args.rhs == self.spec_rhs()
                &&& text_of(args.name) == self.spec_name()
            },
    {
        match sparse_arrays(&self.lhs) {
            None => None,
            Some((inds, coeffs)) => Some(
                ConstrArgs {
                    inds,
                    coeffs,
                    sense: self.sense.to_grb_char(),
                    rhs: self.rhs,
                    name: self.name,
                },
            ),
        }
    }
}

/// An expression that can be set against a right-hand side.
pub trait Expr: Sized {
    type Output;

    /// What the expression must satisfy to be constrained.
    spec fn constrainable(&self) -> bool;

    /// `out` is the constraint `self sense rhs`.
    spec fn is_constraint(&self, sense: GRBSense, rhs: i64, out: &Self::Output) -> bool;

    fn eq(self, rhs: i64) -> (out: Self::Output)
        requires
            self.constrainable(),
        ensures
            self.is_constraint(GRBSense::Equal, rhs, &out),
    ;

    fn ge(self, rhs: i64) -> (out: Self::Output)
        requires
            self.constrainable(),
        ensures
            self.is_constraint(GRBSense::GreaterEqual, rhs, &out),
    ;

    fn le(self, rhs: i64) -> (out: Self::Output)
        requires
            self.constrainable(),
        ensures
            self.is_constraint(GRBSense::LessEqual, rhs, &out),
    ;
}

/// Freezes an expression into a constraint: the constant of the expression
/// goes to the right-hand side with its sign changed. `None` where the new
/// right-hand side cannot be stored.
fn constrain(lhs: LinExpr, sense: GRBSense, rhs: i64) -> (out: Option<TempConstr>)
    requires
        lhs.wf(),
    ensures
        lhs.is_constraint(sense, rhs, &out),
{
    match rhs.checked_sub(lhs.scalar()) {
        None => None,
        Some(rhs) => Some(TempConstr { lhs, sense, rhs, name: None }),
    }
}

impl Expr for LinExpr {
    type Output = Option<TempConstr>;

    open spec fn constrainable(&self) -> bool {
        self.wf()
    }

    /// The constraint holds the terms of the expression; its right-hand
    /// side is `rhs` less the constant of the expression. There is none
    /// where that difference cannot be stored.
    open spec fn is_constraint(&self, sense: GRBSense, rhs: i64, out: &Option<TempConstr>) -> bool {
        &&& out.is_some() <==> fits(rhs - self.constant())
        &&& out matches Some(c) ==> {
            &&& c.wf()
            &&& c.spec_entries() == self.entries()
            &&& c.spec_sense() == sense
            &&& c.spec_rhs() == rhs - self.constant()
            &&& c.spec_name().is_none()
        }
    }

    fn eq(self, rhs: i64) -> (out: Option<TempConstr>) {
        constrain(self, GRBSense::Equal, rhs)
    }

    fn ge(self, rhs: i64) -> (out: Option<TempConstr>) {
        constrain(self, GRBSense::GreaterEqual, rhs)
    }

    fn le(self, rhs: i64) -> (out: Option<TempConstr>) {
        constrain(self, GRBSense::LessEqual, rhs)
    }
}

/// A constraint over a quadratic expression that is not yet part of a
/// model.
#[derive(Debug)]
pub struct TempQConstr {
    lhs: QuadExpr,
    sense: GRBSense,
    rhs: i64,
    name: Option<String>,
}

/// The arguments of the engine call that adds one quadratic constraint.
#[derive(Debug)]
pub struct QConstrArgs {
    /// The variable indices of the linear terms.
    pub lind: Vec<i32>,
    /// The coefficients of the linear terms.
    pub lval: Vec<i64>,
    /// The first variable index of each quadratic term.
    pub qrow: Vec<i32>,
    /// The second variable index of each quadratic term.
    pub qcol: Vec<i32>,
    /// The coefficients of the quadratic terms.
    pub qval: Vec<i64>,
    /// The relation as the engine's character.
    pub sense: u8,
    /// The right-hand side.
    pub rhs: i64,
    /// The name, if the constraint has one.
    pub name: Option<String>,
}

/// The engine call that adds a constraint, with its arguments.
#[derive(Debug)]
pub enum ConstrCall {
    /// The call that adds a linear constraint.
    Linear(ConstrArgs),
    /// The call that adds a quadratic constraint.
    Quadratic(QConstrArgs),
}

impl TempQConstr {
    /// The linear terms of the left-hand side.
    pub closed spec fn spec_entries(&self) -> Seq<(usize, i64)> {
        self.lhs.linear().entries()
    }

    /// The quadratic terms of the left-hand side.
    pub closed spec fn spec_quad_entries(&self) -> Seq<(IndexPair, i64)> {
        self.lhs.quad_entries()
    }

    pub closed spec fn spec_sense(&self) -> GRBSense {
        self.sense
    }

    /// The right-hand side that the engine will see.
    pub closed spec fn spec_rhs(&self) -> i64 {
        self.rhs
    }

    pub closed spec fn spec_name(&self) -> Option<Seq<char>> {
        text_of(self.name)
    }

    /// The left-hand side is in canonical form.
    pub closed spec fn wf(&self) -> bool {
        self.lhs.wf()
    }

    /// Names the constraint and leaves the rest.
    pub fn name(self, name: &str) -> (c: Self)
        ensures
            c.spec_entries() == self.spec_entries(),
            c.spec_quad_entries() == self.spec_quad_entries(),
            c.spec_sense() == self.spec_sense(),
            c.spec_rhs() == self.spec_rhs(),
            c.spec_name() == Some(name@),
            c.wf() == self.wf(),
    {
        TempQConstr { lhs: self.lhs, sense: self.sense, rhs: self.rhs, name: Some(name.to_owned()) }
    }

    /// The call that adds the constraint and its arguments: the call for a
    /// linear constraint where there is no quadratic term, the call for a
    /// quadratic constraint where there is one.
    pub open spec fn is_call(&self, call: ConstrCall) -> bool {
        match call {
            ConstrCall::Linear(args) => {
                &&& self.spec_quad_entries().len() == 0
                &&& parallel_arrays(self.spec_entries(), args.inds@, args.coeffs@)
                &&& args.sense == self.spec_sense().spec_grb_char()
                &&& args.rhs == self.spec_rhs()
                &&& text_of(args.name) == self.spec_name()
            },
            ConstrCall::Quadratic(args) => {
                &&& self.spec_quad_entries().len() > 0
                &&& parallel_arrays(self.spec_entries(), args.lind@, args.lval@)
                &&& triplets(self.spec_quad_entries(), args.qrow@, args.qcol@, args.qval@)
                &&& args.sense == self.spec_sense().spec_grb_char()
                &&& args.rhs == self.spec_rhs()
                &&& text_of(args.name) == self.spec_name()
            },
        }
    }

    /// Ends the building: turns the constraint into the call that adds it.
    /// `None` where a variable index is beyond what the engine can take.
    pub fn add_to_model(self) -> (result: Option<ConstrCall>)
        ensures
            result.is_some() <==> indices_fit(self.spec_entries()) && pairs_fit(
                self.spec_quad_entries(),
            ),
            result matches Some(call) ==> self.is_call(call),
    {
        let (lind, lval) = match sparse_arrays(self.lhs.linear_part()) {
            Some(arrays) => arrays,
            None => {
                return None;
            },
        };
        let (qrow, qcol, qval) = match quad_arrays(&self.lhs) {
            Some(arrays) => arrays,
            None => {
                return None;
            },
        };
        let sense = self.sense.to_grb_char();
        if qrow.len() == 0 {
            Some(
                ConstrCall::Linear(
                    ConstrArgs { inds: lind, coeffs: lval, sense, rhs: self.rhs, name: self.name },
                ),
            )
        } else {
            Some(
                ConstrCall::Quadratic(
                    QConstrArgs { lind, lval, qrow, qcol, qval, sense, rhs: self.rhs, name: self.name },
                ),
            )
        }
    }
}

/// Freezes a quadratic expression into a constraint, as `constrain` does a
/// linear one.
fn constrain_quad(lhs: QuadExpr, sense: GRBSense, rhs: i64) -> (out: Option<TempQConstr>)
    requires
        lhs.wf(),
    ensures
        lhs.is_constraint(sense, rhs, &out),
{
    match rhs.checked_sub(lhs.linear_part().scalar()) {
        None => None,
        Some(rhs) => Some(TempQConstr { lhs, sense, rhs, name: None }),
    }
}

impl Expr for QuadExpr {
    type Output = Option<TempQConstr>;

    open spec fn constrainable(&self) -> bool {
        self.wf()
    }

    /// The constraint holds the terms of the expression; its right-hand
    /// side is `rhs` less the constant of the expression. There is none
    /// where that difference cannot be stored.
    open spec fn is_constraint(&self, sense: GRBSense, rhs: i64, out: &Option<TempQConstr>) -> bool {
        &&& out.is_some() <==> fits(rhs - self.linear().constant())
        &&& out matches Some(c) ==> {
            &&& c.wf()
            &&& c.spec_entries() == self.linear().entries()
            &&& c.spec_quad_entries() == self.quad_entries()
            &&& c.spec_sense() == sense
            &&& c.spec_rhs() == rhs - self.linear().constant()
            &&& c.spec_name().is_none()
        }
    }

    fn eq(self, rhs: i64) -> (out: Option<TempQConstr>) {
        constrain_quad(self, GRBSense::Equal, rhs)
    }

    fn ge(self, rhs: i64) -> (out: Option<TempQConstr>) {
        constrain_quad(self, GRBSense::GreaterEqual, rhs)
    }

    fn le(self, rhs: i64) -> (out: Option<TempQConstr>) {
        constrain_quad(self, GRBSense::LessEqual, rhs)
    }
}

/// A committed constraint: the dense index that the model gave it.
#[derive(Clone, Copy, Debug, PartialEq, Eq, Structural)]
pub struct GRBConstr {
    pub index: usize,
}

impl IsModelingObject for GRBConstr {
    open spec fn dense_index(&self) -> usize {
        self.index
    }

    fn index(&self) -> (index: usize) {
        self.index
    }
}

} // verus!
