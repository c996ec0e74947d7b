//! Quadratic expressions: a sparse vector of coefficients by unordered pair
//! of variable indices, and a linear expression.

use vstd::prelude::*;
use crate::constr::{indices_fit, pairs_fit};
use crate::model::GRBModelSense;
use crate::modeling::expr::lin_expr::LinExpr;
use crate::modeling::objective::{is_objective_calls, objective_calls, EngineCall};
use crate::modeling::expr::sparse::{
    combine_fits, combined_at, has_key, lemma_terms_map_at, lemma_terms_map_dom, map_coeff,
    scale_fits, scaled_at, sorted, terms_map, IndexPair, SparseTerms,
};
use crate::var::GRBVar;

verus! {

/// Every pair is held with its smaller index first.
pub open spec fn normalized(entries: Seq<(IndexPair, i64)>) -> bool {
    forall|t: int| 0 <= t < entries.len() ==> (#[trigger] entries[t]).0.low <= entries[t].0.high
}

/// Sorted entries whose keys all come from two normalized vectors are
/// normalized.
pub proof fn lemma_union_normalized(
    r: Seq<(IndexPair, i64)>,
    a: Seq<(IndexPair, i64)>,
    b: Seq<(IndexPair, i64)>,
)
    requires
        sorted(r),
        normalized(a),
        normalized(b),
        terms_map(r).dom().subset_of(terms_map(a).dom().union(terms_map(b).dom())),
    ensures
        normalized(r),
{
    assert forall|t: int| 0 <= t < r.len() implies (#[trigger] r[t]).0.low <= r[t].0.high by {
        let k = r[t].0;
        lemma_terms_map_at(r, t);
        assert(terms_map(a).dom().union(terms_map(b).dom()).contains(k));
        lemma_terms_map_dom(a, k);
        lemma_terms_map_dom(b, k);
        if has_key(a, k) {
            let i = choose|i: int| 0 <= i < a.len() && (#[trigger] a[i]).0 == k;
            assert(a[i].0.low <= a[i].0.high);
        } else {
            let i = choose|i: int| 0 <= i < b.len() && (#[trigger] b[i]).0 == k;
            assert(b[i].0.low <= b[i].0.high);
        }
    }
}

/// A quadratic expression in canonical form.
#[derive(Clone, Debug)]
pub struct QuadExpr {
    quad_expr: SparseTerms<IndexPair>,
    linear_expr: LinExpr,
}

impl QuadExpr {
    /// The quadratic terms as pairs of index pair and coefficient, in
    /// ascending order of the pair.
    pub closed spec fn quad_entries(&self) -> Seq<(IndexPair, i64)> {
        self.quad_expr.entries()
    }

    /// The linear part, with the constant.
    pub closed spec fn linear(&self) -> LinExpr {
        self.linear_expr
    }

    /// The canonical form: no pair of variables occurs twice among the
    /// quadratic terms, whichever way round it is written, and the linear
    /// part is canonical.
    pub open spec fn wf(&self) -> bool {
        &&& sorted(self.quad_entries())
        &&& normalized(self.quad_entries())
        &&& self.linear().wf()
    }

    /// The quadratic terms as a map from index pair to coefficient.
    pub open spec fn quad_terms(&self) -> Map<IndexPair, i64> {
        terms_map(self.quad_entries())
    }

    /// The coefficient of the pair `p`, zero where it has no term.
    pub open spec fn quad_coeff(&self, p: IndexPair) -> int {
        map_coeff(self.quad_terms(), p)
    }

    /// `self` is `a + b` or, with `negate`, `a - b`: the quadratic terms
    /// merged pair by pair, the linear parts combined.
    pub open spec fn is_combination(&self, a: &QuadExpr, b: &QuadExpr, negate: bool) -> bool {
        &&& self.wf()
        &&& self.quad_terms().dom() == a.quad_terms().dom().union(b.quad_terms().dom())
        &&& forall|p: IndexPair|
            self.quad_coeff(p) == #[trigger] combined_at(a.quad_terms(), b.quad_terms(), negate, p)
        &&& self.quad_entries().len() <= a.quad_entries().len() + b.quad_entries().len()
        &&& self.linear().is_combination(&a.linear(), &b.linear(), negate)
    }

    /// Whether `a + b` or, with `negate`, `a - b` can be stored.
    pub open spec fn combination_fits(a: &QuadExpr, b: &QuadExpr, negate: bool) -> bool {
        &&& combine_fits(a.quad_terms(), b.quad_terms(), negate)
        &&& LinExpr::combination_fits(&a.linear(), &b.linear(), negate)
    }

    /// `self` is `a` times `factor`.
    pub open spec fn is_scaled(&self, a: &QuadExpr, factor: i64) -> bool {
        &&& self.wf()
        &&& self.quad_terms().dom() == a.quad_terms().dom()
        &&& forall|p: IndexPair|
            self.quad_coeff(p) == #[trigger] scaled_at(a.quad_terms(), factor, p)
        &&& self.quad_entries().len() == a.quad_entries().len()
        &&& self.linear().is_scaled(&a.linear(), factor)
    }

    /// Whether `a` times `factor` can be stored.
    pub open spec fn scaling_fits(a: &QuadExpr, factor: i64) -> bool {
        &&& scale_fits(a.quad_terms(), factor)
        &&& LinExpr::scaling_fits(&a.linear(), factor)
    }

    /// The expression without terms and with the constant zero.
    pub fn new() -> (zero: QuadExpr)
        ensures
            zero.wf(),
            zero.quad_entries() == Seq::<(IndexPair, i64)>::empty(),
            zero.linear().entries() == Seq::<(usize, i64)>::empty(),
            zero.linear().constant() == 0,
    {
        QuadExpr { quad_expr: SparseTerms::new(), linear_expr: LinExpr::new() }
    }

    /// A linear expression as a quadratic one without quadratic terms.
    pub fn from_linear(linear: LinExpr) -> (e: QuadExpr)
        requires
            linear.wf(),
        ensures
            e.wf(),
            e.quad_entries() == Seq::<(IndexPair, i64)>::empty(),
            e.linear() == linear,
    {
        QuadExpr { quad_expr: SparseTerms::new(), linear_expr: linear }
    }

    /// The expression with the given quadratic terms and linear part.
    pub fn from_parts(quad: SparseTerms<IndexPair>, linear: LinExpr) -> (e: QuadExpr)
        requires
            quad.wf(),
            normalized(quad.entries()),
            linear.wf(),
        ensures
            e.wf(),
            e.quad_entries() == quad.entries(),
            e.linear() == linear,
    {
        QuadExpr { quad_expr: quad, linear_expr: linear }
    }

    /// The expression `coefficient * x * y`.
    pub fn term(x: GRBVar, y: GRBVar, coefficient: i64) -> (e: QuadExpr)
        ensures
            e.wf(),
            e.quad_entries() == seq![
                (IndexPair::spec_new(x.spec_index(), y.spec_index()), coefficient),
            ],
            e.linear().entries() == Seq::<(usize, i64)>::empty(),
            e.linear().constant() == 0,
    {
        let pair = IndexPair::new(x.index(), y.index());
        QuadExpr { quad_expr: SparseTerms::singleton(pair, coefficient), linear_expr: LinExpr::new() }
    }

    /// The number of quadratic terms.
    pub fn quad_len(&self) -> (n: usize)
        ensures
            n == self.quad_entries().len(),
    {
        self.quad_expr.len()
    }

    /// The quadratic term at position `i`: index pair and coefficient.
    pub fn quad_entry(&self, i: usize) -> (e: (IndexPair, i64))
        requires
            i < self.quad_entries().len(),
        ensures
            e == self.quad_entries()[i as int],
    {
        self.quad_expr.entry(i)
    }

    /// The linear part, with the constant.
    pub fn linear_part(&self) -> (linear: &LinExpr)
        ensures
            *linear == self.linear(),
    {
        &self.linear_expr
    }

    /// The calls that make the expression the objective of a model, to be
    /// made in their order: the constant, the coefficient of each variable,
    /// the quadratic terms if there are any, and last the direction. `None`
    /// where a variable index is beyond what the engine can take.
    pub fn set_as_objective(self, sense: GRBModelSense) -> (result: Option<Vec<EngineCall>>)
        ensures
            result.is_some() <==> indices_fit(self.linear().entries()) && pairs_fit(
                self.quad_entries(),
            ),
            result matches Some(calls) ==> is_objective_calls(
                calls@,
                self.linear().entries(),
                self.linear().constant(),
                self.quad_entries(),
                sense,
            ),
    {
        objective_calls(&self, sense)
    }

    fn combine(self, rhs: QuadExpr, negate: bool) -> (result: Option<QuadExpr>)
        requires
            self.wf(),
            rhs.wf(),
        ensures
            result.is_some() <==> Self::combination_fits(&self, &rhs, negate),
            result matches Some(r) ==> r.is_combination(&self, &rhs, negate),
    {
        let quad = self.quad_expr.combine(&rhs.quad_expr, negate);
        let linear = if negate {
            self.linear_expr.sub(rhs.linear_expr)
        } else {
            self.linear_expr.add(rhs.linear_expr)
        };
        match (quad, linear) {
            (Some(quad_expr), Some(linear_expr)) => {
                proof {
                    lemma_union_normalized(
                        quad_expr.entries(),
                        self.quad_entries(),
                        rhs.quad_entries(),
                    );
                }
                Some(QuadExpr { quad_expr, linear_expr })
            },
            _ => None,
        }
    }

    /// The sum of two expressions. A sum of zero keeps its term. `None`
    /// where a sum cannot be stored.
    pub fn add(self, rhs: QuadExpr) -> (result: Option<QuadExpr>)
        requires
            self.wf(),
            rhs.wf(),
        ensures
            result.is_some() <==> Self::combination_fits(&self, &rhs, false),
            result matches Some(r) ==> r.is_combination(&self, &rhs, false),
    {
        self.combine(rhs, false)
    }

    /// The difference of two expressions. `None` where a difference cannot
    /// be stored.
    pub fn sub(self, rhs: QuadExpr) -> (result: Option<QuadExpr>)
        requires
            self.wf(),
            rhs.wf(),
        ensures
            result.is_some() <==> Self::combination_fits(&self, &rhs, true),
            result matches Some(r) ==> r.is_combination(&self, &rhs, true),
    {
        self.combine(rhs, true)
    }

    /// The expression times `factor`: every coefficient and the constant.
    /// `None` where a product cannot be stored.
    pub fn mul(self, factor: i64) -> (result: Option<QuadExpr>)
        requires
            self.wf(),
        ensures
            result.is_some() <==> Self::scaling_fits(&self, factor),
            result matches Some(r) ==> r.is_scaled(&self, factor),
    {
        let quad = self.quad_expr.scale(factor);
        let linear = self.linear_expr.mul(factor);
        match (quad, linear) {
            (Some(quad_expr), Some(linear_expr)) => {
                proof {
                    lemma_union_normalized(
                        quad_expr.entries(),
                        self.quad_entries(),
                        self.quad_entries(),
                    );
                }
                Some(QuadExpr { quad_expr, linear_expr })
            },
            _ => None,
        }
    }
}

} // verus!
