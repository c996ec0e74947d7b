//! Linear expressions: a sparse vector of coefficients by variable index,
//! and a constant.
//!
//! Coefficients and constants are exact integers, in whatever fixed-point
//! unit the caller has chosen. An operation whose result cannot be stored
//! has no result; it never rounds or wraps.

use vstd::prelude::*;
use crate::modeling::expr::sparse::{
    combine_fits, combined, combined_at, fits, map_coeff, scale_fits, scaled_at, sorted,
    lemma_canonical_unique, terms_map, SparseTerms, TermKey,
};
use crate::var::GRBVar;

verus! {

/// A linear expression in canonical form.
#[derive(Clone, Debug)]
pub struct LinExpr {
    expr: SparseTerms<usize>,
    scalar: i64,
}

impl LinExpr {
    /// The terms as pairs of variable index and coefficient, in ascending
    /// order of the index.
    pub closed spec fn entries(&self) -> Seq<(usize, i64)> {
        self.expr.entries()
    }

    /// The constant term.
    pub closed spec fn constant(&self) -> i64 {
        self.scalar
    }

    /// The canonical form: no variable index occurs twice among the terms.
    pub open spec fn wf(&self) -> bool {
        sorted(self.entries())
    }

    /// The terms as a map from variable index to coefficient.
    pub open spec fn terms(&self) -> Map<usize, i64> {
        terms_map(self.entries())
    }

    /// The coefficient of the variable `k`, zero where it has no term.
    pub open spec fn coeff(&self, k: usize) -> int {
        map_coeff(self.terms(), k)
    }

    /// Both expressions denote the same function of the variables: equal
    /// constants and, for every variable, equal coefficients. A term with the
    /// coefficient zero counts as no term.
    pub open spec fn same_value(&self, other: &LinExpr) -> bool {
        &&& self.constant() == other.constant()
        &&& forall|k: usize| self.coeff(k) == #[trigger] other.coeff(k)
    }

    /// `self` is `a + b` or, with `negate`, `a - b`: the variables of both
    /// operands, each with the combined coefficient, and the combined
    /// constant.
    pub open spec fn is_combination(&self, a: &LinExpr, b: &LinExpr, negate: bool) -> bool {
        &&& self.wf()
        &&& self.terms().dom() == a.terms().dom().union(b.terms().dom())
        &&& forall|k: usize|
            self.coeff(k) == #[trigger] combined_at(a.terms(), b.terms(), negate, k)
        &&& self.constant() == combined(a.constant() as int, b.constant() as int, negate)
        &&& self.entries().len() <= a.entries().len() + b.entries().len()
    }

    /// Whether `a + b` or, with `negate`, `a - b` can be stored.
    pub open spec fn combination_fits(a: &LinExpr, b: &LinExpr, negate: bool) -> bool {
        &&& fits(combined(a.constant() as int, b.constant() as int, negate))
        &&& combine_fits(a.terms(), b.terms(), negate)
    }

    /// `self` is `a` times `factor`: the variables of `a`, each coefficient
    /// and the constant multiplied.
    pub open spec fn is_scaled(&self, a: &LinExpr, factor: i64) -> bool {
        &&& self.wf()
        &&& self.terms().dom() == a.terms().dom()
        &&& forall|k: usize| self.coeff(k) == #[trigger] scaled_at(a.terms(), factor, k)
        &&& self.constant() == a.constant() * factor
        &&& self.entries().len() == a.entries().len()
    }

    /// Whether `a` times `factor` can be stored.
    pub open spec fn scaling_fits(a: &LinExpr, factor: i64) -> bool {
        &&& fits(a.constant() * factor)
        &&& scale_fits(a.terms(), factor)
    }

    /// The expression without terms and with the constant zero.
    pub fn new() -> (zero: LinExpr)
        ensures
            zero.wf(),
            zero.entries() == Seq::<(usize, i64)>::empty(),
            zero.constant() == 0,
    {
        LinExpr { expr: SparseTerms::new(), scalar: 0 }
    }

    /// The expression that is the constant `value`.
    pub fn from_constant(value: i64) -> (e: LinExpr)
        ensures
            e.wf(),
            e.entries() == Seq::<(usize, i64)>::empty(),
            e.constant() == value,
    {
        LinExpr { expr: SparseTerms::new(), scalar: value }
    }

    /// The expression `coefficient * var`.
    pub fn term(var: GRBVar, coefficient: i64) -> (e: LinExpr)
        ensures
            e.wf(),
            e.entries() == seq![(var.spec_index(), coefficient)],
            e.terms() == Map::<usize, i64>::empty().insert(var.spec_index(), coefficient),
            e.constant() == 0,
    {
        LinExpr { expr: SparseTerms::singleton(var.index(), coefficient), scalar: 0 }
    }

    /// The number of terms.
    pub fn len(&self) -> (n: usize)
        ensures
            n == self.entries().len(),
    {
        self.expr.len()
    }

    /// The term at position `i`: variable index and coefficient.
    pub fn entry(&self, i: usize) -> (e: (usize, i64))
        requires
            i < self.entries().len(),
        ensures
            e == self.entries()[i as int],
    {
        self.expr.entry(i)
    }

    /// The constant term.
    pub fn scalar(&self) -> (c: i64)
        ensures
            c == self.constant(),
    {
        self.scalar
    }

    /// The terms of the expression times `factor`, without the constant.
    /// `None` where a product cannot be stored.
    pub fn scaled_terms(&self, factor: i64) -> (result: Option<LinExpr>)
        requires
            self.wf(),
        ensures
            result.is_some() <==> scale_fits(self.terms(), factor),
            result matches Some(r) ==> {
                &&& r.wf()
                &&& r.terms().dom() == self.terms().dom()
                &&& forall|k: usize| r.coeff(k) == #[trigger] scaled_at(self.terms(), factor, k)
                &&& r.constant() == 0
                &&& r.entries().len() == self.entries().len()
            },
    {
        match self.expr.scale(factor) {
            Some(expr) => Some(LinExpr { expr, scalar: 0 }),
            None => None,
        }
    }

    fn combine(&self, rhs: &LinExpr, negate: bool) -> (result: Option<LinExpr>)
        requires
            self.wf(),
            rhs.wf(),
        ensures
            result.is_some() <==> Self::combination_fits(self, rhs, negate),
            result matches Some(r) ==> r.is_combination(self, rhs, negate),
    {
        let scalar = if negate {
            self.scalar.checked_sub(rhs.scalar)
        } else {
            self.scalar.checked_add(rhs.scalar)
        };
        match (scalar, self.expr.combine(&rhs.expr, negate)) {
            (Some(scalar), Some(expr)) => Some(LinExpr { expr, scalar }),
            _ => None,
        }
    }

    /// The sum of two expressions: the term maps merged key by key, the
    /// coefficients of a shared variable added. A sum of zero keeps its
    /// term. `None` where a sum cannot be stored.
    pub fn add(self, rhs: LinExpr) -> (result: Option<LinExpr>)
        requires
            self.wf(),
            rhs.wf(),
        ensures
            result.is_some() <==> Self::combination_fits(&self, &rhs, false),
            result matches Some(r) ==> r.is_combination(&self, &rhs, false),
    {
        self.combine(&rhs, false)
    }

    /// The difference of two expressions, merged as in `add`. A variable of
    /// `rhs` alone gets the negated coefficient. `None` where a difference
    /// cannot be stored.
    pub fn sub(self, rhs: LinExpr) -> (result: Option<LinExpr>)
        requires
            self.wf(),
            rhs.wf(),
        ensures
            result.is_some() <==> Self::combination_fits(&self, &rhs, true),
            result matches Some(r) ==> r.is_combination(&self, &rhs, true),
    {
        self.combine(&rhs, true)
    }

    /// The expression `var`: the one term with the coefficient 1, and the
    /// constant 0.
    pub fn from(value: GRBVar) -> (e: LinExpr)
        ensures
            e.wf(),
            e.entries() == seq![(value.spec_index(), 1i64)],
            e.terms() == Map::<usize, i64>::empty().insert(value.spec_index(), 1i64),
            e.constant() == 0,
    {
        Self::term(value, 1)
    }

    /// The expression with `scalar` added to its constant. `None` where
    /// the new constant cannot be stored.
    pub fn add_scalar(self, scalar: i64) -> (result: Option<LinExpr>)
        ensures
            result.is_some() <==> fits(self.constant() + scalar),
            result matches Some(r) ==> r.entries() == self.entries() && r.constant()
                == self.constant() + scalar,
    {
        match self.scalar.checked_add(scalar) {
            Some(scalar) => Some(LinExpr { expr: self.expr, scalar }),
            None => None,
        }
    }

    /// The expression with `scalar` taken from its constant. `None` where
    /// the new constant cannot be stored.
    pub fn sub_scalar(self, scalar: i64) -> (result: Option<LinExpr>)
        ensures
            result.is_some() <==> fits(self.constant() - scalar),
            result matches Some(r) ==> r.entries() == self.entries() && r.constant()
                == self.constant() - scalar,
    {
        match self.scalar.checked_sub(scalar) {
            Some(scalar) => Some(LinExpr { expr: self.expr, scalar }),
            None => None,
        }
    }

    /// The sum of the expression and a variable.
    pub fn add_var(self, var: GRBVar) -> (result: Option<LinExpr>)
        requires
            self.wf(),
        ensures
            result.is_some() <==> fits(self.coeff(var.spec_index()) + 1),
            result matches Some(r) ==> {
                &&& r.wf()
                &&& r.terms().dom() == self.terms().dom().insert(var.spec_index())
                &&& r.constant() == self.constant()
                &&& forall|k: usize|
                    #![trigger r.coeff(k)]
                    r.coeff(k) == self.coeff(k) + unit(var.spec_index(), k)
            },
    {
        let one = Self::from(var);
        proof {
            let k0 = var.spec_index();
            assert(map_coeff(one.terms(), k0) == 1);
            if fits(self.coeff(k0) + 1) {
                assert forall|k: usize| fits(
                    #[trigger] combined_at(self.terms(), one.terms(), false, k),
                ) by {
                    if k != k0 {
                        assert(map_coeff(one.terms(), k) == 0);
                    }
                }
            } else {
                assert(!fits(combined_at(self.terms(), one.terms(), false, k0)));
            }
        }
        let result = self.combine(&one, false);
        proof {
            if result.is_some() {
                let r = result.unwrap();
                assert(r.terms().dom() =~= self.terms().dom().insert(var.spec_index()));
                assert forall|k: usize|
                    #![trigger r.coeff(k)]
                    r.coeff(k) == self.coeff(k) + unit(var.spec_index(), k) by {
                    assert(r.coeff(k) == combined_at(self.terms(), one.terms(), false, k));
                }
            }
        }
        result
    }

    /// The difference of the expression and a variable.
    pub fn sub_var(self, var: GRBVar) -> (result: Option<LinExpr>)
        requires
            self.wf(),
        ensures
            result.is_some() <==> fits(self.coeff(var.spec_index()) - 1),
            result matches Some(r) ==> {
                &&& r.wf()
                &&& r.terms().dom() == self.terms().dom().insert(var.spec_index())
                &&& r.constant() == self.constant()
                &&& forall|k: usize|
                    #![trigger r.coeff(k)]
                    r.coeff(k) == self.coeff(k) - unit(var.spec_index(), k)
            },
    {
        let one = Self::from(var);
        proof {
            let k0 = var.spec_index();
            assert(map_coeff(one.terms(), k0) == 1);
            if fits(self.coeff(k0) - 1) {
                assert forall|k: usize| fits(
                    #[trigger] combined_at(self.terms(), one.terms(), true, k),
                ) by {
                    if k != k0 {
                        assert(map_coeff(one.terms(), k) == 0);
                    }
                }
            } else {
                assert(!fits(combined_at(self.terms(), one.terms(), true, k0)));
            }
        }
        let result = self.combine(&one, true);
        proof {
            if result.is_some() {
                let r = result.unwrap();
                assert(r.terms().dom() =~= self.terms().dom().insert(var.spec_index()));
                assert forall|k: usize|
                    #![trigger r.coeff(k)]
                    r.coeff(k) == self.coeff(k) - unit(var.spec_index(), k) by {
                    assert(r.coeff(k) == combined_at(self.terms(), one.terms(), true, k));
                }
            }
        }
        result
    }

    /// Adds `rhs` to the expression in place. Returns whether it did: where
    /// the sum cannot be stored, the expression stays as it was.
    pub fn add_assign(&mut self, rhs: LinExpr) -> (done: bool)
        requires
            old(self).wf(),
            rhs.wf(),
        ensures
            done <==> Self::combination_fits(old(self), &rhs, false),
            done ==> final(self).is_combination(old(self), &rhs, false),
            !done ==> *final(self) == *old(self),
    {
        match self.combine(&rhs, false) {
            Some(sum) => {
                *self = sum;
                true
            },
            None => false,
        }
    }

    /// Subtracts `rhs` from the expression in place. Returns whether it
    /// did: where the difference cannot be stored, the expression stays as
    /// it was.
    pub fn sub_assign(&mut self, rhs: LinExpr) -> (done: bool)
        requires
            old(self).wf(),
            rhs.wf(),
        ensures
            done <==> Self::combination_fits(old(self), &rhs, true),
            done ==> final(self).is_combination(old(self), &rhs, true),
            !done ==> *final(self) == *old(self),
    {
        match self.combine(&rhs, true) {
            Some(difference) => {
                *self = difference;
                true
            },
            None => false,
        }
    }

    /// Multiplies the expression by `factor` in place. Returns whether it
    /// did: where a product cannot be stored, the expression stays as it
    /// was.
    pub fn mul_assign(&mut self, factor: i64) -> (done: bool)
        requires
            old(self).wf(),
        ensures
            done <==> Self::scaling_fits(old(self), factor),
            done ==> final(self).is_scaled(old(self), factor),
            !done ==> *final(self) == *old(self),
    {
        match (self.scalar.checked_mul(factor), self.expr.scale(factor)) {
            (Some(scalar), Some(expr)) => {
                self.expr = expr;
                self.scalar = scalar;
                true
            },
            _ => false,
        }
    }

    /// The expression times `factor`: every coefficient and the constant.
    /// `None` where a product cannot be stored.
    pub fn mul(self, factor: i64) -> (result: Option<LinExpr>)
        requires
            self.wf(),
        ensures
            result.is_some() <==> Self::scaling_fits(&self, factor),
            result matches Some(r) ==> r.is_scaled(&self, factor),
    {
        match (self.scalar.checked_mul(factor), self.expr.scale(factor)) {
            (Some(scalar), Some(expr)) => Some(LinExpr { expr, scalar }),
            _ => None,
        }
    }
}

/// One for the variable `var`, zero for any other.
pub open spec fn unit(var: usize, k: usize) -> int {
    if k == var {
        1
    } else {
        0
    }
}

impl GRBVar {
    /// The expression `self + rhs`.
    pub fn add(self, rhs: GRBVar) -> (sum: LinExpr)
        ensures
            sum.wf(),
            sum.constant() == 0,
            sum.terms().dom() == Set::<usize>::empty().insert(self.spec_index()).insert(
                rhs.spec_index(),
            ),
            forall|k: usize|
                #![trigger sum.coeff(k)]
                sum.coeff(k) == unit(self.spec_index(), k) + unit(rhs.spec_index(), k),
    {
        let a = LinExpr::from(self);
        let b = LinExpr::from(rhs);
        proof {
            assert forall|k: usize| fits(#[trigger] combined_at(a.terms(), b.terms(), false, k)) by {
            }
        }
        let sum = a.add(b).unwrap();
        proof {
            assert(sum.terms().dom() =~= Set::<usize>::empty().insert(self.spec_index()).insert(
                rhs.spec_index(),
            ));
            assert forall|k: usize|
                #![trigger sum.coeff(k)]
                sum.coeff(k) == unit(self.spec_index(), k) + unit(rhs.spec_index(), k) by {
                assert(sum.coeff(k) == combined_at(a.terms(), b.terms(), false, k));
            }
        }
        sum
    }

    /// The expression `self - rhs`.
    pub fn sub(self, rhs: GRBVar) -> (difference: LinExpr)
        ensures
            difference.wf(),
            difference.constant() == 0,
            difference.terms().dom() == Set::<usize>::empty().insert(self.spec_index()).insert(
                rhs.spec_index(),
            ),
            forall|k: usize|
                #![trigger difference.coeff(k)]
                difference.coeff(k) == unit(self.spec_index(), k) - unit(rhs.spec_index(), k),
    {
        let a = LinExpr::from(self);
        let b = LinExpr::from(rhs);
        proof {
            assert forall|k: usize| fits(#[trigger] combined_at(a.terms(), b.terms(), true, k)) by {
            }
        }
        let difference = a.sub(b).unwrap();
        proof {
            assert(difference.terms().dom() =~= Set::<usize>::empty().insert(
                self.spec_index(),
            ).insert(rhs.spec_index()));
            assert forall|k: usize|
                #![trigger difference.coeff(k)]
                difference.coeff(k) == unit(self.spec_index(), k) - unit(rhs.spec_index(), k) by {
                assert(difference.coeff(k) == combined_at(a.terms(), b.terms(), true, k));
            }
        }
        difference
    }

    /// The expression `scalar * self`.
    pub fn mul(self, scalar: i64) -> (product: LinExpr)
        ensures
            product.wf(),
            product.entries() == seq![(self.spec_index(), scalar)],
            product.constant() == 0,
    {
        LinExpr::term(self, scalar)
    }
}

/// No variable index occurs twice among the terms of a canonical expression.
pub proof fn lemma_keys_unique(e: LinExpr, i: int, j: int)
    requires
        e.wf(),
        0 <= i < e.entries().len(),
        0 <= j < e.entries().len(),
        i != j,
    ensures
        e.entries()[i].0 != e.entries()[j].0,
{
    if i < j {
        assert(e.entries()[i].0.rank() < e.entries()[j].0.rank());
    } else {
        assert(e.entries()[j].0.rank() < e.entries()[i].0.rank());
    }
}

/// Canonical expressions with the same term map have the same terms in the
/// same order.
pub proof fn lemma_same_terms_same_entries(a: LinExpr, b: LinExpr)
    requires
        a.wf(),
        b.wf(),
        a.terms() == b.terms(),
    ensures
        a.entries() == b.entries(),
{
    lemma_canonical_unique(a.entries(), b.entries());
}

/// Subtracting `b` from `a + b` is always possible and gives back the value
/// of `a`: the same constant and, for every variable, the same coefficient.
/// A variable that only `b` had stays as a term with the coefficient zero;
/// where `b` has no variable that `a` lacks, the difference is `a` term by
/// term.
pub proof fn lemma_add_then_sub(a: LinExpr, b: LinExpr, sum: LinExpr, diff: LinExpr)
    requires
        a.wf(),
        b.wf(),
        sum.is_combination(&a, &b, false),
        diff.is_combination(&sum, &b, true),
    ensures
        LinExpr::combination_fits(&sum, &b, true),
        diff.same_value(&a),
        diff.terms().dom() == a.terms().dom().union(b.terms().dom()),
        b.terms().dom().subset_of(a.terms().dom()) ==> diff.entries() == a.entries(),
{
    assert forall|k: usize| diff.coeff(k) == #[trigger] a.coeff(k) by {
        assert(diff.coeff(k) == combined_at(sum.terms(), b.terms(), true, k));
        assert(sum.coeff(k) == combined_at(a.terms(), b.terms(), false, k));
    }
    assert forall|k: usize| fits(#[trigger] combined_at(sum.terms(), b.terms(), true, k)) by {
        assert(sum.coeff(k) == combined_at(a.terms(), b.terms(), false, k));
        assert(combined_at(sum.terms(), b.terms(), true, k) == a.coeff(k));
    }
    assert(diff.terms().dom() =~= a.terms().dom().union(b.terms().dom()));
    if b.terms().dom().subset_of(a.terms().dom()) {
        assert(diff.terms().dom() =~= a.terms().dom());
        assert forall|k: usize| diff.terms().contains_key(k) implies diff.terms()[k]
            == a.terms()[k] by {
            assert(diff.coeff(k) == a.coeff(k));
        }
        assert(diff.terms() =~= a.terms());
        lemma_canonical_unique(diff.entries(), a.entries());
    }
}

/// The difference `(a + b) - b` exists whenever the sum `a + b` does.
pub proof fn lemma_sub_after_add_fits(a: LinExpr, b: LinExpr, sum: LinExpr)
    requires
        a.wf(),
        b.wf(),
        sum.is_combination(&a, &b, false),
    ensures
        LinExpr::combination_fits(&sum, &b, true),
{
    assert forall|k: usize| fits(#[trigger] combined_at(sum.terms(), b.terms(), true, k)) by {
        assert(sum.coeff(k) == combined_at(a.terms(), b.terms(), false, k));
        assert(combined_at(sum.terms(), b.terms(), true, k) == a.coeff(k));
    }
}

/// Scaling by `s` and then by `t` is scaling by `s * t`.
pub proof fn lemma_scale_twice(a: LinExpr, s: i64, t: i64, once: LinExpr, twice: LinExpr)
    requires
        a.wf(),
        once.is_scaled(&a, s),
        twice.is_scaled(&once, t),
    ensures
        twice.constant() == a.constant() * (s * t),
        twice.terms().dom() == a.terms().dom(),
        forall|k: usize| twice.coeff(k) == #[trigger] a.coeff(k) * (s * t),
{
    assert(a.constant() * s * t == a.constant() * (s * t)) by (nonlinear_arith);
    assert forall|k: usize| twice.coeff(k) == #[trigger] a.coeff(k) * (s * t) by {
        assert(twice.coeff(k) == scaled_at(once.terms(), t, k));
        assert(once.coeff(k) == scaled_at(a.terms(), s, k));
        let c = a.coeff(k);
        assert(c * s * t == c * (s * t)) by (nonlinear_arith);
    }
}

/// Scaling by `s` and then by its reciprocal `t` gives the expression back,
/// term by term, and the second scaling is always possible.
pub proof fn lemma_scale_then_unscale(a: LinExpr, s: i64, t: i64, once: LinExpr, twice: LinExpr)
    requires
        a.wf(),
        s * t == 1,
        once.is_scaled(&a, s),
        twice.is_scaled(&once, t),
    ensures
        LinExpr::scaling_fits(&once, t),
        twice.same_value(&a),
        twice.entries() == a.entries(),
{
    lemma_scale_twice(a, s, t, once, twice);
    assert forall|k: usize| twice.coeff(k) == #[trigger] a.coeff(k) by {
        assert(twice.coeff(k) == a.coeff(k) * (s * t));
    }
    assert forall|k: usize| fits(#[trigger] scaled_at(once.terms(), t, k)) by {
        assert(twice.coeff(k) == scaled_at(once.terms(), t, k));
    }
    assert forall|k: usize| twice.terms().contains_key(k) implies twice.terms()[k]
        == a.terms()[k] by {
        assert(twice.coeff(k) == a.coeff(k));
    }
    assert(twice.terms() =~= a.terms());
    lemma_canonical_unique(twice.entries(), a.entries());
}

} // verus!
