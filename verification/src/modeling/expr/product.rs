//! The product of two linear expressions.

use vstd::prelude::*;
use crate::modeling::expr::lin_expr::LinExpr;
use crate::modeling::expr::quad_expr::{lemma_union_normalized, normalized, QuadExpr};
use crate::modeling::expr::sparse::{
    combined_at, fits, has_key, lemma_terms_map_at, lemma_terms_map_dom, lemma_terms_map_take,
    map_coeff, scale_fits, scaled_at, sorted, terms_map, IndexPair, SparseTerms, TermKey,
};

verus! {

/// The coefficient of the pair `p` in the product of two term maps: the
/// cross products of the two variables, both ways round.
pub open spec fn product_at(a: Map<usize, i64>, b: Map<usize, i64>, p: IndexPair) -> int {
    if p.low == p.high {
        map_coeff(a, p.low) * map_coeff(b, p.low)
    } else {
        map_coeff(a, p.low) * map_coeff(b, p.high) + map_coeff(a, p.high) * map_coeff(b, p.low)
    }
}

/// Whether the product of two term maps has a term for the pair `p`: one
/// operand has a term for one of the two variables and the other operand
/// has a term for the other.
pub open spec fn product_has(a: Map<usize, i64>, b: Map<usize, i64>, p: IndexPair) -> bool {
    &&& p.low <= p.high
    &&& (a.contains_key(p.low) && b.contains_key(p.high)) || (a.contains_key(p.high)
        && b.contains_key(p.low))
}

/// The product of the coefficient of `i` in `a` and that of `j` in `b`.
pub open spec fn cross_at(a: Map<usize, i64>, b: Map<usize, i64>, i: usize, j: usize) -> int {
    map_coeff(a, i) * map_coeff(b, j)
}

/// Every product of a coefficient of `a` and a coefficient of `b` can be
/// stored.
pub open spec fn products_fit(a: Map<usize, i64>, b: Map<usize, i64>) -> bool {
    forall|i: usize, j: usize| fits(#[trigger] cross_at(a, b, i, j))
}

/// Every coefficient of the product can be stored.
pub open spec fn product_sums_fit(a: Map<usize, i64>, b: Map<usize, i64>) -> bool {
    forall|p: IndexPair| p.low <= p.high ==> fits(#[trigger] product_at(a, b, p))
}

/// The coefficient of the pair `p` in the product of the one term
/// `ai * x_i` and the term map `b`.
pub open spec fn row_at(i: usize, ai: i64, b: Map<usize, i64>, p: IndexPair) -> int {
    if p.low == i {
        scaled_at(b, ai, p.high)
    } else if p.high == i {
        scaled_at(b, ai, p.low)
    } else {
        0
    }
}

/// Whether the product of a term in `x_i` and the term map `b` has a term
/// for the pair `p`.
pub open spec fn row_has(i: usize, b: Map<usize, i64>, p: IndexPair) -> bool {
    &&& p.low <= p.high
    &&& (p.low == i && b.contains_key(p.high)) || (p.high == i && b.contains_key(p.low))
}

/// Pairing a fixed variable with a greater variable gives a greater pair.
pub proof fn lemma_pair_rank(i: usize, j1: usize, j2: usize)
    requires
        j1 < j2,
    ensures
        IndexPair::spec_new(i, j1).rank() < IndexPair::spec_new(i, j2).rank(),
{
}

/// The entries `r`, which pair the variable `i` with each variable of the
/// sorted entries `b` and multiply each coefficient by `ai`, are the product
/// of the term `ai * x_i` and `b`.
pub proof fn lemma_row(i: usize, ai: i64, b: Seq<(usize, i64)>, r: Seq<(IndexPair, i64)>)
    requires
        sorted(b),
        r.len() == b.len(),
        forall|t: int|
            0 <= t < b.len() ==> (#[trigger] r[t]).0 == IndexPair::spec_new(i, b[t].0) && r[t].1
                == b[t].1 * ai,
    ensures
        sorted(r),
        normalized(r),
        forall|p: IndexPair| #[trigger] terms_map(r).contains_key(p) <==> row_has(i, terms_map(b), p),
        forall|p: IndexPair|
            p.low <= p.high ==> map_coeff(terms_map(r), p) == #[trigger] row_at(
                i,
                ai,
                terms_map(b),
                p,
            ),
{
    assert forall|s: int, t: int| 0 <= s < t < r.len() implies (#[trigger] r[s]).0.rank() < (
    #[trigger] r[t]).0.rank() by {
        assert(b[s].0.rank() < b[t].0.rank());
        lemma_pair_rank(i, b[s].0, b[t].0);
    }
    assert forall|p: IndexPair|
        (#[trigger] terms_map(r).contains_key(p) <==> row_has(i, terms_map(b), p)) && (p.low
            <= p.high ==> map_coeff(terms_map(r), p) == row_at(i, ai, terms_map(b), p)) by {
        let bm = terms_map(b);
        lemma_terms_map_dom(r, p);
        lemma_terms_map_dom(b, p.low);
        lemma_terms_map_dom(b, p.high);
        if has_key(r, p) {
            let t = choose|t: int| 0 <= t < r.len() && (#[trigger] r[t]).0 == p;
            lemma_terms_map_at(b, t);
            lemma_terms_map_at(r, t);
            assert(row_has(i, bm, p));
            assert(map_coeff(terms_map(r), p) == row_at(i, ai, bm, p));
        } else {
            if p.low <= p.high && p.low == i && bm.contains_key(p.high) {
                let t = choose|t: int| 0 <= t < b.len() && (#[trigger] b[t]).0 == p.high;
                assert(r[t].0 == p);
            }
            if p.low <= p.high && p.high == i && bm.contains_key(p.low) {
                let t = choose|t: int| 0 <= t < b.len() && (#[trigger] b[t]).0 == p.low;
                assert(r[t].0 == p);
            }
            assert(!row_has(i, bm, p));
        }
    }
}

/// The product of the term `ai * x_i` and the terms of `rhs`. `None` where a
/// product of two coefficients cannot be stored.
pub fn product_row(i: usize, ai: i64, rhs: &LinExpr) -> (result: Option<SparseTerms<IndexPair>>)
    requires
        rhs.wf(),
    ensures
        result.is_some() <==> scale_fits(rhs.terms(), ai),
        result matches Some(row) ==> {
            &&& row.wf()
            &&& normalized(row.entries())
            &&& forall|p: IndexPair| #[trigger]
                row.terms().contains_key(p) <==> row_has(i, rhs.terms(), p)
            &&& forall|p: IndexPair|
                p.low <= p.high ==> row.coeff(p) == #[trigger] row_at(i, ai, rhs.terms(), p)
        },
{
    let ghost b = rhs.entries();
    let n = rhs.len();
    let mut row: SparseTerms<IndexPair> = SparseTerms::new();
    let mut m: usize = 0;
    while m < n
        invariant
            b == rhs.entries(),
            sorted(b),
            n == b.len(),
            m <= n,
            row.wf(),
            row.entries().len() == m,
            forall|t: int|
                0 <= t < m ==> (#[trigger] row.entries()[t]).0 == IndexPair::spec_new(i, b[t].0)
                    && row.entries()[t].1 == b[t].1 * ai,
            forall|t: int| 0 <= t < m ==> fits(#[trigger] b[t].1 * ai),
        decreases n - m,
    {
        let e = rhs.entry(m);
        match e.1.checked_mul(ai) {
            None => {
                proof {
                    lemma_terms_map_at(b, m as int);
                    assert(!fits(scaled_at(rhs.terms(), ai, e.0)));
                }
                return None;
            },
            Some(v) => {
                proof {
                    if m > 0 {
                        assert(b[m - 1].0.rank() < b[m as int].0.rank());
                        lemma_pair_rank(i, b[m - 1].0, b[m as int].0);
                    }
                }
                row.push(IndexPair::new(i, e.0), v);
            },
        }
        m += 1;
    }
    proof {
        lemma_row(i, ai, b, row.entries());
        assert forall|j: usize| fits(#[trigger] scaled_at(rhs.terms(), ai, j)) by {
            lemma_terms_map_dom(b, j);
            if has_key(b, j) {
                let t = choose|t: int| 0 <= t < b.len() && (#[trigger] b[t]).0 == j;
                lemma_terms_map_at(b, t);
                assert(fits(b[t].1 * ai));
            }
        }
    }
    Some(row)
}

/// The coefficient of the variable `k` in the linear part of the product:
/// each operand's terms times the other operand's constant.
pub open spec fn linear_at(a: &LinExpr, b: &LinExpr, k: usize) -> int {
    scaled_at(a.terms(), b.constant(), k) + scaled_at(b.terms(), a.constant(), k)
}

/// Whether the product of `a` and `b` can be stored, with all that is
/// computed on the way to it.
pub open spec fn product_fits(a: &LinExpr, b: &LinExpr) -> bool {
    &&& scale_fits(a.terms(), b.constant())
    &&& scale_fits(b.terms(), a.constant())
    &&& forall|k: usize| fits(#[trigger] linear_at(a, b, k))
    &&& products_fit(a.terms(), b.terms())
    &&& product_sums_fit(a.terms(), b.terms())
}

/// `r` is the product of `a` and `b`: one quadratic term for each pair of a
/// variable of `a` and a variable of `b`, the two ways round merged into
/// one; a linear part of each operand's terms times the other operand's
/// constant; and the constant zero, for the product of the two constants is
/// no part of the result.
pub open spec fn is_product(r: &QuadExpr, a: &LinExpr, b: &LinExpr) -> bool {
    &&& r.wf()
    &&& forall|p: IndexPair| #[trigger]
        r.quad_terms().contains_key(p) <==> product_has(a.terms(), b.terms(), p)
    &&& forall|p: IndexPair|
        p.low <= p.high ==> r.quad_coeff(p) == #[trigger] product_at(a.terms(), b.terms(), p)
    &&& r.linear().constant() == 0
    &&& r.linear().terms().dom() == a.terms().dom().union(b.terms().dom())
    &&& forall|k: usize| r.linear().coeff(k) == #[trigger] linear_at(a, b, k)
}

/// Adding the term `ai * x_i` to the first operand adds its row to the
/// product.
pub proof fn lemma_product_step(
    an: Map<usize, i64>,
    i: usize,
    ai: i64,
    bm: Map<usize, i64>,
    p: IndexPair,
)
    requires
        !an.contains_key(i),
    ensures
        product_at(an.insert(i, ai), bm, p) == product_at(an, bm, p) + row_at(i, ai, bm, p),
        product_has(an.insert(i, ai), bm, p) <==> (product_has(an, bm, p) || row_has(i, bm, p)),
{
    let an2 = an.insert(i, ai);
    let bl = map_coeff(bm, p.low);
    let bh = map_coeff(bm, p.high);
    assert(map_coeff(an2, i) == ai);
    assert(map_coeff(an, i) == 0);
    assert(ai * bl == bl * ai) by (nonlinear_arith);
    assert(ai * bh == bh * ai) by (nonlinear_arith);
    if p.low != i {
        assert(map_coeff(an2, p.low) == map_coeff(an, p.low));
    }
    if p.high != i {
        assert(map_coeff(an2, p.high) == map_coeff(an, p.high));
    }
}

/// The first `n + 1` of sorted entries hold every key up to the key at
/// position `n`, with its coefficient, and no key beyond it.
pub proof fn lemma_take_coeff(a: Seq<(usize, i64)>, n: int, x: usize)
    requires
        sorted(a),
        0 <= n < a.len(),
    ensures
        sorted(a.take(n + 1)),
        x <= a[n].0 ==> map_coeff(terms_map(a.take(n + 1)), x) == map_coeff(terms_map(a), x),
        x > a[n].0 ==> !terms_map(a.take(n + 1)).contains_key(x),
{
    let h = a.take(n + 1);
    assert forall|s: int, t: int| 0 <= s < t < h.len() implies (#[trigger] h[s]).0.rank() < (
    #[trigger] h[t]).0.rank() by {
        assert(a[s].0.rank() < a[t].0.rank());
    }
    lemma_terms_map_dom(h, x);
    lemma_terms_map_dom(a, x);
    if has_key(h, x) {
        let t = choose|t: int| 0 <= t < h.len() && (#[trigger] h[t]).0 == x;
        assert(a[t].0 == x);
        lemma_terms_map_at(h, t);
        lemma_terms_map_at(a, t);
        if t < n {
            assert(a[t].0.rank() < a[n].0.rank());
        }
    } else if has_key(a, x) {
        let t = choose|t: int| 0 <= t < a.len() && (#[trigger] a[t]).0 == x;
        if t <= n {
            assert(h[t].0 == x);
        } else {
            assert(a[n].0.rank() < a[t].0.rank());
        }
    }
}

impl LinExpr {
    /// The product of two linear expressions, as a quadratic expression
    /// without the product of the two constants. `None` where a
    /// coefficient of the result, or a product of two coefficients on the
    /// way to it, cannot be stored.
    pub fn mul_expr(self, rhs: LinExpr) -> (result: Option<QuadExpr>)
        requires
            self.wf(),
            rhs.wf(),
        ensures
            result.is_some() <==> product_fits(&self, &rhs),
            result matches Some(r) ==> is_product(&r, &self, &rhs),
    {
        let ghost a = self.entries();
        let ghost am = self.terms();
        let ghost bm = rhs.terms();
        let left = match self.scaled_terms(rhs.scalar()) {
            Some(e) => e,
            None => {
                return None;
            },
        };
        let right = match rhs.scaled_terms(self.scalar()) {
            Some(e) => e,
            None => {
                return None;
            },
        };
        let ghost lt = left.terms();
        let ghost rt = right.terms();
        let linear = match left.add(right) {
            Some(e) => e,
            None => {
                proof {
                    if forall|k: usize| fits(#[trigger] linear_at(&self, &rhs, k)) {
                        assert forall|k: usize| fits(#[trigger] combined_at(lt, rt, false, k)) by {
                            assert(fits(linear_at(&self, &rhs, k)));
                            assert(map_coeff(lt, k) == scaled_at(am, rhs.constant(), k));
                            assert(map_coeff(rt, k) == scaled_at(bm, self.constant(), k));
                        }
                        assert(false);
                    }
                }
                return None;
            },
        };
        proof {
            assert forall|k: usize| linear.coeff(k) == #[trigger] linear_at(&self, &rhs, k) by {
                assert(linear.coeff(k) == combined_at(lt, rt, false, k));
                assert(map_coeff(lt, k) == scaled_at(am, rhs.constant(), k));
                assert(map_coeff(rt, k) == scaled_at(bm, self.constant(), k));
            }
            assert forall|k: usize| fits(#[trigger] linear_at(&self, &rhs, k)) by {
                assert(linear.coeff(k) == linear_at(&self, &rhs, k));
            }
            assert(a.take(0) =~= Seq::<(usize, i64)>::empty());
        }
        let len = self.len();
        let mut acc: SparseTerms<IndexPair> = SparseTerms::new();
        let mut n: usize = 0;
        while n < len
            invariant
                a == self.entries(),
                am == terms_map(a),
                bm == rhs.terms(),
                sorted(a),
                rhs.wf(),
                len == a.len(),
                n <= len,
                linear.wf(),
                linear.constant() == 0,
                linear.terms().dom() == am.dom().union(bm.dom()),
                forall|k: usize| linear.coeff(k) == #[trigger] linear_at(&self, &rhs, k),
                forall|k: usize| fits(#[trigger] linear_at(&self, &rhs, k)),
                scale_fits(am, rhs.constant()),
                scale_fits(bm, self.constant()),
                acc.wf(),
                normalized(acc.entries()),
                forall|p: IndexPair| #[trigger]
                    acc.terms().contains_key(p) <==> product_has(
                        terms_map(a.take(n as int)),
                        bm,
                        p,
                    ),
                forall|p: IndexPair|
                    p.low <= p.high ==> acc.coeff(p) == #[trigger] product_at(
                        terms_map(a.take(n as int)),
                        bm,
                        p,
                    ),
                forall|t: int| 0 <= t < n ==> scale_fits(bm, (#[trigger] a[t]).1),
            decreases len - n,
        {
            let e = self.entry(n);
            let i = e.0;
            let ai = e.1;
            let ghost an = terms_map(a.take(n as int));
            let ghost an2 = terms_map(a.take(n + 1));
            proof {
                lemma_terms_map_take(a, n as int);
                lemma_terms_map_at(a, n as int);
                if n > 0 {
                    lemma_take_coeff(a, n - 1, i);
                    assert(a[n - 1].0.rank() < a[n as int].0.rank());
                    assert(a.take((n - 1) + 1) == a.take(n as int));
                }
                assert(!an.contains_key(i));
                assert(an2 == an.insert(i, ai));
            }
            let row = match product_row(i, ai, &rhs) {
                Some(row) => row,
                None => {
                    proof {
                        if products_fit(am, bm) {
                            assert forall|j: usize| fits(#[trigger] scaled_at(bm, ai, j)) by {
                                assert(fits(cross_at(am, bm, i, j)));
                                let bj = map_coeff(bm, j);
                                assert(ai * bj == bj * ai) by (nonlinear_arith);
                            }
                            assert(false);
                        }
                    }
                    return None;
                },
            };
            let next = match acc.combine(&row, false) {
                Some(next) => next,
                None => {
                    proof {
                        let k = choose|k: IndexPair|
                            !fits(#[trigger] combined_at(acc.terms(), row.terms(), false, k));
                        lemma_product_step(an, i, ai, bm, k);
                        if k.low <= k.high {
                            assert(acc.coeff(k) == product_at(an, bm, k));
                            assert(row.coeff(k) == row_at(i, ai, bm, k));
                            let bl = map_coeff(bm, k.low);
                            let bh = map_coeff(bm, k.high);
                            if k.low == i {
                                if k.high != i {
                                    lemma_take_coeff(a, n as int, k.high);
                                    assert(map_coeff(an2, k.high) == 0);
                                }
                                assert(product_at(an2, bm, k) == cross_at(am, bm, i, k.high));
                            } else if k.high == i {
                                lemma_take_coeff(a, n as int, k.low);
                                lemma_take_coeff(a, n as int, k.high);
                                assert(product_at(an2, bm, k) == product_at(am, bm, k));
                            } else {
                                assert(false);
                            }
                        } else {
                            assert(!acc.terms().contains_key(k));
                            assert(!row.terms().contains_key(k));
                            assert(false);
                        }
                    }
                    return None;
                },
            };
            proof {
                lemma_union_normalized(next.entries(), acc.entries(), row.entries());
                assert forall|p: IndexPair| #[trigger]
                    next.terms().contains_key(p) <==> product_has(an2, bm, p) by {
                    lemma_product_step(an, i, ai, bm, p);
                    assert(next.terms().dom().contains(p) == acc.terms().dom().union(
                        row.terms().dom(),
                    ).contains(p));
                }
                assert forall|p: IndexPair| p.low <= p.high implies next.coeff(p)
                    == #[trigger] product_at(an2, bm, p) by {
                    lemma_product_step(an, i, ai, bm, p);
                    assert(next.coeff(p) == combined_at(acc.terms(), row.terms(), false, p));
                    assert(acc.coeff(p) == product_at(an, bm, p));
                    assert(row.coeff(p) == row_at(i, ai, bm, p));
                }
            }
            acc = next;
            n += 1;
        }
        proof {
            assert(a.take(len as int) =~= a);
            assert forall|i: usize, j: usize| fits(#[trigger] cross_at(am, bm, i, j)) by {
                lemma_terms_map_dom(a, i);
                let bj = map_coeff(bm, j);
                if has_key(a, i) {
                    let t = choose|t: int| 0 <= t < a.len() && (#[trigger] a[t]).0 == i;
                    lemma_terms_map_at(a, t);
                    assert(scale_fits(bm, a[t].1));
                    assert(fits(scaled_at(bm, a[t].1, j)));
                    let ai = a[t].1;
                    assert(ai * bj == bj * ai) by (nonlinear_arith);
                } else {
                    assert(map_coeff(am, i) == 0);
                    assert(0 * bj == 0) by (nonlinear_arith);
                }
            }
            assert forall|p: IndexPair| p.low <= p.high implies fits(
                #[trigger] product_at(am, bm, p),
            ) by {
                assert(acc.coeff(p) == product_at(am, bm, p));
            }
        }
        let ghost quad = acc.terms();
        proof {
            assert forall|p: IndexPair| #[trigger]
                quad.contains_key(p) <==> product_has(am, bm, p) by {
                assert(acc.terms().contains_key(p) <==> product_has(
                    terms_map(a.take(n as int)),
                    bm,
                    p,
                ));
            }
        }
        let r = QuadExpr::from_parts(acc, linear);
        proof {
            assert(r.quad_terms() == quad);
        }
        Some(r)
    }
}

} // verus!
