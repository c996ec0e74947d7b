use gurobirs::constr::{ConstrCall, Expr};
use gurobirs::modeling::expr::lin_expr::LinExpr;
use gurobirs::modeling::expr::quad_expr::QuadExpr;
use gurobirs::modeling::expr::sparse::{IndexPair, SparseTerms, TermKey};
use gurobirs::modeling::expr::GRBSense;
use gurobirs::var::GRBVar;

fn entries(e: &LinExpr) -> Vec<(usize, i64)> {
    let mut out = Vec::new();
    for i in 0..e.len() {
        out.push(e.entry(i));
    }
    out
}

fn quad_entries(e: &QuadExpr) -> Vec<((usize, usize), i64)> {
    let mut out = Vec::new();
    for i in 0..e.quad_len() {
        let (pair, coeff) = e.quad_entry(i);
        out.push(((pair.low, pair.high), coeff));
    }
    out
}

/// 2 x0 + 3 x1 + 1
fn sample_a() -> LinExpr {
    LinExpr::term(GRBVar::new(0), 2)
        .add(LinExpr::term(GRBVar::new(1), 3))
        .unwrap()
        .add_scalar(1)
        .unwrap()
}

/// 4 x1 + 5 x2 + 7
fn sample_b() -> LinExpr {
    LinExpr::term(GRBVar::new(1), 4)
        .add(LinExpr::term(GRBVar::new(2), 5))
        .unwrap()
        .add_scalar(7)
        .unwrap()
}

#[test]
fn a_clone_is_a_copy() {
    let a = sample_a();
    let b = a.clone();
    assert_eq!(entries(&a), entries(&b));
    assert_eq!(a.scalar(), b.scalar());
    let square = a.mul_expr(b).unwrap();
    assert_eq!(quad_entries(&square.clone()), vec![((0, 0), 4), ((0, 1), 12), ((1, 1), 9)]);
    assert_eq!(entries(square.linear_part()), vec![(0, 4), (1, 6)]);
}

#[test]
fn new_expression_is_empty() {
    let e = LinExpr::new();
    assert_eq!(e.len(), 0);
    assert_eq!(e.scalar(), 0);
}

#[test]
fn variable_embeds_with_coefficient_one() {
    let e = LinExpr::from(GRBVar::new(7));
    assert_eq!(entries(&e), vec![(7, 1)]);
    assert_eq!(e.scalar(), 0);
}

#[test]
fn add_merges_shared_variables() {
    let sum = sample_a().add(sample_b()).unwrap();
    assert_eq!(entries(&sum), vec![(0, 2), (1, 7), (2, 5)]);
    assert_eq!(sum.scalar(), 8);
}

#[test]
fn add_keeps_keys_unique_and_bounds_the_count() {
    let a = sample_a();
    let b = sample_b();
    let (la, lb) = (a.len(), b.len());
    let sum = a.add(b).unwrap();
    assert!(sum.len() <= la + lb);
    let e = entries(&sum);
    for i in 1..e.len() {
        assert!(e[i - 1].0 < e[i].0);
    }
}

#[test]
fn add_is_independent_of_insertion_order() {
    let x = GRBVar::new(5);
    let y = GRBVar::new(2);
    let one = LinExpr::term(x, 1).add(LinExpr::term(y, 9)).unwrap();
    let two = LinExpr::term(y, 9).add(LinExpr::term(x, 1)).unwrap();
    assert_eq!(entries(&one), vec![(2, 9), (5, 1)]);
    assert_eq!(entries(&one), entries(&two));
}

#[test]
fn sub_negates_variables_of_the_right_operand() {
    let d = sample_a().sub(sample_b()).unwrap();
    assert_eq!(entries(&d), vec![(0, 2), (1, -1), (2, -5)]);
    assert_eq!(d.scalar(), -6);
}

#[test]
fn sub_keeps_cancelled_terms() {
    let x = GRBVar::new(3);
    let d = LinExpr::term(x, 5).sub(LinExpr::term(x, 5)).unwrap();
    assert_eq!(entries(&d), vec![(3, 0)]);
    assert_eq!(d.scalar(), 0);
}

#[test]
fn add_then_sub_gives_the_first_operand_back() {
    let back = sample_a().add(sample_b()).unwrap().sub(sample_b()).unwrap();
    // x2 came in with the second operand and stays, with the coefficient zero
    assert_eq!(entries(&back), vec![(0, 2), (1, 3), (2, 0)]);
    assert_eq!(back.scalar(), 1);
}

#[test]
fn add_then_sub_is_exact_where_no_variable_is_new() {
    let b = LinExpr::term(GRBVar::new(1), 40).add_scalar(-3).unwrap();
    let b_again = LinExpr::term(GRBVar::new(1), 40).add_scalar(-3).unwrap();
    let back = sample_a().add(b).unwrap().sub(b_again).unwrap();
    assert_eq!(entries(&back), entries(&sample_a()));
    assert_eq!(back.scalar(), sample_a().scalar());
}

#[test]
fn add_reports_overflow() {
    let x = GRBVar::new(0);
    assert!(LinExpr::term(x, i64::MAX).add(LinExpr::term(x, 1)).is_none());
    assert!(LinExpr::from_constant(i64::MAX).add(LinExpr::from_constant(1)).is_none());
    assert!(LinExpr::from_constant(i64::MIN).sub(LinExpr::from_constant(1)).is_none());
    assert!(LinExpr::new().sub(LinExpr::term(x, i64::MIN)).is_none());
}

#[test]
fn mul_distributes_over_terms_and_constant() {
    let e = sample_a().mul(-3).unwrap();
    assert_eq!(entries(&e), vec![(0, -6), (1, -9)]);
    assert_eq!(e.scalar(), -3);
}

#[test]
fn mul_by_zero_keeps_the_terms() {
    let e = sample_a().mul(0).unwrap();
    assert_eq!(entries(&e), vec![(0, 0), (1, 0)]);
    assert_eq!(e.scalar(), 0);
}

#[test]
fn mul_reports_overflow() {
    assert!(LinExpr::term(GRBVar::new(0), i64::MAX).mul(2).is_none());
    assert!(LinExpr::from_constant(i64::MIN).mul(-1).is_none());
}

#[test]
fn scaling_by_a_unit_and_back_is_the_identity() {
    let e = sample_a().mul(-1).unwrap().mul(-1).unwrap();
    assert_eq!(entries(&e), entries(&sample_a()));
    assert_eq!(e.scalar(), 1);
}

#[test]
fn scaling_twice_is_scaling_by_the_product() {
    let twice = sample_a().mul(6).unwrap().mul(-7).unwrap();
    let once = sample_a().mul(-42).unwrap();
    assert_eq!(entries(&twice), entries(&once));
    assert_eq!(twice.scalar(), once.scalar());
}

#[test]
fn scalar_operations_touch_only_the_constant() {
    let e = sample_a().add_scalar(10).unwrap().sub_scalar(4).unwrap();
    assert_eq!(entries(&e), vec![(0, 2), (1, 3)]);
    assert_eq!(e.scalar(), 7);
    assert!(LinExpr::from_constant(i64::MAX).add_scalar(1).is_none());
    assert!(LinExpr::from_constant(i64::MIN).sub_scalar(1).is_none());
}

#[test]
fn variable_operations() {
    let e = sample_a().add_var(GRBVar::new(1)).unwrap().sub_var(GRBVar::new(9)).unwrap();
    assert_eq!(entries(&e), vec![(0, 2), (1, 4), (9, -1)]);
    assert!(LinExpr::term(GRBVar::new(1), i64::MAX).add_var(GRBVar::new(1)).is_none());
    assert!(LinExpr::term(GRBVar::new(1), i64::MIN).sub_var(GRBVar::new(1)).is_none());
}

#[test]
fn assignments_in_place() {
    let mut e = sample_a();
    assert!(e.add_assign(sample_b()));
    assert_eq!(entries(&e), vec![(0, 2), (1, 7), (2, 5)]);
    assert!(e.sub_assign(sample_b()));
    assert_eq!(entries(&e), vec![(0, 2), (1, 3), (2, 0)]);
    assert!(e.mul_assign(2));
    assert_eq!(entries(&e), vec![(0, 4), (1, 6), (2, 0)]);
    assert_eq!(e.scalar(), 2);
}

#[test]
fn failed_assignment_leaves_the_expression() {
    let mut e = LinExpr::term(GRBVar::new(0), i64::MAX).add_scalar(3).unwrap();
    assert!(!e.add_assign(LinExpr::term(GRBVar::new(0), 1)));
    assert!(!e.sub_assign(LinExpr::term(GRBVar::new(0), -1)));
    assert!(!e.mul_assign(2));
    assert_eq!(entries(&e), vec![(0, i64::MAX)]);
    assert_eq!(e.scalar(), 3);
}

#[test]
fn variables_combine_into_expressions() {
    let x = GRBVar::new(4);
    let y = GRBVar::new(1);
    assert_eq!(entries(&x.add(y)), vec![(1, 1), (4, 1)]);
    assert_eq!(entries(&x.add(x)), vec![(4, 2)]);
    assert_eq!(entries(&x.sub(y)), vec![(1, -1), (4, 1)]);
    assert_eq!(entries(&x.sub(x)), vec![(4, 0)]);
    assert_eq!(entries(&x.mul(-8)), vec![(4, -8)]);
}

#[test]
fn product_of_linear_expressions() {
    // (2 x0 + 3 x1 + 1) * (4 x1 + 5 x2 + 7)
    let p = sample_a().mul_expr(sample_b()).unwrap();
    assert_eq!(
        quad_entries(&p),
        vec![((0, 1), 8), ((0, 2), 10), ((1, 1), 12), ((1, 2), 15)]
    );
    // 7 * (2 x0 + 3 x1) + 1 * (4 x1 + 5 x2); the product of the constants is left out
    assert_eq!(entries(p.linear_part()), vec![(0, 14), (1, 25), (2, 5)]);
    assert_eq!(p.linear_part().scalar(), 0);
}

#[test]
fn product_merges_both_orders_of_a_pair() {
    // (x0 + x1)^2 = x0^2 + 2 x0 x1 + x1^2
    let a = GRBVar::new(0).add(GRBVar::new(1));
    let b = GRBVar::new(0).add(GRBVar::new(1));
    let p = a.mul_expr(b).unwrap();
    assert_eq!(quad_entries(&p), vec![((0, 0), 1), ((0, 1), 2), ((1, 1), 1)]);
    assert_eq!(entries(p.linear_part()), vec![(0, 0), (1, 0)]);
}

#[test]
fn product_reports_overflow() {
    let big = LinExpr::term(GRBVar::new(0), i64::MAX);
    assert!(big.mul_expr(LinExpr::term(GRBVar::new(1), 2)).is_none());
    // each cross product fits, their sum does not
    let half = 1i64 << 62;
    let a = LinExpr::term(GRBVar::new(0), half).add(LinExpr::term(GRBVar::new(1), half)).unwrap();
    let b = GRBVar::new(0).add(GRBVar::new(1));
    assert!(a.mul_expr(b).is_none());
    // the linear part overflows
    let c = LinExpr::term(GRBVar::new(0), i64::MAX).add_scalar(1).unwrap();
    let d = LinExpr::from_constant(2);
    assert!(c.mul_expr(d).is_none());
}

#[test]
fn quadratic_term_ignores_the_order_of_its_variables() {
    let one = QuadExpr::term(GRBVar::new(5), GRBVar::new(2), 3);
    let two = QuadExpr::term(GRBVar::new(2), GRBVar::new(5), 3);
    assert_eq!(quad_entries(&one), vec![((2, 5), 3)]);
    assert_eq!(quad_entries(&one), quad_entries(&two));
    let sum = one.add(two).unwrap();
    assert_eq!(quad_entries(&sum), vec![((2, 5), 6)]);
}

#[test]
fn quadratic_add_sub_mul() {
    let x = GRBVar::new(0);
    let y = GRBVar::new(1);
    let q = QuadExpr::term(x, x, 1)
        .add(QuadExpr::term(y, y, 1))
        .unwrap()
        .sub(QuadExpr::term(x, y, 4))
        .unwrap()
        .add(QuadExpr::from_linear(sample_a()))
        .unwrap()
        .mul(3)
        .unwrap();
    assert_eq!(quad_entries(&q), vec![((0, 0), 3), ((0, 1), -12), ((1, 1), 3)]);
    assert_eq!(entries(q.linear_part()), vec![(0, 6), (1, 9)]);
    assert_eq!(q.linear_part().scalar(), 3);
    assert!(QuadExpr::term(x, y, i64::MAX).add(QuadExpr::term(y, x, 1)).is_none());
    assert!(QuadExpr::term(x, y, i64::MAX).mul(2).is_none());
    assert!(QuadExpr::new().sub(QuadExpr::term(x, y, i64::MIN)).is_none());
}

#[test]
fn index_pairs_are_ordered_by_low_then_high() {
    assert!(IndexPair::new(1, 9).precedes(&IndexPair::new(2, 3)));
    assert!(IndexPair::new(2, 0).precedes(&IndexPair::new(1, 9)));
    assert!(IndexPair::new(3, 1).precedes(&IndexPair::new(1, 4)));
    assert!(!IndexPair::new(1, 4).precedes(&IndexPair::new(4, 1)));
    assert!(5usize.precedes(&6usize));
    assert!(!6usize.precedes(&6usize));
}

#[test]
fn sparse_terms_combine_and_scale() {
    let mut a: SparseTerms<usize> = SparseTerms::new();
    a.push(1, 10);
    a.push(4, 20);
    let b = SparseTerms::singleton(4usize, 5);
    let c = a.combine(&b, true).unwrap();
    assert_eq!(c.len(), 2);
    assert_eq!(c.entry(0), (1, 10));
    assert_eq!(c.entry(1), (4, 15));
    let d = c.scale(2).unwrap();
    assert_eq!(d.entry(1), (4, 30));
    assert!(d.scale(i64::MAX).is_none());
}

#[test]
fn constraint_takes_the_constant_to_the_right() {
    // 2 x0 + 3 x1 + 1 <= 6  becomes  2 x0 + 3 x1 <= 5
    let args = sample_a().le(6).unwrap().name("c0").add_to_model().unwrap();
    assert_eq!(args.inds, vec![0, 1]);
    assert_eq!(args.coeffs, vec![2, 3]);
    assert_eq!(args.sense, b'<');
    assert_eq!(args.rhs, 5);
    assert_eq!(args.name.as_deref(), Some("c0"));
}

#[test]
fn constraint_senses() {
    assert_eq!(sample_a().eq(0).unwrap().add_to_model().unwrap().sense, b'=');
    assert_eq!(sample_a().ge(0).unwrap().add_to_model().unwrap().sense, b'>');
    assert_eq!(sample_a().le(0).unwrap().add_to_model().unwrap().sense, b'<');
    assert_eq!(GRBSense::LessEqual.to_grb_char(), b'<');
    assert_eq!(GRBSense::Equal.to_grb_char(), b'=');
    assert_eq!(GRBSense::GreaterEqual.to_grb_char(), b'>');
    assert!(sample_a().eq(0).unwrap().add_to_model().unwrap().name.is_none());
}

#[test]
fn constraint_reports_a_right_hand_side_that_cannot_be_stored() {
    assert!(LinExpr::from_constant(1).le(i64::MIN).is_none());
    assert!(LinExpr::from_constant(-1).ge(i64::MAX).is_none());
    assert!(QuadExpr::from_linear(LinExpr::from_constant(1)).eq(i64::MIN).is_none());
}

#[test]
fn constraint_reports_an_index_beyond_the_engine() {
    let far = LinExpr::term(GRBVar::new(i32::MAX as usize + 1), 1);
    assert!(far.le(0).unwrap().add_to_model().is_none());
    let near = LinExpr::term(GRBVar::new(i32::MAX as usize), 1);
    assert_eq!(near.le(0).unwrap().add_to_model().unwrap().inds, vec![i32::MAX]);
    let quad = QuadExpr::term(GRBVar::new(0), GRBVar::new(i32::MAX as usize + 1), 1);
    assert!(quad.le(0).unwrap().add_to_model().is_none());
}

#[test]
fn quadratic_constraint_picks_the_call_by_its_terms() {
    let x = GRBVar::new(0);
    let y = GRBVar::new(1);
    let quad = QuadExpr::term(x, x, 1)
        .sub(QuadExpr::term(y, x, 1))
        .unwrap()
        .add(QuadExpr::from_linear(sample_a()))
        .unwrap();
    match quad.le(0).unwrap().name("qc1").add_to_model().unwrap() {
        ConstrCall::Quadratic(args) => {
            assert_eq!(args.lind, vec![0, 1]);
            assert_eq!(args.lval, vec![2, 3]);
            assert_eq!(args.qrow, vec![0, 0]);
            assert_eq!(args.qcol, vec![0, 1]);
            assert_eq!(args.qval, vec![1, -1]);
            assert_eq!(args.sense, b'<');
            assert_eq!(args.rhs, -1);
            assert_eq!(args.name.as_deref(), Some("qc1"));
        }
        ConstrCall::Linear(_) => panic!("a quadratic term was dropped"),
    }
    match QuadExpr::from_linear(sample_a()).ge(4).unwrap().add_to_model().unwrap() {
        ConstrCall::Linear(args) => {
            assert_eq!(args.inds, vec![0, 1]);
            assert_eq!(args.coeffs, vec![2, 3]);
            assert_eq!(args.sense, b'>');
            assert_eq!(args.rhs, 3);
        }
        ConstrCall::Quadratic(_) => panic!("there is no quadratic term"),
    }
}
