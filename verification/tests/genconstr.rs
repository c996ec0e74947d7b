use gurobirs::constr::Expr;
use gurobirs::error::PreconditionViolation;
use gurobirs::model::GRBModel;
use gurobirs::modeling::expr::lin_expr::LinExpr;
use gurobirs::modeling::expr::nonlin_expr::GRBOpCode;
use gurobirs::modeling::genconstr::{GenConstr, GenConstrArgs};
use gurobirs::var::GRBVar;

fn vars(indices: &[usize]) -> Vec<GRBVar> {
    indices.iter().map(|i| GRBVar::new(*i)).collect()
}

const FAR: usize = i32::MAX as usize + 1;

#[test]
fn max_and_min_keep_their_constant() {
    let g = GenConstr::Max { resvar: GRBVar::new(9), vars: vars(&[3, 1, 3]), constant: -4 };
    match g.add_to_model() {
        Ok(GenConstrArgs::Max { resvar, vars, constant }) => {
            assert_eq!((resvar, vars, constant), (9, vec![3, 1, 3], -4));
        }
        other => panic!("{:?}", other),
    }
    let g = GenConstr::Min { resvar: GRBVar::new(0), vars: vars(&[]), constant: 7 };
    match g.add_to_model() {
        Ok(GenConstrArgs::Min { resvar, vars, constant }) => {
            assert_eq!((resvar, vars, constant), (0, vec![], 7));
        }
        other => panic!("{:?}", other),
    }
}

#[test]
fn abs_and_or_norm() {
    match (GenConstr::Abs { resvar: GRBVar::new(1), argvar: GRBVar::new(2) }).add_to_model() {
        Ok(GenConstrArgs::Abs { resvar, argvar }) => assert_eq!((resvar, argvar), (1, 2)),
        other => panic!("{:?}", other),
    }
    match (GenConstr::And { resvar: GRBVar::new(5), vars: vars(&[0, 1]) }).add_to_model() {
        Ok(GenConstrArgs::And { resvar, vars }) => assert_eq!((resvar, vars), (5, vec![0, 1])),
        other => panic!("{:?}", other),
    }
    match (GenConstr::Or { resvar: GRBVar::new(5), vars: vars(&[4]) }).add_to_model() {
        Ok(GenConstrArgs::Or { resvar, vars }) => assert_eq!((resvar, vars), (5, vec![4])),
        other => panic!("{:?}", other),
    }
    let g = GenConstr::Norm { resvar: GRBVar::new(2), vars: vars(&[0, 1]), which: 2 };
    match g.add_to_model() {
        Ok(GenConstrArgs::Norm { resvar, vars, which }) => {
            assert_eq!((resvar, vars, which), (2, vec![0, 1], 2));
        }
        other => panic!("{:?}", other),
    }
}

#[test]
fn an_index_beyond_the_engine_is_a_violation() {
    let out = Err(PreconditionViolation::IndexOutOfRange);
    let is_out = |g: GenConstr| g.add_to_model().map(|_| ()) == out;
    assert!(is_out(GenConstr::Max { resvar: GRBVar::new(FAR), vars: vars(&[0]), constant: 0 }));
    assert!(is_out(GenConstr::Max { resvar: GRBVar::new(0), vars: vars(&[0, FAR]), constant: 0 }));
    assert!(is_out(GenConstr::Min { resvar: GRBVar::new(0), vars: vars(&[FAR]), constant: 0 }));
    assert!(is_out(GenConstr::Abs { resvar: GRBVar::new(0), argvar: GRBVar::new(FAR) }));
    assert!(is_out(GenConstr::Abs { resvar: GRBVar::new(FAR), argvar: GRBVar::new(0) }));
    assert!(is_out(GenConstr::And { resvar: GRBVar::new(FAR), vars: vars(&[]) }));
    assert!(is_out(GenConstr::Or { resvar: GRBVar::new(0), vars: vars(&[FAR]) }));
    assert!(is_out(GenConstr::Norm { resvar: GRBVar::new(0), vars: vars(&[FAR]), which: 1 }));
    assert!(is_out(GenConstr::Pwl {
        xvar: GRBVar::new(FAR),
        yvar: GRBVar::new(0),
        xpts: vec![],
        ypts: vec![]
    }));
    assert!(is_out(GenConstr::Nl {
        resvar: GRBVar::new(FAR),
        opcode: vec![],
        data: vec![],
        parent: vec![]
    }));
    let row = LinExpr::term(GRBVar::new(FAR), 1).le(0).unwrap();
    assert!(is_out(GenConstr::Indicator { binvar: GRBVar::new(0), binval: 1, constr: row }));
    let row = LinExpr::term(GRBVar::new(0), 1).le(0).unwrap();
    assert!(is_out(GenConstr::Indicator { binvar: GRBVar::new(FAR), binval: 0, constr: row }));
}

#[test]
fn piecewise_linear_wants_as_many_x_as_y() {
    let g = GenConstr::Pwl {
        xvar: GRBVar::new(0),
        yvar: GRBVar::new(1),
        xpts: vec![0, 10, 20],
        ypts: vec![5, 0, 5],
    };
    match g.add_to_model() {
        Ok(GenConstrArgs::Pwl { xvar, yvar, xpts, ypts }) => {
            assert_eq!((xvar, yvar), (0, 1));
            assert_eq!(xpts, vec![0, 10, 20]);
            assert_eq!(ypts, vec![5, 0, 5]);
        }
        other => panic!("{:?}", other),
    }
    // the lengths are looked at before the indices
    let g = GenConstr::Pwl {
        xvar: GRBVar::new(FAR),
        yvar: GRBVar::new(1),
        xpts: vec![0, 10],
        ypts: vec![5],
    };
    assert_eq!(g.add_to_model().map(|_| ()), Err(PreconditionViolation::LengthMismatch));
}

#[test]
fn indicator_wants_zero_or_one() {
    let row = || LinExpr::term(GRBVar::new(2), 3).add_scalar(1).unwrap().ge(5).unwrap().name("on");
    for binval in [0, 1] {
        let g = GenConstr::Indicator { binvar: GRBVar::new(7), binval, constr: row() };
        match g.add_to_model() {
            Ok(GenConstrArgs::Indicator { binvar, binval: v, constr }) => {
                assert_eq!((binvar, v), (7, binval));
                assert_eq!(constr.inds, vec![2]);
                assert_eq!(constr.coeffs, vec![3]);
                assert_eq!((constr.sense, constr.rhs), (b'>', 4));
                assert_eq!(constr.name.as_deref(), Some("on"));
            }
            other => panic!("{:?}", other),
        }
    }
    for binval in [-1, 2, i32::MAX, i32::MIN] {
        let g = GenConstr::Indicator { binvar: GRBVar::new(FAR), binval, constr: row() };
        assert_eq!(g.add_to_model().map(|_| ()), Err(PreconditionViolation::InvalidTriggerValue));
    }
}

#[test]
fn expression_tree_as_parallel_arrays() {
    // resvar = sin(x3) + 2
    let g = GenConstr::Nl {
        resvar: GRBVar::new(4),
        opcode: vec![GRBOpCode::Plus, GRBOpCode::Sin, GRBOpCode::Variable, GRBOpCode::Constant],
        data: vec![-1, -1, 3, 2],
        parent: vec![-1, 0, 1, 0],
    };
    match g.add_to_model() {
        Ok(GenConstrArgs::Nl { resvar, opcode, data, parent }) => {
            assert_eq!(resvar, 4);
            assert_eq!(opcode, vec![2, 9, 1, 0]);
            assert_eq!(data, vec![-1, -1, 3, 2]);
            assert_eq!(parent, vec![-1, 0, 1, 0]);
        }
        other => panic!("{:?}", other),
    }
    let short = |opcode: Vec<GRBOpCode>, data: Vec<i64>, parent: Vec<i32>| {
        GenConstr::Nl { resvar: GRBVar::new(FAR), opcode, data, parent }.add_to_model().map(|_| ())
    };
    let mismatch = Err(PreconditionViolation::LengthMismatch);
    assert_eq!(short(vec![GRBOpCode::Constant], vec![], vec![-1]), mismatch);
    assert_eq!(short(vec![GRBOpCode::Constant], vec![1], vec![]), mismatch);
    assert_eq!(short(vec![], vec![1], vec![-1]), mismatch);
}

#[test]
fn general_constraints_are_numbered_by_themselves() {
    let mut model = GRBModel::new();
    let make = || GenConstr::Abs { resvar: GRBVar::new(0), argvar: GRBVar::new(1) }.add_to_model().unwrap();
    assert_eq!(model.add_genconstr(make(), 0).unwrap().index, 0);
    assert_eq!(model.add_genconstr(make(), 10003), Err(10003));
    assert_eq!(model.add_genconstr(make(), 0).unwrap().index, 1);
    assert_eq!(model.num_genconstrs(), 2);
    assert_eq!(model.num_constrs(), 0);
    assert_eq!(model.num_qconstrs(), 0);
    assert_eq!(model.num_vars(), 0);
}
