use gurobirs::attributes::{
    attr_result, element_index, list_indices, Attribute, GRBCharAttr, GRBDblAttr, GRBIntAttr,
    GRBStrAttr,
};
use gurobirs::constr::{ConstrCall, Expr, GRBConstr};
use gurobirs::error::{
    check_err, get_error, GRBError, PreconditionViolation, GRB_ERROR_CALLBACK,
    GRB_ERROR_INDEX_OUT_OF_RANGE, GRB_ERROR_OUT_OF_MEMORY, GRB_ERROR_OVERFLOW,
};
use gurobirs::model::{GRBModel, GRBModelSense};
use gurobirs::modeling::expr::lin_expr::LinExpr;
use gurobirs::modeling::expr::nonlin_expr::GRBOpCode;
use gurobirs::modeling::expr::quad_expr::QuadExpr;
use gurobirs::modeling::objective::EngineCall;
use gurobirs::modeling::IsModelingObject;
use gurobirs::var::{GRBVar, GRBVarType};

#[test]
fn check_err_splits_at_the_error_codes() {
    assert_eq!(check_err(0), Ok(0));
    assert_eq!(check_err(1), Ok(1));
    assert_eq!(check_err(-1), Ok(-1));
    assert_eq!(check_err(10000), Ok(10000));
    assert_eq!(check_err(10001), Err(10001));
    assert_eq!(check_err(10017), Err(10017));
    assert_eq!(check_err(10034), Err(10034));
    assert_eq!(check_err(10035), Ok(10035));
    assert_eq!(check_err(i32::MAX), Ok(i32::MAX));
    assert_eq!(check_err(i32::MIN), Ok(i32::MIN));
    assert_eq!(check_err(GRB_ERROR_OUT_OF_MEMORY), Err(10001));
    assert_eq!(check_err(GRB_ERROR_CALLBACK), Err(10011));
    assert_eq!(check_err(GRB_ERROR_OVERFLOW), Err(10034));
}

#[test]
fn every_code_between_the_bounds_is_an_error() {
    for code in GRB_ERROR_OUT_OF_MEMORY..=GRB_ERROR_OVERFLOW {
        assert_eq!(check_err(code), Err(code));
    }
}

#[test]
fn get_error_carries_code_and_message() {
    let e = get_error(GRB_ERROR_INDEX_OUT_OF_RANGE, "index 7 is out of range".to_string());
    let e = e.unwrap_err();
    assert_eq!(e.code, 10006);
    assert_eq!(e.message, "index 7 is out of range");
    assert_eq!(e.text(), "ERROR CODE 10006: index 7 is out of range");
    assert!(get_error(0, "nothing".to_string()).is_ok());
    assert!(get_error(10035, "a warning".to_string()).is_ok());
}

#[test]
fn error_text_writes_the_code_in_decimal() {
    let text = |code: i32| GRBError { code, message: "m".to_string() }.text();
    assert_eq!(text(0), "ERROR CODE 0: m");
    assert_eq!(text(7), "ERROR CODE 7: m");
    assert_eq!(text(10), "ERROR CODE 10: m");
    assert_eq!(text(-45), "ERROR CODE -45: m");
    assert_eq!(text(i32::MAX), "ERROR CODE 2147483647: m");
    assert_eq!(text(i32::MIN), "ERROR CODE -2147483648: m");
    assert_eq!(GRBError { code: 1, message: String::new() }.text(), "ERROR CODE 1: ");
}

#[test]
fn variable_types_as_characters() {
    assert_eq!(GRBVarType::CONTINUOUS.grb_type(), b'C');
    assert_eq!(GRBVarType::BINARY.grb_type(), b'B');
    assert_eq!(GRBVarType::INTEGER.grb_type(), b'I');
    assert_eq!(GRBVarType::SEMICONT.grb_type(), b'S');
    assert_eq!(GRBVarType::SEMIINT.grb_type(), b'N');
}

#[test]
fn model_senses_as_numbers() {
    assert_eq!(GRBModelSense::get(GRBModelSense::MINIMIZE), 1);
    assert_eq!(GRBModelSense::get(GRBModelSense::MAXIMIZE), -1);
}

#[test]
fn operation_codes() {
    assert_eq!(GRBOpCode::Constant.code(), 0);
    assert_eq!(GRBOpCode::Variable.code(), 1);
    assert_eq!(GRBOpCode::Divide.code(), 5);
    assert_eq!(GRBOpCode::Pow.code(), 12);
    assert_eq!(GRBOpCode::Signpow.code(), 19);
}

#[test]
fn builder_defaults() {
    let args = GRBVar::builder().add_to_model();
    assert_eq!(args.obj, 0);
    assert_eq!(args.lb, 0);
    assert_eq!(args.ub, None);
    assert_eq!(args.vtype, b'C');
    assert_eq!(args.name, None);
}

#[test]
fn builder_keeps_what_was_set() {
    let args = GRBVar::builder()
        .lb(-3)
        .ub(10)
        .obj(5)
        .vtype(GRBVarType::SEMIINT)
        .name("x".to_owned())
        .add_to_model();
    assert_eq!(args.obj, 5);
    assert_eq!(args.lb, -3);
    assert_eq!(args.ub, Some(10));
    assert_eq!(args.vtype, b'N');
    assert_eq!(args.name.as_deref(), Some("x"));
}

#[test]
fn builder_takes_the_last_value_of_a_field() {
    let args = GRBVar::builder().ub(1).lb(2).ub(3).name("a".to_owned()).name("b".to_owned());
    let args = args.add_to_model();
    assert_eq!(args.lb, 2);
    assert_eq!(args.ub, Some(3));
    assert_eq!(args.name.as_deref(), Some("b"));
}

#[test]
fn variables_get_dense_indices_in_commit_order() {
    let mut model = GRBModel::new();
    for expected in 0..50 {
        let var = model.add_var(GRBVar::builder().add_to_model(), 0).unwrap();
        assert_eq!(var.index(), expected);
        assert_eq!(IsModelingObject::index(&var), expected);
    }
    assert_eq!(model.num_vars(), 50);
    assert_eq!(model.num_constrs(), 0);
}

#[test]
fn constraints_get_dense_indices_in_commit_order() {
    let mut model = GRBModel::new();
    for expected in 0..50 {
        let args = LinExpr::new().le(0).unwrap().add_to_model().unwrap();
        let constr = model.add_constr(args, 0).unwrap();
        assert_eq!(constr.index, expected);
        assert_eq!(IsModelingObject::index(&constr), expected);
    }
    assert_eq!(model.num_constrs(), 50);
    assert_eq!(model.num_vars(), 0);
}

#[test]
fn a_rejected_commit_uses_up_no_index() {
    let mut model = GRBModel::new();
    let statuses = [0, 10003, 0, 10001, 10034, 0, 20000, -1];
    let mut handles = Vec::new();
    for status in statuses {
        handles.push(model.add_var(GRBVar::builder().add_to_model(), status));
    }
    let indices: Vec<Result<usize, i32>> =
        handles.into_iter().map(|r| r.map(|v| v.index())).collect();
    assert_eq!(
        indices,
        vec![Ok(0), Err(10003), Ok(1), Err(10001), Err(10034), Ok(2), Ok(3), Ok(4)]
    );
    assert_eq!(model.num_vars(), 5);

    let args = LinExpr::new().le(0).unwrap().add_to_model().unwrap();
    assert_eq!(model.add_constr(args, 10006), Err(10006));
    assert_eq!(model.num_constrs(), 0);
    let args = LinExpr::new().le(0).unwrap().add_to_model().unwrap();
    assert_eq!(model.add_constr(args, 0), Ok(GRBConstr { index: 0 }));
}

#[test]
fn quadratic_constraints_are_numbered_by_themselves() {
    let mut model = GRBModel::new();
    let x = GRBVar::new(0);
    let linear = || QuadExpr::from_linear(LinExpr::from(x)).le(1).unwrap().add_to_model().unwrap();
    let quadratic = || QuadExpr::term(x, x, 1).le(1).unwrap().add_to_model().unwrap();
    assert!(matches!(linear(), ConstrCall::Linear(_)));
    assert!(matches!(quadratic(), ConstrCall::Quadratic(_)));
    assert_eq!(model.add_qconstr(quadratic(), 0).unwrap().index, 0);
    assert_eq!(model.add_qconstr(linear(), 0).unwrap().index, 0);
    assert_eq!(model.add_qconstr(quadratic(), 10020), Err(10020));
    assert_eq!(model.add_qconstr(quadratic(), 0).unwrap().index, 1);
    assert_eq!(model.add_qconstr(linear(), 0).unwrap().index, 1);
    assert_eq!(model.num_constrs(), 2);
    assert_eq!(model.num_qconstrs(), 2);
    assert_eq!(model.num_vars(), 0);
}

#[test]
fn optimize_reports_the_failure_of_a_solve() {
    let model = GRBModel::new();
    assert_eq!(model.optimize(0), Ok(()));
    assert_eq!(model.optimize(10011), Err(10011));
    assert_eq!(model.optimize(10009), Err(10009));
    assert_eq!(model.optimize(12345), Ok(()));
}

fn describe(call: &EngineCall) -> String {
    match call {
        EngineCall::SetDblAttr { attr, value } => {
            format!("{} = {}", Attribute::get(*attr), value)
        }
        EngineCall::SetDblAttrElement { attr, element, value } => {
            format!("{}[{}] = {}", Attribute::get(*attr), element, value)
        }
        EngineCall::AddQpTerms { rows, cols, vals } => {
            format!("qp {:?} {:?} {:?}", rows, cols, vals)
        }
        EngineCall::SetIntAttr { attr, value } => {
            format!("{} = {}", Attribute::get(*attr), value)
        }
    }
}

#[test]
fn objective_calls_come_in_order() {
    let mut model = GRBModel::new();
    let obj = LinExpr::term(GRBVar::new(0), 5)
        .add(LinExpr::term(GRBVar::new(3), 100))
        .unwrap()
        .add_scalar(-2)
        .unwrap();
    let calls = model.set_objective(obj, GRBModelSense::MAXIMIZE).unwrap();
    let lines: Vec<String> = calls.iter().map(describe).collect();
    assert_eq!(lines, vec!["ObjCon = -2", "Obj[0] = 5", "Obj[3] = 100", "ModelSense = -1"]);
}

#[test]
fn objective_of_an_empty_expression() {
    let mut model = GRBModel::new();
    let calls = model.set_objective(LinExpr::new(), GRBModelSense::MINIMIZE).unwrap();
    let lines: Vec<String> = calls.iter().map(describe).collect();
    assert_eq!(lines, vec!["ObjCon = 0", "ModelSense = 1"]);
}

#[test]
fn quadratic_objective_adds_its_terms_before_the_sense() {
    let x = GRBVar::new(0);
    let y = GRBVar::new(1);
    let obj = QuadExpr::term(y, x, 3)
        .add(QuadExpr::term(y, y, -1))
        .unwrap()
        .add(QuadExpr::from_linear(LinExpr::term(y, 4).add_scalar(9).unwrap()))
        .unwrap();
    let calls = obj.set_as_objective(GRBModelSense::MINIMIZE).unwrap();
    let lines: Vec<String> = calls.iter().map(describe).collect();
    assert_eq!(
        lines,
        vec!["ObjCon = 9", "Obj[1] = 4", "qp [0, 1] [1, 1] [3, -1]", "ModelSense = 1"]
    );
}

#[test]
fn objective_reports_an_index_beyond_the_engine() {
    let mut model = GRBModel::new();
    let far = LinExpr::term(GRBVar::new(usize::MAX), 1);
    assert!(model.set_objective(far, GRBModelSense::MINIMIZE).is_none());
    let far = QuadExpr::term(GRBVar::new(1), GRBVar::new(1 << 31), 1);
    assert!(far.set_as_objective(GRBModelSense::MINIMIZE).is_none());
}

#[test]
fn attribute_names() {
    assert_eq!(Attribute::get(GRBIntAttr::Numvars), "NumVars");
    assert_eq!(Attribute::get(GRBIntAttr::Numconstrs), "NumConstrs");
    assert_eq!(Attribute::get(GRBIntAttr::Modelsense), "ModelSense");
    assert_eq!(Attribute::get(GRBIntAttr::Status), "Status");
    assert_eq!(Attribute::get(GRBDblAttr::X), "X");
    assert_eq!(Attribute::get(GRBDblAttr::Obj), "Obj");
    assert_eq!(Attribute::get(GRBDblAttr::Objcon), "ObjCon");
    assert_eq!(Attribute::get(GRBDblAttr::Objval), "ObjVal");
    assert_eq!(Attribute::get(GRBDblAttr::Slack), "Slack");
    assert_eq!(Attribute::get(GRBStrAttr::Varname), "VarName");
    assert_eq!(Attribute::get(GRBStrAttr::Constrname), "ConstrName");
    assert_eq!(Attribute::get(GRBStrAttr::Modelname), "ModelName");
    assert_eq!(Attribute::get(GRBCharAttr::Vtype), "VType");
    assert_eq!(Attribute::get(GRBCharAttr::Sense), "Sense");
    assert_eq!(Attribute::get(GRBCharAttr::Qcsense), "QCSense");
}

#[test]
fn element_index_of_a_handle() {
    assert_eq!(element_index(&GRBVar::new(0)), Some(0));
    assert_eq!(element_index(&GRBVar::new(i32::MAX as usize)), Some(i32::MAX));
    assert_eq!(element_index(&GRBVar::new(i32::MAX as usize + 1)), None);
    assert_eq!(element_index(&GRBConstr { index: 12 }), Some(12));
}

#[test]
fn list_access_wants_lists_of_one_length() {
    let vars = vec![GRBVar::new(4), GRBVar::new(0), GRBVar::new(4)];
    assert_eq!(list_indices(&vars, &vec![1, 2, 3]), Ok(vec![4, 0, 4]));
    assert_eq!(list_indices(&vars, &vec![1, 2]), Err(PreconditionViolation::LengthMismatch));
    assert_eq!(
        list_indices(&vars, &vec![1, 2, 3, 4]),
        Err(PreconditionViolation::LengthMismatch)
    );
    let none: Vec<GRBVar> = Vec::new();
    assert_eq!(list_indices(&none, &Vec::<i64>::new()), Ok(vec![]));
    let far = vec![GRBVar::new(0), GRBVar::new(usize::MAX)];
    assert_eq!(list_indices(&far, &vec!["a", "b"]), Err(PreconditionViolation::IndexOutOfRange));
    // the lengths are looked at first
    assert_eq!(list_indices(&far, &vec!["a"]), Err(PreconditionViolation::LengthMismatch));
}

#[test]
fn attr_result_hands_the_value_on() {
    assert_eq!(attr_result(0, 42), Ok(42));
    assert_eq!(attr_result(10005, 42), Err(10005));
    assert_eq!(attr_result(10100, "text".to_string()), Ok("text".to_string()));
    assert_eq!(attr_result(0, 1.5f64), Ok(1.5f64));
}
