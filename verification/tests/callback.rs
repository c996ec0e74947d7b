use gurobirs::callback::{
    select_values, shim_status, GRBCallbackCodes, GRBCallbackContext, GRB_CB_MIPNODE_REL,
    GRB_CB_MIPSOL_SOL, GRB_CB_MULTIOBJ_SOL, GRB_OPTIMAL, GRB_WHAT_DOUBLE, GRB_WHAT_INT,
    GRB_WHAT_STRING,
};
use gurobirs::constr::Expr;
use gurobirs::error::{check_err, PreconditionViolation, GRB_ERROR_CALLBACK};
use gurobirs::model::GRBModel;
use gurobirs::modeling::expr::lin_expr::LinExpr;
use gurobirs::var::GRBVar;

const ALL_PHASES: [GRBCallbackCodes; 12] = [
    GRBCallbackCodes::POLLING,
    GRBCallbackCodes::PRESOLVE,
    GRBCallbackCodes::SIMPLEX,
    GRBCallbackCodes::MIP,
    GRBCallbackCodes::MIPSOL,
    GRBCallbackCodes::MIPNODE,
    GRBCallbackCodes::MESSAGE,
    GRBCallbackCodes::BARRIER,
    GRBCallbackCodes::MULTIOBJ,
    GRBCallbackCodes::IIS,
    GRBCallbackCodes::PDHG,
    GRBCallbackCodes::NLBAR,
];

#[test]
fn phase_codes_round_trip() {
    for (number, phase) in ALL_PHASES.iter().enumerate() {
        assert_eq!(phase.code(), number as i32);
        assert_eq!(GRBCallbackCodes::from_code(number as i32), Some(*phase));
    }
    assert_eq!(GRBCallbackCodes::from_code(12), None);
    assert_eq!(GRBCallbackCodes::from_code(-1), None);
    assert_eq!(GRBCallbackCodes::from_code(i32::MAX), None);
}

#[test]
fn what_codes() {
    assert_eq!(GRB_WHAT_DOUBLE::RUNTIME.code(), 6002);
    assert_eq!(GRB_WHAT_DOUBLE::SPX_OBJVAL.code(), 2001);
    assert_eq!(GRB_WHAT_DOUBLE::MIP_OBJBST.code(), 3000);
    assert_eq!(GRB_WHAT_DOUBLE::MIPSOL_OBJ.code(), 4002);
    assert_eq!(GRB_WHAT_DOUBLE::MIPNODE_OBJBND.code(), 5004);
    assert_eq!(GRB_WHAT_DOUBLE::BARRIER_COMPL.code(), 7006);
    assert_eq!(GRB_WHAT_INT::PRE_COLDEL.code(), 1000);
    assert_eq!(GRB_WHAT_INT::MIP_SOLCNT.code(), 3003);
    assert_eq!(GRB_WHAT_INT::MIPNODE_STATUS.code(), 5001);
    assert_eq!(GRB_WHAT_INT::IIS_BOUNDGUESS.code(), 9006);
    assert_eq!(GRB_WHAT_STRING::MSG_STRING.code(), 6001);
}

#[test]
fn solution_vector_only_with_an_incumbent_or_a_multiobjective_solution() {
    for phase in ALL_PHASES {
        let ctx = GRBCallbackContext::new(phase.code());
        let expected = match phase {
            GRBCallbackCodes::MIPSOL => Ok(GRB_CB_MIPSOL_SOL),
            GRBCallbackCodes::MULTIOBJ => Ok(GRB_CB_MULTIOBJ_SOL),
            _ => Err(PreconditionViolation::WrongPhase),
        };
        assert_eq!(ctx.solutions_what(), expected);
    }
    assert_eq!(GRBCallbackContext::new(4).solutions_what(), Ok(4001));
    assert_eq!(GRBCallbackContext::new(8).solutions_what(), Ok(8003));
    assert_eq!(
        GRBCallbackContext::new(99).solutions_what(),
        Err(PreconditionViolation::UnknownPhase)
    );
}

#[test]
fn solution_query_in_a_phase_without_solution_is_a_violation() {
    // the values are at hand, and still none is handed out
    let stale = vec![1.0f64, 5.0];
    let vars = vec![GRBVar::new(0), GRBVar::new(1)];
    let ctx = GRBCallbackContext::new(GRBCallbackCodes::MIP.code());
    assert_eq!(ctx.get_solutions(&stale, vars.clone()), Err(PreconditionViolation::WrongPhase));
    let ctx = GRBCallbackContext::new(GRBCallbackCodes::MIPNODE.code());
    assert_eq!(ctx.get_solutions(&stale, vars.clone()), Err(PreconditionViolation::WrongPhase));
    let ctx = GRBCallbackContext::new(-7);
    assert_eq!(ctx.get_solutions(&stale, vars), Err(PreconditionViolation::UnknownPhase));
}

#[test]
fn solutions_are_picked_by_variable_index() {
    let values = vec![0.5f64, 1.5, 2.5, 3.5];
    let vars = vec![GRBVar::new(3), GRBVar::new(0), GRBVar::new(3), GRBVar::new(2)];
    let ctx = GRBCallbackContext::new(GRBCallbackCodes::MIPSOL.code());
    assert_eq!(ctx.get_solutions(&values, vars.clone()), Ok(vec![3.5, 0.5, 3.5, 2.5]));
    let ctx = GRBCallbackContext::new(GRBCallbackCodes::MULTIOBJ.code());
    assert_eq!(ctx.get_solutions(&values, vars), Ok(vec![3.5, 0.5, 3.5, 2.5]));
    assert_eq!(ctx.get_solutions(&values, Vec::new()), Ok(vec![]));
    assert_eq!(
        ctx.get_solutions(&values, vec![GRBVar::new(4)]),
        Err(PreconditionViolation::IndexOutOfRange)
    );
}

#[test]
fn select_values_alone() {
    assert_eq!(select_values(&vec![7, 8, 9], &vec![GRBVar::new(2), GRBVar::new(1)]), Ok(vec![9, 8]));
    assert_eq!(
        select_values(&Vec::<i32>::new(), &vec![GRBVar::new(0)]),
        Err(PreconditionViolation::IndexOutOfRange)
    );
    assert_eq!(
        select_values(&vec![7, 8, 9], &vec![GRBVar::new(0), GRBVar::new(3), GRBVar::new(1)]),
        Err(PreconditionViolation::IndexOutOfRange)
    );
}

#[test]
fn node_relaxation_only_at_an_optimal_node() {
    let values = vec![0.25f64, 0.75];
    let vars = vec![GRBVar::new(1), GRBVar::new(0)];
    let node = GRBCallbackContext::new(GRBCallbackCodes::MIPNODE.code());
    assert_eq!(node.node_status_what(), Ok(GRB_WHAT_INT::MIPNODE_STATUS));
    assert_eq!(node.noderels_what(GRB_OPTIMAL), Ok(GRB_CB_MIPNODE_REL));
    assert_eq!(node.noderels_what(2), Ok(5002));
    assert_eq!(node.get_noderels(GRB_OPTIMAL, &values, vars.clone()), Ok(vec![0.75, 0.25]));
    for status in [1, 3, 4, 5, 9, 0, -2] {
        assert_eq!(node.noderels_what(status), Err(PreconditionViolation::NodeNotOptimal));
        assert_eq!(
            node.get_noderels(status, &values, vars.clone()),
            Err(PreconditionViolation::NodeNotOptimal)
        );
    }
    assert_eq!(
        node.get_noderels(GRB_OPTIMAL, &values, vec![GRBVar::new(2)]),
        Err(PreconditionViolation::IndexOutOfRange)
    );
    for phase in ALL_PHASES {
        if phase == GRBCallbackCodes::MIPNODE {
            continue;
        }
        let ctx = GRBCallbackContext::new(phase.code());
        assert_eq!(ctx.node_status_what(), Err(PreconditionViolation::WrongPhase));
        assert_eq!(ctx.noderels_what(GRB_OPTIMAL), Err(PreconditionViolation::WrongPhase));
        assert_eq!(
            ctx.get_noderels(GRB_OPTIMAL, &values, vars.clone()),
            Err(PreconditionViolation::WrongPhase)
        );
    }
    let unknown = GRBCallbackContext::new(12);
    assert_eq!(unknown.node_status_what(), Err(PreconditionViolation::UnknownPhase));
    assert_eq!(unknown.noderels_what(GRB_OPTIMAL), Err(PreconditionViolation::UnknownPhase));
}

#[test]
fn buffer_length_from_the_variable_count() {
    assert_eq!(GRBCallbackContext::buffer_len(0), Ok(0));
    assert_eq!(GRBCallbackContext::buffer_len(17), Ok(17));
    assert_eq!(GRBCallbackContext::buffer_len(i32::MAX), Ok(i32::MAX as usize));
    assert_eq!(GRBCallbackContext::buffer_len(-1), Err(PreconditionViolation::NegativeCount));
}

#[test]
fn a_panicking_callback_fails_the_solve() {
    let status = shim_status(true);
    assert_eq!(status, GRB_ERROR_CALLBACK);
    assert_eq!(status, 10011);
    assert_eq!(check_err(status), Err(GRB_ERROR_CALLBACK));
    assert_eq!(GRBModel::new().optimize(status), Err(GRB_ERROR_CALLBACK));
    assert_eq!(shim_status(false), 0);
    assert_eq!(GRBModel::new().optimize(shim_status(false)), Ok(()));
}

#[test]
fn queries_hand_on_value_or_code() {
    let ctx = GRBCallbackContext::new(GRBCallbackCodes::MIP.code());
    assert_eq!(ctx.get_info(0, 12.5f64), Ok(12.5));
    assert_eq!(ctx.get_info(0, "progress".to_string()), Ok("progress".to_string()));
    assert_eq!(ctx.get_info(10005, 0), Err(10005));
    assert_eq!(ctx.proceed(0), Ok(()));
    assert_eq!(ctx.proceed(10011), Err(10011));
}

#[test]
fn callback_error_text() {
    let ctx = GRBCallbackContext::new(GRBCallbackCodes::MIPSOL.code());
    assert_eq!(
        ctx.get_error(10011, "user callback failed".to_string()),
        Err("ERROR CODE 10011: user callback failed".to_string())
    );
    assert_eq!(ctx.get_error(0, "unused".to_string()), Ok(()));
    assert_eq!(ctx.get_error(10035, "unused".to_string()), Ok(()));
}

#[test]
fn cuts_and_lazy_constraints_surface_the_engine_s_answer() {
    let row = || {
        LinExpr::from(GRBVar::new(0))
            .add(LinExpr::from(GRBVar::new(1)))
            .unwrap()
            .le(1)
            .unwrap()
            .add_to_model()
            .unwrap()
    };
    let mut ctx = GRBCallbackContext::new(GRBCallbackCodes::MIPNODE.code());
    assert_eq!(ctx.add_cut(row(), 0), Ok(()));
    assert_eq!(ctx.add_lazy(row(), 0), Ok(()));
    // the engine rejects a cut outside the phases that take one
    let mut ctx = GRBCallbackContext::new(GRBCallbackCodes::PRESOLVE.code());
    assert_eq!(ctx.add_cut(row(), 10011), Err(10011));
    assert_eq!(ctx.add_lazy(row(), 10003), Err(10003));
    assert_eq!(ctx.where_, 1);
}
