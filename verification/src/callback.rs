//! The callback bridge: the phases from which the engine calls back, what
//! can be asked in each, and what the engine is told when a callback ends.

use vstd::prelude::*;
use crate::constr::ConstrArgs;
use crate::error::{
    check_err, error_text, get_error, is_error_code, PreconditionViolation, GRB_ERROR_CALLBACK,
};
use crate::var::GRBVar;

verus! {

/// The status of a node relaxation that was solved to optimality.
pub const GRB_OPTIMAL: i32 = 2;

/// The quantity under which the engine hands out the new incumbent.
pub const GRB_CB_MIPSOL_SOL: i32 = 4001;

/// The quantity under which the engine hands out the relaxation of a node.
pub const GRB_CB_MIPNODE_REL: i32 = 5002;

/// The quantity under which the engine hands out a solution of a
/// multi-objective solve.
pub const GRB_CB_MULTIOBJ_SOL: i32 = 8003;

/// The real-valued quantities that a callback can ask for.
#[allow(clippy::upper_case_acronyms, non_camel_case_types)]
#[derive(Clone, Copy, Debug, PartialEq, Eq, Structural)]
pub enum GRB_WHAT_DOUBLE {
    RUNTIME,
    WORK,
    MEMUSED,
    MAXMEMUSED,
    SPX_ITRCNT,
    SPX_OBJVAL,
    SPX_PRIMINF,
    SPX_DUALINF,
    MIP_OBJBST,
    MIP_OBJBND,
    MIP_NODCNT,
    MIP_NODLFT,
    MIP_ITRCNT,
    MIPSOL_OBJ,
    MIPSOL_OBJBST,
    MIPSOL_OBJBND,
    MIPSOL_NODCNT,
    MIPNODE_OBJBST,
    MIPNODE_OBJBND,
    MIPNODE_NODCNT,
    BARRIER_PRIMOBJ,
    BARRIER_DUALOBJ,
    BARRIER_PRIMINF,
    BARRIER_DUALINF,
    BARRIER_COMPL,
    MULTIOBJ_OBJBST,
    MULTIOBJ_OBJBND,
    MULTIOBJ_MIPGAP,
    MULTIOBJ_ITRCNT,
    MULTIOBJ_NODCNT,
    MULTIOBJ_NODLFT,
    MULTIOBJ_RUNTIME,
    MULTIOBJ_WORK,
    PDHG_PRIMOBJ,
    PDHG_DUALOBJ,
    PDHG_PRIMINF,
    PDHG_DUALINF,
    PDHG_COMPL,
    NLBAR_PRIMOBJ,
    NLBAR_PRIMINF,
    NLBAR_DUALINF,
    NLBAR_COMPL,
}

impl GRB_WHAT_DOUBLE {
    /// The number by which the engine knows the quantity.
    pub open spec fn spec_code(self) -> i32 {
        match self {
            GRB_WHAT_DOUBLE::RUNTIME => 6002i32,
            GRB_WHAT_DOUBLE::WORK => 6003i32,
            GRB_WHAT_DOUBLE::MEMUSED => 6004i32,
            GRB_WHAT_DOUBLE::MAXMEMUSED => 6005i32,
            GRB_WHAT_DOUBLE::SPX_ITRCNT => 2000i32,
            GRB_WHAT_DOUBLE::SPX_OBJVAL => 2001i32,
            GRB_WHAT_DOUBLE::SPX_PRIMINF => 2002i32,
            GRB_WHAT_DOUBLE::SPX_DUALINF => 2003i32,
            GRB_WHAT_DOUBLE::MIP_OBJBST => 3000i32,
            GRB_WHAT_DOUBLE::MIP_OBJBND => 3001i32,
            GRB_WHAT_DOUBLE::MIP_NODCNT => 3002i32,
            GRB_WHAT_DOUBLE::MIP_NODLFT => 3005i32,
            GRB_WHAT_DOUBLE::MIP_ITRCNT => 3006i32,
            GRB_WHAT_DOUBLE::MIPSOL_OBJ => 4002i32,
            GRB_WHAT_DOUBLE::MIPSOL_OBJBST => 4003i32,
            GRB_WHAT_DOUBLE::MIPSOL_OBJBND => 4004i32,
            GRB_WHAT_DOUBLE::MIPSOL_NODCNT => 4005i32,
            GRB_WHAT_DOUBLE::MIPNODE_OBJBST => 5003i32,
            GRB_WHAT_DOUBLE::MIPNODE_OBJBND => 5004i32,
            GRB_WHAT_DOUBLE::MIPNODE_NODCNT => 5005i32,
            GRB_WHAT_DOUBLE::BARRIER_PRIMOBJ => 7002i32,
            GRB_WHAT_DOUBLE::BARRIER_DUALOBJ => 7003i32,
            GRB_WHAT_DOUBLE::BARRIER_PRIMINF => 7004i32,
            GRB_WHAT_DOUBLE::BARRIER_DUALINF => 7005i32,
            GRB_WHAT_DOUBLE::BARRIER_COMPL => 7006i32,
            GRB_WHAT_DOUBLE::MULTIOBJ_OBJBST => 8005i32,
            GRB_WHAT_DOUBLE::MULTIOBJ_OBJBND => 8006i32,
            GRB_WHAT_DOUBLE::MULTIOBJ_MIPGAP => 8008i32,
            GRB_WHAT_DOUBLE::MULTIOBJ_ITRCNT => 8004i32,
            GRB_WHAT_DOUBLE::MULTIOBJ_NODCNT => 8009i32,
            GRB_WHAT_DOUBLE::MULTIOBJ_NODLFT => 8010i32,
            GRB_WHAT_DOUBLE::MULTIOBJ_RUNTIME => 8011i32,
            GRB_WHAT_DOUBLE::MULTIOBJ_WORK => 8012i32,
            GRB_WHAT_DOUBLE::PDHG_PRIMOBJ => 10002i32,
            GRB_WHAT_DOUBLE::PDHG_DUALOBJ => 10003i32,
            GRB_WHAT_DOUBLE::PDHG_PRIMINF => 10004i32,
            GRB_WHAT_DOUBLE::PDHG_DUALINF => 10005i32,
            GRB_WHAT_DOUBLE::PDHG_COMPL => 10006i32,
            GRB_WHAT_DOUBLE::NLBAR_PRIMOBJ => 11002i32,
            GRB_WHAT_DOUBLE::NLBAR_PRIMINF => 11003i32,
            GRB_WHAT_DOUBLE::NLBAR_DUALINF => 11004i32,
            GRB_WHAT_DOUBLE::NLBAR_COMPL => 11005i32,
        }
    }

    pub fn code(self) -> (code: i32)
        ensures
            code == self.spec_code(),
    {
        match self {
            GRB_WHAT_DOUBLE::RUNTIME => 6002,
            GRB_WHAT_DOUBLE::WORK => 6003,
            GRB_WHAT_DOUBLE::MEMUSED => 6004,
            GRB_WHAT_DOUBLE::MAXMEMUSED => 6005,
            GRB_WHAT_DOUBLE::SPX_ITRCNT => 2000,
            GRB_WHAT_DOUBLE::SPX_OBJVAL => 2001,
            GRB_WHAT_DOUBLE::SPX_PRIMINF => 2002,
            GRB_WHAT_DOUBLE::SPX_DUALINF => 2003,
            GRB_WHAT_DOUBLE::MIP_OBJBST => 3000,
            GRB_WHAT_DOUBLE::MIP_OBJBND => 3001,
            GRB_WHAT_DOUBLE::MIP_NODCNT => 3002,
            GRB_WHAT_DOUBLE::MIP_NODLFT => 3005,
            GRB_WHAT_DOUBLE::MIP_ITRCNT => 3006,
            GRB_WHAT_DOUBLE::MIPSOL_OBJ => 4002,
            GRB_WHAT_DOUBLE::MIPSOL_OBJBST => 4003,
            GRB_WHAT_DOUBLE::MIPSOL_OBJBND => 4004,
            GRB_WHAT_DOUBLE::MIPSOL_NODCNT => 4005,
            GRB_WHAT_DOUBLE::MIPNODE_OBJBST => 5003,
            GRB_WHAT_DOUBLE::MIPNODE_OBJBND => 5004,
            GRB_WHAT_DOUBLE::MIPNODE_NODCNT => 5005,
            GRB_WHAT_DOUBLE::BARRIER_PRIMOBJ => 7002,
            GRB_WHAT_DOUBLE::BARRIER_DUALOBJ => 7003,
            GRB_WHAT_DOUBLE::BARRIER_PRIMINF => 7004,
            GRB_WHAT_DOUBLE::BARRIER_DUALINF => 7005,
            GRB_WHAT_DOUBLE::BARRIER_COMPL => 7006,
            GRB_WHAT_DOUBLE::MULTIOBJ_OBJBST => 8005,
            GRB_WHAT_DOUBLE::MULTIOBJ_OBJBND => 8006,
            GRB_WHAT_DOUBLE::MULTIOBJ_MIPGAP => 8008,
            GRB_WHAT_DOUBLE::MULTIOBJ_ITRCNT => 8004,
            GRB_WHAT_DOUBLE::MULTIOBJ_NODCNT => 8009,
            GRB_WHAT_DOUBLE::MULTIOBJ_NODLFT => 8010,
            GRB_WHAT_DOUBLE::MULTIOBJ_RUNTIME => 8011,
            GRB_WHAT_DOUBLE::MULTIOBJ_WORK => 8012,
            GRB_WHAT_DOUBLE::PDHG_PRIMOBJ => 10002,
            GRB_WHAT_DOUBLE::PDHG_DUALOBJ => 10003,
            GRB_WHAT_DOUBLE::PDHG_PRIMINF => 10004,
            GRB_WHAT_DOUBLE::PDHG_DUALINF => 10005,
            GRB_WHAT_DOUBLE::PDHG_COMPL => 10006,
            GRB_WHAT_DOUBLE::NLBAR_PRIMOBJ => 11002,
            GRB_WHAT_DOUBLE::NLBAR_PRIMINF => 11003,
            GRB_WHAT_DOUBLE::NLBAR_DUALINF => 11004,
            GRB_WHAT_DOUBLE::NLBAR_COMPL => 11005,
        }
    }
}

/// The integer-valued quantities that a callback can ask for.
#[allow(clippy::upper_case_acronyms, non_camel_case_types)]
#[derive(Clone, Copy, Debug, PartialEq, Eq, Structural)]
pub enum GRB_WHAT_INT {
    PRE_COLDEL,
    PRE_ROWDEL,
    PRE_SENCHG,
    PRE_BNDCHG,
    PRE_COECHG,
    SPX_ISPERT,
    MIP_SOLCNT,
    MIP_CUTCNT,
    MIP_OPENSCENARIOS,
    MIP_PHASE,
    MIPSOL_SOLCNT,
    MIPSOL_OPENSCENARIOS,
    MIPSOL_PHASE,
    MIPNODE_STATUS,
    MIPNODE_SOLCNT,
    MIPNODE_OPENSCENARIOS,
    MIPNODE_PHASE,
    BARRIER_ITRCNT,
    MULTIOBJ_OBJCNT,
    MULTIOBJ_SOLCNT,
    MULTIOBJ_STATUS,
    IIS_CONSTRMIN,
    IIS_CONSTRMAX,
    IIS_CONSTRGUESS,
    IIS_BOUNDMIN,
    IIS_BOUNDMAX,
    IIS_BOUNDGUESS,
    PDHG_ITRCNT,
    NLBAR_ITRCNT,
}

impl GRB_WHAT_INT {
    /// The number by which the engine knows the quantity.
    pub open spec fn spec_code(self) -> i32 {
        match self {
            GRB_WHAT_INT::PRE_COLDEL => 1000i32,
            GRB_WHAT_INT::PRE_ROWDEL => 1001i32,
            GRB_WHAT_INT::PRE_SENCHG => 1002i32,
            GRB_WHAT_INT::PRE_BNDCHG => 1003i32,
            GRB_WHAT_INT::PRE_COECHG => 1004i32,
            GRB_WHAT_INT::SPX_ISPERT => 2004i32,
            GRB_WHAT_INT::MIP_SOLCNT => 3003i32,
            GRB_WHAT_INT::MIP_CUTCNT => 3004i32,
            GRB_WHAT_INT::MIP_OPENSCENARIOS => 3007i32,
            GRB_WHAT_INT::MIP_PHASE => 3008i32,
            GRB_WHAT_INT::MIPSOL_SOLCNT => 4006i32,
            GRB_WHAT_INT::MIPSOL_OPENSCENARIOS => 4007i32,
            GRB_WHAT_INT::MIPSOL_PHASE => 4008i32,
            GRB_WHAT_INT::MIPNODE_STATUS => 5001i32,
            GRB_WHAT_INT::MIPNODE_SOLCNT => 5006i32,
            GRB_WHAT_INT::MIPNODE_OPENSCENARIOS => 5008i32,
            GRB_WHAT_INT::MIPNODE_PHASE => 5009i32,
            GRB_WHAT_INT::BARRIER_ITRCNT => 7001i32,
            GRB_WHAT_INT::MULTIOBJ_OBJCNT => 8001i32,
            GRB_WHAT_INT::MULTIOBJ_SOLCNT => 8002i32,
            GRB_WHAT_INT::MULTIOBJ_STATUS => 8007i32,
            GRB_WHAT_INT::IIS_CONSTRMIN => 9001i32,
            GRB_WHAT_INT::IIS_CONSTRMAX => 9002i32,
            GRB_WHAT_INT::IIS_CONSTRGUESS => 9003i32,
            GRB_WHAT_INT::IIS_BOUNDMIN => 9004i32,
            GRB_WHAT_INT::IIS_BOUNDMAX => 9005i32,
            GRB_WHAT_INT::IIS_BOUNDGUESS => 9006i32,
            GRB_WHAT_INT::PDHG_ITRCNT => 10001i32,
            GRB_WHAT_INT::NLBAR_ITRCNT => 11001i32,
        }
    }

    pub fn code(self) -> (code: i32)
        ensures
            code == self.spec_code(),
    {
        match self {
            GRB_WHAT_INT::PRE_COLDEL => 1000,
            GRB_WHAT_INT::PRE_ROWDEL => 1001,
            GRB_WHAT_INT::PRE_SENCHG => 1002,
            GRB_WHAT_INT::PRE_BNDCHG => 1003,
            GRB_WHAT_INT::PRE_COECHG => 1004,
            GRB_WHAT_INT::SPX_ISPERT => 2004,
            GRB_WHAT_INT::MIP_SOLCNT => 3003,
            GRB_WHAT_INT::MIP_CUTCNT => 3004,
            GRB_WHAT_INT::MIP_OPENSCENARIOS => 3007,
            GRB_WHAT_INT::MIP_PHASE => 3008,
            GRB_WHAT_INT::MIPSOL_SOLCNT => 4006,
            GRB_WHAT_INT::MIPSOL_OPENSCENARIOS => 4007,
            GRB_WHAT_INT::MIPSOL_PHASE => 4008,
            GRB_WHAT_INT::MIPNODE_STATUS => 5001,
            GRB_WHAT_INT::MIPNODE_SOLCNT => 5006,
            GRB_WHAT_INT::MIPNODE_OPENSCENARIOS => 5008,
            GRB_WHAT_INT::MIPNODE_PHASE => 5009,
            GRB_WHAT_INT::BARRIER_ITRCNT => 7001,
            GRB_WHAT_INT::MULTIOBJ_OBJCNT => 8001,
            GRB_WHAT_INT::MULTIOBJ_SOLCNT => 8002,
            GRB_WHAT_INT::MULTIOBJ_STATUS => 8007,
            GRB_WHAT_INT::IIS_CONSTRMIN => 9001,
            GRB_WHAT_INT::IIS_CONSTRMAX => 9002,
            GRB_WHAT_INT::IIS_CONSTRGUESS => 9003,
            GRB_WHAT_INT::IIS_BOUNDMIN => 9004,
            GRB_WHAT_INT::IIS_BOUNDMAX => 9005,
            GRB_WHAT_INT::IIS_BOUNDGUESS => 9006,
            GRB_WHAT_INT::PDHG_ITRCNT => 10001,
            GRB_WHAT_INT::NLBAR_ITRCNT => 11001,
        }
    }
}

/// The text-valued quantities that a callback can ask for.
#[allow(clippy::upper_case_acronyms, non_camel_case_types)]
#[derive(Clone, Copy, Debug, PartialEq, Eq, Structural)]
pub enum GRB_WHAT_STRING {
    MSG_STRING,
}

impl GRB_WHAT_STRING {
    /// The number by which the engine knows the quantity.
    pub open spec fn spec_code(self) -> i32 {
        match self {
            GRB_WHAT_STRING::MSG_STRING => 6001i32,
        }
    }

    pub fn code(self) -> (code: i32)
        ensures
            code == self.spec_code(),
    {
        match self {
            GRB_WHAT_STRING::MSG_STRING => 6001,
        }
    }
}

/// The phases of a solve from which the engine calls back.
#[allow(clippy::upper_case_acronyms, non_camel_case_types)]
#[derive(Clone, Copy, Debug, PartialEq, Eq, Structural)]
pub enum GRBCallbackCodes {
    POLLING,
    NLBAR,
    PDHG,
    IIS,
    MULTIOBJ,
    BARRIER,
    MESSAGE,
    MIPNODE,
    MIPSOL,
    MIP,
    SIMPLEX,
    PRESOLVE,
}

impl GRBCallbackCodes {
    /// The number by which the engine knows the phase.
    pub open spec fn spec_code(self) -> i32 {
        match self {
            GRBCallbackCodes::POLLING => 0i32,
            GRBCallbackCodes::NLBAR => 11i32,
            GRBCallbackCodes::PDHG => 10i32,
            GRBCallbackCodes::IIS => 9i32,
            GRBCallbackCodes::MULTIOBJ => 8i32,
            GRBCallbackCodes::BARRIER => 7i32,
            GRBCallbackCodes::MESSAGE => 6i32,
            GRBCallbackCodes::MIPNODE => 5i32,
            GRBCallbackCodes::MIPSOL => 4i32,
            GRBCallbackCodes::MIP => 3i32,
            GRBCallbackCodes::SIMPLEX => 2i32,
            GRBCallbackCodes::PRESOLVE => 1i32,
        }
    }

    pub fn code(self) -> (code: i32)
        ensures
            code == self.spec_code(),
    {
        match self {
            GRBCallbackCodes::POLLING => 0,
            GRBCallbackCodes::NLBAR => 11,
            GRBCallbackCodes::PDHG => 10,
            GRBCallbackCodes::IIS => 9,
            GRBCallbackCodes::MULTIOBJ => 8,
            GRBCallbackCodes::BARRIER => 7,
            GRBCallbackCodes::MESSAGE => 6,
            GRBCallbackCodes::MIPNODE => 5,
            GRBCallbackCodes::MIPSOL => 4,
            GRBCallbackCodes::MIP => 3,
            GRBCallbackCodes::SIMPLEX => 2,
            GRBCallbackCodes::PRESOLVE => 1,
        }
    }
}

impl GRBCallbackCodes {
    /// The phase that a number stands for, if it stands for one.
    pub open spec fn spec_from(where_: i32) -> Option<GRBCallbackCodes> {
        if where_ == 0 {
            Some(GRBCallbackCodes::POLLING)
        } else if where_ == 11 {
            Some(GRBCallbackCodes::NLBAR)
        } else if where_ == 10 {
            Some(GRBCallbackCodes::PDHG)
        } else if where_ == 9 {
            Some(GRBCallbackCodes::IIS)
        } else if where_ == 8 {
            Some(GRBCallbackCodes::MULTIOBJ)
        } else if where_ == 7 {
            Some(GRBCallbackCodes::BARRIER)
        } else if where_ == 6 {
            Some(GRBCallbackCodes::MESSAGE)
        } else if where_ == 5 {
            Some(GRBCallbackCodes::MIPNODE)
        } else if where_ == 4 {
            Some(GRBCallbackCodes::MIPSOL)
        } else if where_ == 3 {
            Some(GRBCallbackCodes::MIP)
        } else if where_ == 2 {
            Some(GRBCallbackCodes::SIMPLEX)
        } else if where_ == 1 {
            Some(GRBCallbackCodes::PRESOLVE)
        } else {
            None
        }
    }

    /// Reads a phase code as the engine hands it to a callback. `None` for a
    /// number that stands for no phase.
    pub fn from_code(where_: i32) -> (phase: Option<GRBCallbackCodes>)
        ensures
            phase == Self::spec_from(where_),
    {
        match where_ {
            0 => Some(GRBCallbackCodes::POLLING),
            11 => Some(GRBCallbackCodes::NLBAR),
            10 => Some(GRBCallbackCodes::PDHG),
            9 => Some(GRBCallbackCodes::IIS),
            8 => Some(GRBCallbackCodes::MULTIOBJ),
            7 => Some(GRBCallbackCodes::BARRIER),
            6 => Some(GRBCallbackCodes::MESSAGE),
            5 => Some(GRBCallbackCodes::MIPNODE),
            4 => Some(GRBCallbackCodes::MIPSOL),
            3 => Some(GRBCallbackCodes::MIP),
            2 => Some(GRBCallbackCodes::SIMPLEX),
            1 => Some(GRBCallbackCodes::PRESOLVE),
            _ => None,
        }
    }
}

/// What the engine is told when a callback ends: zero where it ran to its
/// end, the code of a failed callback where it was cut short by a panic.
pub open spec fn spec_shim_status(panicked: bool) -> i32 {
    if panicked {
        GRB_ERROR_CALLBACK
    } else {
        0
    }
}

/// The status that the trampoline returns to the engine for a callback that
/// ran to its end or, with `panicked`, was cut short.
pub fn shim_status(panicked: bool) -> (status: i32)
    ensures
        status == spec_shim_status(panicked),
{
    if panicked {
        GRB_ERROR_CALLBACK
    } else {
        0
    }
}

/// A callback that panics makes the solve fail: the status that the engine
/// gets from the trampoline, and returns from the solve, is one that
/// `check_err` reports as the failure of a callback.
pub proof fn lemma_panic_fails_solve()
    ensures
        is_error_code(spec_shim_status(true)),
        spec_shim_status(true) == GRB_ERROR_CALLBACK,
        !is_error_code(spec_shim_status(false)),
{
}

/// The values of `variables`, each looked up by its index in `values`.
pub open spec fn selected<T>(values: Seq<T>, variables: Seq<GRBVar>) -> Seq<T> {
    Seq::new(variables.len(), |i: int| values[variables[i].spec_index() as int])
}

/// Every variable has a value in a vector of `len` values.
pub open spec fn all_in_range(variables: Seq<GRBVar>, len: nat) -> bool {
    forall|i: int| 0 <= i < variables.len() ==> (#[trigger] variables[i]).spec_index() < len
}

/// Picks from a vector that holds one value per variable of the model the
/// values of the given variables, in their order.
pub fn select_values<T: Copy>(values: &Vec<T>, variables: &Vec<GRBVar>) -> (result: Result<
    Vec<T>,
    PreconditionViolation,
>)
    ensures
        all_in_range(variables@, values@.len()) ==> result is Ok && result.unwrap()@ == selected(
            values@,
            variables@,
        ),
        !all_in_range(variables@, values@.len()) ==> result == Err::<
            Vec<T>,
            PreconditionViolation,
        >(PreconditionViolation::IndexOutOfRange),
{
    let n = variables.len();
    let mut out: Vec<T> = Vec::new();
    let mut i: usize = 0;
    while i < n
        invariant
            n == variables@.len(),
            i <= n,
            out@.len() == i,
            forall|j: int| 0 <= j < i ==> (#[trigger] variables@[j]).spec_index() < values@.len(),
            forall|j: int|
                0 <= j < i ==> (#[trigger] out@[j]) == values@[variables@[j].spec_index() as int],
        decreases n - i,
    {
        let k = variables[i].index();
        if k >= values.len() {
            return Err(PreconditionViolation::IndexOutOfRange);
        }
        out.push(values[k]);
        i += 1;
    }
    proof {
        assert(out@ =~= selected(values@, variables@));
    }
    Ok(out)
}

/// One invocation of the callback: the phase of the solve from which the
/// engine has called.
#[derive(Clone, Copy, Debug)]
pub struct GRBCallbackContext {
    pub where_: i32,
}

impl GRBCallbackContext {
    /// The context of a call from the phase `where_`.
    pub fn new(where_: i32) -> (ctx: GRBCallbackContext)
        ensures
            ctx.where_ == where_,
    {
        GRBCallbackContext { where_ }
    }

    /// The quantity to ask for to get the solution vector in the phase
    /// `where_`: there is one when a new incumbent is reported and when a
    /// multi-objective solve reports a solution. In any other phase the
    /// query is a misuse.
    pub open spec fn spec_solutions_what(where_: i32) -> Result<i32, PreconditionViolation> {
        match GRBCallbackCodes::spec_from(where_) {
            Some(GRBCallbackCodes::MIPSOL) => Ok(GRB_CB_MIPSOL_SOL),
            Some(GRBCallbackCodes::MULTIOBJ) => Ok(GRB_CB_MULTIOBJ_SOL),
            Some(_) => Err(PreconditionViolation::WrongPhase),
            None => Err(PreconditionViolation::UnknownPhase),
        }
    }

    /// The quantity to ask for before the solution vector is read.
    pub fn solutions_what(&self) -> (what: Result<i32, PreconditionViolation>)
        ensures
            what == Self::spec_solutions_what(self.where_),
    {
        match GRBCallbackCodes::from_code(self.where_) {
            Some(GRBCallbackCodes::MIPSOL) => Ok(GRB_CB_MIPSOL_SOL),
            Some(GRBCallbackCodes::MULTIOBJ) => Ok(GRB_CB_MULTIOBJ_SOL),
            Some(_) => Err(PreconditionViolation::WrongPhase),
            None => Err(PreconditionViolation::UnknownPhase),
        }
    }

    /// The quantity to ask for to get the relaxation of the current node:
    /// there is one only in the phase of a node of the search, and only
    /// where the relaxation of that node was solved to optimality.
    pub open spec fn spec_noderels_what(where_: i32, node_status: i32) -> Result<
        i32,
        PreconditionViolation,
    > {
        match GRBCallbackCodes::spec_from(where_) {
            Some(GRBCallbackCodes::MIPNODE) => if node_status == GRB_OPTIMAL {
                Ok(GRB_CB_MIPNODE_REL)
            } else {
                Err(PreconditionViolation::NodeNotOptimal)
            },
            Some(_) => Err(PreconditionViolation::WrongPhase),
            None => Err(PreconditionViolation::UnknownPhase),
        }
    }

    /// The quantity to ask for to learn the status of the current node,
    /// which is known only in the phase of a node of the search.
    pub fn node_status_what(&self) -> (what: Result<GRB_WHAT_INT, PreconditionViolation>)
        ensures
            what == match GRBCallbackCodes::spec_from(self.where_) {
                Some(GRBCallbackCodes::MIPNODE) => Ok::<GRB_WHAT_INT, PreconditionViolation>(
                    GRB_WHAT_INT::MIPNODE_STATUS,
                ),
                Some(_) => Err(PreconditionViolation::WrongPhase),
                None => Err(PreconditionViolation::UnknownPhase),
            },
    {
        match GRBCallbackCodes::from_code(self.where_) {
            Some(GRBCallbackCodes::MIPNODE) => Ok(GRB_WHAT_INT::MIPNODE_STATUS),
            Some(_) => Err(PreconditionViolation::WrongPhase),
            None => Err(PreconditionViolation::UnknownPhase),
        }
    }

    /// The quantity to ask for before the relaxation of the node is read,
    /// given the status of the node.
    pub fn noderels_what(&self, node_status: i32) -> (what: Result<i32, PreconditionViolation>)
        ensures
            what == Self::spec_noderels_what(self.where_, node_status),
    {
        match GRBCallbackCodes::from_code(self.where_) {
            Some(GRBCallbackCodes::MIPNODE) => if node_status == GRB_OPTIMAL {
                Ok(GRB_CB_MIPNODE_REL)
            } else {
                Err(PreconditionViolation::NodeNotOptimal)
            },
            Some(_) => Err(PreconditionViolation::WrongPhase),
            None => Err(PreconditionViolation::UnknownPhase),
        }
    }

    /// The solution values of `variables`, from the vector `values` that the
    /// engine has filled with one value per variable of the model. A phase
    /// without a solution vector is a misuse and yields no value, whatever
    /// `values` holds.
    pub fn get_solutions<T: Copy>(&self, values: &Vec<T>, variables: Vec<GRBVar>) -> (result:
        Result<Vec<T>, PreconditionViolation>)
        ensures
            Self::spec_solutions_what(self.where_) matches Err(e) ==> result == Err::<
                Vec<T>,
                PreconditionViolation,
            >(e),
            Self::spec_solutions_what(self.where_) is Ok && !all_in_range(
                variables@,
                values@.len(),
            ) ==> result == Err::<Vec<T>, PreconditionViolation>(
                PreconditionViolation::IndexOutOfRange,
            ),
            Self::spec_solutions_what(self.where_) is Ok && all_in_range(
                variables@,
                values@.len(),
            ) ==> result is Ok && result.unwrap()@ == selected(values@, variables@),
    {
        match self.solutions_what() {
            Err(e) => Err(e),
            Ok(_) => select_values(values, &variables),
        }
    }

    /// The values of `variables` in the relaxation of the current node, from
    /// the vector `values` that the engine has filled. Outside the phase of
    /// a node, or at a node whose relaxation is not optimal, the query is a
    /// misuse and yields no value.
    pub fn get_noderels<T: Copy>(
        &self,
        node_status: i32,
        values: &Vec<T>,
        variables: Vec<GRBVar>,
    ) -> (result: Result<Vec<T>, PreconditionViolation>)
        ensures
            Self::spec_noderels_what(self.where_, node_status) matches Err(e) ==> result == Err::<
                Vec<T>,
                PreconditionViolation,
            >(e),
            Self::spec_noderels_what(self.where_, node_status) is Ok && !all_in_range(
                variables@,
                values@.len(),
            ) ==> result == Err::<Vec<T>, PreconditionViolation>(
                PreconditionViolation::IndexOutOfRange,
            ),
            Self::spec_noderels_what(self.where_, node_status) is Ok && all_in_range(
                variables@,
                values@.len(),
            ) ==> result is Ok && result.unwrap()@ == selected(values@, variables@),
    {
        match self.noderels_what(node_status) {
            Err(e) => Err(e),
            Ok(_) => select_values(values, &variables),
        }
    }

    /// The length of the vector that takes one value per variable, from the
    /// number of variables that the engine reports.
    pub fn buffer_len(num_vars: i32) -> (len: Result<usize, PreconditionViolation>)
        ensures
            num_vars >= 0 ==> len == Ok::<usize, PreconditionViolation>(num_vars as usize),
            num_vars < 0 ==> len == Err::<usize, PreconditionViolation>(
                PreconditionViolation::NegativeCount,
            ),
    {
        if num_vars < 0 {
            Err(PreconditionViolation::NegativeCount)
        } else {
            Ok(num_vars as usize)
        }
    }

    /// The outcome of an engine call as the callback sees it: the text of
    /// the failure, made of the code and of `message`, where the status is
    /// an error code, and success where it is any other number.
    pub fn get_error(&self, error_code: i32, message: String) -> (result: Result<(), String>)
        ensures
            result is Err <==> is_error_code(error_code),
            result matches Err(text) ==> text@ == error_text(error_code, message@),
    {
        match get_error(error_code, message) {
            Err(e) => Err(e.text()),
            Ok(_) => Ok(()),
        }
    }

    /// The outcome of telling the engine to go on to the next phase.
    pub fn proceed(&self, status: i32) -> (result: Result<(), i32>)
        ensures
            is_error_code(status) ==> result == Err::<(), i32>(status),
            !is_error_code(status) ==> result == Ok::<(), i32>(()),
    {
        match check_err(status) {
            Err(code) => Err(code),
            Ok(_) => Ok(()),
        }
    }

    /// The value that a query has produced, or the code with which the
    /// engine rejected the query.
    pub fn get_info<T>(&self, status: i32, value: T) -> (result: Result<T, i32>)
        ensures
            is_error_code(status) ==> result == Err::<T, i32>(status),
            !is_error_code(status) ==> result == Ok::<T, i32>(value),
    {
        match check_err(status) {
            Err(code) => Err(code),
            Ok(_) => Ok(value),
        }
    }

    /// The outcome of handing the engine a cutting plane: the engine decides
    /// whether the phase allows one, and its rejection comes back as the
    /// error code.
    pub fn add_cut(&mut self, expr: ConstrArgs, status: i32) -> (result: Result<(), i32>)
        ensures
            *final(self) == *old(self),
            is_error_code(status) ==> result == Err::<(), i32>(status),
            !is_error_code(status) ==> result == Ok::<(), i32>(()),
    {
        match check_err(status) {
            Err(code) => Err(code),
            Ok(_) => Ok(()),
        }
    }

    /// The outcome of handing the engine a lazy constraint, as for `add_cut`.
    pub fn add_lazy(&mut self, expr: ConstrArgs, status: i32) -> (result: Result<(), i32>)
        ensures
            *final(self) == *old(self),
            is_error_code(status) ==> result == Err::<(), i32>(status),
            !is_error_code(status) ==> result == Ok::<(), i32>(()),
    {
        match check_err(status) {
            Err(code) => Err(code),
            Ok(_) => Ok(()),
        }
    }
}

/// Each phase is read back from its own number.
pub proof fn lemma_phase_code_round_trip(phase: GRBCallbackCodes)
    ensures
        GRBCallbackCodes::spec_from(phase.spec_code()) == Some(phase),
{
}

/// A number that stands for a phase is the number of that phase.
pub proof fn lemma_phase_code_unique(where_: i32, phase: GRBCallbackCodes)
    requires
        GRBCallbackCodes::spec_from(where_) == Some(phase),
    ensures
        phase.spec_code() == where_,
{
}

} // verus!
