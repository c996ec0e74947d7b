//! Attribute descriptors: the names under which the engine keeps the state
//! of a model, of its variables and of its constraints, each fixed to one
//! kind of value.

use vstd::prelude::*;
use crate::error::{check_err, is_error_code, PreconditionViolation};
use crate::modeling::IsModelingObject;

verus! {

/// A descriptor of one named attribute of the engine.
pub trait Attribute: Sized {
    /// The name by which the engine knows the attribute.
    spec fn name_of(attribute: Self) -> Seq<char>;

    fn get(attribute: Self) -> (name: &'static str)
        ensures
            name@ == Self::name_of(attribute),
    ;
}

/// The integer-valued attributes.
#[derive(Clone, Copy, Debug, PartialEq, Eq, Structural)]
pub enum GRBIntAttr {
    /// Number of MIP starts.
    Numstart,
    /// Number of scenarios.
    Numscenarios,
    /// Number of objectives.
    Numobj,
    /// Status for a pass during the multi-objective solve.
    Objpassnstatus,
    /// Optimization pass in which the selected objective function was processed.
    Objnpass,
    /// Number of optimization passes during the multi-objective solve.
    Numobjpasses,
    /// Priority.
    Objnpriority,
    /// Force general constr to be (1) or to not be (0) in final IIS.
    IISGenconstrforce,
    /// Force QConstr to be (1) or to not be (0) in final IIS.
    IISQconstrforce,
    /// Force SOS to be (1) or to not be (0) in final IIS.
    IISSosforce,
    /// Force constr to be (1) or to not be (0) in final IIS.
    IISConstrforce,
    /// Force var UB to be (1) or to not be (0) in final IIS.
    IISUbforce,
    /// Force var LB to be (1) or to not be (0) in final IIS.
    IISLbforce,
    /// Boolean: Is general constr in IIS?
    IISGenconstr,
    /// Boolean: Is QConstr in IIS?
    IISQconstr,
    /// Boolean: Is SOS in IIS?
    IISSos,
    /// Boolean: Is constr in IIS?
    IISConstr,
    /// Boolean: Is var UB in IIS?
    IISUb,
    /// Boolean: Is var LB in IIS?
    IISLb,
    /// Boolean: Is IIS Minimal?
    IISMinimal,
    /// Constraint basis status.
    Cbasis,
    /// Variable basis status.
    Vbasis,
    /// Method that solved LP using concurrent.
    Concurrentwinmethod,
    /// 0, no basis, 1, has basis, so can be computed 2, available.
    Hasdualnorm,
    /// Iters performed (NL barrier)
    Nlbaritercount,
    /// Iters performed (barrier)
    Baritercount,
    /// Status computed by barrier before crossover.
    Barstatus,
    /// # of solutions found.
    Solcount,
    /// Optimization status.
    Status,
    /// An option for the piecewise-linear approximation of a function.
    Funcnonlinear,
    /// An option for the piecewise-linear approximation of a function.
    Funcpieces,
    /// Type of general constraint.
    Genconstrtype,
    /// Lazy constraint?
    Lazy,
    /// Ignore variable for solution identity check in solution pool.
    Poolignore,
    /// User specified variable partition.
    Partition,
    /// Variable hint priority.
    Varhintpri,
    /// Convexity of variable PWL obj.
    Pwlobjcvx,
    /// MIP branch priority.
    Branchpriority,
    /// Fingerprint computed from the model data and attributes influencing the optimization process.
    Fingerprint,
    /// Number of tagged elements in model.
    Numtagged,
    /// License expiration date.
    LicenseExpiration,
    /// Model has multiple objectives?
    IsMultiobj,
    /// Model has quadratic constr?
    IsQcp,
    /// Is model a QP/MIQP (without Q/NL constraints)?
    IsQp,
    /// Is model a MIP?
    IsMip,
    /// 1=min, -1=max.
    Modelsense,
    /// # of variables with PWL obj.
    Numpwlobjvars,
    /// # of binary vars.
    Numbinvars,
    /// # of integer vars.
    Numintvars,
    /// # of nz in q constraints.
    Numqcnzs,
    /// # of nz in Q.
    Numqnzs,
    /// # of nz in A.
    Numnzs,
    /// # of general constraints.
    Numgenconstrs,
    /// # of quadratic constraints.
    Numqconstrs,
    /// # of sos constraints.
    Numsos,
    /// # of vars.
    Numvars,
    /// # of constraints.
    Numconstrs,
}

impl GRBIntAttr {
    /// The name by which the engine knows the attribute.
    pub open spec fn spec_name(self) -> Seq<char> {
        match self {
            GRBIntAttr::Numstart => "NumStart"@,
            GRBIntAttr::Numscenarios => "NumScenarios"@,
            GRBIntAttr::Numobj => "NumObj"@,
            GRBIntAttr::Objpassnstatus => "ObjPassNStatus"@,
            GRBIntAttr::Objnpass => "ObjNPass"@,
            GRBIntAttr::Numobjpasses => "NumObjPasses"@,
            GRBIntAttr::Objnpriority => "ObjNPriority"@,
            GRBIntAttr::IISGenconstrforce => "IISGenConstrForce"@,
            GRBIntAttr::IISQconstrforce => "IISQConstrForce"@,
            GRBIntAttr::IISSosforce => "IISSOSForce"@,
            GRBIntAttr::IISConstrforce => "IISConstrForce"@,
            GRBIntAttr::IISUbforce => "IISUBForce"@,
            GRBIntAttr::IISLbforce => "IISLBForce"@,
            GRBIntAttr::IISGenconstr => "IISGenConstr"@,
            GRBIntAttr::IISQconstr => "IISQConstr"@,
            GRBIntAttr::IISSos => "IISSOS"@,
            GRBIntAttr::IISConstr => "IISConstr"@,
            GRBIntAttr::IISUb => "IISUB"@,
            GRBIntAttr::IISLb => "IISLB"@,
            GRBIntAttr::IISMinimal => "IISMinimal"@,
            GRBIntAttr::Cbasis => "CBasis"@,
            GRBIntAttr::Vbasis => "VBasis"@,
            GRBIntAttr::Concurrentwinmethod => "ConcurrentWinMethod"@,
            GRBIntAttr::Hasdualnorm => "HasDualNorm"@,
            GRBIntAttr::Nlbaritercount => "NLBarIterCount"@,
            GRBIntAttr::Baritercount => "BarIterCount"@,
            GRBIntAttr::Barstatus => "BarStatus"@,
            GRBIntAttr::Solcount => "SolCount"@,
            GRBIntAttr::Status => "Status"@,
            GRBIntAttr::Funcnonlinear => "FuncNonlinear"@,
            GRBIntAttr::Funcpieces => "FuncPieces"@,
            GRBIntAttr::Genconstrtype => "GenConstrType"@,
            GRBIntAttr::Lazy => "Lazy"@,
            GRBIntAttr::Poolignore => "PoolIgnore"@,
            GRBIntAttr::Partition => "Partition"@,
            GRBIntAttr::Varhintpri => "VarHintPri"@,
            GRBIntAttr::Pwlobjcvx => "PWLObjCvx"@,
            GRBIntAttr::Branchpriority => "BranchPriority"@,
            GRBIntAttr::Fingerprint => "Fingerprint"@,
            GRBIntAttr::Numtagged => "NumTagged"@,
            GRBIntAttr::LicenseExpiration => "LicenseExpiration"@,
            GRBIntAttr::IsMultiobj => "IsMultiObj"@,
            GRBIntAttr::IsQcp => "IsQCP"@,
            GRBIntAttr::IsQp => "IsQP"@,
            GRBIntAttr::IsMip => "IsMIP"@,
            GRBIntAttr::Modelsense => "ModelSense"@,
            GRBIntAttr::Numpwlobjvars => "NumPWLObjVars"@,
            GRBIntAttr::Numbinvars => "NumBinVars"@,
            GRBIntAttr::Numintvars => "NumIntVars"@,
            GRBIntAttr::Numqcnzs => "NumQCNZs"@,
            GRBIntAttr::Numqnzs => "NumQNZs"@,
            GRBIntAttr::Numnzs => "NumNZs"@,
            GRBIntAttr::Numgenconstrs => "NumGenConstrs"@,
            GRBIntAttr::Numqconstrs => "NumQConstrs"@,
            GRBIntAttr::Numsos => "NumSOS"@,
            GRBIntAttr::Numvars => "NumVars"@,
            GRBIntAttr::Numconstrs => "NumConstrs"@,
        }
    }
}

impl Attribute for GRBIntAttr {
    open spec fn name_of(attribute: Self) -> Seq<char> {
        attribute.spec_name()
    }

    fn get(attribute: GRBIntAttr) -> (name: &'static str) {
        match attribute {
            GRBIntAttr::Numstart => "NumStart",
            GRBIntAttr::Numscenarios => "NumScenarios",
            GRBIntAttr::Numobj => "NumObj",
            GRBIntAttr::Objpassnstatus => "ObjPassNStatus",
            GRBIntAttr::Objnpass => "ObjNPass",
            GRBIntAttr::Numobjpasses => "NumObjPasses",
            GRBIntAttr::Objnpriority => "ObjNPriority",
            GRBIntAttr::IISGenconstrforce => "IISGenConstrForce",
            GRBIntAttr::IISQconstrforce => "IISQConstrForce",
            GRBIntAttr::IISSosforce => "IISSOSForce",
            GRBIntAttr::IISConstrforce => "IISConstrForce",
            GRBIntAttr::IISUbforce => "IISUBForce",
            GRBIntAttr::IISLbforce => "IISLBForce",
            GRBIntAttr::IISGenconstr => "IISGenConstr",
            GRBIntAttr::IISQconstr => "IISQConstr",
            GRBIntAttr::IISSos => "IISSOS",
            GRBIntAttr::IISConstr => "IISConstr",
            GRBIntAttr::IISUb => "IISUB",
            GRBIntAttr::IISLb => "IISLB",
            GRBIntAttr::IISMinimal => "IISMinimal",
            GRBIntAttr::Cbasis => "CBasis",
            GRBIntAttr::Vbasis => "VBasis",
            GRBIntAttr::Concurrentwinmethod => "ConcurrentWinMethod",
            GRBIntAttr::Hasdualnorm => "HasDualNorm",
            GRBIntAttr::Nlbaritercount => "NLBarIterCount",
            GRBIntAttr::Baritercount => "BarIterCount",
            GRBIntAttr::Barstatus => "BarStatus",
            GRBIntAttr::Solcount => "SolCount",
            GRBIntAttr::Status => "Status",
            GRBIntAttr::Funcnonlinear => "FuncNonlinear",
            GRBIntAttr::Funcpieces => "FuncPieces",
            GRBIntAttr::Genconstrtype => "GenConstrType",
            GRBIntAttr::Lazy => "Lazy",
            GRBIntAttr::Poolignore => "PoolIgnore",
            GRBIntAttr::Partition => "Partition",
            GRBIntAttr::Varhintpri => "VarHintPri",
            GRBIntAttr::Pwlobjcvx => "PWLObjCvx",
            GRBIntAttr::Branchpriority => "BranchPriority",
            GRBIntAttr::Fingerprint => "Fingerprint",
            GRBIntAttr::Numtagged => "NumTagged",
            GRBIntAttr::LicenseExpiration => "LicenseExpiration",
            GRBIntAttr::IsMultiobj => "IsMultiObj",
            GRBIntAttr::IsQcp => "IsQCP",
            GRBIntAttr::IsQp => "IsQP",
            GRBIntAttr::IsMip => "IsMIP",
            GRBIntAttr::Modelsense => "ModelSense",
            GRBIntAttr::Numpwlobjvars => "NumPWLObjVars",
            GRBIntAttr::Numbinvars => "NumBinVars",
            GRBIntAttr::Numintvars => "NumIntVars",
            GRBIntAttr::Numqcnzs => "NumQCNZs",
            GRBIntAttr::Numqnzs => "NumQNZs",
            GRBIntAttr::Numnzs => "NumNZs",
            GRBIntAttr::Numgenconstrs => "NumGenConstrs",
            GRBIntAttr::Numqconstrs => "NumQConstrs",
            GRBIntAttr::Numsos => "NumSOS",
            GRBIntAttr::Numvars => "NumVars",
            GRBIntAttr::Numconstrs => "NumConstrs",
        }
    }
}

/// The real-valued attributes.
#[derive(Clone, Copy, Debug, PartialEq, Eq, Structural)]
pub enum GRBDblAttr {
    /// Deprecated since v13 - use GRB_DBL_ATTR_POOLNX instead.
    XN,
    /// Maximum amount of allocated memory (in GB) in master environment.
    Maxmemused,
    /// Current amount of allocated memory (in GB) in master environment.
    Memused,
    /// Objective value for scenario i.
    Scennobjval,
    /// Objective bound for scenario i.
    Scennobjbound,
    /// Solution value in scenario i.
    Scennx,
    /// Right hand side in scenario i.
    Scennrhs,
    /// Objective in scenario i.
    Scennobj,
    /// Upper bound in scenario i.
    Scennub,
    /// Lower bound in scenario i.
    Scennlb,
    /// Work done for a pass during the multi-objective solve.
    Objpassnwork,
    /// Runtime for a pass during the multi-objective solve.
    Objpassnruntime,
    /// Number of unexplored nodes for a pass during the multi-objective solve.
    Objpassnopennodecount,
    /// Objective value for a pass during the multi-objective solve.
    Objpassnobjval,
    /// Objective bound for a pass during the multi-objective solve.
    Objpassnobjbound,
    /// Number of explored nodes for a pass during the multi-objective solve.
    Objpassnnodecount,
    /// MIP gap for a pass during the multi-objective solve.
    Objpassnmipgap,
    /// Simplex iteration count for a pass during the multi-objective solve.
    Objpassnitercount,
    /// Absolute tolerance.
    Objnabstol,
    /// Relative tolerance.
    Objnreltol,
    /// Weight.
    Objnweight,
    /// Constant term.
    Objncon,
    /// Solution objective for Multi-objectives, also depends on solutionnumber.
    Objnval,
    /// Ith objective.
    Objn,
    /// Dual norm square.
    Cdualnorm,
    /// QC Constraint slack.
    Qcslack,
    /// Constraint slack.
    Slack,
    /// Dual value for QC.
    Qcpi,
    /// Dual value.
    Pi,
    /// Dual norm square.
    Vdualnorm,
    /// Reduced costs.
    Rc,
    /// Best barrier dual iterate.
    Barpi,
    /// Best barrier primal iterate.
    Barx,
    /// Deprecated since v13 - use GRB_DBL_ATTR_POOLNX instead.
    Xn,
    /// Alternate MIP solution, depends on solutionnumber.
    Poolnx,
    /// Solution value.
    X,
    /// Unexplored nodes (B&C)
    Opennodecount,
    /// Nodes explored (B&C)
    Nodecount,
    /// Iters performed (PDHG)
    Pdhgitercount,
    /// Iters performed (simplex)
    Itercount,
    /// MIP optimality gap.
    Mipgap,
    /// Deprecated since v13 - use GRB_DBL_ATTR_POOLNOBJVAL instead.
    Poolobjval,
    /// Solution objective, depends on solutionnumber.
    Poolnobjval,
    /// Best bound on pool solution.
    Poolobjbound,
    /// Continuous bound.
    Objboundc,
    /// Best bound on solution.
    Objbound,
    /// Solution objective.
    Objval,
    /// Work for optimization.
    Work,
    /// Run time for optimization.
    Runtime,
    /// Min (abs) rhs of Q.
    MinQcrhs,
    /// Max (abs) rhs of Q.
    MaxQcrhs,
    /// Min (abs) nz coeff in linear part of Q.
    MinQclcoeff,
    /// Max (abs) nz coeff in linear part of Q.
    MaxQclcoeff,
    /// Min (abs) obj coeff of quadratic part.
    MinQobjCoeff,
    /// Max (abs) obj coeff of quadratic part.
    MaxQobjCoeff,
    /// Min (abs) nz coeff in Q.
    MinQccoeff,
    /// Max (abs) nz coeff in Q.
    MaxQccoeff,
    /// Min (abs) rhs coeff.
    MinRhs,
    /// Max (abs) rhs coeff.
    MaxRhs,
    /// Min (abs) obj coeff.
    MinObjCoeff,
    /// Max (abs) obj coeff.
    MaxObjCoeff,
    /// Min (abs) var bd.
    MinBound,
    /// Max (abs) finite var bd.
    MaxBound,
    /// Min (abs) nz coeff in A.
    MinCoeff,
    /// Max (abs) nz coeff in A.
    MaxCoeff,
    /// An option for the piecewise-linear approximation of a function.
    Funcpieceratio,
    /// An option for the piecewise-linear approximation of a function.
    Funcpiecelength,
    /// An option for the piecewise-linear approximation of a function.
    Funcpieceerror,
    /// QC RHS.
    Qcrhs,
    /// LP dual solution warm start.
    Dstart,
    /// RHS.
    Rhs,
    /// Variable hint value.
    Varhintval,
    /// LP primal solution warm start.
    Pstart,
    /// MIP start value, depends on startnumber.
    Start,
    /// Objective coeff.
    Obj,
    /// Upper bound.
    Ub,
    /// Lower bound.
    Lb,
    /// Objective constant.
    Objcon,
    /// # of nz in A.
    Dnumnzs,
}

impl GRBDblAttr {
    /// The name by which the engine knows the attribute.
    pub open spec fn spec_name(self) -> Seq<char> {
        match self {
            GRBDblAttr::XN => "Xn"@,
            GRBDblAttr::Maxmemused => "MaxMemUsed"@,
            GRBDblAttr::Memused => "MemUsed"@,
            GRBDblAttr::Scennobjval => "ScenNObjVal"@,
            GRBDblAttr::Scennobjbound => "ScenNObjBound"@,
            GRBDblAttr::Scennx => "ScenNX"@,
            GRBDblAttr::Scennrhs => "ScenNRHS"@,
            GRBDblAttr::Scennobj => "ScenNObj"@,
            GRBDblAttr::Scennub => "ScenNUB"@,
            GRBDblAttr::Scennlb => "ScenNLB"@,
            GRBDblAttr::Objpassnwork => "ObjPassNWork"@,
            GRBDblAttr::Objpassnruntime => "ObjPassNRuntime"@,
            GRBDblAttr::Objpassnopennodecount => "ObjPassNOpenNodeCount"@,
            GRBDblAttr::Objpassnobjval => "ObjPassNObjVal"@,
            GRBDblAttr::Objpassnobjbound => "ObjPassNObjBound"@,
            GRBDblAttr::Objpassnnodecount => "ObjPassNNodeCount"@,
            GRBDblAttr::Objpassnmipgap => "ObjPassNMIPGap"@,
            GRBDblAttr::Objpassnitercount => "ObjPassNIterCount"@,
            GRBDblAttr::Objnabstol => "ObjNAbsTol"@,
            GRBDblAttr::Objnreltol => "ObjNRelTol"@,
            GRBDblAttr::Objnweight => "ObjNWeight"@,
            GRBDblAttr::Objncon => "ObjNCon"@,
            GRBDblAttr::Objnval => "ObjNVal"@,
            GRBDblAttr::Objn => "ObjN"@,
            GRBDblAttr::Cdualnorm => "CDualNorm"@,
            GRBDblAttr::Qcslack => "QCSlack"@,
            GRBDblAttr::Slack => "Slack"@,
            GRBDblAttr::Qcpi => "QCPi"@,
            GRBDblAttr::Pi => "Pi"@,
            GRBDblAttr::Vdualnorm => "VDualNorm"@,
            GRBDblAttr::Rc => "RC"@,
            GRBDblAttr::Barpi => "BarPi"@,
            GRBDblAttr::Barx => "BarX"@,
            GRBDblAttr::Xn => "Xn"@,
            GRBDblAttr::Poolnx => "PoolNX"@,
            GRBDblAttr::X => "X"@,
            GRBDblAttr::Opennodecount => "OpenNodeCount"@,
            GRBDblAttr::Nodecount => "NodeCount"@,
            GRBDblAttr::Pdhgitercount => "PDHGIterCount"@,
            GRBDblAttr::Itercount => "IterCount"@,
            GRBDblAttr::Mipgap => "MIPGap"@,
            GRBDblAttr::Poolobjval => "PoolObjVal"@,
            GRBDblAttr::Poolnobjval => "PoolNObjVal"@,
            GRBDblAttr::Poolobjbound => "PoolObjBound"@,
            GRBDblAttr::Objboundc => "ObjBoundC"@,
            GRBDblAttr::Objbound => "ObjBound"@,
            GRBDblAttr::Objval => "ObjVal"@,
            GRBDblAttr::Work => "Work"@,
            GRBDblAttr::Runtime => "Runtime"@,
            GRBDblAttr::MinQcrhs => "MinQCRHS"@,
            GRBDblAttr::MaxQcrhs => "MaxQCRHS"@,
            GRBDblAttr::MinQclcoeff => "MinQCLCoeff"@,
            GRBDblAttr::MaxQclcoeff => "MaxQCLCoeff"@,
            GRBDblAttr::MinQobjCoeff => "MinQObjCoeff"@,
            GRBDblAttr::MaxQobjCoeff => "MaxQObjCoeff"@,
            GRBDblAttr::MinQccoeff => "MinQCCoeff"@,
            GRBDblAttr::MaxQccoeff => "MaxQCCoeff"@,
            GRBDblAttr::MinRhs => "MinRHS"@,
            GRBDblAttr::MaxRhs => "MaxRHS"@,
            GRBDblAttr::MinObjCoeff => "MinObjCoeff"@,
            GRBDblAttr::MaxObjCoeff => "MaxObjCoeff"@,
            GRBDblAttr::MinBound => "MinBound"@,
            GRBDblAttr::MaxBound => "MaxBound"@,
            GRBDblAttr::MinCoeff => "MinCoeff"@,
            GRBDblAttr::MaxCoeff => "MaxCoeff"@,
            GRBDblAttr::Funcpieceratio => "FuncPieceRatio"@,
            GRBDblAttr::Funcpiecelength => "FuncPieceLength"@,
            GRBDblAttr::Funcpieceerror => "FuncPieceError"@,
            GRBDblAttr::Qcrhs => "QCRHS"@,
            GRBDblAttr::Dstart => "DStart"@,
            GRBDblAttr::Rhs => "RHS"@,
            GRBDblAttr::Varhintval => "VarHintVal"@,
            GRBDblAttr::Pstart => "PStart"@,
            GRBDblAttr::Start => "Start"@,
            GRBDblAttr::Obj => "Obj"@,
            GRBDblAttr::Ub => "UB"@,
            GRBDblAttr::Lb => "LB"@,
            GRBDblAttr::Objcon => "ObjCon"@,
            GRBDblAttr::Dnumnzs => "DNumNZs"@,
        }
    }
}

impl Attribute for GRBDblAttr {
    open spec fn name_of(attribute: Self) -> Seq<char> {
        attribute.spec_name()
    }

    fn get(attribute: GRBDblAttr) -> (name: &'static str) {
        match attribute {
            GRBDblAttr::XN => "Xn",
            GRBDblAttr::Maxmemused => "MaxMemUsed",
            GRBDblAttr::Memused => "MemUsed",
            GRBDblAttr::Scennobjval => "ScenNObjVal",
            GRBDblAttr::Scennobjbound => "ScenNObjBound",
            GRBDblAttr::Scennx => "ScenNX",
            GRBDblAttr::Scennrhs => "ScenNRHS",
            GRBDblAttr::Scennobj => "ScenNObj",
            GRBDblAttr::Scennub => "ScenNUB",
            GRBDblAttr::Scennlb => "ScenNLB",
            GRBDblAttr::Objpassnwork => "ObjPassNWork",
            GRBDblAttr::Objpassnruntime => "ObjPassNRuntime",
            GRBDblAttr::Objpassnopennodecount => "ObjPassNOpenNodeCount",
            GRBDblAttr::Objpassnobjval => "ObjPassNObjVal",
            GRBDblAttr::Objpassnobjbound => "ObjPassNObjBound",
            GRBDblAttr::Objpassnnodecount => "ObjPassNNodeCount",
            GRBDblAttr::Objpassnmipgap => "ObjPassNMIPGap",
            GRBDblAttr::Objpassnitercount => "ObjPassNIterCount",
            GRBDblAttr::Objnabstol => "ObjNAbsTol",
            GRBDblAttr::Objnreltol => "ObjNRelTol",
            GRBDblAttr::Objnweight => "ObjNWeight",
            GRBDblAttr::Objncon => "ObjNCon",
            GRBDblAttr::Objnval => "ObjNVal",
            GRBDblAttr::Objn => "ObjN",
            GRBDblAttr::Cdualnorm => "CDualNorm",
            GRBDblAttr::Qcslack => "QCSlack",
            GRBDblAttr::Slack => "Slack",
            GRBDblAttr::Qcpi => "QCPi",
            GRBDblAttr::Pi => "Pi",
            GRBDblAttr::Vdualnorm => "VDualNorm",
            GRBDblAttr::Rc => "RC",
            GRBDblAttr::Barpi => "BarPi",
            GRBDblAttr::Barx => "BarX",
            GRBDblAttr::Xn => "Xn",
            GRBDblAttr::Poolnx => "PoolNX",
            GRBDblAttr::X => "X",
            GRBDblAttr::Opennodecount => "OpenNodeCount",
            GRBDblAttr::Nodecount => "NodeCount",
            GRBDblAttr::Pdhgitercount => "PDHGIterCount",
            GRBDblAttr::Itercount => "IterCount",
            GRBDblAttr::Mipgap => "MIPGap",
            GRBDblAttr::Poolobjval => "PoolObjVal",
            GRBDblAttr::Poolnobjval => "PoolNObjVal",
            GRBDblAttr::Poolobjbound => "PoolObjBound",
            GRBDblAttr::Objboundc => "ObjBoundC",
            GRBDblAttr::Objbound => "ObjBound",
            GRBDblAttr::Objval => "ObjVal",
            GRBDblAttr::Work => "Work",
            GRBDblAttr::Runtime => "Runtime",
            GRBDblAttr::MinQcrhs => "MinQCRHS",
            GRBDblAttr::MaxQcrhs => "MaxQCRHS",
            GRBDblAttr::MinQclcoeff => "MinQCLCoeff",
            GRBDblAttr::MaxQclcoeff => "MaxQCLCoeff",
            GRBDblAttr::MinQobjCoeff => "MinQObjCoeff",
            GRBDblAttr::MaxQobjCoeff => "MaxQObjCoeff",
            GRBDblAttr::MinQccoeff => "MinQCCoeff",
            GRBDblAttr::MaxQccoeff => "MaxQCCoeff",
            GRBDblAttr::MinRhs => "MinRHS",
            GRBDblAttr::MaxRhs => "MaxRHS",
            GRBDblAttr::MinObjCoeff => "MinObjCoeff",
            GRBDblAttr::MaxObjCoeff => "MaxObjCoeff",
            GRBDblAttr::MinBound => "MinBound",
            GRBDblAttr::MaxBound => "MaxBound",
            GRBDblAttr::MinCoeff => "MinCoeff",
            GRBDblAttr::MaxCoeff => "MaxCoeff",
            GRBDblAttr::Funcpieceratio => "FuncPieceRatio",
            GRBDblAttr::Funcpiecelength => "FuncPieceLength",
            GRBDblAttr::Funcpieceerror => "FuncPieceError",
            GRBDblAttr::Qcrhs => "QCRHS",
            GRBDblAttr::Dstart => "DStart",
            GRBDblAttr::Rhs => "RHS",
            GRBDblAttr::Varhintval => "VarHintVal",
            GRBDblAttr::Pstart => "PStart",
            GRBDblAttr::Start => "Start",
            GRBDblAttr::Obj => "Obj",
            GRBDblAttr::Ub => "UB",
            GRBDblAttr::Lb => "LB",
            GRBDblAttr::Objcon => "ObjCon",
            GRBDblAttr::Dnumnzs => "DNumNZs",
        }
    }
}

/// The text-valued attributes.
#[derive(Clone, Copy, Debug, PartialEq, Eq, Structural)]
pub enum GRBStrAttr {
    /// Name of scenario i.
    Scennname,
    /// Name.
    Objnname,
    /// Name of general constraint.
    Genconstrname,
    /// QC name.
    Qcname,
    /// Quadratic constraint tags.
    Qctag,
    /// Constraint name.
    Constrname,
    /// Linear constraint tags.
    Ctag,
    /// Variable tags.
    Vtag,
    /// Variable name.
    Varname,
    /// Model name.
    Modelname,
}

impl GRBStrAttr {
    /// The name by which the engine knows the attribute.
    pub open spec fn spec_name(self) -> Seq<char> {
        match self {
            GRBStrAttr::Scennname => "ScenNName"@,
            GRBStrAttr::Objnname => "ObjNName"@,
            GRBStrAttr::Genconstrname => "GenConstrName"@,
            GRBStrAttr::Qcname => "QCName"@,
            GRBStrAttr::Qctag => "QCTag"@,
            GRBStrAttr::Constrname => "ConstrName"@,
            GRBStrAttr::Ctag => "CTag"@,
            GRBStrAttr::Vtag => "VTag"@,
            GRBStrAttr::Varname => "VarName"@,
            GRBStrAttr::Modelname => "ModelName"@,
        }
    }
}

impl Attribute for GRBStrAttr {
    open spec fn name_of(attribute: Self) -> Seq<char> {
        attribute.spec_name()
    }

    fn get(attribute: GRBStrAttr) -> (name: &'static str) {
        match attribute {
            GRBStrAttr::Scennname => "ScenNName",
            GRBStrAttr::Objnname => "ObjNName",
            GRBStrAttr::Genconstrname => "GenConstrName",
            GRBStrAttr::Qcname => "QCName",
            GRBStrAttr::Qctag => "QCTag",
            GRBStrAttr::Constrname => "ConstrName",
            GRBStrAttr::Ctag => "CTag",
            GRBStrAttr::Vtag => "VTag",
            GRBStrAttr::Varname => "VarName",
            GRBStrAttr::Modelname => "ModelName",
        }
    }
}

/// The character-valued attributes.
#[derive(Clone, Copy, Debug, PartialEq, Eq, Structural)]
pub enum GRBCharAttr {
    /// QC sense ('<', '>', or '=')
    Qcsense,
    /// Sense ('<', '>', or '=')
    Sense,
    /// Integrality type.
    Vtype,
}

impl GRBCharAttr {
    /// The name by which the engine knows the attribute.
    pub open spec fn spec_name(self) -> Seq<char> {
        match self {
            GRBCharAttr::Qcsense => "QCSense"@,
            GRBCharAttr::Sense => "Sense"@,
            GRBCharAttr::Vtype => "VType"@,
        }
    }
}

impl Attribute for GRBCharAttr {
    open spec fn name_of(attribute: Self) -> Seq<char> {
        attribute.spec_name()
    }

    fn get(attribute: GRBCharAttr) -> (name: &'static str) {
        match attribute {
            GRBCharAttr::Qcsense => "QCSense",
            GRBCharAttr::Sense => "Sense",
            GRBCharAttr::Vtype => "VType",
        }
    }
}

/// The index of every target is one that the engine can take.
pub open spec fn targets_fit<O: IsModelingObject>(targets: Seq<O>) -> bool {
    forall|t: int| 0 <= t < targets.len() ==> (#[trigger] targets[t]).dense_index() <= i32::MAX
}

/// `inds` holds the index of each target, position by position.
pub open spec fn indices_of<O: IsModelingObject>(targets: Seq<O>, inds: Seq<i32>) -> bool {
    &&& inds.len() == targets.len()
    &&& forall|t: int|
        0 <= t < targets.len() ==> (#[trigger] inds[t]) as int == targets[t].dense_index() as int
}

/// The index under which the engine keeps the attributes of `target`.
/// `None` where the index is beyond what the engine can take.
pub fn element_index<O: IsModelingObject>(target: &O) -> (element: Option<i32>)
    ensures
        element.is_some() <==> target.dense_index() <= i32::MAX,
        element matches Some(e) ==> e as int == target.dense_index() as int,
{
    let index = target.index();
    if index > 2147483647 {
        None
    } else {
        Some(index as i32)
    }
}

/// The indices under which the engine keeps the given objects, in their
/// order. `None` where an index is beyond what the engine can take.
pub fn target_indices<O: IsModelingObject>(targets: &Vec<O>) -> (result: Option<Vec<i32>>)
    ensures
        result.is_some() <==> targets_fit(targets@),
        result matches Some(inds) ==> indices_of(targets@, inds@),
{
    let n = targets.len();
    let mut inds: Vec<i32> = Vec::new();
    let mut t: usize = 0;
    while t < n
        invariant
            n == targets@.len(),
            t <= n,
            inds@.len() == t,
            forall|s: int| 0 <= s < t ==> (#[trigger] targets@[s]).dense_index() <= i32::MAX,
            forall|s: int|
                0 <= s < t ==> (#[trigger] inds@[s]) as int == targets@[s].dense_index() as int,
        decreases n - t,
    {
        match element_index(&targets[t]) {
            None => {
                return None;
            },
            Some(e) => {
                inds.push(e);
            },
        }
        t += 1;
    }
    Some(inds)
}

/// The index list of a query or an update that addresses several objects at
/// once, one value per object. Lists of different lengths are a misuse, and
/// so is an index beyond what the engine can take; the lengths are looked
/// at first.
pub fn list_indices<O: IsModelingObject, V>(targets: &Vec<O>, values: &Vec<V>) -> (result: Result<
    Vec<i32>,
    PreconditionViolation,
>)
    ensures
        targets@.len() != values@.len() ==> result == Err::<Vec<i32>, PreconditionViolation>(
            PreconditionViolation::LengthMismatch,
        ),
        targets@.len() == values@.len() && !targets_fit(targets@) ==> result == Err::<
            Vec<i32>,
            PreconditionViolation,
        >(PreconditionViolation::IndexOutOfRange),
        targets@.len() == values@.len() && targets_fit(targets@) ==> result is Ok && indices_of(
            targets@,
            result.unwrap()@,
        ),
{
    if targets.len() != values.len() {
        return Err(PreconditionViolation::LengthMismatch);
    }
    match target_indices(targets) {
        Some(inds) => Ok(inds),
        None => Err(PreconditionViolation::IndexOutOfRange),
    }
}

/// The value that a query has produced, or the code with which the engine
/// rejected the query. A status outside the engine's error codes is a
/// success, whatever it is.
pub fn attr_result<T>(status: i32, value: T) -> (result: Result<T, i32>)
    ensures
        is_error_code(status) ==> result == Err::<T, i32>(status),
        !is_error_code(status) ==> result == Ok::<T, i32>(value),
{
    match check_err(status) {
        Err(code) => Err(code),
        Ok(_) => Ok(value),
    }
}

} // verus!
