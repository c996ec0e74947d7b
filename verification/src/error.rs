//! Status codes of the engine and the typed error built from them.

use vstd::prelude::*;

verus! {

pub const GRB_ERROR_OUT_OF_MEMORY: i32 = 10001;
pub const GRB_ERROR_NULL_ARGUMENT: i32 = 10002;
pub const GRB_ERROR_INVALID_ARGUMENT: i32 = 10003;
pub const GRB_ERROR_UNKNOWN_ATTRIBUTE: i32 = 10004;
pub const GRB_ERROR_DATA_NOT_AVAILABLE: i32 = 10005;
pub const GRB_ERROR_INDEX_OUT_OF_RANGE: i32 = 10006;
pub const GRB_ERROR_UNKNOWN_PARAMETER: i32 = 10007;
pub const GRB_ERROR_VALUE_OUT_OF_RANGE: i32 = 10008;
pub const GRB_ERROR_NO_LICENSE: i32 = 10009;
pub const GRB_ERROR_SIZE_LIMIT_EXCEEDED: i32 = 10010;
pub const GRB_ERROR_CALLBACK: i32 = 10011;
pub const GRB_ERROR_FILE_READ: i32 = 10012;
pub const GRB_ERROR_FILE_WRITE: i32 = 10013;
pub const GRB_ERROR_NUMERIC: i32 = 10014;
pub const GRB_ERROR_IIS_NOT_INFEASIBLE: i32 = 10015;
pub const GRB_ERROR_NOT_FOR_MIP: i32 = 10016;
pub const GRB_ERROR_OPTIMIZATION_IN_PROGRESS: i32 = 10017;
pub const GRB_ERROR_DUPLICATES: i32 = 10018;
pub const GRB_ERROR_NODEFILE: i32 = 10019;
pub const GRB_ERROR_Q_NOT_PSD: i32 = 10020;
pub const GRB_ERROR_QCP_EQUALITY_CONSTRAINT: i32 = 10021;
pub const GRB_ERROR_NETWORK: i32 = 10022;
pub const GRB_ERROR_JOB_REJECTED: i32 = 10023;
pub const GRB_ERROR_NOT_SUPPORTED: i32 = 10024;
pub const GRB_ERROR_EXCEED_2B_NONZEROS: i32 = 10025;
pub const GRB_ERROR_INVALID_PIECEWISE_OBJ: i32 = 10026;
pub const GRB_ERROR_UPDATEMODE_CHANGE: i32 = 10027;
pub const GRB_ERROR_CLOUD: i32 = 10028;
pub const GRB_ERROR_MODEL_MODIFICATION: i32 = 10029;
pub const GRB_ERROR_CSWORKER: i32 = 10030;
pub const GRB_ERROR_TUNE_MODEL_TYPES: i32 = 10031;
pub const GRB_ERROR_SECURITY: i32 = 10032;
pub const GRB_ERROR_GPU: i32 = 10033;
pub const GRB_ERROR_OVERFLOW: i32 = 10034;

/// The engine's defined error codes. Any other status, zero or not, is a
/// success: the engine reports warnings and informational states with codes
/// that only look like errors.
pub open spec fn is_error_code(code: i32) -> bool {
    GRB_ERROR_OUT_OF_MEMORY <= code <= GRB_ERROR_OVERFLOW
}

/// Sorts a status into failure (`Err`) and success (`Ok`), keeping the code.
pub fn check_err(error_code: i32) -> (result: Result<i32, i32>)
    ensures
        is_error_code(error_code) ==> result == Err::<i32, i32>(error_code),
        !is_error_code(error_code) ==> result == Ok::<i32, i32>(error_code),
{
    match error_code {
        GRB_ERROR_OVERFLOW
        | GRB_ERROR_GPU
        | GRB_ERROR_SECURITY
        | GRB_ERROR_TUNE_MODEL_TYPES
        | GRB_ERROR_CSWORKER
        | GRB_ERROR_MODEL_MODIFICATION
        | GRB_ERROR_CLOUD
        | GRB_ERROR_UPDATEMODE_CHANGE
        | GRB_ERROR_INVALID_PIECEWISE_OBJ
        | GRB_ERROR_EXCEED_2B_NONZEROS
        | GRB_ERROR_NOT_SUPPORTED
        | GRB_ERROR_JOB_REJECTED
        | GRB_ERROR_NETWORK
        | GRB_ERROR_QCP_EQUALITY_CONSTRAINT
        | GRB_ERROR_Q_NOT_PSD
        | GRB_ERROR_NODEFILE
        | GRB_ERROR_DUPLICATES
        | GRB_ERROR_OPTIMIZATION_IN_PROGRESS
        | GRB_ERROR_NOT_FOR_MIP
        | GRB_ERROR_IIS_NOT_INFEASIBLE
        | GRB_ERROR_NUMERIC
        | GRB_ERROR_FILE_WRITE
        | GRB_ERROR_FILE_READ
        | GRB_ERROR_CALLBACK
        | GRB_ERROR_SIZE_LIMIT_EXCEEDED
        | GRB_ERROR_NO_LICENSE
        | GRB_ERROR_VALUE_OUT_OF_RANGE
        | GRB_ERROR_UNKNOWN_PARAMETER
        | GRB_ERROR_INDEX_OUT_OF_RANGE
        | GRB_ERROR_DATA_NOT_AVAILABLE
        | GRB_ERROR_UNKNOWN_ATTRIBUTE
        | GRB_ERROR_INVALID_ARGUMENT
        | GRB_ERROR_NULL_ARGUMENT
        | GRB_ERROR_OUT_OF_MEMORY => Err(error_code),
        _ => Ok(error_code),
    }
}

/// The character of one decimal digit.
pub open spec fn digit(d: int) -> char {
    if d == 0 {
        '0'
    } else if d == 1 {
        '1'
    } else if d == 2 {
        '2'
    } else if d == 3 {
        '3'
    } else if d == 4 {
        '4'
    } else if d == 5 {
        '5'
    } else if d == 6 {
        '6'
    } else if d == 7 {
        '7'
    } else if d == 8 {
        '8'
    } else {
        '9'
    }
}

/// The decimal digits of a natural number, without leading zeros.
pub open spec fn digits(n: nat) -> Seq<char>
    decreases n,
{
    if n < 10 {
        seq![digit(n as int)]
    } else {
        digits(n / 10).push(digit((n % 10) as int))
    }
}

/// A number in decimal, with a minus sign where it is negative.
pub open spec fn decimal(n: int) -> Seq<char> {
    if n < 0 {
        seq!['-'] + digits((-n) as nat)
    } else {
        digits(n as nat)
    }
}

/// The text of a failure: the code, then the message of the engine.
pub open spec fn error_text(code: i32, message: Seq<char>) -> Seq<char> {
    "ERROR CODE "@ + decimal(code as int) + ": "@ + message
}

/// Writes the text of a failure with std's `format!`. Verus takes it on
/// trust that `format!` writes an `i32` as `decimal` says, a text as it is,
/// and what stands between the two placeholders as it is.
#[verifier::external_body]
fn format_error(code: i32, message: &str) -> (text: String)
    ensures
        text@ == error_text(code, message@),
{
    format!("ERROR CODE {}: {}", code, message)
}

/// A failure that the engine has reported: its code and the message that
/// the engine gave for it.
#[derive(Debug)]
pub struct GRBError {
    pub code: i32,
    pub message: String,
}

impl GRBError {
    /// The failure as one line of text.
    pub fn text(&self) -> (text: String)
        ensures
            text@ == error_text(self.code, self.message@),
    {
        format_error(self.code, self.message.as_str())
    }
}

/// The typed outcome of an engine call: the failure with `message`, which
/// the caller has fetched from the engine, where the status is an error
/// code, and success where it is any other number.
pub fn get_error(error_code: i32, message: String) -> (result: Result<(), GRBError>)
    ensures
        result is Err <==> is_error_code(error_code),
        result matches Err(e) ==> e.code == error_code && e.message@ == message@,
{
    match check_err(error_code) {
        Err(code) => Err(GRBError { code, message }),
        Ok(_) => Ok(()),
    }
}

/// A misuse of the library by its caller, as opposed to a failure that the
/// engine reports.
#[derive(Clone, Copy, Debug, PartialEq, Eq, Structural)]
pub enum PreconditionViolation {
    /// The query is not allowed in the phase from which the engine called.
    WrongPhase,
    /// The phase code is none that the engine defines.
    UnknownPhase,
    /// The relaxation of the node was not solved to optimality.
    NodeNotOptimal,
    /// A variable index is beyond the values at hand.
    IndexOutOfRange,
    /// The engine reported a negative number of variables.
    NegativeCount,
    /// Lists that belong together position by position differ in length.
    LengthMismatch,
    /// The value that triggers an indicator constraint is neither 0 nor 1.
    InvalidTriggerValue,
}

} // verus!
