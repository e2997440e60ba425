//! The calculator command: operation dispatch and operand validation.
//!
//! A calculation request names an operation and carries two IEEE-754 binary64
//! operands, given here as bit patterns (see `fpbits`). Validation decides,
//! exactly as the front-end contract demands, which requests are answered and
//! which error each rejected request gets: NaN operands are rejected first,
//! then infinite ones, then the operation name is dispatched, and a division
//! by zero is rejected last. The arithmetic itself is floating point and is
//! performed by the unverified shell once a request has been accepted.
use vstd::prelude::*;
use vstd::string::*;
use crate::fpbits::{is_nan, is_infinite, is_finite, is_zero};
use crate::fpbits::{nan_bits, infinite_bits, zero_bits};
use crate::strutil::str_eq;

verus! {

/// The fixed set of calculator operations.
#[derive(Clone, Copy, PartialEq, Eq, Structural, Debug)]
pub enum Operation {
    Add,
    Subtract,
    Multiply,
    Divide,
}

/// Why a calculation request was rejected.
#[derive(Debug)]
pub enum CalcError {
    /// An operand is NaN.
    InvalidNumber,
    /// An operand is infinite.
    OutOfRange,
    /// The divisor of a division is zero.
    DivisionByZero,
    /// The request names no operation of the fixed set; the name is kept so
    /// that the error message can echo it.
    UnknownOperation(String),
}

/// The operation a request name denotes, if any.
pub open spec fn spec_operation(name: Seq<char>) -> Option<Operation> {
    if name == "add"@ {
        Some(Operation::Add)
    } else if name == "subtract"@ {
        Some(Operation::Subtract)
    } else if name == "multiply"@ {
        Some(Operation::Multiply)
    } else if name == "divide"@ {
        Some(Operation::Divide)
    } else {
        None
    }
}

/// Both operands are ordinary numbers: neither NaN nor infinite.
pub open spec fn valid_operands(a_bits: u64, b_bits: u64) -> bool {
    is_finite(a_bits) && is_finite(b_bits)
}

/// Resolve a request name to an operation of the fixed set.
pub fn parse_operation(name: &str) -> (r: Option<Operation>)
    ensures
        r == spec_operation(name@),
{
    if str_eq(name, "add") {
        Some(Operation::Add)
    } else if str_eq(name, "subtract") {
        Some(Operation::Subtract)
    } else if str_eq(name, "multiply") {
        Some(Operation::Multiply)
    } else if str_eq(name, "divide") {
        Some(Operation::Divide)
    } else {
        None
    }
}

/// Decide a calculation request: the operation to perform, or the error that
/// rejects it. Operand validation precedes operation dispatch, and the NaN
/// check precedes the infinity check; the zero-divisor check comes last and
/// only for a division.
pub fn check_calculation(operation: &str, a_bits: u64, b_bits: u64) -> (r: Result<
    Operation,
    CalcError,
>)
    ensures
        (r == Err::<Operation, CalcError>(CalcError::InvalidNumber)) <==> (is_nan(a_bits)
            || is_nan(b_bits)),
        (r == Err::<Operation, CalcError>(CalcError::OutOfRange)) <==> (!is_nan(a_bits)
            && !is_nan(b_bits) && (is_infinite(a_bits) || is_infinite(b_bits))),
        (r == Err::<Operation, CalcError>(CalcError::DivisionByZero)) <==> (valid_operands(
            a_bits,
            b_bits,
        ) && spec_operation(operation@) == Some(Operation::Divide) && is_zero(b_bits)),
        (r is Err && r->Err_0 is UnknownOperation) <==> (valid_operands(a_bits, b_bits)
            && spec_operation(operation@) is None),
        r matches Err(CalcError::UnknownOperation(name)) ==> name@ == operation@,
        r is Ok <==> (valid_operands(a_bits, b_bits) && spec_operation(operation@) is Some && !(
        spec_operation(operation@) == Some(Operation::Divide) && is_zero(b_bits))),
        r matches Ok(op) ==> Some(op) == spec_operation(operation@),
{
    if nan_bits(a_bits) || nan_bits(b_bits) {
        return Err(CalcError::InvalidNumber);
    }
    if infinite_bits(a_bits) || infinite_bits(b_bits) {
        return Err(CalcError::OutOfRange);
    }
    match parse_operation(operation) {
        Some(Operation::Divide) => {
            if zero_bits(b_bits) {
                Err(CalcError::DivisionByZero)
            } else {
                Ok(Operation::Divide)
            }
        },
        Some(op) => Ok(op),
        None => Err(CalcError::UnknownOperation(operation.to_owned())),
    }
}

/// Decide a safe-division request: accepted, or rejected for a zero divisor.
/// Unlike a full calculation request, it validates nothing else.
pub fn check_divisor(b_bits: u64) -> (r: Result<(), CalcError>)
    ensures
        r == (if is_zero(b_bits) {
            Err::<(), CalcError>(CalcError::DivisionByZero)
        } else {
            Ok::<(), CalcError>(())
        }),
{
    if zero_bits(b_bits) {
        Err(CalcError::DivisionByZero)
    } else {
        Ok(())
    }
}

impl CalcError {
    /// The message of this error, over the views of its parts.
    pub open spec fn spec_message(&self) -> Seq<char> {
        match self {
            CalcError::InvalidNumber => "输入的数字无效"@,
            CalcError::OutOfRange => "输入的数字超出范围"@,
            CalcError::DivisionByZero => "除数不能为零！"@,
            CalcError::UnknownOperation(name) => "不支持的运算类型: "@ + name@,
        }
    }

    /// The message shown to the front end; an unrecognized operation name is
    /// echoed in it.
    pub fn message(&self) -> (r: String)
        ensures
            r@ == self.spec_message(),
    {
        match self {
            CalcError::InvalidNumber => "输入的数字无效".to_owned(),
            CalcError::OutOfRange => "输入的数字超出范围".to_owned(),
            CalcError::DivisionByZero => "除数不能为零！".to_owned(),
            CalcError::UnknownOperation(name) => String::from_str("不支持的运算类型: ").concat(
                name.as_str(),
            ),
        }
    }
}

} // verus!
