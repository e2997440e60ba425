use tray_shell::calc::{check_calculation, check_divisor, CalcError, Operation};

fn check(op: &str, a: f64, b: f64) -> Result<Operation, CalcError> {
    check_calculation(op, a.to_bits(), b.to_bits())
}

#[test]
fn finite_operands_dispatch_to_their_operation() {
    assert!(matches!(check("add", 1.5, 2.25), Ok(Operation::Add)));
    assert!(matches!(check("subtract", -7.0, 3.5), Ok(Operation::Subtract)));
    assert!(matches!(check("multiply", 0.0, 123.0), Ok(Operation::Multiply)));
    assert!(matches!(check("divide", 10.0, 4.0), Ok(Operation::Divide)));
}

#[test]
fn divide_by_zero_is_rejected() {
    match check("divide", 1.0, 0.0) {
        Err(CalcError::DivisionByZero) => {}
        other => panic!("expected a division-by-zero error, got {:?}", other),
    }
    match check("divide", -5.5, -0.0) {
        Err(CalcError::DivisionByZero) => {}
        other => panic!("expected a division-by-zero error, got {:?}", other),
    }
    assert!(matches!(check("divide", 1.0, 0.5), Ok(Operation::Divide)));
}

#[test]
fn nan_operands_are_invalid_for_every_operation() {
    for op in ["add", "subtract", "multiply", "divide", "mod"] {
        match check(op, f64::NAN, 2.0) {
            Err(CalcError::InvalidNumber) => {}
            other => panic!("expected an invalid-number error for {op}, got {:?}", other),
        }
        match check(op, 2.0, f64::NAN) {
            Err(CalcError::InvalidNumber) => {}
            other => panic!("expected an invalid-number error for {op}, got {:?}", other),
        }
    }
}

#[test]
fn infinite_operands_are_out_of_range_for_every_operation() {
    for op in ["add", "subtract", "multiply", "divide", "mod"] {
        match check(op, f64::INFINITY, 2.0) {
            Err(CalcError::OutOfRange) => {}
            other => panic!("expected an out-of-range error for {op}, got {:?}", other),
        }
        match check(op, 2.0, f64::NEG_INFINITY) {
            Err(CalcError::OutOfRange) => {}
            other => panic!("expected an out-of-range error for {op}, got {:?}", other),
        }
    }
}

#[test]
fn infinity_check_precedes_divide_by_zero_check() {
    match check("divide", f64::INFINITY, 0.0) {
        Err(CalcError::OutOfRange) => {}
        other => panic!("expected an out-of-range error, got {:?}", other),
    }
}

#[test]
fn nan_check_precedes_infinity_check() {
    match check("add", f64::NAN, f64::INFINITY) {
        Err(CalcError::InvalidNumber) => {}
        other => panic!("expected an invalid-number error, got {:?}", other),
    }
}

#[test]
fn unknown_operation_echoes_its_name() {
    match check("mod", 1.0, 2.0) {
        Err(e @ CalcError::UnknownOperation(_)) => {
            assert_eq!(e.message(), "不支持的运算类型: mod");
        }
        other => panic!("expected an unknown-operation error, got {:?}", other),
    }
    match check("", 1.0, 2.0) {
        Err(CalcError::UnknownOperation(name)) => assert_eq!(name, ""),
        other => panic!("expected an unknown-operation error, got {:?}", other),
    }
}

#[test]
fn error_messages_match_the_front_end_contract() {
    assert_eq!(CalcError::InvalidNumber.message(), "输入的数字无效");
    assert_eq!(CalcError::OutOfRange.message(), "输入的数字超出范围");
    assert_eq!(CalcError::DivisionByZero.message(), "除数不能为零！");
}

#[test]
fn safe_divide_rejects_only_a_zero_divisor() {
    match check_divisor(0.0f64.to_bits()) {
        Err(CalcError::DivisionByZero) => {}
        other => panic!("expected a division-by-zero error, got {:?}", other),
    }
    match check_divisor((-0.0f64).to_bits()) {
        Err(CalcError::DivisionByZero) => {}
        other => panic!("expected a division-by-zero error, got {:?}", other),
    }
    assert!(check_divisor(3.5f64.to_bits()).is_ok());
    assert!(check_divisor(f64::NAN.to_bits()).is_ok());
    assert!(check_divisor(f64::INFINITY.to_bits()).is_ok());
}
