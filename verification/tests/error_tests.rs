use homaya::{
    check_register_size, plan_instruction, qubits_for_dimension, Circuit, Gate, HomayaError,
    Instruction, QuasarError,
};

#[test]
fn test_out_of_range_message() {
    let inst = Instruction::new(Gate::h(), vec![5]);
    let err = plan_instruction(&inst, 2, 0).unwrap_err();
    assert_eq!(err.message(), "qubit index 5 out of range (max 1)");
}

#[test]
fn test_clbit_out_of_range_message() {
    let inst = Instruction::with_clbits(Gate::measure(), vec![0], vec![12]);
    let err = plan_instruction(&inst, 2, 10).unwrap_err();
    assert_eq!(err.message(), "classical bit index 12 out of range (max 9)");
}

#[test]
fn test_mismatch_message() {
    let a = Circuit::new(1);
    let b = Circuit::new(3);
    let err = a.compose(&b).unwrap_err();
    assert_eq!(err.message(), "qubit count mismatch: expected 1, got 3");
}

#[test]
fn test_dimension_message() {
    let err = qubits_for_dimension(12).unwrap_err();
    assert_eq!(err.message(), "state dimension mismatch: expected 0, got 12");
}

#[test]
fn test_too_large_message() {
    let err = check_register_size(31).unwrap_err();
    assert_eq!(err.message(), "circuit with 31 qubits exceeds maximum of 30");
}

#[test]
fn test_not_supported_message() {
    let err = QuasarError::NotSupported { operation: "gate type not implemented" };
    assert_eq!(err.message(), "operation not supported: gate type not implemented");
}

#[test]
fn test_simulation_and_backend_messages() {
    let err = QuasarError::SimulationError { message: "ran out of qubits".to_string() };
    assert_eq!(err.message(), "simulation error: ran out of qubits");

    let err = QuasarError::BackendError {
        backend: "statevector",
        message: "unreachable".to_string(),
    };
    assert_eq!(err.message(), "statevector backend error: unreachable");

    let err = QuasarError::DuplicateQubit { qubit: 4 };
    assert_eq!(err.message(), "duplicate qubit 4 in instruction");

    let err = QuasarError::InvalidGateParams { gate: "instruction", message: "too few qubit operands" };
    assert_eq!(err.message(), "invalid parameters for instruction: too few qubit operands");
}

#[test]
fn test_homaya_error_messages() {
    let err = HomayaError::QubitOutOfRange { qubit: 7, max: 3 };
    assert_eq!(err.message(), "Qubit 7 out of range (max: 3)");

    let err = HomayaError::InvalidParameter { name: "theta", message: "not finite".to_string() };
    assert_eq!(err.message(), "Invalid parameter 'theta': not finite");

    let err = HomayaError::NotSupported { operation: "tensor contraction" };
    assert_eq!(err.message(), "Operation not supported: tensor contraction");

    let err = HomayaError::BackendError { message: "device lost".to_string() };
    assert_eq!(err.message(), "Backend error: device lost");
}

#[test]
fn test_decimal_rendering_multidigit() {
    let err = QuasarError::StateDimensionMismatch { expected: 0, got: 1000000 };
    assert_eq!(err.message(), "state dimension mismatch: expected 0, got 1000000");

    let err = QuasarError::DuplicateQubit { qubit: 907 };
    assert_eq!(err.message(), "duplicate qubit 907 in instruction");
}
