use homaya::{Circuit, Gate, GateType, Instruction, QuasarError};

#[test]
fn test_bell_state_circuit() {
    let circuit = Circuit::new(2).h(0).cx(0, 1);

    assert_eq!(circuit.num_qubits(), 2);
    assert_eq!(circuit.len(), 2);
    assert_eq!(circuit.depth(), 2);
}

#[test]
fn test_ghz_state_circuit() {
    let circuit = Circuit::new(3).h(0).cx(0, 1).cx(1, 2);

    assert_eq!(circuit.num_qubits(), 3);
    assert_eq!(circuit.len(), 3);
    assert_eq!(circuit.depth(), 3);
}

#[test]
fn test_parallel_depth() {
    let circuit = Circuit::new(4).h(0).h(1).h(2).h(3);

    assert_eq!(circuit.len(), 4);
}

#[test]
fn test_measure_all() {
    let circuit = Circuit::new(3).h(0).measure_all();

    assert_eq!(circuit.num_clbits(), 3);
    assert_eq!(circuit.len(), 4); // 1 H + 3 measures
}

#[test]
fn test_gate_count() {
    let circuit = Circuit::new(2).h(0).h(1).cx(0, 1).h(0);

    let counts = circuit.count_gates();
    assert_eq!(counts[GateType::H.index()], 3);
    assert_eq!(counts[GateType::CX.index()], 1);
    assert_eq!(circuit.count_of(GateType::H), 3);
    assert_eq!(circuit.count_of(GateType::CX), 1);
    assert_eq!(circuit.count_of(GateType::Z), 0);
}

#[test]
fn test_parallel_depth_is_one() {
    // Four H gates on distinct qubits form one layer.
    let circuit = Circuit::new(4).h(0).h(1).h(2).h(3);
    assert_eq!(circuit.depth(), 1);
}

#[test]
fn test_depth_skips_barriers() {
    let circuit = Circuit::new(2).h(0).barrier_all().h(0).h(1);
    assert_eq!(circuit.depth(), 2);
    assert_eq!(circuit.len(), 4);
}

#[test]
fn test_empty_circuit() {
    let circuit = Circuit::new(2);
    assert!(circuit.is_empty());
    assert_eq!(circuit.depth(), 0);
    assert_eq!(circuit.num_clbits(), 0);
}

#[test]
fn test_instruction_contents() {
    let circuit = Circuit::new(3).ccx(0, 1, 2).measure(2, 0);
    let insts = circuit.instructions();
    assert_eq!(insts.len(), 2);
    assert_eq!(insts[0].gate.gate_type, GateType::CCX);
    assert_eq!(insts[0].qubits, vec![0, 1, 2]);
    assert!(insts[0].clbits.is_empty());
    assert_eq!(insts[1].gate.gate_type, GateType::Measure);
    assert_eq!(insts[1].qubits, vec![2]);
    assert_eq!(insts[1].clbits, vec![0]);
}

#[test]
fn test_compose_appends() {
    let a = Circuit::new(2).h(0);
    let b = Circuit::new(2).cx(0, 1);
    let c = a.compose(&b).unwrap();
    assert_eq!(c.len(), 2);
    assert_eq!(c.instructions()[0].gate.gate_type, GateType::H);
    assert_eq!(c.instructions()[1].gate.gate_type, GateType::CX);
}

#[test]
fn test_compose_rejects_wider_circuit() {
    let a = Circuit::new(1).h(0);
    let b = Circuit::new(3).cx(0, 1);
    match a.compose(&b) {
        Err(QuasarError::QubitMismatch { expected, got }) => {
            assert_eq!(expected, 1);
            assert_eq!(got, 3);
        }
        _ => panic!("expected a qubit-count mismatch"),
    }
}

#[test]
fn test_repeat() {
    let c = Circuit::new(1).x(0).h(0);
    let r = c.repeat(3);
    assert_eq!(r.len(), 6);
    assert_eq!(r.instructions()[2].gate.gate_type, GateType::X);
    assert_eq!(r.instructions()[3].gate.gate_type, GateType::H);

    let once = Circuit::new(1).x(0).repeat(0);
    assert_eq!(once.len(), 1);
    let same = Circuit::new(1).x(0).repeat(1);
    assert_eq!(same.len(), 1);
}

#[test]
fn test_inverse_reverses_order() {
    let c = Circuit::new(2).h(0).cx(0, 1).x(1);
    let inv = c.inverse();
    assert_eq!(inv.len(), 3);
    assert_eq!(inv.instructions()[0].gate.gate_type, GateType::X);
    assert_eq!(inv.instructions()[1].gate.gate_type, GateType::CX);
    assert_eq!(inv.instructions()[2].gate.gate_type, GateType::H);
    assert_eq!(inv.num_qubits(), 2);
}

#[test]
fn test_barrier_spans_given_qubits() {
    let c = Circuit::new(3).barrier(&[0, 2]);
    assert_eq!(c.instructions()[0].gate.gate_type, GateType::Barrier);
    assert_eq!(c.instructions()[0].qubits, vec![0, 2]);
}

#[test]
fn test_named_circuit() {
    let c = Circuit::new(1).named("bell".to_string());
    assert_eq!(c.name().map(|s| s.as_str()), Some("bell"));
    assert!(Circuit::new(1).name().is_none());
}

#[test]
fn test_append_raw_instruction() {
    let c = Circuit::new(2).append(Instruction::new(Gate::cz(), vec![0, 1]));
    assert_eq!(c.len(), 1);
    assert_eq!(c.instructions()[0].gate.gate_type, GateType::CZ);
}

#[test]
fn test_clone_keeps_contents() {
    let c = Circuit::with_clbits(2, 2).h(0).measure(0, 0);
    let d = c.clone();
    assert_eq!(d.num_qubits(), 2);
    assert_eq!(d.num_clbits(), 2);
    assert_eq!(d.len(), 2);
    assert_eq!(d.instructions()[1].clbits, vec![0]);
}
