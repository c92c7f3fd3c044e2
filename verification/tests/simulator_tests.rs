use homaya::simulator::MeasurementResult;
use homaya::{
    plan_instruction, Gate, GateParams, GateType, Instruction, KernelOp, MatrixKind, QuasarError,
    Simulator,
};

#[test]
fn test_rng_sequence_from_seed() {
    let mut sim = Simulator::with_seed(42);
    assert_eq!(sim.next_state(), 45454805674);
    assert_eq!(sim.next_state(), 11532217803599905471);
    assert_eq!(sim.next_state(), 10021416941527320954);
}

#[test]
fn test_rng_default_seed() {
    let mut sim = Simulator::new();
    assert_eq!(sim.next_state(), 65948600090440590);
}

#[test]
fn test_reseed_rewinds_seeded_simulator() {
    let mut sim = Simulator::with_seed(42);
    let first = sim.next_state();
    sim.next_state();
    sim.next_state();
    sim.reseed();
    assert_eq!(sim.next_state(), first);
}

#[test]
fn test_reseed_keeps_unseeded_state() {
    let mut a = Simulator::new();
    let mut b = Simulator::new();
    b.next_state();
    b.reseed();
    a.next_state();
    // Without an explicit seed, reseeding does not rewind.
    assert_eq!(a.next_state(), b.next_state());
}

#[test]
fn test_same_seed_same_draws() {
    let mut a = Simulator::with_seed(7);
    let mut b = Simulator::with_seed(7);
    for _ in 0..10 {
        assert_eq!(a.next_state(), b.next_state());
    }
}

#[test]
fn test_measurement_record_new() {
    let m = MeasurementResult::new(4);
    assert_eq!(m.bits, vec![0, 0, 0, 0]);
    assert_eq!(m.bitstring(), "0000");
    assert_eq!(m.as_int(), 0);
}

#[test]
fn test_bitstring_renders_in_index_order() {
    let mut m = MeasurementResult::new(3);
    m.bits[1] = 1;
    assert_eq!(m.bitstring(), "010");
}

#[test]
fn test_as_int_is_little_endian() {
    let mut m = MeasurementResult::new(3);
    m.bits[0] = 1;
    m.bits[2] = 1;
    assert_eq!(m.as_int(), 0b101);
    assert_eq!(m.bitstring(), "101");
}

#[test]
fn test_plan_single_gate() {
    let inst = Instruction::new(Gate::h(), vec![1]);
    let ops = plan_instruction(&inst, 2, 0).unwrap();
    assert_eq!(ops, vec![KernelOp::Single { qubit: 1, kind: MatrixKind::H }]);
}

#[test]
fn test_plan_rotation_carries_angle() {
    let theta = std::f64::consts::PI.to_bits();
    let inst = Instruction::new(Gate::rx(theta), vec![0]);
    let ops = plan_instruction(&inst, 1, 0).unwrap();
    assert_eq!(ops, vec![KernelOp::Single { qubit: 0, kind: MatrixKind::Rx(theta) }]);
}

#[test]
fn test_plan_controlled_gates() {
    let inst = Instruction::new(Gate::cx(), vec![0, 1]);
    let ops = plan_instruction(&inst, 2, 0).unwrap();
    assert_eq!(
        ops,
        vec![KernelOp::Controlled { control: 0, target: 1, kind: MatrixKind::X }]
    );

    let theta = 0.5f64.to_bits();
    let inst = Instruction::new(Gate::cp(theta), vec![1, 0]);
    let ops = plan_instruction(&inst, 2, 0).unwrap();
    assert_eq!(
        ops,
        vec![KernelOp::Controlled { control: 1, target: 0, kind: MatrixKind::P(theta) }]
    );
}

#[test]
fn test_plan_swap() {
    let inst = Instruction::new(Gate::swap(), vec![0, 1]);
    let ops = plan_instruction(&inst, 2, 0).unwrap();
    assert_eq!(ops, vec![KernelOp::SwapPair { q0: 0, q1: 1 }]);
}

#[test]
fn test_plan_measure_with_and_without_clbit() {
    let inst = Instruction::with_clbits(Gate::measure(), vec![1], vec![0]);
    let ops = plan_instruction(&inst, 2, 1).unwrap();
    assert_eq!(ops, vec![KernelOp::Measure { qubit: 1, clbit: Some(0) }]);

    let inst = Instruction::new(Gate::measure(), vec![1]);
    let ops = plan_instruction(&inst, 2, 0).unwrap();
    assert_eq!(ops, vec![KernelOp::Measure { qubit: 1, clbit: None }]);
}

#[test]
fn test_plan_reset_and_barrier() {
    let inst = Instruction::new(Gate::reset(), vec![0]);
    let ops = plan_instruction(&inst, 1, 0).unwrap();
    assert_eq!(ops, vec![KernelOp::Reset { qubit: 0 }]);

    let inst = Instruction::new(Gate::barrier(), vec![0]);
    let ops = plan_instruction(&inst, 1, 0).unwrap();
    assert!(ops.is_empty());
}

#[test]
fn test_plan_ccx_expansion() {
    let inst = Instruction::new(Gate::ccx(), vec![0, 1, 2]);
    let ops = plan_instruction(&inst, 3, 0).unwrap();
    let x = MatrixKind::X;
    let expected = vec![
        KernelOp::Single { qubit: 2, kind: MatrixKind::H },
        KernelOp::Controlled { control: 1, target: 2, kind: x },
        KernelOp::Single { qubit: 2, kind: MatrixKind::Tdg },
        KernelOp::Controlled { control: 0, target: 2, kind: x },
        KernelOp::Single { qubit: 2, kind: MatrixKind::T },
        KernelOp::Controlled { control: 1, target: 2, kind: x },
        KernelOp::Single { qubit: 2, kind: MatrixKind::Tdg },
        KernelOp::Controlled { control: 0, target: 2, kind: x },
        KernelOp::Single { qubit: 1, kind: MatrixKind::T },
        KernelOp::Single { qubit: 2, kind: MatrixKind::T },
        KernelOp::Single { qubit: 2, kind: MatrixKind::H },
        KernelOp::Controlled { control: 0, target: 1, kind: x },
        KernelOp::Single { qubit: 1, kind: MatrixKind::Tdg },
        KernelOp::Controlled { control: 0, target: 1, kind: x },
        KernelOp::Single { qubit: 0, kind: MatrixKind::T },
        KernelOp::Single { qubit: 1, kind: MatrixKind::S },
    ];
    assert_eq!(ops, expected);
}

#[test]
fn test_plan_cswap_expansion() {
    let inst = Instruction::new(Gate::cswap(), vec![0, 1, 2]);
    let ops = plan_instruction(&inst, 3, 0).unwrap();
    assert_eq!(ops.len(), 18);
    let cnot = KernelOp::Controlled { control: 2, target: 1, kind: MatrixKind::X };
    assert_eq!(ops[0], cnot);
    assert_eq!(ops[17], cnot);
    // The middle is the Toffoli expansion over (0, 1, 2).
    let ccx = plan_instruction(&Instruction::new(Gate::ccx(), vec![0, 1, 2]), 3, 0).unwrap();
    assert_eq!(&ops[1..17], &ccx[..]);
}

#[test]
fn test_plan_rejects_out_of_range_qubit() {
    let inst = Instruction::new(Gate::h(), vec![2]);
    match plan_instruction(&inst, 2, 0) {
        Err(QuasarError::QubitOutOfRange { qubit, max }) => {
            assert_eq!(qubit, 2);
            assert_eq!(max, 2);
        }
        _ => panic!("expected a qubit out-of-range error"),
    }
}

#[test]
fn test_plan_rejects_out_of_range_clbit() {
    let inst = Instruction::with_clbits(Gate::measure(), vec![0], vec![3]);
    match plan_instruction(&inst, 2, 2) {
        Err(QuasarError::ClbitOutOfRange { clbit, max }) => {
            assert_eq!(clbit, 3);
            assert_eq!(max, 2);
        }
        _ => panic!("expected a clbit out-of-range error"),
    }
}

#[test]
fn test_plan_rejects_unimplemented_gates() {
    for t in [GateType::ISwap, GateType::SqrtSwap, GateType::CU] {
        let gate = Gate { gate_type: t, params: GateParams::Bare };
        let inst = Instruction::new(gate, vec![0, 1]);
        assert!(matches!(
            plan_instruction(&inst, 2, 0),
            Err(QuasarError::NotSupported { .. })
        ));
    }
}

#[test]
fn test_plan_rejects_malformed_params() {
    // A rotation gate without its angle has no matrix to apply.
    let gate = Gate { gate_type: GateType::Rx, params: GateParams::Bare };
    let inst = Instruction::new(gate, vec![0]);
    assert!(matches!(
        plan_instruction(&inst, 1, 0),
        Err(QuasarError::NotSupported { .. })
    ));

    // A controlled-phase gate without its angle is rejected too.
    let gate = Gate { gate_type: GateType::CP, params: GateParams::Bare };
    let inst = Instruction::new(gate, vec![0, 1]);
    assert!(matches!(
        plan_instruction(&inst, 2, 0),
        Err(QuasarError::InvalidGateParams { .. })
    ));
}

#[test]
fn test_plan_rejects_missing_operands() {
    let inst = Instruction::new(Gate::cx(), vec![0]);
    assert!(matches!(
        plan_instruction(&inst, 2, 0),
        Err(QuasarError::InvalidGateParams { .. })
    ));
}
