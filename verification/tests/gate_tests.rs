use homaya::types::MeasurementResult;
use homaya::{Gate, GateParams, GateType, StandardGate, NUM_GATE_TYPES};

#[test]
fn test_gate_qubits() {
    assert_eq!(StandardGate::H.num_qubits(), 1);
    assert_eq!(StandardGate::CX.num_qubits(), 2);
    assert_eq!(StandardGate::CCX.num_qubits(), 3);
}

#[test]
fn test_standard_gate_controlled() {
    assert!(StandardGate::CX.is_controlled());
    assert!(StandardGate::CSwap.is_controlled());
    assert!(!StandardGate::H.is_controlled());
    assert!(!StandardGate::Swap.is_controlled());
}

#[test]
fn test_gate_arity() {
    assert_eq!(Gate::h().num_qubits(), 1);
    assert_eq!(Gate::measure().num_qubits(), 1);
    assert_eq!(Gate::cx().num_qubits(), 2);
    assert_eq!(Gate::swap().num_qubits(), 2);
    assert_eq!(Gate::ccx().num_qubits(), 3);
    assert_eq!(Gate::cswap().num_qubits(), 3);
    assert_eq!(Gate::barrier().num_qubits(), 0);
}

#[test]
fn test_gate_is_controlled() {
    assert!(Gate::cx().is_controlled());
    assert!(Gate::cp(0).is_controlled());
    assert!(Gate::ccx().is_controlled());
    assert!(!Gate::x().is_controlled());
    assert!(!Gate::swap().is_controlled());
}

#[test]
fn test_gate_is_unitary() {
    assert!(Gate::h().is_unitary());
    assert!(Gate::cx().is_unitary());
    assert!(!Gate::measure().is_unitary());
    assert!(!Gate::reset().is_unitary());
    assert!(!Gate::barrier().is_unitary());
}

#[test]
fn test_has_matrix_2x2() {
    assert!(Gate::h().has_matrix_2x2());
    assert!(Gate::rx(std::f64::consts::PI.to_bits()).has_matrix_2x2());
    assert!(Gate::u(1, 2, 3).has_matrix_2x2());
    assert!(!Gate::cx().has_matrix_2x2());
    assert!(!Gate::swap().has_matrix_2x2());
    assert!(!Gate::measure().has_matrix_2x2());
    // A rotation gate whose parameters do not match its declared shape
    // has no matrix.
    let malformed = Gate { gate_type: GateType::Rx, params: GateParams::Bare };
    assert!(!malformed.has_matrix_2x2());
}

#[test]
fn test_gate_type_index_distinct() {
    let all = [
        GateType::I,
        GateType::X,
        GateType::Y,
        GateType::Z,
        GateType::H,
        GateType::S,
        GateType::Sdg,
        GateType::T,
        GateType::Tdg,
        GateType::Rx,
        GateType::Ry,
        GateType::Rz,
        GateType::P,
        GateType::U,
        GateType::CX,
        GateType::CY,
        GateType::CZ,
        GateType::CH,
        GateType::CP,
        GateType::CU,
        GateType::Swap,
        GateType::ISwap,
        GateType::SqrtSwap,
        GateType::CCX,
        GateType::CSwap,
        GateType::Measure,
        GateType::Reset,
        GateType::Barrier,
    ];
    assert_eq!(all.len(), NUM_GATE_TYPES);
    let mut seen = vec![false; NUM_GATE_TYPES];
    for t in all {
        let i = t.index();
        assert!(i < NUM_GATE_TYPES);
        assert!(!seen[i]);
        seen[i] = true;
    }
}

#[test]
fn test_gate_constructors_carry_angles() {
    let theta = 1.25f64.to_bits();
    assert_eq!(Gate::rx(theta).params, GateParams::Angle(theta));
    assert_eq!(Gate::p(theta).params, GateParams::Angle(theta));
    let g = Gate::u(1, 2, 3);
    assert_eq!(g.gate_type, GateType::U);
    assert_eq!(g.params, GateParams::Angles3(1, 2, 3));
    assert_eq!(Gate::h().params, GateParams::Bare);
}

#[test]
fn test_measurement_counts_start_empty() {
    let result = MeasurementResult::new(100);
    assert_eq!(result.shots, 100);
    assert!(result.counts.is_empty());
}

#[test]
fn test_measurement_counts_hold_entries() {
    let mut result = MeasurementResult::new(100);
    result.counts.insert("00".to_string(), 60);
    result.counts.insert("11".to_string(), 40);
    assert_eq!(result.counts.get("00"), Some(&60));
    assert_eq!(result.counts.get("11"), Some(&40));
    assert_eq!(result.counts.get("01"), None);
}
