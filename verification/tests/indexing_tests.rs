use homaya::{
    check_register_size, controlled_bases, dimension_of, pair_bases, quad_bases,
    qubits_for_dimension, QuasarError, MAX_QUBITS,
};

#[test]
fn test_dimension_of() {
    assert_eq!(dimension_of(0), 1);
    assert_eq!(dimension_of(1), 2);
    assert_eq!(dimension_of(5), 32);
    assert_eq!(dimension_of(20), 1 << 20);
}

#[test]
fn test_register_size_cap() {
    assert!(check_register_size(0).is_ok());
    assert!(check_register_size(MAX_QUBITS).is_ok());
    match check_register_size(MAX_QUBITS + 1) {
        Err(QuasarError::CircuitTooLarge { qubits, max }) => {
            assert_eq!(qubits, 31);
            assert_eq!(max, 30);
        }
        _ => panic!("expected a circuit-too-large error"),
    }
}

#[test]
fn test_qubits_for_dimension_accepts_powers_of_two() {
    assert_eq!(qubits_for_dimension(1).unwrap(), 0);
    assert_eq!(qubits_for_dimension(2).unwrap(), 1);
    assert_eq!(qubits_for_dimension(8).unwrap(), 3);
    assert_eq!(qubits_for_dimension(1024).unwrap(), 10);
}

#[test]
fn test_qubits_for_dimension_rejects_other_lengths() {
    for len in [0usize, 3, 5, 6, 7, 12, 100] {
        match qubits_for_dimension(len) {
            Err(QuasarError::StateDimensionMismatch { expected, got }) => {
                assert_eq!(expected, 0);
                assert_eq!(got, len);
            }
            _ => panic!("expected a dimension error for {}", len),
        }
    }
}

#[test]
fn test_pair_bases() {
    assert_eq!(pair_bases(2, 0), vec![0, 2]);
    assert_eq!(pair_bases(2, 1), vec![0, 1]);
    assert_eq!(pair_bases(3, 1), vec![0, 1, 4, 5]);
    // Half of all indices have the target bit clear.
    assert_eq!(pair_bases(5, 3).len(), 16);
}

#[test]
fn test_controlled_bases() {
    // Control bit 0 set, target bit 1 clear.
    assert_eq!(controlled_bases(2, 0, 1), vec![1]);
    assert_eq!(controlled_bases(2, 1, 0), vec![2]);
    assert_eq!(controlled_bases(3, 0, 2), vec![1, 3]);
}

#[test]
fn test_quad_bases() {
    assert_eq!(quad_bases(2, 0, 1), vec![0]);
    assert_eq!(quad_bases(3, 0, 1), vec![0, 4]);
    assert_eq!(quad_bases(3, 0, 2), vec![0, 2]);
}
