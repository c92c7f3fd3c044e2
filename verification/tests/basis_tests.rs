use homaya::{basis_run, Circuit};

#[test]
fn test_cx_truth_table_on_circuits() {
    // CX flips the target exactly when the control bit is 1, over all
    // four basis inputs of a two-qubit register.
    for input in 0..4usize {
        let mut c = Circuit::new(2);
        if input & 1 != 0 {
            c = c.x(0);
        }
        if input & 2 != 0 {
            c = c.x(1);
        }
        let c = c.cx(0, 1);
        let out = basis_run(&c).unwrap();
        let expected = if input & 1 != 0 { input ^ 2 } else { input };
        assert_eq!(out, expected, "input {:02b}", input);
    }
}

#[test]
fn test_ccx_truth_table_on_circuits() {
    // CCX flips the target exactly when both controls are 1, over all
    // eight basis inputs of a three-qubit register.
    for input in 0..8usize {
        let mut c = Circuit::new(3);
        if input & 1 != 0 {
            c = c.x(0);
        }
        if input & 2 != 0 {
            c = c.x(1);
        }
        if input & 4 != 0 {
            c = c.x(2);
        }
        let c = c.ccx(0, 1, 2);
        let out = basis_run(&c).unwrap();
        let expected = if input & 1 != 0 && input & 2 != 0 { input ^ 4 } else { input };
        assert_eq!(out, expected, "input {:03b}", input);
    }
}

#[test]
fn test_toffoli_input_110() {
    // Input |110> (qubits 0 and 1 set) becomes |111>.
    let c = Circuit::new(3).x(0).x(1).ccx(0, 1, 2);
    assert_eq!(basis_run(&c).unwrap(), 0b111);
}

#[test]
fn test_swap_moves_excitation() {
    let c = Circuit::new(2).x(0).swap(0, 1);
    assert_eq!(basis_run(&c).unwrap(), 0b10);
}

#[test]
fn test_x_involution_on_circuit() {
    let c = Circuit::new(1).x(0).x(0);
    assert_eq!(basis_run(&c).unwrap(), 0);
}

#[test]
fn test_cswap_truth_table_on_circuits() {
    for input in 0..8usize {
        let mut c = Circuit::new(3);
        if input & 1 != 0 {
            c = c.x(0);
        }
        if input & 2 != 0 {
            c = c.x(1);
        }
        if input & 4 != 0 {
            c = c.x(2);
        }
        let c = c.cswap(0, 1, 2);
        let out = basis_run(&c).unwrap();
        let expected = if input & 1 != 0 {
            let b1 = (input >> 1) & 1;
            let b2 = (input >> 2) & 1;
            (input & 1) | (b2 << 1) | (b1 << 2)
        } else {
            input
        };
        assert_eq!(out, expected, "input {:03b}", input);
    }
}

#[test]
fn test_barrier_is_a_no_op() {
    let c = Circuit::new(2).x(0).barrier_all().i(1);
    assert_eq!(basis_run(&c).unwrap(), 1);
}

#[test]
fn test_basis_run_stops_at_superposition() {
    let c = Circuit::new(1).h(0);
    assert_eq!(basis_run(&c), None);
}
