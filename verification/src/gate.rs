//! Quantum gate definitions: a catalog of gates and their static metadata.
//!
//! Rotation angles are carried as the raw bit pattern of a 64-bit IEEE
//! float (see [`AngleBits`]). The catalog never computes with an angle; it
//! only stores and forwards it, so the bit pattern is the natural exact
//! representation. The numeric layer that builds matrices turns the bits
//! back into a float.

use vstd::prelude::*;

verus! {

/// The bit pattern of a 64-bit IEEE floating-point angle in radians.
pub type AngleBits = u64;

/// The type of a quantum gate.
#[derive(Clone, Copy, Debug, PartialEq, Eq, Structural, Hash)]
pub enum GateType {
    /// Identity gate
    I,
    /// Pauli-X (NOT) gate
    X,
    /// Pauli-Y gate
    Y,
    /// Pauli-Z gate
    Z,
    /// Hadamard gate
    H,
    /// S gate (square root of Z)
    S,
    /// S-dagger gate
    Sdg,
    /// T gate (square root of S)
    T,
    /// T-dagger gate
    Tdg,
    /// Rotation around X-axis
    Rx,
    /// Rotation around Y-axis
    Ry,
    /// Rotation around Z-axis
    Rz,
    /// Phase gate
    P,
    /// U gate (general single-qubit)
    U,
    /// Controlled-X (CNOT)
    CX,
    /// Controlled-Y
    CY,
    /// Controlled-Z
    CZ,
    /// Controlled-H
    CH,
    /// Controlled-Phase
    CP,
    /// Controlled-U
    CU,
    /// SWAP gate
    Swap,
    /// iSWAP gate
    ISwap,
    /// Square-root-of-SWAP gate
    SqrtSwap,
    /// Toffoli (CCX)
    CCX,
    /// Controlled-SWAP (Fredkin)
    CSwap,
    /// Measure qubit
    Measure,
    /// Reset qubit to the zero state
    Reset,
    /// Barrier (no-op for timing)
    Barrier,
}

/// How many distinct gate types the catalog holds.
pub const NUM_GATE_TYPES: usize = 28;

impl GateType {
    /// Position of this gate type in the catalog, in declaration order.
    pub open spec fn index_spec(self) -> int {
        match self {
            GateType::I => 0,
            GateType::X => 1,
            GateType::Y => 2,
            GateType::Z => 3,
            GateType::H => 4,
            GateType::S => 5,
            GateType::Sdg => 6,
            GateType::T => 7,
            GateType::Tdg => 8,
            GateType::Rx => 9,
            GateType::Ry => 10,
            GateType::Rz => 11,
            GateType::P => 12,
            GateType::U => 13,
            GateType::CX => 14,
            GateType::CY => 15,
            GateType::CZ => 16,
            GateType::CH => 17,
            GateType::CP => 18,
            GateType::CU => 19,
            GateType::Swap => 20,
            GateType::ISwap => 21,
            GateType::SqrtSwap => 22,
            GateType::CCX => 23,
            GateType::CSwap => 24,
            GateType::Measure => 25,
            GateType::Reset => 26,
            GateType::Barrier => 27,
        }
    }

    /// Position of this gate type in the catalog, in declaration order.
    ///
    /// Distinct gate types have distinct positions, all below
    /// [`NUM_GATE_TYPES`]; gate-count tables are indexed by it.
    pub fn index(&self) -> (i: usize)
        ensures
            i == self.index_spec(),
            i < NUM_GATE_TYPES,
    {
        match self {
            GateType::I => 0,
            GateType::X => 1,
            GateType::Y => 2,
            GateType::Z => 3,
            GateType::H => 4,
            GateType::S => 5,
            GateType::Sdg => 6,
            GateType::T => 7,
            GateType::Tdg => 8,
            GateType::Rx => 9,
            GateType::Ry => 10,
            GateType::Rz => 11,
            GateType::P => 12,
            GateType::U => 13,
            GateType::CX => 14,
            GateType::CY => 15,
            GateType::CZ => 16,
            GateType::CH => 17,
            GateType::CP => 18,
            GateType::CU => 19,
            GateType::Swap => 20,
            GateType::ISwap => 21,
            GateType::SqrtSwap => 22,
            GateType::CCX => 23,
            GateType::CSwap => 24,
            GateType::Measure => 25,
            GateType::Reset => 26,
            GateType::Barrier => 27,
        }
    }
}

/// Gate parameters.
#[derive(Clone, Copy, Debug, PartialEq, Eq, Structural)]
pub enum GateParams {
    /// No parameters
    Bare,
    /// Single angle (Rx, Ry, Rz, P), as a float bit pattern
    Angle(AngleBits),
    /// Three angles (U gate: theta, phi, lambda), as float bit patterns
    Angles3(AngleBits, AngleBits, AngleBits),
}

/// A quantum gate with its parameters.
#[derive(Clone, Copy, Debug, PartialEq, Eq, Structural)]
pub struct Gate {
    /// The type of gate
    pub gate_type: GateType,
    /// Parameters (angles for rotation gates)
    pub params: GateParams,
}

impl Gate {
    /// A parameter-free gate of the given type.
    pub open spec fn bare(t: GateType) -> Gate {
        Gate { gate_type: t, params: GateParams::Bare }
    }

    /// Identity gate.
    pub fn i() -> (g: Gate)
        ensures
            g == Gate::bare(GateType::I),
    {
        Gate { gate_type: GateType::I, params: GateParams::Bare }
    }

    /// Pauli-X (NOT) gate.
    pub fn x() -> (g: Gate)
        ensures
            g == Gate::bare(GateType::X),
    {
        Gate { gate_type: GateType::X, params: GateParams::Bare }
    }

    /// Pauli-Y gate.
    pub fn y() -> (g: Gate)
        ensures
            g == Gate::bare(GateType::Y),
    {
        Gate { gate_type: GateType::Y, params: GateParams::Bare }
    }

    /// Pauli-Z gate.
    pub fn z() -> (g: Gate)
        ensures
            g == Gate::bare(GateType::Z),
    {
        Gate { gate_type: GateType::Z, params: GateParams::Bare }
    }

    /// Hadamard gate - creates superposition.
    pub fn h() -> (g: Gate)
        ensures
            g == Gate::bare(GateType::H),
    {
        Gate { gate_type: GateType::H, params: GateParams::Bare }
    }

    /// S gate (square root of Z).
    pub fn s() -> (g: Gate)
        ensures
            g == Gate::bare(GateType::S),
    {
        Gate { gate_type: GateType::S, params: GateParams::Bare }
    }

    /// S-dagger gate.
    pub fn sdg() -> (g: Gate)
        ensures
            g == Gate::bare(GateType::Sdg),
    {
        Gate { gate_type: GateType::Sdg, params: GateParams::Bare }
    }

    /// T gate (square root of S).
    pub fn t() -> (g: Gate)
        ensures
            g == Gate::bare(GateType::T),
    {
        Gate { gate_type: GateType::T, params: GateParams::Bare }
    }

    /// T-dagger gate.
    pub fn tdg() -> (g: Gate)
        ensures
            g == Gate::bare(GateType::Tdg),
    {
        Gate { gate_type: GateType::Tdg, params: GateParams::Bare }
    }

    /// Rotation around X-axis by the angle whose bit pattern is `theta`.
    pub fn rx(theta: AngleBits) -> (g: Gate)
        ensures
            g == (Gate { gate_type: GateType::Rx, params: GateParams::Angle(theta) }),
    {
        Gate { gate_type: GateType::Rx, params: GateParams::Angle(theta) }
    }

    /// Rotation around Y-axis by the angle whose bit pattern is `theta`.
    pub fn ry(theta: AngleBits) -> (g: Gate)
        ensures
            g == (Gate { gate_type: GateType::Ry, params: GateParams::Angle(theta) }),
    {
        Gate { gate_type: GateType::Ry, params: GateParams::Angle(theta) }
    }

    /// Rotation around Z-axis by the angle whose bit pattern is `theta`.
    pub fn rz(theta: AngleBits) -> (g: Gate)
        ensures
            g == (Gate { gate_type: GateType::Rz, params: GateParams::Angle(theta) }),
    {
        Gate { gate_type: GateType::Rz, params: GateParams::Angle(theta) }
    }

    /// Phase gate with the angle whose bit pattern is `theta`.
    pub fn p(theta: AngleBits) -> (g: Gate)
        ensures
            g == (Gate { gate_type: GateType::P, params: GateParams::Angle(theta) }),
    {
        Gate { gate_type: GateType::P, params: GateParams::Angle(theta) }
    }

    /// General single-qubit unitary with three angles (bit patterns).
    pub fn u(theta: AngleBits, phi: AngleBits, lambda: AngleBits) -> (g: Gate)
        ensures
            g == (Gate { gate_type: GateType::U, params: GateParams::Angles3(theta, phi, lambda) }),
    {
        Gate { gate_type: GateType::U, params: GateParams::Angles3(theta, phi, lambda) }
    }

    /// Controlled-X (CNOT) gate.
    pub fn cx() -> (g: Gate)
        ensures
            g == Gate::bare(GateType::CX),
    {
        Gate { gate_type: GateType::CX, params: GateParams::Bare }
    }

    /// Controlled-Y gate.
    pub fn cy() -> (g: Gate)
        ensures
            g == Gate::bare(GateType::CY),
    {
        Gate { gate_type: GateType::CY, params: GateParams::Bare }
    }

    /// Controlled-Z gate.
    pub fn cz() -> (g: Gate)
        ensures
            g == Gate::bare(GateType::CZ),
    {
        Gate { gate_type: GateType::CZ, params: GateParams::Bare }
    }

    /// Controlled-H gate.
    pub fn ch() -> (g: Gate)
        ensures
            g == Gate::bare(GateType::CH),
    {
        Gate { gate_type: GateType::CH, params: GateParams::Bare }
    }

    /// Controlled-Phase gate with the angle whose bit pattern is `theta`.
    pub fn cp(theta: AngleBits) -> (g: Gate)
        ensures
            g == (Gate { gate_type: GateType::CP, params: GateParams::Angle(theta) }),
    {
        Gate { gate_type: GateType::CP, params: GateParams::Angle(theta) }
    }

    /// SWAP gate.
    pub fn swap() -> (g: Gate)
        ensures
            g == Gate::bare(GateType::Swap),
    {
        Gate { gate_type: GateType::Swap, params: GateParams::Bare }
    }

    /// Toffoli (CCX) gate.
    pub fn ccx() -> (g: Gate)
        ensures
            g == Gate::bare(GateType::CCX),
    {
        Gate { gate_type: GateType::CCX, params: GateParams::Bare }
    }

    /// Controlled-SWAP (Fredkin) gate.
    pub fn cswap() -> (g: Gate)
        ensures
            g == Gate::bare(GateType::CSwap),
    {
        Gate { gate_type: GateType::CSwap, params: GateParams::Bare }
    }

    /// Measure qubit.
    pub fn measure() -> (g: Gate)
        ensures
            g == Gate::bare(GateType::Measure),
    {
        Gate { gate_type: GateType::Measure, params: GateParams::Bare }
    }

    /// Reset qubit to the zero state.
    pub fn reset() -> (g: Gate)
        ensures
            g == Gate::bare(GateType::Reset),
    {
        Gate { gate_type: GateType::Reset, params: GateParams::Bare }
    }

    /// Barrier (synchronization point).
    pub fn barrier() -> (g: Gate)
        ensures
            g == Gate::bare(GateType::Barrier),
    {
        Gate { gate_type: GateType::Barrier, params: GateParams::Bare }
    }

    /// How many qubits a gate of this type acts on (0 for a barrier, which
    /// may span any set of qubits).
    pub open spec fn arity(self) -> usize {
        match self.gate_type {
            GateType::I
            | GateType::X
            | GateType::Y
            | GateType::Z
            | GateType::H
            | GateType::S
            | GateType::Sdg
            | GateType::T
            | GateType::Tdg
            | GateType::Rx
            | GateType::Ry
            | GateType::Rz
            | GateType::P
            | GateType::U
            | GateType::Measure
            | GateType::Reset => 1usize,
            GateType::CX
            | GateType::CY
            | GateType::CZ
            | GateType::CH
            | GateType::CP
            | GateType::CU
            | GateType::Swap
            | GateType::ISwap
            | GateType::SqrtSwap => 2usize,
            GateType::CCX | GateType::CSwap => 3usize,
            GateType::Barrier => 0usize,
        }
    }

    /// Returns the number of qubits this gate operates on.
    ///
    /// Barrier returns 0, meaning it may span an arbitrary set of qubits.
    pub fn num_qubits(&self) -> (n: usize)
        ensures
            n == self.arity(),
    {
        match self.gate_type {
            GateType::I
            | GateType::X
            | GateType::Y
            | GateType::Z
            | GateType::H
            | GateType::S
            | GateType::Sdg
            | GateType::T
            | GateType::Tdg
            | GateType::Rx
            | GateType::Ry
            | GateType::Rz
            | GateType::P
            | GateType::U
            | GateType::Measure
            | GateType::Reset => 1,
            GateType::CX
            | GateType::CY
            | GateType::CZ
            | GateType::CH
            | GateType::CP
            | GateType::CU
            | GateType::Swap
            | GateType::ISwap
            | GateType::SqrtSwap => 2,
            GateType::CCX | GateType::CSwap => 3,
            GateType::Barrier => 0,
        }
    }

    /// Whether this gate conditions its action on one or more control qubits.
    pub open spec fn spec_is_controlled(self) -> bool {
        match self.gate_type {
            GateType::CX
            | GateType::CY
            | GateType::CZ
            | GateType::CH
            | GateType::CP
            | GateType::CU
            | GateType::CCX
            | GateType::CSwap => true,
            _ => false,
        }
    }

    /// Returns true if this gate is a controlled gate.
    pub fn is_controlled(&self) -> (c: bool)
        ensures
            c == self.spec_is_controlled(),
    {
        match self.gate_type {
            GateType::CX
            | GateType::CY
            | GateType::CZ
            | GateType::CH
            | GateType::CP
            | GateType::CU
            | GateType::CCX
            | GateType::CSwap => true,
            _ => false,
        }
    }

    /// Whether this gate is a unitary (norm-preserving) operation; false
    /// only for the non-linear control operations Measure, Reset, Barrier.
    pub open spec fn spec_is_unitary(self) -> bool {
        match self.gate_type {
            GateType::Measure | GateType::Reset | GateType::Barrier => false,
            _ => true,
        }
    }

    /// Returns true if this gate modifies the quantum state unitarily.
    pub fn is_unitary(&self) -> (u: bool)
        ensures
            u == self.spec_is_unitary(),
    {
        match self.gate_type {
            GateType::Measure | GateType::Reset | GateType::Barrier => false,
            _ => true,
        }
    }

    /// Whether this gate has a direct 2x2 matrix: exactly the single-qubit
    /// unitary gates whose parameters match their declared shape.
    pub open spec fn spec_has_matrix_2x2(self) -> bool {
        match self.gate_type {
            GateType::I
            | GateType::X
            | GateType::Y
            | GateType::Z
            | GateType::H
            | GateType::S
            | GateType::Sdg
            | GateType::T
            | GateType::Tdg => true,
            GateType::Rx | GateType::Ry | GateType::Rz | GateType::P => self.params is Angle,
            GateType::U => self.params is Angles3,
            _ => false,
        }
    }

    /// Whether the catalog assigns this gate a direct 2x2 matrix.
    ///
    /// True exactly for the single-qubit unitary gates carrying parameters
    /// of their declared shape; multi-qubit and non-unitary gates have no
    /// 2x2 matrix.
    pub fn has_matrix_2x2(&self) -> (b: bool)
        ensures
            b == self.spec_has_matrix_2x2(),
    {
        match self.gate_type {
            GateType::I
            | GateType::X
            | GateType::Y
            | GateType::Z
            | GateType::H
            | GateType::S
            | GateType::Sdg
            | GateType::T
            | GateType::Tdg => true,
            GateType::Rx | GateType::Ry | GateType::Rz | GateType::P => matches!(
                self.params,
                GateParams::Angle(_)
            ),
            GateType::U => matches!(self.params, GateParams::Angles3(_, _, _)),
            _ => false,
        }
    }
}

} // verus!
