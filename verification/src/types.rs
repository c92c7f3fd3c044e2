//! Foundational types shared across the toolkit: index aliases, the
//! reduced catalog of standard gates, aggregated measurement counts, and
//! the general error type.

use std::collections::HashMap;
use vstd::prelude::*;
use vstd::string::StringExecFns;

verus! {

/// Index of a quantum bit in a circuit or register.
pub type Qubit = usize;

/// Index of a classical bit for measurement results.
pub type ClassicalBit = usize;

/// Number of qubits in a system.
pub type QubitCount = usize;

/// Number of shots/samples for measurement.
pub type ShotCount = usize;

/// Standard quantum gate types.
///
/// A reduced catalog of the common parameter-free gates; each has a fixed
/// unitary matrix and acts on a fixed number of qubits.
#[derive(Clone, Copy, Debug, PartialEq, Eq, Structural, Hash)]
pub enum StandardGate {
    /// Identity gate (no operation)
    I,
    /// Pauli-X gate (bit flip)
    X,
    /// Pauli-Y gate
    Y,
    /// Pauli-Z gate (phase flip)
    Z,
    /// Hadamard gate (creates superposition)
    H,
    /// S gate (square root of Z)
    S,
    /// S-dagger gate
    Sdg,
    /// T gate (eighth turn about Z)
    T,
    /// T-dagger gate
    Tdg,
    /// Controlled-X (CNOT)
    CX,
    /// Controlled-Y
    CY,
    /// Controlled-Z
    CZ,
    /// Controlled-H
    CH,
    /// SWAP gate
    Swap,
    /// Toffoli (CCX)
    CCX,
    /// Fredkin (CSWAP)
    CSwap,
}

impl StandardGate {
    /// How many qubits this gate acts on.
    pub open spec fn arity(self) -> usize {
        match self {
            StandardGate::I
            | StandardGate::X
            | StandardGate::Y
            | StandardGate::Z
            | StandardGate::H
            | StandardGate::S
            | StandardGate::Sdg
            | StandardGate::T
            | StandardGate::Tdg => 1usize,
            StandardGate::CX
            | StandardGate::CY
            | StandardGate::CZ
            | StandardGate::CH
            | StandardGate::Swap => 2usize,
            StandardGate::CCX | StandardGate::CSwap => 3usize,
        }
    }

    /// Returns the number of qubits this gate operates on.
    pub fn num_qubits(&self) -> (n: usize)
        ensures
            n == self.arity(),
    {
        match self {
            StandardGate::I
            | StandardGate::X
            | StandardGate::Y
            | StandardGate::Z
            | StandardGate::H
            | StandardGate::S
            | StandardGate::Sdg
            | StandardGate::T
            | StandardGate::Tdg => 1,
            StandardGate::CX
            | StandardGate::CY
            | StandardGate::CZ
            | StandardGate::CH
            | StandardGate::Swap => 2,
            StandardGate::CCX | StandardGate::CSwap => 3,
        }
    }

    /// Whether this gate conditions its action on one or more control qubits.
    pub open spec fn spec_is_controlled(self) -> bool {
        match self {
            StandardGate::CX
            | StandardGate::CY
            | StandardGate::CZ
            | StandardGate::CH
            | StandardGate::CCX
            | StandardGate::CSwap => true,
            _ => false,
        }
    }

    /// Returns true if this is a controlled gate.
    pub fn is_controlled(&self) -> (c: bool)
        ensures
            c == self.spec_is_controlled(),
    {
        match self {
            StandardGate::CX
            | StandardGate::CY
            | StandardGate::CZ
            | StandardGate::CH
            | StandardGate::CCX
            | StandardGate::CSwap => true,
            _ => false,
        }
    }
}

/// Aggregated result of measuring a quantum circuit over many shots.
pub struct MeasurementResult {
    /// Occurrence count per outcome bitstring (e.g. "00", "11")
    pub counts: HashMap<String, usize>,
    /// Total number of shots
    pub shots: ShotCount,
}

impl MeasurementResult {
    /// Create an empty measurement result for the given number of shots.
    pub fn new(shots: ShotCount) -> (r: Self)
        ensures
            r.shots == shots,
            r.counts@ == Map::<String, usize>::empty(),
    {
        MeasurementResult { counts: HashMap::new(), shots }
    }
}

/// General error type for toolkit operations.
#[derive(Clone, Debug)]
pub enum HomayaError {
    /// Qubit index out of range
    QubitOutOfRange {
        /// The invalid qubit index
        qubit: Qubit,
        /// Maximum allowed index
        max: Qubit,
    },
    /// Invalid gate parameters
    InvalidParameter {
        /// Parameter name
        name: &'static str,
        /// Error message
        message: String,
    },
    /// Operation not supported
    NotSupported {
        /// Description of unsupported operation
        operation: &'static str,
    },
    /// Backend execution error
    BackendError {
        /// Error message from backend
        message: String,
    },
}

/// The rendered text of each error, as character sequences.
pub open spec fn homaya_message_spec(e: HomayaError) -> Seq<char> {
    match e {
        HomayaError::QubitOutOfRange { qubit, max } => "Qubit "@ + crate::text::dec_digits(
            qubit as nat,
        ) + " out of range (max: "@ + crate::text::dec_digits(max as nat) + ")"@,
        HomayaError::InvalidParameter { name, message } => "Invalid parameter '"@ + name@ + "': "@
            + message@,
        HomayaError::NotSupported { operation } => "Operation not supported: "@ + operation@,
        HomayaError::BackendError { message } => "Backend error: "@ + message@,
    }
}

impl HomayaError {
    /// Render the error as text, exactly as [`homaya_message_spec`]
    /// states it.
    pub fn message(&self) -> (s: String)
        ensures
            s@ == homaya_message_spec(*self),
    {
        let mut s = String::new();
        match self {
            HomayaError::QubitOutOfRange { qubit, max } => {
                proof {
                    reveal_strlit("Qubit ");
                    reveal_strlit(" out of range (max: ");
                    reveal_strlit(")");
                }
                s.append("Qubit ");
                crate::text::append_decimal(&mut s, *qubit as u64);
                s.append(" out of range (max: ");
                crate::text::append_decimal(&mut s, *max as u64);
                s.append(")");
            },
            HomayaError::InvalidParameter { name, message } => {
                proof {
                    reveal_strlit("Invalid parameter '");
                    reveal_strlit("': ");
                }
                s.append("Invalid parameter '");
                s.append(name);
                s.append("': ");
                s.append(message.as_str());
            },
            HomayaError::NotSupported { operation } => {
                proof {
                    reveal_strlit("Operation not supported: ");
                }
                s.append("Operation not supported: ");
                s.append(operation);
            },
            HomayaError::BackendError { message } => {
                proof {
                    reveal_strlit("Backend error: ");
                }
                s.append("Backend error: ");
                s.append(message.as_str());
            },
        }
        proof {
            assert(s@ =~= homaya_message_spec(*self));
        }
        s
    }
}

/// Trait for types that can be optimized.
///
/// Implemented by circuits and other structures that can be transformed to
/// reduce resource usage.
pub trait Optimizable: Sized {
    /// Apply optimization and return the optimized version.
    fn optimize(&self) -> Self;

    /// Returns the current "cost" (e.g. gate count).
    fn cost(&self) -> usize;
}

} // verus!
